//! Holds the switch that lets the party roam the whole map.

use vstd::prelude::*;

use crate::features;
use crate::features::{held_announcement, Announcement, AnnouncementView};
use crate::levels::{Level, LogLine, LogLineView};
use crate::text;
use crate::text::bool_chars;
use crate::util;
use crate::util::{classified, Applied};

verus! {

/// The feature; it remembers the value it applied last.
#[derive(Clone, Copy, Debug, PartialEq, Eq, Structural)]
pub struct SeamlessRoam {
    pub latch: Option<bool>,
}

/// What a frame does.
#[derive(Debug)]
pub struct RoamStep {
    /// The value to write.
    pub write: Option<bool>,
    pub said: Announcement,
}

/// What is said of an applied value: a repeated one only quietly in the log.
pub open spec fn roam_announcement(applied: Applied, desired: bool) -> AnnouncementView {
    if applied == Applied::Reasserted {
        AnnouncementView {
            line: Some(
                LogLineView {
                    level: Level::Debug,
                    text: "re-applied roam_anywhere = "@ + bool_chars(desired),
                },
            ),
            toast: None,
        }
    } else {
        held_announcement(
            applied,
            "seamless roam set to "@ + bool_chars(desired) + " (disable_multiplay_restriction)"@,
            if desired {
                "Roaming enabled"@
            } else {
                "Roaming disabled (vanilla area tether)"@
            },
        )
    }
}

impl SeamlessRoam {
    /// Nothing applied yet.
    pub fn new() -> (feature: SeamlessRoam)
        ensures
            feature.latch is None,
    {
        SeamlessRoam { latch: None }
    }

    /// One frame: the switch is written where it differs. `current` is what the game holds, nothing
    /// where there is no session manager or its area data is not there.
    pub fn on_frame(&mut self, desired: bool, current: Option<bool>) -> (step: RoamStep)
        ensures
            ({
                let writes = current is Some && current->0 != desired;
                &&& step.write == (if writes {
                    Some(desired)
                } else {
                    None
                })
                &&& final(self).latch == (if writes {
                    Some(desired)
                } else {
                    old(self).latch
                })
                &&& step.said@ == (if writes {
                    roam_announcement(classified(old(self).latch, desired), desired)
                } else {
                    AnnouncementView { line: None, toast: None }
                })
            }),
            current == Some(!desired) ==> step.write == Some(desired),
            current == Some(desired) || current is None ==> step.write is None && *final(self)
                == *old(self),
    {
        let writes = match current {
            Some(c) => c != desired,
            None => false,
        };
        if !writes {
            return RoamStep { write: None, said: Announcement { line: None, toast: None } };
        }
        let applied = util::classify_flag(&mut self.latch, desired);
        let said = match applied {
            Applied::Reasserted => {
                let mut out = "re-applied roam_anywhere = ".to_owned();
                out.append(text::bool_text(desired).as_str());
                Announcement {
                    line: Some(LogLine { level: Level::Debug, text: out }),
                    toast: None,
                }
            },
            _ => {
                let mut out = "seamless roam set to ".to_owned();
                out.append(text::bool_text(desired).as_str());
                out.append(" (disable_multiplay_restriction)");
                let toast = if desired {
                    "Roaming enabled".to_owned()
                } else {
                    "Roaming disabled (vanilla area tether)".to_owned()
                };
                features::announce_held(applied, out, toast)
            },
        };
        RoamStep { write: Some(desired), said }
    }
}

/// Each write is logged; the player is told of a change and of nothing else.
pub proof fn the_player_is_told_of_a_change(desired: bool)
    ensures
        forall|applied: Applied| (#[trigger] roam_announcement(applied, desired)).line is Some,
        forall|applied: Applied|
            (#[trigger] roam_announcement(applied, desired)).toast is Some == (applied
                == Applied::Changed),
        roam_announcement(Applied::Changed, true).toast->0.message == "Roaming enabled"@,
        roam_announcement(Applied::Changed, false).toast->0.message
            == "Roaming disabled (vanilla area tether)"@,
        roam_announcement(Applied::Reasserted, desired).line->0.level == Level::Debug,
        roam_announcement(Applied::First, desired).line->0.level == Level::Info,
{
}

} // verus!
