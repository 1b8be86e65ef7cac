//! Allows summons beside other players: the switch is followed, the game is not touched yet.

use vstd::prelude::*;

use crate::levels::{Level, LogLine, LogLineView};

verus! {

/// The feature; it remembers the switch as it was seen last.
#[derive(Clone, Copy, Debug, PartialEq, Eq, Structural)]
pub struct Summons {
    pub latch: Option<bool>,
}

impl Summons {
    /// Nothing seen yet.
    pub fn new() -> (feature: Summons)
        ensures
            feature.latch is None,
    {
        Summons { latch: None }
    }

    /// One frame: a change of the switch is logged, once.
    pub fn on_frame(&mut self, enabled: bool) -> (line: Option<LogLine>)
        ensures
            final(self).latch == Some(enabled),
            line is Some == (old(self).latch != Some(enabled)),
            line is Some ==> line->0@ == (LogLineView {
                level: Level::Debug,
                text: "summons "@ + (if enabled {
                    "enabled"@
                } else {
                    "disabled"@
                }) + " (apply RE-pending — see features::summons docs)"@,
            }),
    {
        let same = match self.latch {
            Some(l) => l == enabled,
            None => false,
        };
        self.latch = Some(enabled);
        if same {
            return None;
        }
        let mut out = "summons ".to_owned();
        out.append(
            if enabled {
                "enabled"
            } else {
                "disabled"
            },
        );
        out.append(" (apply RE-pending — see features::summons docs)");
        Some(LogLine { level: Level::Debug, text: out })
    }
}

} // verus!
