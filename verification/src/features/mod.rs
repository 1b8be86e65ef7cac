//! The per-frame features: each takes what was read from the game this frame and says what to do.

use vstd::prelude::*;

use crate::levels::{Level, LogLine, LogLineView};
use crate::notify::{Severity, Toast, ToastView};
use crate::util::Applied;

pub mod auto_session;
pub mod boot_volume;
pub mod crit_coop;
pub mod death_debuffs;
pub mod nameplates;
pub mod native_nameplates;
pub mod native_toasts;
pub mod notifications;
pub mod observer;
pub mod playstate;
pub mod presence_probe;
pub mod rig_guide;
pub mod scaling;
pub mod seamless;
pub mod session_actions;
pub mod session_limit;
pub mod spectate;
pub mod summons;
pub mod world_time;

verus! {

/// What is said of a value that was applied to the game.
#[derive(Debug)]
pub struct Announcement {
    pub line: Option<LogLine>,
    pub toast: Option<Toast>,
}

/// The characters of an announcement.
pub struct AnnouncementView {
    pub line: Option<LogLineView>,
    pub toast: Option<ToastView>,
}

impl View for Announcement {
    type V = AnnouncementView;

    open spec fn view(&self) -> AnnouncementView {
        AnnouncementView {
            line: match self.line {
                Some(l) => Some(l@),
                None => None,
            },
            toast: match self.toast {
                Some(t) => Some(t@),
                None => None,
            },
        }
    }
}

/// The policy on values that are held in the game: a first value and a changed one are logged, only a
/// changed one is shown to the player, and a value that is asserted again is silent.
pub open spec fn held_announcement(
    applied: Applied,
    info: Seq<char>,
    toast: Seq<char>,
) -> AnnouncementView {
    AnnouncementView {
        line: if applied == Applied::Reasserted {
            None
        } else {
            Some(LogLineView { level: Level::Info, text: info })
        },
        toast: if applied == Applied::Changed {
            Some(ToastView { severity: Severity::Info, message: toast })
        } else {
            None
        },
    }
}

/// Announces a value that was applied to the game.
pub fn announce_held(applied: Applied, info: String, toast: String) -> (out: Announcement)
    ensures
        out@ == held_announcement(applied, info@, toast@),
{
    match applied {
        Applied::Reasserted => Announcement { line: None, toast: None },
        Applied::First => Announcement {
            line: Some(LogLine { level: Level::Info, text: info }),
            toast: None,
        },
        Applied::Changed => Announcement {
            line: Some(LogLine { level: Level::Info, text: info }),
            toast: Some(Toast { severity: Severity::Info, message: toast }),
        },
    }
}

/// The value that the player starts with is never shown to them.
pub proof fn the_baseline_is_never_shown(info: Seq<char>, toast: Seq<char>)
    ensures
        held_announcement(Applied::First, info, toast).toast is None,
        held_announcement(Applied::Reasserted, info, toast).toast is None,
{
}

/// A value that is held for the first time is logged; a change of it is logged and shown; holding it again is
/// neither.
pub proof fn a_change_is_logged_and_shown(info: Seq<char>, toast: Seq<char>)
    ensures
        held_announcement(Applied::First, info, toast).line == Some(
            LogLineView { level: Level::Info, text: info },
        ),
        held_announcement(Applied::Changed, info, toast).line == Some(
            LogLineView { level: Level::Info, text: info },
        ),
        held_announcement(Applied::Changed, info, toast).toast == Some(
            ToastView { severity: Severity::Info, message: toast },
        ),
        held_announcement(Applied::Reasserted, info, toast).line is None,
{
}

} // verus!
