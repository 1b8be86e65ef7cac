//! The notices drawn by the game itself: whether there is anything to draw.

use vstd::prelude::*;

use crate::levels::{Level, LogLine, LogLineView};
use crate::notify::Notifications;

verus! {

/// The feature; it remembers the switch as it was seen last.
#[derive(Clone, Copy, Debug, PartialEq, Eq, Structural)]
pub struct NativeToasts {
    pub active: Option<bool>,
}

/// What is drawn.
#[derive(Clone, Copy, Debug, PartialEq, Eq, Structural)]
pub struct NoticePlan {
    pub toasts: bool,
    pub banners: bool,
}

impl NativeToasts {
    /// Nothing seen yet.
    pub fn new() -> (feature: NativeToasts)
        ensures
            feature.active is None,
    {
        NativeToasts { active: None }
    }

    /// Follows the switch; a change is logged, once.
    pub fn on_switch(&mut self, enabled: bool) -> (line: Option<LogLine>)
        ensures
            final(self).active == Some(enabled),
            line is Some == (old(self).active != Some(enabled)),
            line is Some ==> line->0@ == (LogLineView {
                level: Level::Debug,
                text: if enabled {
                    "native toasts enabled"@
                } else {
                    "native toasts disabled"@
                },
            }),
    {
        let same = match self.active {
            Some(a) => a == enabled,
            None => false,
        };
        self.active = Some(enabled);
        if same {
            return None;
        }
        let text = if enabled {
            "native toasts enabled".to_owned()
        } else {
            "native toasts disabled".to_owned()
        };
        Some(LogLine { level: Level::Debug, text })
    }
}

/// What there is to draw, if a non-blocking attempt got hold of the notices and there is anything.
pub fn plan(board: Option<&Notifications>) -> (plan: Option<NoticePlan>)
    ensures
        match board {
            Some(b) => {
                &&& plan is Some == (b@.toasts.len() != 0 || b@.banners.len() != 0)
                &&& plan matches Some(p) ==> p.toasts == (b@.toasts.len() != 0) && p.banners == (
                b@.banners.len() != 0)
            },
            None => plan is None,
        },
{
    match board {
        None => None,
        Some(b) => {
            if b.is_empty() {
                return None;
            }
            Some(NoticePlan { toasts: b.toasts().len() != 0, banners: b.banners().len() != 0 })
        },
    }
}

} // verus!
