//! Holds the number of players that a session admits.

use vstd::prelude::*;

use crate::levels::{Level, LogLine, LogLineView};
use crate::text;
use crate::text::dec;

verus! {

/// The feature; it remembers the value it said loudly last.
#[derive(Clone, Copy, Debug, PartialEq, Eq, Structural)]
pub struct SessionLimit {
    pub last_logged: Option<u32>,
}

/// What a frame does.
#[derive(Debug)]
pub struct LimitStep {
    /// The value to write.
    pub write: Option<u32>,
    pub line: Option<LogLine>,
}

/// A value brought into bounds.
pub open spec fn bounded(value: u32, low: u32, high: u32) -> u32 {
    if value < low {
        low
    } else if value > high {
        high
    } else {
        value
    }
}

impl SessionLimit {
    /// Nothing said yet.
    pub fn new() -> (feature: SessionLimit)
        ensures
            feature.last_logged is None,
    {
        SessionLimit { last_logged: None }
    }

    /// One frame: the configured value, brought into bounds, is written where the game's differs from it.
    /// A value that was not said last is said loudly, the same one again quietly. `current` is what the
    /// game holds, nothing where there is no session manager.
    pub fn on_frame(&mut self, max_players: u32, low: u32, high: u32, current: Option<u32>) -> (step:
        LimitStep)
        requires
            low <= high,
        ensures
            ({
                let desired = bounded(max_players, low, high);
                let writes = current is Some && current->0 != desired;
                let again = old(self).last_logged == Some(desired);
                &&& step.write == (if writes {
                    Some(desired)
                } else {
                    None
                })
                &&& step.line is Some == writes
                &&& writes ==> step.line->0@ == (LogLineView {
                    level: if again {
                        Level::Debug
                    } else {
                        Level::Info
                    },
                    text: (if again {
                        "re-applied session player limit override = "@
                    } else {
                        "session player limit override set to "@
                    }) + dec(desired as nat),
                })
                &&& final(self).last_logged == (if writes {
                    Some(desired)
                } else {
                    old(self).last_logged
                })
            }),
            current is None ==> step.write is None,
            step.write matches Some(w) ==> low <= w <= high,
            low <= max_players <= high && current == Some(max_players) ==> step.write is None,
            low <= max_players <= high && current is Some && current->0 != max_players ==> step.write
                == Some(max_players),
    {
        let desired: u32 = if max_players < low {
            low
        } else if max_players > high {
            high
        } else {
            max_players
        };
        let writes = match current {
            Some(c) => c != desired,
            None => false,
        };
        if !writes {
            return LimitStep { write: None, line: None };
        }
        let again = match self.last_logged {
            Some(l) => l == desired,
            None => false,
        };
        let line = if again {
            let mut out = "re-applied session player limit override = ".to_owned();
            out.append(text::dec_text(desired as u64).as_str());
            LogLine { level: Level::Debug, text: out }
        } else {
            self.last_logged = Some(desired);
            let mut out = "session player limit override set to ".to_owned();
            out.append(text::dec_text(desired as u64).as_str());
            LogLine { level: Level::Info, text: out }
        };
        LimitStep { write: Some(desired), line: Some(line) }
    }
}

/// Whatever the configuration holds, what reaches the game is within bounds, and a value in bounds is
/// not changed.
pub proof fn written_limit_is_in_bounds(value: u32, low: u32, high: u32)
    requires
        low <= high,
    ensures
        low <= bounded(value, low, high) <= high,
        low <= value <= high ==> bounded(value, low, high) == value,
{
}

/// A limit out of bounds is held at the bound it passed.
pub proof fn a_limit_out_of_bounds_is_held_at_the_bound(value: u32, low: u32, high: u32)
    requires
        low <= high,
    ensures
        value <= low ==> bounded(value, low, high) == low,
        value >= high ==> bounded(value, low, high) == high,
{
}

} // verus!
