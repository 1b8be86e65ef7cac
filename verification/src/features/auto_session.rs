//! Opens or joins a world by itself, once, as soon as that can work.

use vstd::prelude::*;

use crate::levels::{Level, LogLine, LogLineView};

verus! {

/// What is configured.
#[derive(Clone, Copy, Debug, PartialEq, Eq, Structural)]
pub enum AutoSession {
    Off,
    Host,
    Join,
}

/// The feature.
#[derive(Clone, Copy, Debug, PartialEq, Eq, Structural)]
pub struct AutoSessionFeature {
    pub intent: AutoSession,
    pub fired: bool,
}

/// Whether the connection can be used.
#[derive(Clone, Copy, Debug, PartialEq, Eq, Structural)]
pub enum SteamStatus {
    Connecting,
    Ready,
    Failed,
}

/// What a frame does.
#[derive(Debug)]
pub enum AutoStep {
    Nothing,
    Host(LogLine),
    Join(LogLine),
}

pub const OPENING: &'static str = "auto-session: opening world (host) [debug.auto_session]";

pub const JOINING: &'static str = "auto-session: joining world (join) [debug.auto_session]";

/// The feature for what is configured; none when it is off.
pub fn feature(intent: AutoSession) -> (feature: Option<AutoSessionFeature>)
    ensures
        feature == (if intent == AutoSession::Off {
            None
        } else {
            Some(AutoSessionFeature { intent, fired: false })
        }),
{
    match intent {
        AutoSession::Off => None,
        _ => Some(AutoSessionFeature { intent, fired: false }),
    }
}

impl AutoSessionFeature {
    /// Whether the frame is the one that settles the matter.
    pub open spec fn settles(self, steam: SteamStatus, in_gameplay: bool) -> bool {
        !self.fired && steam == SteamStatus::Ready && in_gameplay
    }

    /// One frame: nothing happens until the connection is ready and the player is in play; then, unless a
    /// session is up already, the world is opened or joined, and never again.
    pub fn on_frame(&mut self, steam: SteamStatus, in_gameplay: bool, in_session: bool) -> (step:
        AutoStep)
        ensures
            *final(self) == (AutoSessionFeature {
                fired: old(self).fired || old(self).settles(steam, in_gameplay),
                ..*old(self)
            }),
            ({
                let acts = old(self).settles(steam, in_gameplay) && !in_session;
                match old(self).intent {
                    AutoSession::Off => step is Nothing,
                    AutoSession::Host => if acts {
                        step matches AutoStep::Host(line) && line@ == (LogLineView {
                            level: Level::Info,
                            text: OPENING@,
                        })
                    } else {
                        step is Nothing
                    },
                    AutoSession::Join => if acts {
                        step matches AutoStep::Join(line) && line@ == (LogLineView {
                            level: Level::Info,
                            text: JOINING@,
                        })
                    } else {
                        step is Nothing
                    },
                }
            }),
            old(self).fired || steam != SteamStatus::Ready || !in_gameplay ==> step is Nothing
                && *final(self) == *old(self),
            in_session ==> step is Nothing,
            old(self).intent == AutoSession::Host && !old(self).fired && steam == SteamStatus::Ready
                && in_gameplay && !in_session ==> step is Host && final(self).fired,
            old(self).intent == AutoSession::Join && !old(self).fired && steam == SteamStatus::Ready
                && in_gameplay && !in_session ==> step is Join && final(self).fired,
    {
        if self.fired {
            return AutoStep::Nothing;
        }
        match steam {
            SteamStatus::Ready => {},
            _ => {
                return AutoStep::Nothing;
            },
        }
        if !in_gameplay {
            return AutoStep::Nothing;
        }
        self.fired = true;
        if in_session {
            return AutoStep::Nothing;
        }
        match self.intent {
            AutoSession::Host => AutoStep::Host(
                LogLine { level: Level::Info, text: OPENING.to_owned() },
            ),
            AutoSession::Join => AutoStep::Join(
                LogLine { level: Level::Info, text: JOINING.to_owned() },
            ),
            AutoSession::Off => AutoStep::Nothing,
        }
    }
}

/// The action is taken at most once: a feature that settled the matter never settles it again.
pub proof fn acts_at_most_once(
    feature: AutoSessionFeature,
    steam: SteamStatus,
    in_gameplay: bool,
    later: SteamStatus,
    later_in_gameplay: bool,
)
    requires
        feature.settles(steam, in_gameplay),
    ensures
        !(AutoSessionFeature { fired: true, ..feature }).settles(later, later_in_gameplay),
{
}

/// The world is opened or joined as soon as Steam is ready and the game is being played, and never before either.
pub proof fn acts_as_soon_as_it_can(intent: AutoSession, in_gameplay: bool)
    ensures
        (AutoSessionFeature { intent, fired: false }).settles(SteamStatus::Ready, true),
        !(AutoSessionFeature { intent, fired: false }).settles(SteamStatus::Ready, false),
        !(AutoSessionFeature { intent, fired: false }).settles(SteamStatus::Connecting, in_gameplay),
        !(AutoSessionFeature { intent, fired: false }).settles(SteamStatus::Failed, in_gameplay),
{
}

} // verus!
