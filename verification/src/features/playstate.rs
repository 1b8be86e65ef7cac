//! Publishes where the game is in its life, each frame.

use vstd::prelude::*;

use crate::playstate;
use crate::playstate::{GameSignals, GameState, PlayState};

verus! {

/// The probe; it has no state of its own.
#[derive(Clone, Copy, Debug, PartialEq, Eq, Structural)]
pub struct PlayStateProbe;

impl PlayStateProbe {
    /// The probe.
    pub fn new() -> (probe: PlayStateProbe)
        ensures
            probe == PlayStateProbe,
    {
        PlayStateProbe
    }

    /// Publishes the state. The menu system is up once its manager is there; whether a character is
    /// loaded is known only while the world's manager is.
    pub fn on_frame(&self, play: &mut PlayState, menu_system_up: bool, player_loaded: Option<bool>)
        ensures
            final(play).state == GameState::of(
                GameSignals { menu_system_up, player_in_world: player_loaded == Some(true) },
            ),
    {
        let player_in_world = match player_loaded {
            Some(loaded) => loaded,
            None => false,
        };
        playstate::set(play, GameState::classify(GameSignals { menu_system_up, player_in_world }));
    }
}

} // verus!
