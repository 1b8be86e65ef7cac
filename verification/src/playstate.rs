//! Where the game is in its life: coming up, in its menus, or in play.

use vstd::prelude::*;

verus! {

/// The lifecycle of the game.
#[derive(Clone, Copy, Debug, PartialEq, Eq, Structural)]
pub enum GameState {
    /// The menu system is not up yet.
    Booting,
    /// Title, menus and loading.
    Frontend,
    /// A character is loaded in the world.
    InGame,
}

/// The two signals the state is told from.
#[derive(Clone, Copy, Debug, PartialEq, Eq, Structural)]
pub struct GameSignals {
    pub menu_system_up: bool,
    pub player_in_world: bool,
}

impl GameState {
    /// The state that the signals stand for.
    pub open spec fn of(signals: GameSignals) -> GameState {
        if signals.player_in_world {
            GameState::InGame
        } else if signals.menu_system_up {
            GameState::Frontend
        } else {
            GameState::Booting
        }
    }

    /// Tells the state from the signals.
    pub fn classify(signals: GameSignals) -> (state: GameState)
        ensures
            state == GameState::of(signals),
    {
        if signals.player_in_world {
            GameState::InGame
        } else if signals.menu_system_up {
            GameState::Frontend
        } else {
            GameState::Booting
        }
    }

    /// Whether the frontend has come up.
    pub fn frontend_ready(self) -> (ready: bool)
        ensures
            ready == (self != GameState::Booting),
    {
        match self {
            GameState::Booting => false,
            _ => true,
        }
    }
}

/// The published state.
#[derive(Clone, Copy, Debug, PartialEq, Eq, Structural)]
pub struct PlayState {
    pub state: GameState,
}

/// The state before the first reading.
pub fn init() -> (play: PlayState)
    ensures
        play.state == GameState::Booting,
{
    PlayState { state: GameState::Booting }
}

/// Publishes the state.
pub fn set(play: &mut PlayState, state: GameState)
    ensures
        final(play).state == state,
{
    play.state = state;
}

/// The published state.
pub fn current(play: PlayState) -> (state: GameState)
    ensures
        state == play.state,
{
    play.state
}

/// Whether the local player is in active play right now.
pub fn in_gameplay(play: PlayState) -> (yes: bool)
    ensures
        yes == (play.state == GameState::InGame),
{
    match play.state {
        GameState::InGame => true,
        _ => false,
    }
}

/// The game is in play exactly while the player is in the world, and still comes up exactly while there are neither
/// a player nor menus.
pub proof fn play_needs_a_player_in_the_world(signals: GameSignals)
    ensures
        (GameState::of(signals) == GameState::InGame) == signals.player_in_world,
        (GameState::of(signals) == GameState::Booting) == (!signals.player_in_world
            && !signals.menu_system_up),
        (GameState::of(signals) == GameState::Frontend) == (!signals.player_in_world
            && signals.menu_system_up),
{
}

} // verus!
