//! What the mod reads of the game's session manager, as plain values.

use vstd::prelude::*;

verus! {

/// A state of one of the game's session state machines: its number and the name it is shown under.
#[derive(Debug)]
pub struct StateTag {
    pub code: u32,
    pub name: String,
}

/// The governance of the "stay in the multiplay area" tether.
#[derive(Debug)]
pub struct Tether {
    /// Players may go anywhere on the map.
    pub restriction_disabled: bool,
    /// The host's play-area id at connect; zero disables the boss-area mismatch warp.
    pub start_area_id: u32,
    /// A warp back into the area is pending (its countdown is above zero).
    pub warp_pending: bool,
    /// The countdown, rendered with two decimals.
    pub warp_delay: String,
    /// Whether the warp may fire this frame.
    pub warp_possible: bool,
    /// Remote players currently faded out in the middle of a warp.
    pub fading_players: usize,
}

/// One reading of the session manager.
#[derive(Debug)]
pub struct SessionView {
    pub lobby_state: StateTag,
    pub protocol_state: StateTag,
    pub players: usize,
    pub player_limit: u32,
    pub limit_override: u32,
    /// Absent until the game has wired the warp data.
    pub tether: Option<Tether>,
}

} // verus!
