//! The guard that keeps the mod from running under the game's anti-cheat: it runs only where its own
//! launcher started the game.

use vstd::prelude::*;

verus! {

pub const NOT_OURS: &'static str = "unseamless-coop was not started by its launcher.\n\nAn ELDEN RING update may have reverted the mod launcher. Re-copy the mod files (see the README) before playing.\n\nClosing the game now to protect your account from anti-cheat.";

/// Whether the mod goes on.
#[derive(Debug)]
pub enum Launch {
    Proceed,
    /// Say this and end the process, whether or not it could be said.
    Abort(String),
}

/// Whether the mod goes on: only if the launcher's mark is there.
pub fn ensure_launched_by_us_or_abort(marked: bool) -> (launch: Launch)
    ensures
        marked ==> launch is Proceed,
        !marked ==> (launch matches Launch::Abort(text) && text@ == NOT_OURS@),
{
    if marked {
        Launch::Proceed
    } else {
        Launch::Abort(NOT_OURS.to_owned())
    }
}

} // verus!
