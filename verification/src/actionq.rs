//! The queue of session actions from the overlay to the game thread. The overlay offers without
//! blocking; the game thread drains once a frame.

use std::collections::VecDeque;

use vstd::prelude::*;

use crate::util;
use crate::util::pushed_capped;

verus! {

/// The most actions that wait at once; past it the oldest are dropped, since a stale backlog of
/// session verbs is worth nothing.
pub const CAP: usize = 64;

/// An action a player can ask for from the menu.
#[derive(Clone, Copy, Debug, PartialEq, Eq, Structural)]
pub enum SessionAction {
    OpenWorld,
    JoinWorld,
    LeaveWorld,
    LockWorld,
    UnlockWorld,
    TogglePvp,
    TogglePvpTeams,
    ToggleFriendlyFire,
}

/// The waiting actions, oldest first.
pub struct ActionQueue {
    items: VecDeque<SessionAction>,
}

impl View for ActionQueue {
    type V = Seq<SessionAction>;

    closed spec fn view(&self) -> Seq<SessionAction> {
        self.items@
    }
}

/// An empty queue.
pub fn init() -> (queue: ActionQueue)
    ensures
        queue@ == Seq::<SessionAction>::empty(),
{
    ActionQueue { items: VecDeque::new() }
}

/// Sets the queue up: an empty one where there is none yet, and no change to one that is there.
pub fn init_once(queue: &mut Option<ActionQueue>)
    ensures
        *old(queue) is Some ==> *final(queue) == *old(queue),
        *old(queue) is None ==> (*final(queue) matches Some(fresh) && fresh@ == Seq::<SessionAction>::empty()),
{
    util::set_up(queue, init());
}

/// Offers one action to whatever a non-blocking attempt on the queue got hold of: refused, for the
/// caller to retry, only when that is nothing (not set up yet, or held by the drain). A full queue
/// drops its oldest action instead of refusing.
pub fn try_offer(queue: Option<&mut ActionQueue>, action: SessionAction) -> (accepted: bool)
    ensures
        accepted == (queue is Some),
        queue matches Some(q) ==> final(q)@ == pushed_capped((*q)@, action, CAP as nat),
        queue matches Some(q) ==> final(q)@.len() <= CAP,
{
    match queue {
        Some(q) => {
            util::push_capped(&mut q.items, action, CAP);
            true
        },
        None => false,
    }
}

/// Takes every waiting action, oldest first; nothing before the queue is set up.
pub fn drain(queue: Option<&mut ActionQueue>) -> (actions: Vec<SessionAction>)
    ensures
        match queue {
            Some(q) => actions@ == (*q)@ && final(q)@ == Seq::<SessionAction>::empty(),
            None => actions@ == Seq::<SessionAction>::empty(),
        },
{
    match queue {
        Some(q) => util::drain_all(&mut q.items),
        None => Vec::new(),
    }
}

} // verus!
