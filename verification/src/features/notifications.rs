//! Ages the notices shown over the game, once a frame.

use vstd::prelude::*;

use crate::notify::{aged, Notifications, NotificationsView};

verus! {

/// The ager; it has no state of its own.
#[derive(Clone, Copy, Debug, PartialEq, Eq, Structural)]
pub struct NotificationsTick;

impl NotificationsTick {
    /// The ager.
    pub fn new() -> (tick: NotificationsTick)
        ensures
            tick == NotificationsTick,
    {
        NotificationsTick
    }

    /// Ages every toast by the milliseconds of this frame; nothing happens before the notices are set up.
    pub fn on_frame(&self, board: Option<&mut Notifications>, elapsed: u64)
        ensures
            board matches Some(n) ==> final(n)@ == (NotificationsView {
                toasts: aged((*n)@.toasts, elapsed as nat),
                ..(*n)@
            }),
    {
        match board {
            Some(n) => n.tick(elapsed),
            None => {},
        }
    }
}

} // verus!
