//! The client's queue of log records on their way to the host.

use std::collections::VecDeque;

use vstd::prelude::*;

use crate::levels::{Level, LevelFilter};
use crate::text;
use crate::util;
use crate::util::pushed_capped;

verus! {

/// The most records that wait at once; past it the oldest unsent one is lost.
pub const CAP: usize = 256;

/// One record to forward.
#[derive(Debug)]
pub struct ForwardRecord {
    pub level: Level,
    pub message: String,
}

/// The level and the characters of a record.
pub struct RecordView {
    pub level: Level,
    pub message: Seq<char>,
}

impl View for ForwardRecord {
    type V = RecordView;

    open spec fn view(&self) -> RecordView {
        RecordView { level: self.level, message: self.message@ }
    }
}

/// The views of a list of records.
pub open spec fn records_view(records: Seq<ForwardRecord>) -> Seq<RecordView> {
    Seq::new(records.len(), |i: int| records[i]@)
}

/// The waiting records, oldest first.
pub struct ForwardQueue {
    records: VecDeque<ForwardRecord>,
}

impl View for ForwardQueue {
    type V = Seq<RecordView>;

    closed spec fn view(&self) -> Seq<RecordView> {
        records_view(self.records@)
    }
}

/// Whether forwarding is on, and whether the current thread is inside a send loop.
#[derive(Clone, Copy, Debug, PartialEq, Eq, Structural)]
pub struct ForwardState {
    pub enabled: bool,
    pub in_forward: bool,
}

/// The mark of a thread that is inside forwarding. While it is set, the thread's own records are
/// dropped, so that forwarding cannot enqueue more to forward.
#[derive(Debug)]
pub struct ForwardGuard;

impl ForwardGuard {
    /// Sets the mark.
    pub fn enter(state: &mut ForwardState) -> (guard: ForwardGuard)
        ensures
            *final(state) == (ForwardState { in_forward: true, ..*old(state) }),
    {
        state.in_forward = true;
        ForwardGuard
    }

    /// Clears the mark.
    pub fn leave(self, state: &mut ForwardState)
        ensures
            *final(state) == (ForwardState { in_forward: false, ..*old(state) }),
    {
        state.in_forward = false;
    }
}

/// An empty queue.
pub fn init() -> (queue: ForwardQueue)
    ensures
        queue@ == Seq::<RecordView>::empty(),
{
    let queue = ForwardQueue { records: VecDeque::new() };
    assert(queue@ =~= Seq::empty());
    queue
}

/// Turns forwarding on or off.
pub fn set_enabled(state: &mut ForwardState, on: bool)
    ensures
        *final(state) == (ForwardState { enabled: on, ..*old(state) }),
{
    state.enabled = on;
}

/// Takes every waiting record, oldest first, from whatever a non-blocking attempt got hold of.
pub fn drain(queue: Option<&mut ForwardQueue>) -> (records: Vec<ForwardRecord>)
    ensures
        match queue {
            Some(q) => records_view(records@) == (*q)@ && final(q)@ == Seq::<RecordView>::empty(),
            None => records@ == Seq::<ForwardRecord>::empty(),
        },
{
    match queue {
        Some(q) => {
            let records = util::drain_all(&mut q.records);
            assert(q@ =~= Seq::empty());
            records
        },
        None => Vec::new(),
    }
}

/// Enqueues a record, the oldest making room for it when the queue is full.
pub fn push(queue: Option<&mut ForwardQueue>, level: Level, message: &str)
    ensures
        queue matches Some(q) ==> final(q)@ == pushed_capped(
            (*q)@,
            RecordView { level, message: message@ },
            CAP as nat,
        ),
        queue matches Some(q) ==> final(q)@.len() <= CAP,
{
    match queue {
        Some(q) => {
            let ghost start = q@;
            util::push_capped(
                &mut q.records,
                ForwardRecord { level, message: message.to_owned() },
                CAP,
            );
            assert(q@ =~= pushed_capped(start, RecordView { level, message: message@ }, CAP as nat));
        },
        None => {},
    }
}

/// Tees log records into the queue.
#[derive(Clone, Copy, Debug)]
pub struct ForwardLogger {
    pub level: LevelFilter,
}

/// The forward logger at this verbosity.
pub fn forward_logger(level: LevelFilter) -> (logger: Box<ForwardLogger>)
    ensures
        logger.level == level,
{
    Box::new(ForwardLogger { level })
}

/// Whether a record comes from the side-channel's own modules, which the host need not see.
pub open spec fn own_chatter(target: Seq<char>) -> bool {
    ||| "unseamless_coop::coop"@.is_prefix_of(target)
    ||| "unseamless_coop::steam"@.is_prefix_of(target)
    ||| "unseamless_coop::forward"@.is_prefix_of(target)
}

impl ForwardLogger {
    /// Whether a record is forwarded: forwarding is on, this thread is not forwarding right now, the
    /// record passes the verbosity, and it is not the side-channel's own chatter.
    pub open spec fn forwards(self, state: ForwardState, level: Level, target: Seq<char>) -> bool {
        &&& state.enabled
        &&& !state.in_forward
        &&& level.verbosity() <= self.level.verbosity()
        &&& !own_chatter(target)
    }

    /// Whether a record of this level is taken at all.
    pub fn enabled(&self, level: Level) -> (yes: bool)
        ensures
            yes == (level.verbosity() <= self.level.verbosity()),
    {
        level.passes(self.level)
    }

    /// Whether a record is forwarded.
    pub fn admits(&self, state: ForwardState, level: Level, target: &str) -> (yes: bool)
        ensures
            yes == self.forwards(state, level, target@),
    {
        if !state.enabled || state.in_forward || !self.enabled(level) {
            return false;
        }
        !(text::starts_with(target, "unseamless_coop::coop") || text::starts_with(
            target,
            "unseamless_coop::steam",
        ) || text::starts_with(target, "unseamless_coop::forward"))
    }

    /// Enqueues a record that is to be forwarded.
    pub fn log(
        &self,
        state: ForwardState,
        queue: Option<&mut ForwardQueue>,
        level: Level,
        target: &str,
        message: &str,
    )
        ensures
            queue matches Some(q) ==> final(q)@ == (if self.forwards(state, level, target@) {
                pushed_capped((*q)@, RecordView { level, message: message@ }, CAP as nat)
            } else {
                (*q)@
            }),
    {
        if self.admits(state, level, target) {
            push(queue, level, message);
        }
    }
}

/// Forwarding cannot feed itself: between entering and leaving the send loop no record is forwarded,
/// whatever it is.
pub proof fn nothing_forwarded_inside_the_loop(
    logger: ForwardLogger,
    state: ForwardState,
    level: Level,
    target: Seq<char>,
)
    requires
        state.in_forward,
    ensures
        !logger.forwards(state, level, target),
{
}

/// Records of the modules that carry the log are the log's own chatter, and so is whatever is below them.
pub proof fn the_carriers_chatter_is_recognised(rest: Seq<char>)
    ensures
        own_chatter("unseamless_coop::coop"@ + rest),
        own_chatter("unseamless_coop::steam"@ + rest),
        own_chatter("unseamless_coop::forward"@ + rest),
        !own_chatter("unseamless_coop::overlay"@),
        !own_chatter("unseamless_coop::features"@),
        !own_chatter(Seq::empty()),
{
    reveal_strlit("unseamless_coop::coop");
    reveal_strlit("unseamless_coop::steam");
    reveal_strlit("unseamless_coop::forward");
    reveal_strlit("unseamless_coop::overlay");
    reveal_strlit("unseamless_coop::features");
    assert("unseamless_coop::coop"@.is_prefix_of("unseamless_coop::coop"@ + rest));
    assert("unseamless_coop::steam"@.is_prefix_of("unseamless_coop::steam"@ + rest));
    assert("unseamless_coop::forward"@.is_prefix_of("unseamless_coop::forward"@ + rest));
    assert("unseamless_coop::coop"@[17] == 'c');
    assert("unseamless_coop::steam"@[17] == 's');
    assert("unseamless_coop::forward"@[18] == 'o');
    assert("unseamless_coop::forward"@[17] == 'f');
    assert("unseamless_coop::overlay"@[17] == 'o');
    assert("unseamless_coop::features"@[17] == 'f');
    assert("unseamless_coop::features"@[18] == 'e');
}

/// While it is on, a record of any other module is forwarded exactly if its level passes; while it is off none is.
pub proof fn other_records_are_forwarded(
    logger: ForwardLogger,
    level: Level,
    target: Seq<char>,
    in_forward: bool,
)
    requires
        !own_chatter(target),
    ensures
        logger.forwards(ForwardState { enabled: true, in_forward: false }, level, target) == (
        level.verbosity() <= logger.level.verbosity()),
        !logger.forwards(ForwardState { enabled: false, in_forward }, level, target),
{
}

/// The log's own chatter is never forwarded.
pub proof fn own_chatter_is_not_forwarded(
    logger: ForwardLogger,
    state: ForwardState,
    level: Level,
    target: Seq<char>,
)
    requires
        own_chatter(target),
    ensures
        !logger.forwards(state, level, target),
{
}

/// What is told of the queue is every record in it, with its level and its message.
pub proof fn records_are_told_as_they_are(records: Seq<ForwardRecord>, i: int)
    requires
        0 <= i < records.len(),
    ensures
        records_view(records).len() == records.len(),
        records_view(records)[i].level == records[i].level,
        records_view(records)[i].message == records[i].message@,
{
}

} // verus!
