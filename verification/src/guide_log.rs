//! The tee of log messages that the test guide watches while one of its steps is showing.

use std::collections::VecDeque;

use vstd::prelude::*;

use crate::levels::{Level, LevelFilter};
use crate::text::texts;
use crate::util;
use crate::util::pushed_capped;

verus! {

/// The most lines that wait at once; past it the oldest is dropped.
pub const CAP: usize = 512;

/// The waiting lines, oldest first.
pub struct GuideQueue {
    lines: VecDeque<String>,
}

impl View for GuideQueue {
    type V = Seq<Seq<char>>;

    closed spec fn view(&self) -> Seq<Seq<char>> {
        texts(self.lines@)
    }
}

/// An empty queue.
pub fn init() -> (queue: GuideQueue)
    ensures
        queue@ == Seq::<Seq<char>>::empty(),
{
    let queue = GuideQueue { lines: VecDeque::new() };
    assert(queue@ =~= Seq::empty());
    queue
}

/// Whether the tee is on before anything turns it on: it is not.
pub fn off_at_first() -> (enabled: bool)
    ensures
        !enabled,
{
    false
}

/// The waiting lines after the tee was turned on or off.
pub open spec fn switched(lines: Seq<Seq<char>>, on: bool) -> Seq<Seq<char>> {
    if on {
        lines
    } else {
        Seq::empty()
    }
}

/// A record that is logged.
pub struct RecordView {
    pub level: Level,
    pub message: Seq<char>,
}

/// The waiting lines after a record was logged.
pub open spec fn teed(
    lines: Seq<Seq<char>>,
    enabled: bool,
    filter: LevelFilter,
    record: RecordView,
) -> Seq<Seq<char>> {
    if enabled && record.level.verbosity() <= filter.verbosity() {
        pushed_capped(lines, record.message, CAP as nat)
    } else {
        lines
    }
}

/// The waiting lines after records were logged one after another.
pub open spec fn teed_all(
    lines: Seq<Seq<char>>,
    enabled: bool,
    filter: LevelFilter,
    records: Seq<RecordView>,
) -> Seq<Seq<char>>
    decreases records.len(),
{
    if records.len() == 0 {
        lines
    } else {
        teed(teed_all(lines, enabled, filter, records.drop_last()), enabled, filter, records.last())
    }
}

/// Turning the tee off leaves nothing waiting, and nothing that is logged until it is turned on waits either.
pub proof fn nothing_waits_while_off(
    lines: Seq<Seq<char>>,
    filter: LevelFilter,
    records: Seq<RecordView>,
)
    ensures
        teed_all(switched(lines, false), false, filter, records) == Seq::<Seq<char>>::empty(),
    decreases records.len(),
{
    if records.len() > 0 {
        nothing_waits_while_off(lines, filter, records.drop_last());
    }
}

/// Turning the tee on keeps what waits, and a record that passes the verbosity waits from then on.
pub proof fn records_wait_while_on(
    lines: Seq<Seq<char>>,
    filter: LevelFilter,
    record: RecordView,
)
    requires
        record.level.verbosity() <= filter.verbosity(),
    ensures
        switched(lines, true) == lines,
        teed(lines, true, filter, record) == pushed_capped(lines, record.message, CAP as nat),
        teed(lines, true, filter, record).last() == record.message,
{
}

/// Turns the tee on or off. Turning it off empties the queue, if a non-blocking attempt got hold of it.
pub fn set_enabled(enabled: &mut bool, queue: Option<&mut GuideQueue>, on: bool)
    ensures
        *final(enabled) == on,
        queue matches Some(q) ==> final(q)@ == switched((*q)@, on),
{
    *enabled = on;
    if on {
        return;
    }
    match queue {
        Some(q) => {
            q.lines.clear();
            assert(q@ =~= Seq::empty());
        },
        None => {},
    }
}

/// Takes every waiting line, oldest first, from whatever a non-blocking attempt got hold of.
pub fn drain(queue: Option<&mut GuideQueue>) -> (lines: Vec<String>)
    ensures
        match queue {
            Some(q) => texts(lines@) == (*q)@ && final(q)@ == Seq::<Seq<char>>::empty(),
            None => lines@ == Seq::<String>::empty(),
        },
{
    match queue {
        Some(q) => {
            let lines = util::drain_all(&mut q.lines);
            assert(q@ =~= Seq::empty());
            lines
        },
        None => Vec::new(),
    }
}

/// Enqueues a line, the oldest making room for it when the queue is full.
pub fn push(queue: Option<&mut GuideQueue>, message: &str)
    ensures
        queue matches Some(q) ==> final(q)@ == pushed_capped((*q)@, message@, CAP as nat),
        queue matches Some(q) ==> final(q)@.len() <= CAP,
{
    match queue {
        Some(q) => {
            let ghost start = q@;
            util::push_capped(&mut q.lines, message.to_owned(), CAP);
            assert(q@ =~= pushed_capped(start, message@, CAP as nat));
        },
        None => {},
    }
}

/// Tees record messages into the queue.
#[derive(Clone, Copy, Debug)]
pub struct GuideLogger {
    pub level: LevelFilter,
}

/// The guide logger at this verbosity.
pub fn guide_logger(level: LevelFilter) -> (logger: Box<GuideLogger>)
    ensures
        logger.level == level,
{
    Box::new(GuideLogger { level })
}

impl GuideLogger {
    /// Enqueues the message of a record that passes the verbosity, while the tee is on.
    pub fn log(&self, enabled: bool, queue: Option<&mut GuideQueue>, level: Level, message: &str)
        ensures
            queue matches Some(q) ==> final(q)@ == teed(
                (*q)@,
                enabled,
                self.level,
                RecordView { level, message: message@ },
            ),
    {
        if !enabled || !level.passes(self.level) {
            return;
        }
        push(queue, message);
    }
}

/// A record that the filter does not let through is not kept, and neither is any while the tee is off.
pub proof fn other_records_do_not_wait(
    lines: Seq<Seq<char>>,
    enabled: bool,
    filter: LevelFilter,
    record: RecordView,
)
    requires
        !enabled || record.level.verbosity() > filter.verbosity(),
    ensures
        teed(lines, enabled, filter, record) == lines,
{
}

/// Records are kept in the order they come.
pub proof fn records_are_kept_one_after_the_other(
    lines: Seq<Seq<char>>,
    enabled: bool,
    filter: LevelFilter,
    records: Seq<RecordView>,
    record: RecordView,
)
    ensures
        teed_all(lines, enabled, filter, Seq::empty()) == lines,
        teed_all(lines, enabled, filter, records.push(record)) == teed(
            teed_all(lines, enabled, filter, records),
            enabled,
            filter,
            record,
        ),
{
    assert(records.push(record).drop_last() =~= records);
}

} // verus!
