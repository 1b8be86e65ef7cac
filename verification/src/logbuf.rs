//! The in-memory tail of the log that the overlay shows.

use std::collections::VecDeque;

use vstd::prelude::*;

use crate::levels::{Level, LevelFilter};
use crate::text;
use crate::text::{dec, joined, texts, zero_pad};
use crate::util;
use crate::util::pushed_capped;

verus! {

/// The most lines that are kept; older ones scroll off.
pub const CAP: usize = 400;

/// One captured line.
#[derive(Debug)]
pub struct Line {
    pub level: Level,
    pub text: String,
}

/// The level and the characters of a captured line.
pub struct LineView {
    pub level: Level,
    pub text: Seq<char>,
}

impl View for Line {
    type V = LineView;

    open spec fn view(&self) -> LineView {
        LineView { level: self.level, text: self.text@ }
    }
}

/// The captured lines, oldest first.
#[derive(Debug)]
pub struct LogBuffer {
    pub lines: VecDeque<Line>,
}

impl View for LogBuffer {
    type V = Seq<LineView>;

    open spec fn view(&self) -> Seq<LineView> {
        Seq::new(self.lines@.len(), |i: int| self.lines@[i]@)
    }
}

/// The time of day, in UTC, of a number of seconds since the epoch.
pub open spec fn clock(secs: u64) -> Seq<char> {
    let day = secs % 86_400;
    zero_pad(dec((day / 3600) as nat), 2) + ":"@ + zero_pad(dec(((day % 3600) / 60) as nat), 2)
        + ":"@ + zero_pad(dec((day % 60) as nat), 2)
}

/// An empty buffer.
pub fn init() -> (buffer: LogBuffer)
    ensures
        buffer@ == Seq::<LineView>::empty(),
{
    let buffer = LogBuffer { lines: VecDeque::with_capacity(CAP) };
    assert(buffer@ =~= Seq::empty());
    buffer
}

/// Sets the buffer up: an empty one where there is none yet, and no change to one that is there.
pub fn init_once(buffer: &mut Option<LogBuffer>)
    ensures
        *old(buffer) is Some ==> *final(buffer) == *old(buffer),
        *old(buffer) is None ==> (*final(buffer) matches Some(fresh) && fresh@ == Seq::<LineView>::empty()),
{
    util::set_up(buffer, init());
}

/// Hands the lines to `f`, if a non-blocking attempt got hold of the buffer.
pub fn try_read<R, F: FnOnce(&VecDeque<Line>) -> R>(buffer: Option<&LogBuffer>, f: F) -> (out:
    Option<R>)
    requires
        buffer matches Some(b) ==> call_requires(f, (&b.lines,)),
    ensures
        out is Some == (buffer is Some),
        buffer matches Some(b) ==> call_ensures(f, (&b.lines,), out->0),
{
    match buffer {
        Some(b) => Some(f(&b.lines)),
        None => None,
    }
}

/// The fixed-width time of day that a line starts with.
pub fn short_time(secs: u64) -> (out: String)
    ensures
        out@ == clock(secs),
{
    let day: u64 = secs % 86_400;
    let mut out = text::two_digits(day / 3600);
    out.append(":");
    out.append(text::two_digits((day % 3600) / 60).as_str());
    out.append(":");
    out.append(text::two_digits(day % 60).as_str());
    out
}

/// Captures a line at `now` seconds since the epoch, the oldest making room for it when the buffer is
/// full. Nothing happens before the buffer is set up.
pub fn push(buffer: Option<&mut LogBuffer>, level: Level, text: &str, now: u64)
    ensures
        buffer matches Some(b) ==> final(b)@ == pushed_capped(
            (*b)@,
            LineView { level, text: clock(now) + " "@ + text@ },
            CAP as nat,
        ),
        buffer matches Some(b) ==> final(b)@.len() <= CAP,
{
    match buffer {
        Some(b) => {
            let mut line = short_time(now);
            line.append(" ");
            line.append(text);
            let ghost start = b@;
            let ghost shown = LineView { level, text: line@ };
            util::push_capped(&mut b.lines, Line { level, text: line }, CAP);
            assert(b@ =~= pushed_capped(start, shown, CAP as nat));
        },
        None => {},
    }
}

/// Mirrors log records into the buffer up to a verbosity.
#[derive(Clone, Copy, Debug)]
pub struct RingLogger {
    pub level: LevelFilter,
}

/// The ring logger at this verbosity.
pub fn ring_logger(level: LevelFilter) -> (logger: Box<RingLogger>)
    ensures
        logger.level == level,
{
    Box::new(RingLogger { level })
}

impl RingLogger {
    /// Whether a record of this level is taken.
    pub fn enabled(&self, level: Level) -> (yes: bool)
        ensures
            yes == (level.verbosity() <= self.level.verbosity()),
    {
        level.passes(self.level)
    }

    /// Captures a record that passes the verbosity.
    pub fn log(&self, buffer: Option<&mut LogBuffer>, level: Level, text: &str, now: u64)
        ensures
            buffer matches Some(b) ==> final(b)@ == (if level.verbosity()
                <= self.level.verbosity() {
                pushed_capped(
                    (*b)@,
                    LineView { level, text: clock(now) + " "@ + text@ },
                    CAP as nat,
                )
            } else {
                (*b)@
            }),
    {
        if !self.enabled(level) {
            return;
        }
        push(buffer, level, text, now);
    }
}

/// The texts of captured lines.
pub open spec fn line_texts(lines: Seq<LineView>) -> Seq<Seq<char>> {
    Seq::new(lines.len(), |i: int| lines[i].text)
}

/// The captured lines in one text, oldest first, a line each; nothing if a non-blocking attempt did not
/// get hold of the buffer.
pub fn tail_text(buffer: Option<&LogBuffer>) -> (out: String)
    ensures
        out@ == (match buffer {
            Some(b) => joined(line_texts(b@), "\n"@),
            None => Seq::<char>::empty(),
        }),
{
    match buffer {
        None => {
            let out = String::new();
            assert(out@ =~= Seq::<char>::empty());
            out
        },
        Some(b) => {
            let mut parts: Vec<String> = Vec::new();
            let ghost all = line_texts(b@);
            let mut i: usize = 0;
            assert(texts(parts@) =~= all.take(0));
            while i < b.lines.len()
                invariant
                    i <= b.lines@.len(),
                    all == line_texts(b@),
                    texts(parts@) == all.take(i as int),
                decreases b.lines@.len() - i,
            {
                let ghost before = texts(parts@);
                let part = b.lines[i].text.clone();
                let ghost chars = part@;
                parts.push(part);
                assert(texts(parts@) =~= before.push(chars));
                i = i + 1;
                assert(all.take(i as int) =~= before.push(all[i - 1]));
            }
            assert(all.take(i as int) =~= all);
            text::join(&parts, "\n")
        },
    }
}

/// The captured lines as they are listed, newest first, if a non-blocking attempt got hold of the buffer.
pub fn newest_first(buffer: Option<&LogBuffer>) -> (lines: Option<Vec<Line>>)
    ensures
        lines is Some == (buffer is Some),
        buffer matches Some(b) ==> Seq::new(lines->0@.len(), |i: int| lines->0@[i]@)
            == b@.reverse(),
{
    match buffer {
        None => None,
        Some(b) => {
            let mut lines: Vec<Line> = Vec::new();
            let mut i: usize = b.lines.len();
            let ghost all = b@.reverse();
            assert(Seq::new(lines@.len(), |k: int| lines@[k]@) =~= all.take(0));
            while i > 0
                invariant
                    i <= b.lines@.len(),
                    all == b@.reverse(),
                    lines@.len() == b.lines@.len() - i,
                    Seq::new(lines@.len(), |k: int| lines@[k]@) == all.take(
                        b.lines@.len() - i,
                    ),
                decreases i,
            {
                i = i - 1;
                let ghost before = Seq::new(lines@.len(), |k: int| lines@[k]@);
                let from = &b.lines[i];
                let copy = Line { level: from.level, text: from.text.clone() };
                let ghost shown = copy@;
                lines.push(copy);
                assert(Seq::new(lines@.len(), |k: int| lines@[k]@) =~= before.push(shown));
                assert(all.take(b.lines@.len() - i) =~= before.push(
                    all[b.lines@.len() - i - 1],
                ));
                assert(all[b.lines@.len() - i - 1] == b@[i as int]);
            }
            assert(all.take(b.lines@.len() as int) =~= all);
            Some(lines)
        },
    }
}

/// The clock shows the hours, minutes and seconds of the day, whatever the day.
pub proof fn the_clock_shows_the_time_of_day(day: nat, h: nat, m: nat, s: nat)
    requires
        h < 24,
        m < 60,
        s < 60,
        day * 86_400 + h * 3600 + m * 60 + s <= u64::MAX,
    ensures
        clock((day * 86_400 + h * 3600 + m * 60 + s) as u64) == zero_pad(dec(h), 2) + ":"@
            + zero_pad(dec(m), 2) + ":"@ + zero_pad(dec(s), 2),
{
    let secs = (day * 86_400 + h * 3600 + m * 60 + s) as u64;
    assert(secs % 86_400 == h * 3600 + m * 60 + s);
    assert((h * 3600 + m * 60 + s) / 3600 == h);
    assert((h * 3600 + m * 60 + s) % 3600 == m * 60 + s);
    assert((m * 60 + s) / 60 == m);
    assert((h * 3600 + m * 60 + s) % 60 == s);
}

} // verus!
