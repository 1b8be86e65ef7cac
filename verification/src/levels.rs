//! Log levels and the lines that the library asks to have logged.

use vstd::prelude::*;

verus! {

/// The severity of one log line.
#[derive(Clone, Copy, Debug, PartialEq, Eq, Structural)]
pub enum Level {
    Error,
    Warn,
    Info,
    Debug,
    Trace,
}

/// The most verbose level that still passes, or none at all.
#[derive(Clone, Copy, Debug, PartialEq, Eq, Structural)]
pub enum LevelFilter {
    Off,
    Error,
    Warn,
    Info,
    Debug,
    Trace,
}

impl Level {
    /// How verbose the level is: errors least, traces most.
    pub open spec fn verbosity(self) -> int {
        match self {
            Level::Error => 1,
            Level::Warn => 2,
            Level::Info => 3,
            Level::Debug => 4,
            Level::Trace => 5,
        }
    }

    fn rank(self) -> (r: u8)
        ensures
            r as int == self.verbosity(),
    {
        match self {
            Level::Error => 1,
            Level::Warn => 2,
            Level::Info => 3,
            Level::Debug => 4,
            Level::Trace => 5,
        }
    }

    /// Whether a filter lets the level through.
    pub fn passes(self, filter: LevelFilter) -> (yes: bool)
        ensures
            yes == (self.verbosity() <= filter.verbosity()),
    {
        self.rank() <= filter.rank()
    }

    /// Whether the level is a warning or an error.
    pub fn is_warning(self) -> (yes: bool)
        ensures
            yes == (self.verbosity() <= Level::Warn.verbosity()),
    {
        self.rank() <= 2
    }
}

impl LevelFilter {
    /// The verbosity of the last level that passes; zero lets nothing through.
    pub open spec fn verbosity(self) -> int {
        match self {
            LevelFilter::Off => 0,
            LevelFilter::Error => 1,
            LevelFilter::Warn => 2,
            LevelFilter::Info => 3,
            LevelFilter::Debug => 4,
            LevelFilter::Trace => 5,
        }
    }

    fn rank(self) -> (r: u8)
        ensures
            r as int == self.verbosity(),
    {
        match self {
            LevelFilter::Off => 0,
            LevelFilter::Error => 1,
            LevelFilter::Warn => 2,
            LevelFilter::Info => 3,
            LevelFilter::Debug => 4,
            LevelFilter::Trace => 5,
        }
    }
}

/// One line to log.
#[derive(Debug)]
pub struct LogLine {
    pub level: Level,
    pub text: String,
}

/// The level and the characters of a log line.
pub struct LogLineView {
    pub level: Level,
    pub text: Seq<char>,
}

impl View for LogLine {
    type V = LogLineView;

    open spec fn view(&self) -> LogLineView {
        LogLineView { level: self.level, text: self.text@ }
    }
}

/// The views of a list of log lines.
pub open spec fn lines_view(lines: Seq<LogLine>) -> Seq<LogLineView> {
    Seq::new(lines.len(), |i: int| lines[i]@)
}

/// Appends a line to a list of lines.
pub fn push_line(lines: &mut Vec<LogLine>, level: Level, text: String)
    ensures
        lines_view(final(lines)@) == lines_view(old(lines)@).push(
            LogLineView { level, text: text@ },
        ),
{
    lines.push(LogLine { level, text });
    assert(lines_view(lines@) =~= lines_view(old(lines)@).push(LogLineView { level, text: text@ }));
}

/// A filter lets its own level through and every graver one, but none that is more verbose; no level passes where
/// logging is off.
pub proof fn a_filter_passes_its_own_level_and_graver_ones()
    ensures
        0 == LevelFilter::Off.verbosity() < Level::Error.verbosity(),
        Level::Error.verbosity() == LevelFilter::Error.verbosity() < Level::Warn.verbosity(),
        Level::Warn.verbosity() == LevelFilter::Warn.verbosity() < Level::Info.verbosity(),
        Level::Info.verbosity() == LevelFilter::Info.verbosity() < Level::Debug.verbosity(),
        Level::Debug.verbosity() == LevelFilter::Debug.verbosity() < Level::Trace.verbosity(),
        Level::Trace.verbosity() == LevelFilter::Trace.verbosity(),
{
}

/// What is told of a list of lines is every line of it, with its level and its text.
pub proof fn lines_are_told_as_they_are(lines: Seq<LogLine>, i: int)
    requires
        0 <= i < lines.len(),
    ensures
        lines_view(lines).len() == lines.len(),
        lines_view(lines)[i].level == lines[i].level,
        lines_view(lines)[i].text == lines[i].text@,
{
}

} // verus!
