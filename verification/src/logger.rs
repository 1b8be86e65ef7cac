//! Which verbosity to log at, how a run's log is named, and which old logs are removed.

use vstd::prelude::*;
use vstd::seq_lib::group_to_multiset_ensures;

use crate::levels::{lines_view, push_line, Level, LevelFilter, LogLine, LogLineView};
use crate::text;
use crate::text::dec;

verus! {

/// Where logs go, relative to the install directory.
pub const LOG_DIR: &'static str = "unseamless-coop/logs";

/// How many past run logs are kept.
pub const KEEP_LOGS: usize = 5;

pub const PROFILE_SYMBOLS: &'static str = "debug-assertions on (symbols)";

pub const PROFILE_STRIPPED: &'static str = "release (stripped)";

/// The build profile as a log names it.
pub fn profile(debug_assertions: bool) -> (name: &'static str)
    ensures
        name@ == (if debug_assertions {
            PROFILE_SYMBOLS@
        } else {
            PROFILE_STRIPPED@
        }),
{
    if debug_assertions {
        PROFILE_SYMBOLS
    } else {
        PROFILE_STRIPPED
    }
}

/// The verbosity of a run: the configured one while debugging is on, else informational.
pub fn run_level(debug_enabled: bool, configured: LevelFilter) -> (level: LevelFilter)
    ensures
        level == (if debug_enabled {
            configured
        } else {
            LevelFilter::Info
        }),
        debug_enabled ==> level == configured,
        !debug_enabled ==> level == LevelFilter::Info,
{
    if debug_enabled {
        configured
    } else {
        LevelFilter::Info
    }
}

/// The name of a verbosity.
pub open spec fn level_chars(level: LevelFilter) -> Seq<char> {
    match level {
        LevelFilter::Off => "OFF"@,
        LevelFilter::Error => "ERROR"@,
        LevelFilter::Warn => "WARN"@,
        LevelFilter::Info => "INFO"@,
        LevelFilter::Debug => "DEBUG"@,
        LevelFilter::Trace => "TRACE"@,
    }
}

fn level_name(level: LevelFilter) -> (name: &'static str)
    ensures
        name@ == level_chars(level),
{
    match level {
        LevelFilter::Off => "OFF",
        LevelFilter::Error => "ERROR",
        LevelFilter::Warn => "WARN",
        LevelFilter::Info => "INFO",
        LevelFilter::Debug => "DEBUG",
        LevelFilter::Trace => "TRACE",
    }
}

pub const DEBUG_OFF: &'static str = "debug logging off; set [debug] enabled = true to capture verbose logs";

/// The first lines of a run's log: where it goes and at which verbosity, and how to get more.
pub open spec fn opening(level: LevelFilter, path: Seq<char>, debug_enabled: bool) -> Seq<
    LogLineView,
> {
    let first = Seq::empty().push(
        LogLineView {
            level: Level::Info,
            text: "logging at "@ + level_chars(level) + " -> "@ + path,
        },
    );
    if debug_enabled {
        first
    } else {
        first.push(LogLineView { level: Level::Info, text: DEBUG_OFF@ })
    }
}

/// The first lines of a run's log.
pub fn opening_lines(level: LevelFilter, path: &str, debug_enabled: bool) -> (lines: Vec<LogLine>)
    ensures
        lines_view(lines@) == opening(level, path@, debug_enabled),
{
    let mut lines: Vec<LogLine> = Vec::new();
    assert(lines_view(lines@) =~= Seq::empty());
    let mut out = "logging at ".to_owned();
    out.append(level_name(level));
    out.append(" -> ");
    out.append(path);
    push_line(&mut lines, Level::Info, out);
    if !debug_enabled {
        push_line(&mut lines, Level::Info, DEBUG_OFF.to_owned());
    }
    lines
}

/// The id of a run: the seconds since the epoch, then the process id.
pub open spec fn run_id_chars(secs: u64, pid: u32) -> Seq<char> {
    dec(secs as nat) + "-"@ + dec(pid as nat)
}

/// The id of a run.
pub fn run_id(secs: u64, pid: u32) -> (id: String)
    ensures
        id@ == run_id_chars(secs, pid),
{
    let mut out = text::dec_text(secs);
    out.append("-");
    out.append(text::dec_text(pid as u64).as_str());
    out
}

/// The file name of a run's log.
pub fn log_name(run_id: &str) -> (name: String)
    ensures
        name@ == "unseamless_coop-"@ + run_id@ + ".log"@,
{
    let mut out = "unseamless_coop-".to_owned();
    out.append(run_id);
    out.append(".log");
    out
}

/// The platform: system and architecture, and whether a compatibility layer runs us.
pub fn platform(os: &str, arch: &str, proton: bool) -> (name: String)
    ensures
        name@ == (if proton {
            os@ + "-"@ + arch@ + " (proton)"@
        } else {
            os@ + "-"@ + arch@
        }),
{
    let mut out = os.to_owned();
    out.append("-");
    out.append(arch);
    if proton {
        out.append(" (proton)");
    }
    out
}

/// Whether a file name is that of a run's log.
pub open spec fn is_log_name(name: Seq<char>) -> bool {
    "unseamless_coop-"@.is_prefix_of(name) && ".log"@.is_suffix_of(name)
}

/// Whether `a` comes before `b`, or is it, in the order of file names.
pub open spec fn name_le(a: Seq<char>, b: Seq<char>) -> bool
    decreases a.len(),
{
    if a.len() == 0 {
        true
    } else if b.len() == 0 {
        false
    } else if a[0] < b[0] {
        true
    } else if a[0] > b[0] {
        false
    } else {
        name_le(a.skip(1), b.skip(1))
    }
}

/// The order of names is total.
pub proof fn name_order_total(a: Seq<char>, b: Seq<char>)
    ensures
        name_le(a, b) || name_le(b, a),
    decreases a.len(),
{
    if a.len() > 0 && b.len() > 0 && a[0] == b[0] {
        name_order_total(a.skip(1), b.skip(1));
    }
}

/// The order of names is transitive.
pub proof fn name_order_transitive(a: Seq<char>, b: Seq<char>, c: Seq<char>)
    requires
        name_le(a, b),
        name_le(b, c),
    ensures
        name_le(a, c),
    decreases a.len(),
{
    if a.len() > 0 && b.len() > 0 && c.len() > 0 && a[0] == b[0] && b[0] == c[0] {
        name_order_transitive(a.skip(1), b.skip(1), c.skip(1));
    }
}

/// Whether one name comes before another, or is it.
pub fn name_at_most(a: &str, b: &str) -> (yes: bool)
    ensures
        yes == name_le(a@, b@),
{
    let n: usize = a.unicode_len();
    let m: usize = b.unicode_len();
    let mut i: usize = 0;
    assert(a@.skip(0) =~= a@);
    assert(b@.skip(0) =~= b@);
    while i < n && i < m
        invariant
            n == a@.len(),
            m == b@.len(),
            i <= n,
            i <= m,
            name_le(a@, b@) == name_le(a@.skip(i as int), b@.skip(i as int)),
        decreases n - i,
    {
        let x = a.get_char(i);
        let y = b.get_char(i);
        assert(a@.skip(i as int)[0] == x);
        assert(b@.skip(i as int)[0] == y);
        if x < y {
            return true;
        }
        if x > y {
            return false;
        }
        assert(a@.skip(i as int).skip(1) =~= a@.skip(i + 1));
        assert(b@.skip(i as int).skip(1) =~= b@.skip(i + 1));
        i = i + 1;
    }
    n <= i
}

/// Names in ascending order.
pub open spec fn names_sorted(names: Seq<String>) -> bool {
    forall|i: int, j: int|
        0 <= i < j < names.len() ==> name_le((#[trigger] names[i])@, (#[trigger] names[j])@)
}

/// The log names among the first `n` names, in their order.
pub open spec fn log_names(names: Seq<String>, n: nat) -> Seq<String>
    decreases n,
{
    if n == 0 {
        Seq::empty()
    } else {
        let before = log_names(names, (n - 1) as nat);
        if is_log_name(names[n - 1]@) {
            before.push(names[n - 1])
        } else {
            before
        }
    }
}

/// How many of `n` past logs are too many.
pub open spec fn surplus(n: nat) -> int {
    if n > KEEP_LOGS {
        n - KEEP_LOGS
    } else {
        0
    }
}

/// Puts a name into a sorted list at its place.
fn insert_sorted(list: &mut Vec<String>, name: String)
    requires
        names_sorted(old(list)@),
    ensures
        names_sorted(final(list)@),
        final(list)@.to_multiset() == old(list)@.to_multiset().insert(name),
        final(list)@.len() == old(list)@.len() + 1,
{
    let ghost start = list@;
    let mut at: usize = list.len();
    while at > 0 && !name_at_most(list[at - 1].as_str(), name.as_str())
        invariant
            list@ == start,
            at <= start.len(),
            names_sorted(start),
            forall|j: int| at <= j < start.len() ==> name_le(name@, (#[trigger] start[j])@),
        decreases at,
    {
        proof {
            name_order_total(start[at - 1]@, name@);
        }
        at = at - 1;
    }
    let ghost added = name;
    list.insert(at, name);
    proof {
        broadcast use group_to_multiset_ensures;

        assert(list@ == start.insert(at as int, added));
        assert forall|i: int, j: int| 0 <= i < j < list@.len() implies name_le(
            (#[trigger] list@[i])@,
            (#[trigger] list@[j])@,
        ) by {
            let old_i = if i < at {
                i
            } else {
                i - 1
            };
            let old_j = if j < at {
                j
            } else {
                j - 1
            };
            if i == at {
                assert(list@[i] == added);
                assert(list@[j] == start[old_j]);
            } else if j == at {
                assert(list@[j] == added);
                assert(list@[i] == start[i]);
                if i < at - 1 {
                    assert(name_le(start[i]@, start[at - 1]@));
                    name_order_transitive(start[i]@, start[at - 1]@, added@);
                }
            } else {
                assert(list@[i] == start[old_i]);
                assert(list@[j] == start[old_j]);
            }
        }
        assert(list@.to_multiset() =~= start.to_multiset().insert(added));
    }
}

/// The logs to remove before a new one is opened, oldest first, out of the file names of the log
/// directory: all past run logs but the newest five. Names sort by age.
pub fn prune_old_logs(names: &Vec<String>) -> (removed: Vec<String>)
    ensures
        ({
            let logs = log_names(names@, names@.len());
            exists|sorted: Seq<String>|
                {
                    &&& #[trigger] names_sorted(sorted)
                    &&& sorted.to_multiset() == logs.to_multiset()
                    &&& sorted.len() == logs.len()
                    &&& removed@ == sorted.take(surplus(logs.len()))
                }
        }),
{
    let mut sorted: Vec<String> = Vec::new();
    let mut i: usize = 0;
    proof {
        assert(sorted@ =~= log_names(names@, 0));
    }
    while i < names.len()
        invariant
            i <= names@.len(),
            names_sorted(sorted@),
            sorted@.to_multiset() == log_names(names@, i as nat).to_multiset(),
            sorted@.len() == log_names(names@, i as nat).len(),
        decreases names@.len() - i,
    {
        let name = &names[i];
        if text::starts_with(name.as_str(), "unseamless_coop-") && text::ends_with(
            name.as_str(),
            ".log",
        ) {
            let ghost before = log_names(names@, i as nat);
            insert_sorted(&mut sorted, name.clone());
            proof {
                broadcast use group_to_multiset_ensures;

                assert(log_names(names@, (i + 1) as nat) == before.push(names@[i as int]));
            }
        }
        i = i + 1;
    }
    let keep: usize = KEEP_LOGS;
    let ghost all = sorted@;
    let gone: usize = if sorted.len() > keep {
        sorted.len() - keep
    } else {
        0
    };
    let mut removed: Vec<String> = Vec::new();
    let mut k: usize = 0;
    while k < gone
        invariant
            k <= gone,
            gone <= sorted@.len(),
            sorted@ == all,
            removed@ == all.take(k as int),
        decreases gone - k,
    {
        removed.push(sorted[k].clone());
        k = k + 1;
        assert(removed@ =~= all.take(k as int));
    }
    removed
}

/// Removing leaves the newest logs, as many as are kept and all where there are no more: none that is removed
/// is newer than one that stays.
pub proof fn pruning_keeps_the_newest(sorted: Seq<String>)
    requires
        names_sorted(sorted),
    ensures
        ({
            let gone = surplus(sorted.len());
            &&& sorted.skip(gone).len() == (if sorted.len() <= KEEP_LOGS {
                sorted.len()
            } else {
                KEEP_LOGS as nat
            })
            &&& forall|i: int, j: int|
                0 <= i < gone <= j < sorted.len() ==> name_le(
                    (#[trigger] sorted[i])@,
                    (#[trigger] sorted[j])@,
                )
        }),
{
}

/// The log of any run is recognised as one, and a name that begins or ends otherwise is not.
pub proof fn the_log_of_a_run_is_recognised(run: Seq<char>, name: Seq<char>)
    ensures
        is_log_name("unseamless_coop-"@ + run + ".log"@),
        is_log_name(name) ==> name.len() >= 16 && name.take(16) == "unseamless_coop-"@ && name.skip(
            name.len() - 4,
        ) == ".log"@,
{
    reveal_strlit("unseamless_coop-");
    reveal_strlit(".log");
    let full = "unseamless_coop-"@ + run + ".log"@;
    assert("unseamless_coop-"@.is_prefix_of(full));
    assert(".log"@.is_suffix_of(full)) by {
        assert(full.subrange(full.len() - 4, full.len() as int) =~= ".log"@);
    }
    if is_log_name(name) {
        assert(name.take(16) =~= "unseamless_coop-"@);
        assert(name.skip(name.len() - 4) =~= ".log"@);
    }
}

/// Every log is among the logs, and nothing else is.
pub proof fn every_log_is_listed(names: Seq<String>, n: nat)
    requires
        n <= names.len(),
    ensures
        log_names(names, n).len() <= n,
        forall|i: int|
            0 <= i < n && is_log_name((#[trigger] names[i])@) ==> log_names(names, n).contains(
                names[i],
            ),
        forall|k: int|
            0 <= k < log_names(names, n).len() ==> is_log_name((#[trigger] log_names(names, n)[k])@)
                && names.contains(log_names(names, n)[k]),
    decreases n,
{
    if n > 0 {
        every_log_is_listed(names, (n - 1) as nat);
        let before = log_names(names, (n - 1) as nat);
        let now = log_names(names, n);
        assert forall|i: int|
            0 <= i < n && is_log_name((#[trigger] names[i])@) implies now.contains(names[i]) by {
            if i < n - 1 {
                assert(before.contains(names[i]));
                let j = choose|j: int| 0 <= j < before.len() && before[j] == names[i];
                assert(now[j] == names[i]);
            } else {
                assert(now[before.len() as int] == names[i]);
            }
        }
        assert forall|k: int| 0 <= k < now.len() implies is_log_name((#[trigger] now[k])@)
            && names.contains(now[k]) by {
            if k < before.len() {
                assert(before[k] == now[k]);
            } else {
                assert(names[n - 1] == now[k]);
            }
        }
    }
}

/// Of up to five logs none is too many; of more all but five are.
pub proof fn five_logs_are_kept(n: nat)
    ensures
        n <= 5 ==> surplus(n) == 0,
        n >= 5 ==> n - surplus(n) == 5,
{
}

/// Names are ordered by the first character in which they differ; a name goes before whatever it begins.
pub proof fn names_are_ordered_by_their_characters(a: Seq<char>, b: Seq<char>, k: int)
    requires
        0 <= k <= a.len(),
        k <= b.len(),
        a.take(k) == b.take(k),
    ensures
        k == a.len() ==> name_le(a, b),
        k < a.len() && k == b.len() ==> !name_le(a, b),
        k < a.len() && k < b.len() && a[k] < b[k] ==> name_le(a, b) && !name_le(b, a),
        k < a.len() && k < b.len() && a[k] > b[k] ==> !name_le(a, b),
    decreases k,
{
    if k > 0 {
        assert(a.take(k)[0] == a[0]);
        assert(b.take(k)[0] == b[0]);
        assert(a.skip(1).take(k - 1) =~= a.take(k).skip(1));
        assert(b.skip(1).take(k - 1) =~= b.take(k).skip(1));
        names_are_ordered_by_their_characters(a.skip(1), b.skip(1), k - 1);
        assert(k < a.len() ==> a.skip(1)[k - 1] == a[k]);
        assert(k < b.len() ==> b.skip(1)[k - 1] == b[k]);
        assert(name_le(a, b) == name_le(a.skip(1), b.skip(1)));
        assert(name_le(b, a) == name_le(b.skip(1), a.skip(1)));
    }
}

/// The log opens with its level and its place; where verbose logging is off, that is said too.
pub proof fn the_log_opens_with_its_place(level: LevelFilter, path: Seq<char>)
    ensures
        opening(level, path, true).len() == 1,
        opening(level, path, false).len() == 2,
        opening(level, path, true)[0] == opening(level, path, false)[0],
        opening(level, path, true)[0].text == "logging at "@ + level_chars(level) + " -> "@ + path,
        opening(level, path, false)[1].text == DEBUG_OFF@,
{
}

/// A run goes by when it began and which process it is, and a level by its name.
pub proof fn a_run_goes_by_its_time_and_process(secs: u64, pid: u32)
    ensures
        run_id_chars(secs, pid) == dec(secs as nat) + "-"@ + dec(pid as nat),
        level_chars(LevelFilter::Off) == "OFF"@,
        level_chars(LevelFilter::Error) == "ERROR"@,
        level_chars(LevelFilter::Warn) == "WARN"@,
        level_chars(LevelFilter::Info) == "INFO"@,
        level_chars(LevelFilter::Debug) == "DEBUG"@,
        level_chars(LevelFilter::Trace) == "TRACE"@,
{
}

/// How the log opens is told to everyone.
pub proof fn the_opening_is_told_to_everyone(level: LevelFilter, path: Seq<char>)
    ensures
        opening(level, path, true)[0].level == Level::Info,
        opening(level, path, false)[1].level == Level::Info,
{
}

} // verus!
