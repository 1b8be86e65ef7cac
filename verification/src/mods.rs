//! Which extra mods are loaded, and what is said about each.

use vstd::prelude::*;

use crate::levels::{Level, LogLine, LogLineView};
use crate::text;
use crate::text::{ascii_lower_all, dec};

verus! {

/// The room for our own module's path, in UTF-16 units.
pub const PATH_CAP: usize = 1024;

/// One entry of the mods directory.
#[derive(Debug)]
pub struct DirEntry {
    pub name: String,
    /// Whether it is a regular file.
    pub is_file: bool,
}

/// Whether an entry is a loadable mod: a regular file whose name ends in `.dll`, in any case.
pub open spec fn is_dll(entry: DirEntry) -> bool {
    entry.is_file && ".dll"@.is_suffix_of(ascii_lower_all(entry.name@))
}

/// The names of the mods among the first `n` entries, in their order.
pub open spec fn dll_names(entries: Seq<DirEntry>, n: nat) -> Seq<String>
    decreases n,
{
    if n == 0 {
        Seq::empty()
    } else {
        let before = dll_names(entries, (n - 1) as nat);
        if is_dll(entries[n - 1]) {
            before.push(entries[n - 1].name)
        } else {
            before
        }
    }
}

/// The mods among the entries of a directory, in their order.
pub fn discover_dlls(entries: &Vec<DirEntry>) -> (names: Vec<String>)
    ensures
        names@ == dll_names(entries@, entries@.len()),
{
    let mut names: Vec<String> = Vec::new();
    let mut i: usize = 0;
    while i < entries.len()
        invariant
            i <= entries@.len(),
            names@ == dll_names(entries@, i as nat),
        decreases entries@.len() - i,
    {
        let e = &entries[i];
        if e.is_file {
            let low = text::ascii_lowercase(e.name.as_str());
            if text::ends_with(low.as_str(), ".dll") {
                names.push(e.name.clone());
            }
        }
        i = i + 1;
    }
    names
}

/// Whether a path of `n` units, read into a buffer of the fixed room, was read whole.
pub fn path_read_whole(n: usize) -> (whole: bool)
    ensures
        whole == (0 < n < PATH_CAP),
{
    n != 0 && n < PATH_CAP
}

/// What loading extra mods starts with.
#[derive(Debug)]
pub enum LoadStart {
    /// Nothing is loaded, and this is why.
    Nothing(LogLine),
    /// The mods are loaded in their order, after this line.
    Load(LogLine),
}

/// Whether any mods are loaded: loading must be on and something must have been found. `ordered` is
/// the number of mods in load order.
pub fn load_start(enabled: bool, dir: &str, found: usize, ordered: usize) -> (start: LoadStart)
    ensures
        match start {
            LoadStart::Nothing(line) => (!enabled || found == 0) && line@ == (LogLineView {
                level: Level::Info,
                text: if !enabled {
                    "extra mod loading disabled ([loader] enabled = false)"@
                } else {
                    "no extra mods found in "@ + dir@
                },
            }),
            LoadStart::Load(line) => enabled && found > 0 && line@ == (LogLineView {
                level: Level::Info,
                text: "loading "@ + dec(ordered as nat) + " extra mod(s) from "@ + dir@,
            }),
        },
        start is Load == (enabled && found > 0),
{
    if !enabled {
        return LoadStart::Nothing(
            LogLine {
                level: Level::Info,
                text: "extra mod loading disabled ([loader] enabled = false)".to_owned(),
            },
        );
    }
    if found == 0 {
        let mut out = "no extra mods found in ".to_owned();
        out.append(dir);
        return LoadStart::Nothing(LogLine { level: Level::Info, text: out });
    }
    let mut out = "loading ".to_owned();
    out.append(text::dec_text(ordered as u64).as_str());
    out.append(" extra mod(s) from ");
    out.append(dir);
    LoadStart::Load(LogLine { level: Level::Info, text: out })
}

/// The line on one mod: a failure is logged and the rest still load.
pub fn load_result(name: &str, loaded: bool) -> (line: LogLine)
    ensures
        line@ == (if loaded {
            LogLineView { level: Level::Info, text: "loaded mod: "@ + name@ }
        } else {
            LogLineView { level: Level::Error, text: "failed to load mod: "@ + name@ }
        }),
{
    if loaded {
        let mut out = "loaded mod: ".to_owned();
        out.append(name);
        LogLine { level: Level::Info, text: out }
    } else {
        let mut out = "failed to load mod: ".to_owned();
        out.append(name);
        LogLine { level: Level::Error, text: out }
    }
}

/// Every name that is found belongs to a regular file of the directory with the right ending.
pub proof fn only_dlls_are_found(entries: Seq<DirEntry>, n: nat, k: int)
    requires
        n <= entries.len(),
        0 <= k < dll_names(entries, n).len(),
    ensures
        exists|i: int|
            0 <= i < n && is_dll(#[trigger] entries[i]) && entries[i].name == dll_names(
                entries,
                n,
            )[k],
    decreases n,
{
    if n > 0 {
        let before = dll_names(entries, (n - 1) as nat);
        if k < before.len() {
            only_dlls_are_found(entries, (n - 1) as nat, k);
            let i = choose|i: int|
                0 <= i < n - 1 && is_dll(#[trigger] entries[i]) && entries[i].name == before[k];
            assert(entries[i].name == dll_names(entries, n)[k]);
        } else {
            assert(entries[n - 1].name == dll_names(entries, n)[k]);
        }
    }
}

/// Every library in the folder is found, in the order of the folder; a folder of libraries is found whole.
pub proof fn every_dll_is_found(entries: Seq<DirEntry>, n: nat)
    requires
        n <= entries.len(),
    ensures
        dll_names(entries, n).len() <= n,
        forall|i: int|
            0 <= i < n && (#[trigger] entries[i]).is_file && ".dll"@.is_suffix_of(
                ascii_lower_all(entries[i].name@),
            ) ==> dll_names(entries, n).contains(entries[i].name),
        (forall|i: int| 0 <= i < n ==> !(#[trigger] entries[i]).is_file) ==> dll_names(
            entries,
            n,
        ).len() == 0,
    decreases n,
{
    if n > 0 {
        every_dll_is_found(entries, (n - 1) as nat);
        let before = dll_names(entries, (n - 1) as nat);
        let now = dll_names(entries, n);
        assert forall|i: int|
            0 <= i < n && (#[trigger] entries[i]).is_file && ".dll"@.is_suffix_of(
                ascii_lower_all(entries[i].name@),
            ) implies now.contains(entries[i].name) by {
            if i < n - 1 {
                assert(before.contains(entries[i].name));
                let j = choose|j: int| 0 <= j < before.len() && before[j] == entries[i].name;
                assert(now[j] == entries[i].name);
            } else {
                assert(now[before.len() as int] == entries[i].name);
            }
        }
    }
}

/// A folder is no library, and neither is a file with another ending.
pub proof fn other_entries_are_no_libraries(entry: DirEntry)
    ensures
        !entry.is_file ==> !is_dll(entry),
        !".dll"@.is_suffix_of(ascii_lower_all(entry.name@)) ==> !is_dll(entry),
{
}

} // verus!
