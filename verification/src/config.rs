//! What loading the configuration comes to: where the settings come from and what is noted about it.

use vstd::prelude::*;

use crate::levels::{lines_view, push_line, Level, LogLine, LogLineView};

verus! {

/// The configuration file, relative to the install directory.
pub const CONFIG_REL: &'static str = "unseamless-coop/unseamless_coop.toml";

pub const PASSWORD_NOTE: &'static str = "generated a random co-op password; share it with friends (it's in the config file)";

/// How reading the file went.
#[derive(Debug)]
pub enum ReadOutcome {
    /// It was read and understood, with these warnings.
    Parsed(Vec<String>),
    /// It was read and could not be understood.
    Malformed(String),
    /// It could not be read.
    Missing(String),
}

/// Where the settings come from.
#[derive(Clone, Copy, Debug, PartialEq, Eq, Structural)]
pub enum ConfigSource {
    /// The file.
    File,
    /// The built-in defaults; the file stays as it is.
    Defaults,
    /// The built-in defaults with a fresh random password, which are written to the file.
    FreshDefaults,
}

/// Where the settings come from after such a reading.
pub open spec fn source_of(read: ReadOutcome) -> ConfigSource {
    match read {
        ReadOutcome::Parsed(_) => ConfigSource::File,
        ReadOutcome::Malformed(_) => ConfigSource::Defaults,
        ReadOutcome::Missing(_) => ConfigSource::FreshDefaults,
    }
}

/// Where the settings come from.
pub fn config_source(read: &ReadOutcome) -> (source: ConfigSource)
    ensures
        source == source_of(*read),
{
    match read {
        ReadOutcome::Parsed(_) => ConfigSource::File,
        ReadOutcome::Malformed(_) => ConfigSource::Defaults,
        ReadOutcome::Missing(_) => ConfigSource::FreshDefaults,
    }
}

/// The notes on the warnings of a file.
pub open spec fn warning_notes(warnings: Seq<String>) -> Seq<LogLineView> {
    Seq::new(
        warnings.len(),
        |i: int| LogLineView { level: Level::Warn, text: "config: "@ + warnings[i]@ },
    )
}

/// Everything noted about a load from `path`; `written` is how writing the fresh defaults went.
pub open spec fn load_notes(
    path: Seq<char>,
    read: ReadOutcome,
    written: Result<(), String>,
) -> Seq<LogLineView> {
    match read {
        ReadOutcome::Parsed(warnings) => warning_notes(warnings@).push(
            LogLineView { level: Level::Info, text: "loaded config from "@ + path },
        ),
        ReadOutcome::Malformed(e) => Seq::empty().push(
            LogLineView {
                level: Level::Error,
                text: "config at "@ + path + " is malformed ("@ + e@ + "); using defaults"@,
            },
        ),
        ReadOutcome::Missing(e) => {
            let missing = Seq::empty().push(
                LogLineView {
                    level: Level::Warn,
                    text: "no config at "@ + path + " ("@ + e@ + "); using defaults"@,
                },
            );
            match written {
                Ok(_) => missing.push(
                    LogLineView { level: Level::Info, text: "wrote default config to "@ + path },
                ).push(LogLineView { level: Level::Info, text: PASSWORD_NOTE@ }),
                Err(w) => missing.push(
                    LogLineView {
                        level: Level::Warn,
                        text: "couldn't write default config: "@ + w@,
                    },
                ),
            }
        },
    }
}

/// The notes to log, once there is a log, about a load from `path`.
pub fn load(path: &str, read: &ReadOutcome, written: &Result<(), String>) -> (notes: Vec<LogLine>)
    ensures
        lines_view(notes@) == load_notes(path@, *read, *written),
{
    let mut notes: Vec<LogLine> = Vec::new();
    assert(lines_view(notes@) =~= Seq::empty());
    match read {
        ReadOutcome::Parsed(warnings) => {
            let ghost all = warning_notes(warnings@);
            let mut i: usize = 0;
            assert(lines_view(notes@) =~= all.take(0));
            while i < warnings.len()
                invariant
                    i <= warnings@.len(),
                    all == warning_notes(warnings@),
                    lines_view(notes@) == all.take(i as int),
                decreases warnings@.len() - i,
            {
                let mut out = "config: ".to_owned();
                out.append(warnings[i].as_str());
                push_line(&mut notes, Level::Warn, out);
                i = i + 1;
                assert(all.take(i as int) =~= all.take(i - 1).push(all[i - 1]));
            }
            assert(all.take(i as int) =~= all);
            let mut out = "loaded config from ".to_owned();
            out.append(path);
            push_line(&mut notes, Level::Info, out);
        },
        ReadOutcome::Malformed(e) => {
            let mut out = "config at ".to_owned();
            out.append(path);
            out.append(" is malformed (");
            out.append(e.as_str());
            out.append("); using defaults");
            push_line(&mut notes, Level::Error, out);
        },
        ReadOutcome::Missing(e) => {
            let mut out = "no config at ".to_owned();
            out.append(path);
            out.append(" (");
            out.append(e.as_str());
            out.append("); using defaults");
            push_line(&mut notes, Level::Warn, out);
            match written {
                Ok(_) => {
                    let mut wrote = "wrote default config to ".to_owned();
                    wrote.append(path);
                    push_line(&mut notes, Level::Info, wrote);
                    push_line(&mut notes, Level::Info, PASSWORD_NOTE.to_owned());
                },
                Err(w) => {
                    let mut failed = "couldn't write default config: ".to_owned();
                    failed.append(w.as_str());
                    push_line(&mut notes, Level::Warn, failed);
                },
            }
        },
    }
    notes
}

/// Byte number `i` of the fall-back for random bytes: a byte of the seed, mixed with the position.
pub open spec fn weak_byte(seed: u128, i: nat) -> u8 {
    ((seed >> (((i % 16) * 8) as u128)) as u8) ^ ((((i % 256) as u8) as nat * 31) % 256) as u8
}

/// The fall-back for `n` random bytes when the system has none: weak, but never empty.
pub fn weak_bytes(seed: u128, n: usize) -> (bytes: Vec<u8>)
    ensures
        bytes@ == Seq::new(n as nat, |i: int| weak_byte(seed, i as nat)),
{
    let mut bytes: Vec<u8> = Vec::new();
    let mut i: usize = 0;
    while i < n
        invariant
            i <= n,
            bytes@ == Seq::new(i as nat, |k: int| weak_byte(seed, k as nat)),
        decreases n - i,
    {
        let shift: u128 = ((i % 16) * 8) as u128;
        assert(shift < 128);
        let low: u8 = (i % 256) as u8;
        let mixed: u8 = low.wrapping_mul(31);
        let picked: u8 = (seed >> shift) as u8;
        bytes.push(picked ^ mixed);
        i = i + 1;
        assert(bytes@ =~= Seq::new(i as nat, |k: int| weak_byte(seed, k as nat)));
    }
    bytes
}

/// Settings come from the file exactly if it could be read and understood; only a file that is missing is replaced.
pub proof fn a_readable_file_is_used(read: ReadOutcome)
    ensures
        (source_of(read) == ConfigSource::File) == (read is Parsed),
        (source_of(read) == ConfigSource::FreshDefaults) == (read is Missing),
        (source_of(read) == ConfigSource::Defaults) == (read is Malformed),
{
}

/// Every warning about the file is noted, in order, before that it was loaded; a file that is not used is noted as
/// an error or a warning, and a new password exactly if it was written.
pub proof fn every_warning_is_noted(
    path: Seq<char>,
    read: ReadOutcome,
    written: Result<(), String>,
    i: int,
)
    ensures
        read matches ReadOutcome::Parsed(w) ==> {
            &&& load_notes(path, read, written).len() == w@.len() + 1
            &&& load_notes(path, read, written).last().text == "loaded config from "@ + path
            &&& 0 <= i < w@.len() ==> load_notes(path, read, written)[i].text == "config: "@
                + w@[i]@ && load_notes(path, read, written)[i].level == Level::Warn
        },
        read is Malformed ==> load_notes(path, read, written).len() == 1 && load_notes(
            path,
            read,
            written,
        )[0].level == Level::Error,
        read is Missing ==> load_notes(path, read, written)[0].level == Level::Warn,
        read is Missing && written is Ok ==> load_notes(path, read, written).last().text
            == PASSWORD_NOTE@,
        read is Missing && written is Err ==> load_notes(path, read, written).len() == 2
            && load_notes(path, read, written).last().text == "couldn't write default config: "@
            + written->Err_0@,
{
}

/// Each byte takes up its own byte of the seed: what two seeds make of a place differs exactly as they do there.
pub proof fn each_byte_takes_up_the_seed(seed: u128, i: nat)
    ensures
        weak_byte(seed, i) ^ weak_byte(0, i) == (seed >> (((i % 16) * 8) as u128)) as u8,
        weak_byte(seed, i + 256) == weak_byte(seed, i),
{
    let s = ((i % 16) * 8) as u128;
    let x = (seed >> s) as u8;
    let z = (0u128 >> s) as u8;
    let y = ((((i % 256) as u8) as nat * 31) % 256) as u8;
    assert((0u128 >> s) as u8 == 0) by (bit_vector)
        requires
            s < 128,
    ;
    assert((x ^ y) ^ (z ^ y) == x) by (bit_vector)
        requires
            z == 0,
    ;
    assert((i + 256) % 16 == i % 16);
    assert((i + 256) % 256 == i % 256);
}

/// What was loaded or written is told to everyone; what could not be is a warning.
pub proof fn how_loud_loading_is_told(path: Seq<char>, read: ReadOutcome, written: Result<(), String>)
    ensures
        read is Parsed ==> load_notes(path, read, written).last().level == Level::Info,
        read is Missing && written is Ok ==> load_notes(path, read, written).len() == 3
            && load_notes(path, read, written)[1].level == Level::Info && load_notes(
            path,
            read,
            written,
        )[1].text == "wrote default config to "@ + path && load_notes(path, read, written)[2].level
            == Level::Info,
        read is Missing && written is Err ==> load_notes(path, read, written)[1].level
            == Level::Warn,
        read matches ReadOutcome::Malformed(e) ==> load_notes(path, read, written)[0].text
            == "config at "@ + path + " is malformed ("@ + e@ + "); using defaults"@,
        read matches ReadOutcome::Missing(e) ==> load_notes(path, read, written)[0].text
            == "no config at "@ + path + " ("@ + e@ + "); using defaults"@,
{
}

} // verus!
