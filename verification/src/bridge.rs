//! The development bridge: the mod is driven over a local socket as a client.

use vstd::prelude::*;

use crate::levels::{Level, LogLine, LogLineView};
use crate::text;
use crate::text::dec;

verus! {

/// The peer that drives the mod.
pub const BRIDGE_HOST_ID: u64 = 1;

/// The mod itself.
pub const BRIDGE_CLIENT_ID: u64 = 2;

/// Milliseconds between two rounds.
pub const TICK: u64 = 50;

/// The address that is listened on.
pub open spec fn address_chars(port: u16) -> Seq<char> {
    "127.0.0.1:"@ + dec(port as nat)
}

/// The address that is listened on.
pub fn address(port: u16) -> (addr: String)
    ensures
        addr@ == address_chars(port),
{
    let mut out = "127.0.0.1:".to_owned();
    out.append(text::dec_text(port as u64).as_str());
    out
}

/// Whether the bridge is started: only where a port is configured.
pub fn should_start(port: u16) -> (yes: bool)
    ensures
        yes == (port > 0),
{
    port > 0
}

/// The line on listening, or on why it failed.
pub fn listening_line(port: u16, error: Option<&str>) -> (line: LogLine)
    ensures
        line@ == (match error {
            None => LogLineView {
                level: Level::Info,
                text: "bridge listening on "@ + address_chars(port)
                    + " (dev side-channel; drive with `harness bridge-host "@ + dec(port as nat)
                    + "`)"@,
            },
            Some(e) => LogLineView {
                level: Level::Warn,
                text: "bridge: could not bind "@ + address_chars(port) + ": "@ + e@
                    + "; bridge disabled"@,
            },
        }),
{
    match error {
        None => {
            let mut out = "bridge listening on ".to_owned();
            out.append(address(port).as_str());
            out.append(" (dev side-channel; drive with `harness bridge-host ");
            out.append(text::dec_text(port as u64).as_str());
            out.append("`)");
            LogLine { level: Level::Info, text: out }
        },
        Some(e) => {
            let mut out = "bridge: could not bind ".to_owned();
            out.append(address(port).as_str());
            out.append(": ");
            out.append(e);
            out.append("; bridge disabled");
            LogLine { level: Level::Warn, text: out }
        },
    }
}

/// Whether the settings of the session are taken over into the live ones: when they were never taken
/// over, and when they differ from those taken over last. `same` is that comparison, where there is one
/// to make.
pub fn mirrors(same: Option<bool>) -> (yes: bool)
    ensures
        yes == (same != Some(true)),
{
    match same {
        Some(s) => !s,
        None => true,
    }
}

/// The bridge is only ever reached from this machine.
pub proof fn the_bridge_is_local(port: u16)
    ensures
        address_chars(port) == "127.0.0.1:"@ + dec(port as nat),
{
}

} // verus!
