//! Whether the session roster produces remote characters in the world, whether they move, and whether
//! the camera looks at one: a roster line about once a second plus a line for every edge, and a lever
//! that aims the camera at a phantom.
//!
//! Positions are relative to the map block a character stands in, so a distance is only ever printed
//! between two positions in the same block.

use std::collections::BTreeMap;

use vstd::prelude::*;

use crate::levels::{lines_view, push_line, Level, LogLine, LogLineView};
use crate::text;
use crate::text::{dec, hex_digits, zero_pad};

verus! {

/// An empty roster is logged on every this many samples only.
pub const QUIET_SAMPLE_EVERY: u32 = 30;

/// The most edge lines logged between two samples.
pub const MAX_EDGES_PER_INTERVAL: u32 = 8;

/// The load status of a character whose data may be read.
pub const STATUS_ACTIVE: u8 = 2;

/// The update type of a networked character.
pub const UPDATE_REMOTE: u8 = 4;

/// Frames after acquiring a target at which the camera is read back.
pub const CONFIRM_AFTER_FRAMES: u64 = 60;

/// Consecutive frames without a target after which the camera is released.
pub const RELEASE_AFTER_FRAMES: u64 = 30;

/// The camera type that follows the death-cam target.
pub const DEATH_CAM: u32 = 7;

pub const WAITING: &'static str = "presence-probe: enabled and ticking; no WorldChrMan yet (title screen / loading). Roster lines start once the world is live.";

pub const LIVE_HEAD: &'static str = "presence-probe: live @tick ";

pub const LIVE_TAIL: &'static str = " — watching WorldChrMan::player_chr_set (phantoms exclude the local player); roster every 1s plus spawn/despawn/status edges. Positions are Havok space (per-block origin): dist=/moved= print n/a across a block change. Correlate machines by timestamp, not @tick (it counts this feature's own ticks).";

pub const GONE_HEAD: &'static str = "presence-probe: world gone (no WorldChrMan) — roster invalidated, ";

pub const GONE_TAIL: &'static str = " phantom(s) dropped without a DESPAWNED edge";

pub const NO_EXCLUSION: &'static str = " | WARNING self-exclusion UNAVAILABLE (main_player not wired) — the local player's own entry may be counted as a phantom above";

/// A position in the world: the bit patterns of its three coordinates.
#[derive(Clone, Copy, Debug, PartialEq, Eq, Structural)]
pub struct Pos {
    pub x: u32,
    pub y: u32,
    pub z: u32,
}

/// What can be read of a character that is active.
#[derive(Debug)]
pub struct Detail {
    pub pos: Pos,
    /// The coordinates with two decimals, separated by a comma and a blank.
    pub pos_text: String,
    /// The map block the character stands in.
    pub block: u32,
    pub block_text: String,
}

impl Detail {
    fn copy(&self) -> (d: Detail)
        ensures
            d == *self,
    {
        Detail {
            pos: self.pos,
            pos_text: self.pos_text.clone(),
            block: self.block,
            block_text: self.block_text.clone(),
        }
    }

    /// The position and block as they are logged.
    pub open spec fn shown(self) -> Seq<char> {
        "pos_havok=("@ + self.pos_text@ + ") block="@ + self.block_text@
    }

    fn text(&self) -> (out: String)
        ensures
            out@ == self.shown(),
    {
        let mut out = "pos_havok=(".to_owned();
        out.append(self.pos_text.as_str());
        out.append(") block=");
        out.append(self.block_text.as_str());
        out
    }
}

/// One entry of the game's player set: the raw fields, and the detail that was read if it is active.
#[derive(Debug)]
pub struct RawEntry {
    /// The address of the character; absent for an empty entry.
    pub ptr: Option<u64>,
    pub status: u8,
    pub update_type: u8,
    pub detail: Option<Detail>,
}

/// One occupied entry, other than the local player's.
#[derive(Debug)]
pub struct Slot {
    pub index: usize,
    pub status: u8,
    pub update_type: u8,
    /// The address of the character, its identity for as long as it stays loaded.
    pub ptr: u64,
    pub detail: Option<Detail>,
}

/// One frame's reading of the roster and the local player.
#[derive(Debug)]
pub struct Sample {
    pub phantoms: Vec<Slot>,
    pub own: Option<Detail>,
    /// Whether the local player's own entry could be told apart.
    pub exclusion_ok: bool,
}

/// The short handle of a phantom, from its address.
pub open spec fn tag_chars(addr: u64) -> Seq<char> {
    "p"@ + zero_pad(hex_digits(((addr >> 4u64) & 0xff_ffffu64) as nat), 6)
}

/// The name of a load status.
pub open spec fn status_name(raw: u8) -> Option<Seq<char>> {
    if raw == 0 {
        Some("Unloaded"@)
    } else if raw == 1 {
        Some("Initializing"@)
    } else if raw == 2 {
        Some("Active"@)
    } else if raw == 3 {
        Some("NetworkInitializing"@)
    } else if raw == 4 {
        Some("ReadyForActivation"@)
    } else if raw == 5 {
        Some("Unloading"@)
    } else {
        None
    }
}

/// The name of an update type.
pub open spec fn update_name(raw: u8) -> Option<Seq<char>> {
    if raw == 0 {
        Some("Local"@)
    } else if raw == 1 {
        Some("Unknown1"@)
    } else if raw == 2 {
        Some("Unknown2"@)
    } else if raw == 3 {
        Some("Unknown3"@)
    } else if raw == 4 {
        Some("Remote"@)
    } else {
        None
    }
}

/// A raw value with its name behind it; a value without a name is marked, not hidden.
pub open spec fn named_chars(raw: u8, name: Option<Seq<char>>) -> Seq<char> {
    match name {
        Some(n) => dec(raw as nat) + " ("@ + n + ")"@,
        None => dec(raw as nat) + " (UNKNOWN)"@,
    }
}

/// A camera type; the two that carry the verdict have a name.
pub open spec fn camera_chars(raw: u32) -> Seq<char> {
    if raw == 0 {
        "0 (Unk0, normal follow cam)"@
    } else if raw == 7 {
        "7 (DeathCam)"@
    } else {
        dec(raw as nat)
    }
}

impl Slot {
    /// The identity and state in front of every line about a phantom.
    pub open spec fn ident(self) -> Seq<char> {
        "slot="@ + dec(self.index as nat) + " tag="@ + tag_chars(self.ptr) + " chr_ins=0x"@
            + hex_digits(self.ptr as nat) + " status="@ + named_chars(
            self.status,
            status_name(self.status),
        ) + " update="@ + named_chars(self.update_type, update_name(self.update_type))
    }

    /// The position, or why there is none.
    pub open spec fn position(self) -> Seq<char> {
        match self.detail {
            Some(d) => d.shown(),
            None => "pos_havok=(not readable; entry not Active)"@,
        }
    }

    fn ident_text(&self) -> (out: String)
        ensures
            out@ == self.ident(),
    {
        let mut out = "slot=".to_owned();
        out.append(text::dec_text(self.index as u64).as_str());
        out.append(" tag=");
        out.append(phantom_tag(self.ptr).as_str());
        out.append(" chr_ins=0x");
        out.append(text::hex_text(self.ptr).as_str());
        out.append(" status=");
        out.append(status_text(self.status).as_str());
        out.append(" update=");
        out.append(update_text(self.update_type).as_str());
        out
    }

    fn position_text(&self) -> (out: String)
        ensures
            out@ == self.position(),
    {
        match &self.detail {
            Some(d) => d.text(),
            None => "pos_havok=(not readable; entry not Active)".to_owned(),
        }
    }
}

/// The short handle of a phantom.
pub fn phantom_tag(addr: u64) -> (tag: String)
    ensures
        tag@ == tag_chars(addr),
{
    let mut out = "p".to_owned();
    out.append(text::hex_padded((addr >> 4u64) & 0xff_ffffu64, 6).as_str());
    out
}

fn append_name(raw: u8, name: &str) -> (out: String)
    ensures
        out@ == dec(raw as nat) + " ("@ + name@ + ")"@,
{
    let mut out = text::dec_text(raw as u64);
    out.append(" (");
    out.append(name);
    out.append(")");
    out
}

fn append_unknown(raw: u8) -> (out: String)
    ensures
        out@ == dec(raw as nat) + " (UNKNOWN)"@,
{
    let mut out = text::dec_text(raw as u64);
    out.append(" (UNKNOWN)");
    out
}

/// A raw load status with its name.
pub fn status_text(raw: u8) -> (out: String)
    ensures
        out@ == named_chars(raw, status_name(raw)),
{
    if raw == 0 {
        append_name(raw, "Unloaded")
    } else if raw == 1 {
        append_name(raw, "Initializing")
    } else if raw == 2 {
        append_name(raw, "Active")
    } else if raw == 3 {
        append_name(raw, "NetworkInitializing")
    } else if raw == 4 {
        append_name(raw, "ReadyForActivation")
    } else if raw == 5 {
        append_name(raw, "Unloading")
    } else {
        append_unknown(raw)
    }
}

/// A raw update type with its name.
pub fn update_text(raw: u8) -> (out: String)
    ensures
        out@ == named_chars(raw, update_name(raw)),
{
    if raw == 0 {
        append_name(raw, "Local")
    } else if raw == 1 {
        append_name(raw, "Unknown1")
    } else if raw == 2 {
        append_name(raw, "Unknown2")
    } else if raw == 3 {
        append_name(raw, "Unknown3")
    } else if raw == 4 {
        append_name(raw, "Remote")
    } else {
        append_unknown(raw)
    }
}

/// A camera type as it is logged.
pub fn camera_type_text(raw: u32) -> (out: String)
    ensures
        out@ == camera_chars(raw),
{
    if raw == 0 {
        "0 (Unk0, normal follow cam)".to_owned()
    } else if raw == 7 {
        "7 (DeathCam)".to_owned()
    } else {
        text::dec_text(raw as u64)
    }
}

/// The occupied entries among the first `n`, without the one at the local player's address. The detail
/// is kept for active entries only.
pub open spec fn occupied(entries: Seq<RawEntry>, main: Option<u64>, n: nat) -> Seq<Slot>
    decreases n,
{
    if n == 0 {
        Seq::empty()
    } else {
        let before = occupied(entries, main, (n - 1) as nat);
        let e = entries[n - 1];
        if e.ptr is Some && e.ptr != main {
            before.push(
                Slot {
                    index: (n - 1) as usize,
                    status: e.status,
                    update_type: e.update_type,
                    ptr: e.ptr->0,
                    detail: if e.status == STATUS_ACTIVE {
                        e.detail
                    } else {
                        None
                    },
                },
            )
        } else {
            before
        }
    }
}

/// Entries come in slot order, each slot once.
pub open spec fn in_slot_order(slots: Seq<Slot>) -> bool {
    forall|i: int, j: int| 0 <= i < j < slots.len() ==> slots[i].index < slots[j].index
}

/// The phantoms and the local player of one reading of the player set.
pub fn gather(entries: &Vec<RawEntry>, main: Option<u64>, own: Option<Detail>) -> (sample: Sample)
    ensures
        sample.phantoms@ == occupied(entries@, main, entries@.len()),
        in_slot_order(sample.phantoms@),
        sample.own == own,
        sample.exclusion_ok == (main is Some),
{
    let mut phantoms: Vec<Slot> = Vec::new();
    let mut i: usize = 0;
    while i < entries.len()
        invariant
            i <= entries@.len(),
            phantoms@ == occupied(entries@, main, i as nat),
            in_slot_order(phantoms@),
            forall|k: int| 0 <= k < phantoms@.len() ==> phantoms@[k].index < i,
        decreases entries@.len() - i,
    {
        let e = &entries[i];
        match e.ptr {
            Some(ptr) => {
                let is_main = match main {
                    Some(m) => m == ptr,
                    None => false,
                };
                if !is_main {
                    let detail = if e.status == STATUS_ACTIVE {
                        match &e.detail {
                            Some(d) => Some(d.copy()),
                            None => None,
                        }
                    } else {
                        None
                    };
                    phantoms.push(
                        Slot {
                            index: i,
                            status: e.status,
                            update_type: e.update_type,
                            ptr,
                            detail,
                        },
                    );
                }
            },
            None => {},
        }
        i = i + 1;
    }
    Sample { phantoms, own, exclusion_ok: main.is_some() }
}

/// The slot at an index, if it is among the first `n`.
pub open spec fn at_index(slots: Seq<Slot>, index: usize, n: nat) -> Option<Slot>
    decreases n,
{
    if n == 0 {
        None
    } else if slots[n - 1].index == index {
        Some(slots[n - 1])
    } else {
        at_index(slots, index, (n - 1) as nat)
    }
}

fn find_index(slots: &Vec<Slot>, index: usize) -> (at: Option<usize>)
    ensures
        match at {
            Some(k) => k < slots@.len() && at_index(slots@, index, slots@.len()) == Some(
                slots@[k as int],
            ),
            None => at_index(slots@, index, slots@.len()) is None,
        },
{
    let mut n: usize = slots.len();
    while n > 0
        invariant
            n <= slots@.len(),
            at_index(slots@, index, slots@.len()) == at_index(slots@, index, n as nat),
        decreases n,
    {
        if slots[n - 1].index == index {
            return Some(n - 1);
        }
        n = n - 1;
    }
    None
}

/// What changed about one slot since the last frame: it appeared, another character took it, its
/// status changed or its update type did, the first of these that holds.
pub open spec fn edge_chars(prev: Option<Slot>, slot: Slot) -> Option<Seq<char>> {
    match prev {
        None => Some("SPAWNED "@ + slot.ident() + "  "@ + slot.position()),
        Some(p) => if p.ptr != slot.ptr {
            Some(
                "REPLACED (was tag="@ + tag_chars(p.ptr) + " chr_ins=0x"@ + hex_digits(p.ptr as nat)
                    + ") "@ + slot.ident() + "  "@ + slot.position(),
            )
        } else if p.status != slot.status {
            Some(
                "STATUS "@ + named_chars(p.status, status_name(p.status)) + " -> "@ + named_chars(
                    slot.status,
                    status_name(slot.status),
                ) + " "@ + slot.ident() + "  "@ + slot.position(),
            )
        } else if p.update_type != slot.update_type {
            Some(
                "UPDATE-TYPE "@ + named_chars(p.update_type, update_name(p.update_type)) + " -> "@
                    + named_chars(slot.update_type, update_name(slot.update_type)) + " "@
                    + slot.ident(),
            )
        } else {
            None
        },
    }
}

/// The edges of the first `n` slots that are there now.
pub open spec fn present_edges(last: Seq<Slot>, now: Seq<Slot>, n: nat) -> Seq<Seq<char>>
    decreases n,
{
    if n == 0 {
        Seq::empty()
    } else {
        let before = present_edges(last, now, (n - 1) as nat);
        match edge_chars(at_index(last, now[n - 1].index, last.len()), now[n - 1]) {
            Some(line) => before.push(line),
            None => before,
        }
    }
}

/// The edges of those of the first `n` former slots that are gone.
pub open spec fn gone_edges(last: Seq<Slot>, now: Seq<Slot>, n: nat) -> Seq<Seq<char>>
    decreases n,
{
    if n == 0 {
        Seq::empty()
    } else {
        let before = gone_edges(last, now, (n - 1) as nat);
        if at_index(now, last[n - 1].index, now.len()) is None {
            before.push(
                "DESPAWNED "@ + last[n - 1].ident() + "  last "@ + last[n - 1].position(),
            )
        } else {
            before
        }
    }
}

/// Every edge between two rosters, the slots still there first.
pub open spec fn edges(last: Seq<Slot>, now: Seq<Slot>) -> Seq<Seq<char>> {
    present_edges(last, now, now.len()) + gone_edges(last, now, last.len())
}

fn edge_text(prev: Option<&Slot>, slot: &Slot) -> (out: Option<String>)
    ensures
        match out {
            Some(line) => edge_chars(
                match prev {
                    Some(p) => Some(*p),
                    None => None,
                },
                *slot,
            ) == Some(line@),
            None => edge_chars(
                match prev {
                    Some(p) => Some(*p),
                    None => None,
                },
                *slot,
            ) is None,
        },
{
    match prev {
        None => {
            let mut out = "SPAWNED ".to_owned();
            out.append(slot.ident_text().as_str());
            out.append("  ");
            out.append(slot.position_text().as_str());
            Some(out)
        },
        Some(p) => {
            if p.ptr != slot.ptr {
                let mut out = "REPLACED (was tag=".to_owned();
                out.append(phantom_tag(p.ptr).as_str());
                out.append(" chr_ins=0x");
                out.append(text::hex_text(p.ptr).as_str());
                out.append(") ");
                out.append(slot.ident_text().as_str());
                out.append("  ");
                out.append(slot.position_text().as_str());
                Some(out)
            } else if p.status != slot.status {
                let mut out = "STATUS ".to_owned();
                out.append(status_text(p.status).as_str());
                out.append(" -> ");
                out.append(status_text(slot.status).as_str());
                out.append(" ");
                out.append(slot.ident_text().as_str());
                out.append("  ");
                out.append(slot.position_text().as_str());
                Some(out)
            } else if p.update_type != slot.update_type {
                let mut out = "UPDATE-TYPE ".to_owned();
                out.append(update_text(p.update_type).as_str());
                out.append(" -> ");
                out.append(update_text(slot.update_type).as_str());
                out.append(" ");
                out.append(slot.ident_text().as_str());
                Some(out)
            } else {
                None
            }
        },
    }
}

fn edge_texts(last: &Vec<Slot>, now: &Vec<Slot>) -> (out: Vec<String>)
    ensures
        text::texts(out@) == edges(last@, now@),
{
    let mut out: Vec<String> = Vec::new();
    let mut i: usize = 0;
    assert(text::texts(out@) =~= present_edges(last@, now@, 0));
    while i < now.len()
        invariant
            i <= now@.len(),
            text::texts(out@) == present_edges(last@, now@, i as nat),
        decreases now@.len() - i,
    {
        let prev = match find_index(last, now[i].index) {
            Some(k) => Some(&last[k]),
            None => None,
        };
        match edge_text(prev, &now[i]) {
            Some(line) => {
                let ghost before = text::texts(out@);
                let ghost chars = line@;
                out.push(line);
                assert(text::texts(out@) =~= before.push(chars));
            },
            None => {},
        }
        i = i + 1;
    }
    let ghost present = text::texts(out@);
    let mut k: usize = 0;
    assert(text::texts(out@) =~= present + gone_edges(last@, now@, 0));
    while k < last.len()
        invariant
            k <= last@.len(),
            text::texts(out@) == present + gone_edges(last@, now@, k as nat),
        decreases last@.len() - k,
    {
        if find_index(now, last[k].index).is_none() {
            let mut line = "DESPAWNED ".to_owned();
            line.append(last[k].ident_text().as_str());
            line.append("  last ");
            line.append(last[k].position_text().as_str());
            let ghost before = text::texts(out@);
            let ghost chars = line@;
            out.push(line);
            assert(text::texts(out@) =~= before.push(chars));
            assert(before.push(chars) =~= present + gone_edges(last@, now@, k as nat).push(chars));
        }
        k = k + 1;
    }
    out
}

/// How many of `found` edges still fit the budget after `emitted`.
pub open spec fn edges_that_fit(emitted: nat, found: nat) -> nat {
    if emitted + found <= MAX_EDGES_PER_INTERVAL {
        found
    } else if emitted >= MAX_EDGES_PER_INTERVAL {
        0
    } else {
        (MAX_EDGES_PER_INTERVAL - emitted) as nat
    }
}

/// A sum that stops at the largest count that can be held.
pub open spec fn capped_sum(a: nat, b: nat) -> nat {
    if a + b > u32::MAX {
        u32::MAX as nat
    } else {
        a + b
    }
}

/// One edge as it is logged.
pub open spec fn edge_line(tick: u64, edge: Seq<char>) -> LogLineView {
    LogLineView {
        level: Level::Info,
        text: "presence-probe: EDGE @tick "@ + dec(tick as nat) + " "@ + edge,
    }
}

/// Where a phantom was at the last sample.
#[derive(Clone, Copy, Debug, PartialEq, Eq, Structural)]
pub struct Mark {
    pub pos: Pos,
    pub block: u32,
}

/// The distances of one phantom, in metres with two decimals: from where it was at the last sample and
/// from the local player. A distance that is not comparable is never shown, whatever stands here.
#[derive(Debug)]
pub struct Measured {
    pub moved: String,
    pub from_self: String,
}

/// How far a phantom moved since the last sample, or why that cannot be said.
pub open spec fn moved_chars(
    detail: Option<Detail>,
    before: Option<Mark>,
    measured: Seq<char>,
) -> Seq<char> {
    match detail {
        None => "moved=n/a (position not readable)"@,
        Some(d) => match before {
            None => "moved=n/a (no baseline yet)"@,
            Some(m) => if m.block == d.block {
                "moved="@ + measured + "m"@
            } else {
                "moved=n/a (block changed; Havok frames differ)"@
            },
        },
    }
}

/// How far a phantom is from the local player, or why that cannot be said.
pub open spec fn dist_chars(
    detail: Option<Detail>,
    own: Option<Detail>,
    measured: Seq<char>,
) -> Seq<char> {
    if detail is Some && own is Some {
        if detail->0.block == own->0.block {
            "dist="@ + measured + "m"@
        } else {
            "dist=n/a (different block: "@ + detail->0.block_text@ + " vs self "@
                + own->0.block_text@ + ")"@
        }
    } else {
        "dist=n/a (position not readable)"@
    }
}

/// The line about one phantom.
pub open spec fn phantom_line(
    slot: Slot,
    own: Option<Detail>,
    before: Option<Mark>,
    measured: Measured,
) -> LogLineView {
    LogLineView {
        level: Level::Info,
        text: "presence-probe:   phantom "@ + slot.ident() + "  "@ + slot.position() + " "@
            + dist_chars(slot.detail, own, measured.from_self@) + " "@ + moved_chars(
            slot.detail,
            before,
            measured.moved@,
        ),
    }
}

/// How many of the first `n` slots are active.
pub open spec fn active_count(slots: Seq<Slot>, n: nat) -> nat
    decreases n,
{
    if n == 0 {
        0
    } else {
        active_count(slots, (n - 1) as nat) + if slots[n - 1].status == STATUS_ACTIVE {
            1nat
        } else {
            0nat
        }
    }
}

/// How many of the first `n` slots are networked.
pub open spec fn remote_count(slots: Seq<Slot>, n: nat) -> nat
    decreases n,
{
    if n == 0 {
        0
    } else {
        remote_count(slots, (n - 1) as nat) + if slots[n - 1].update_type == UPDATE_REMOTE {
            1nat
        } else {
            0nat
        }
    }
}

/// The local player as the roster header shows it.
pub open spec fn own_chars(own: Option<Detail>) -> Seq<char> {
    match own {
        Some(d) => "self "@ + d.shown(),
        None => "self (no active local player)"@,
    }
}

/// The roster header.
pub open spec fn header_chars(
    sample: Sample,
    dt: Seq<char>,
    tick: u64,
    emitted: u32,
    suppressed: u32,
) -> Seq<char> {
    let slots = sample.phantoms@;
    let counts = "presence-probe: roster @tick "@ + dec(tick as nat) + " dt="@ + dt
        + "s: phantoms="@ + dec(slots.len()) + " (active="@ + dec(
        active_count(slots, slots.len()),
    ) + " remote="@ + dec(remote_count(slots, slots.len())) + ") | "@ + own_chars(sample.own);
    let warned = if sample.exclusion_ok {
        counts
    } else {
        counts + NO_EXCLUSION@
    };
    if suppressed > 0 {
        warned + " | "@ + dec(suppressed as nat)
            + " edge line(s) suppressed this interval (cap 8, "@ + dec(emitted as nat)
            + " emitted)"@
    } else {
        warned
    }
}

/// The positions to compare the next sample with: the last position of each readable phantom.
pub open spec fn marks(slots: Seq<Slot>, n: nat) -> Map<u64, Mark>
    decreases n,
{
    if n == 0 {
        Map::empty()
    } else {
        let before = marks(slots, (n - 1) as nat);
        match slots[n - 1].detail {
            Some(d) => before.insert(slots[n - 1].ptr, Mark { pos: d.pos, block: d.block }),
            None => before,
        }
    }
}

/// The mark of an address, if there is one.
pub open spec fn mark_of(base: Map<u64, Mark>, ptr: u64) -> Option<Mark> {
    if base.dom().contains(ptr) {
        Some(base[ptr])
    } else {
        None
    }
}

/// The lines about the first `n` phantoms.
pub open spec fn phantom_lines(
    sample: Sample,
    base: Map<u64, Mark>,
    measured: Seq<Measured>,
    n: nat,
) -> Seq<LogLineView>
    decreases n,
{
    if n == 0 {
        Seq::empty()
    } else {
        let slot = sample.phantoms@[n - 1];
        phantom_lines(sample, base, measured, (n - 1) as nat).push(
            phantom_line(slot, sample.own, mark_of(base, slot.ptr), measured[n - 1]),
        )
    }
}

/// Samples the roster: every edge at once, and the whole roster when a sample is due.
pub struct PresenceProbe {
    last: Vec<Slot>,
    last_sample: BTreeMap<u64, Mark>,
    quiet: u32,
    edges_emitted: u32,
    edges_suppressed: u32,
    waiting_announced: bool,
    announced: bool,
}

/// The state of a probe.
pub struct ProbeView {
    /// The roster of the last frame.
    pub last: Seq<Slot>,
    /// Where each readable phantom was at the last sample.
    pub base: Map<u64, Mark>,
    /// How many samples of an empty roster came since the last one that was logged or not empty.
    pub quiet: nat,
    /// Edge lines logged since the last sample.
    pub emitted: u32,
    /// Edge lines left out since the last sample.
    pub suppressed: u32,
    /// Whether the wait for a world was announced.
    pub waiting_announced: bool,
    /// Whether the first reading was announced.
    pub announced: bool,
}

impl View for PresenceProbe {
    type V = ProbeView;

    closed spec fn view(&self) -> ProbeView {
        ProbeView {
            last: self.last@,
            base: self.last_sample@,
            quiet: self.quiet as nat,
            emitted: self.edges_emitted,
            suppressed: self.edges_suppressed,
            waiting_announced: self.waiting_announced,
            announced: self.announced,
        }
    }
}

impl ProbeView {
    /// What every operation of the probe keeps.
    pub open spec fn wf(self) -> bool {
        &&& self.quiet < QUIET_SAMPLE_EVERY
        &&& self.emitted <= MAX_EDGES_PER_INTERVAL
        &&& in_slot_order(self.last)
    }

    /// Nothing seen and nothing said.
    pub open spec fn initial() -> ProbeView {
        ProbeView {
            last: Seq::empty(),
            base: Map::empty(),
            quiet: 0,
            emitted: 0,
            suppressed: 0,
            waiting_announced: false,
            announced: false,
        }
    }

    /// After a frame without a world: the roster is forgotten.
    pub open spec fn without_world(self) -> ProbeView {
        ProbeView { last: Seq::empty(), base: Map::empty(), waiting_announced: true, ..self }
    }

    /// After the edges of a frame were logged under the budget.
    pub open spec fn after_edges(self, found: nat) -> ProbeView {
        let fit = edges_that_fit(self.emitted as nat, found);
        ProbeView {
            emitted: (self.emitted + fit) as u32,
            suppressed: capped_sum(self.suppressed as nat, (found - fit) as nat) as u32,
            ..self
        }
    }

    /// After a sample: the edge budget is fresh, and the marks are those of the sample.
    pub open spec fn after_sample(self, sample: Sample) -> ProbeView {
        ProbeView {
            base: marks(sample.phantoms@, sample.phantoms@.len()),
            quiet: if sample.phantoms@.len() > 0 {
                0
            } else if self.quiet + 1 == QUIET_SAMPLE_EVERY {
                0
            } else {
                self.quiet + 1
            },
            emitted: 0,
            suppressed: 0,
            ..self
        }
    }

    /// Whether a due sample is logged: always with phantoms there, else once in a while.
    pub open spec fn logs_sample(self, sample: Sample) -> bool {
        sample.phantoms@.len() > 0 || self.quiet == 0
    }

    /// The lines of a frame without a world.
    pub open spec fn gap_lines(self) -> Seq<LogLineView> {
        let waiting = if self.waiting_announced {
            Seq::empty()
        } else {
            Seq::empty().push(LogLineView { level: Level::Info, text: WAITING@ })
        };
        if self.last.len() == 0 && self.base.len() == 0 {
            waiting
        } else {
            waiting.push(
                LogLineView {
                    level: Level::Info,
                    text: GONE_HEAD@ + dec(self.last.len()) + GONE_TAIL@,
                },
            )
        }
    }

    /// The announcement of the first reading.
    pub open spec fn live_lines(self, tick: u64) -> Seq<LogLineView> {
        if self.announced {
            Seq::empty()
        } else {
            Seq::empty().push(
                LogLineView {
                    level: Level::Info,
                    text: LIVE_HEAD@ + dec(tick as nat) + LIVE_TAIL@,
                },
            )
        }
    }

    /// The edge lines of a frame that fit the budget.
    pub open spec fn edge_lines(self, now: Seq<Slot>, tick: u64) -> Seq<LogLineView> {
        let found = edges(self.last, now);
        Seq::new(
            edges_that_fit(self.emitted as nat, found.len()),
            |i: int| edge_line(tick, found[i]),
        )
    }

    /// The lines of a sample.
    pub open spec fn sample_lines(
        self,
        sample: Sample,
        measured: Seq<Measured>,
        dt: Seq<char>,
        tick: u64,
    ) -> Seq<LogLineView> {
        if self.logs_sample(sample) {
            Seq::empty().push(
                LogLineView {
                    level: Level::Info,
                    text: header_chars(sample, dt, tick, self.emitted, self.suppressed),
                },
            ) + phantom_lines(sample, self.base, measured, sample.phantoms@.len())
        } else {
            Seq::empty()
        }
    }
}

impl PresenceProbe {
    /// A probe that has seen nothing.
    pub fn new() -> (probe: PresenceProbe)
        ensures
            probe@ == ProbeView::initial(),
            probe@.wf(),
    {
        PresenceProbe {
            last: Vec::new(),
            last_sample: BTreeMap::new(),
            quiet: 0,
            edges_emitted: 0,
            edges_suppressed: 0,
            waiting_announced: false,
            announced: false,
        }
    }

    /// Where a phantom was at the last sample, for measuring how far it moved.
    pub fn baseline(&self, ptr: u64) -> (mark: Option<Mark>)
        ensures
            mark == mark_of(self@.base, ptr),
    {
        match self.last_sample.get(&ptr) {
            Some(m) => Some(*m),
            None => None,
        }
    }

    /// A frame without a world: the wait is announced once, and a remembered roster is dropped with a
    /// line that says so.
    pub fn on_gap(&mut self) -> (lines: Vec<LogLine>)
        requires
            old(self)@.wf(),
        ensures
            final(self)@ == old(self)@.without_world(),
            final(self)@.wf(),
            lines_view(lines@) == old(self)@.gap_lines(),
    {
        let mut lines: Vec<LogLine> = Vec::new();
        assert(lines_view(lines@) =~= Seq::empty());
        if !self.waiting_announced {
            self.waiting_announced = true;
            push_line(&mut lines, Level::Info, WAITING.to_owned());
        }
        self.invalidate_roster(&mut lines);
        lines
    }

    fn invalidate_roster(&mut self, lines: &mut Vec<LogLine>)
        ensures
            final(self)@ == (ProbeView { last: Seq::empty(), base: Map::empty(), ..old(self)@ }),
            lines_view(final(lines)@) == (if old(self)@.last.len() == 0 && old(self)@.base.len()
                == 0 {
                lines_view(old(lines)@)
            } else {
                lines_view(old(lines)@).push(
                    LogLineView {
                        level: Level::Info,
                        text: GONE_HEAD@ + dec(old(self)@.last.len()) + GONE_TAIL@,
                    },
                )
            }),
    {
        broadcast use vstd::std_specs::btree::group_btree_axioms;

        if self.last.len() == 0 && self.last_sample.len() == 0 {
            proof {
                assert(self.last@ =~= Seq::empty());
                assert(self.last_sample@.dom().finite());
                assert(self.last_sample@.dom() =~= Set::empty());
                assert(self.last_sample@ =~= Map::empty());
            }
            return;
        }
        let mut line = GONE_HEAD.to_owned();
        line.append(text::dec_text(self.last.len() as u64).as_str());
        line.append(GONE_TAIL);
        push_line(lines, Level::Info, line);
        self.last = Vec::new();
        self.last_sample = BTreeMap::new();
    }

    fn log_edges(&mut self, now: &Vec<Slot>, tick: u64, lines: &mut Vec<LogLine>)
        requires
            old(self)@.wf(),
        ensures
            final(self)@ == old(self)@.after_edges(edges(old(self)@.last, now@).len()),
            lines_view(final(lines)@) == lines_view(old(lines)@) + old(self)@.edge_lines(now@, tick),
    {
        let found = edge_texts(&self.last, now);
        let ghost all = edges(self.last@, now@);
        let ghost start = *self;
        let ghost emit_lines = self@.edge_lines(now@, tick);
        assert(found@.len() == all.len());
        let mut i: usize = 0;
        assert(lines_view(lines@) =~= lines_view(old(lines)@) + emit_lines.take(0));
        while i < found.len()
            invariant
                i <= found@.len(),
                text::texts(found@) == all,
                found@.len() == all.len(),
                start@.wf(),
                emit_lines == Seq::new(
                    edges_that_fit(start@.emitted as nat, all.len()),
                    |k: int| edge_line(tick, all[k]),
                ),
                self@ == start@.after_edges(i as nat),
                lines_view(lines@) == lines_view(old(lines)@) + emit_lines.take(
                    edges_that_fit(start@.emitted as nat, i as nat) as int,
                ),
            decreases found@.len() - i,
        {
            let ghost fit = edges_that_fit(start@.emitted as nat, i as nat);
            assert(found@[i as int]@ == all[i as int]);
            if self.edges_emitted >= MAX_EDGES_PER_INTERVAL {
                if self.edges_suppressed < u32::MAX {
                    self.edges_suppressed = self.edges_suppressed + 1;
                }
                assert(edges_that_fit(start@.emitted as nat, (i + 1) as nat) == fit);
            } else {
                self.edges_emitted = self.edges_emitted + 1;
                let mut line = "presence-probe: EDGE @tick ".to_owned();
                line.append(text::dec_text(tick).as_str());
                line.append(" ");
                line.append(found[i].as_str());
                push_line(lines, Level::Info, line);
                proof {
                    assert(fit == i);
                    assert(edges_that_fit(start@.emitted as nat, (i + 1) as nat) == fit + 1);
                    assert(emit_lines[i as int] == edge_line(tick, all[i as int]));
                    assert(emit_lines.take((i + 1) as int) =~= emit_lines.take(i as int).push(
                        emit_lines[i as int],
                    ));
                    assert(lines_view(lines@) =~= lines_view(old(lines)@) + emit_lines.take(
                        (i + 1) as int,
                    ));
                }
            }
            i = i + 1;
        }
        assert(emit_lines.take(emit_lines.len() as int) =~= emit_lines);
    }

    fn log_roster(
        &mut self,
        sample: &Sample,
        measured: &Vec<Measured>,
        dt: &str,
        tick: u64,
        lines: &mut Vec<LogLine>,
    )
        requires
            old(self)@.wf(),
            measured@.len() == sample.phantoms@.len(),
        ensures
            final(self)@ == old(self)@.after_sample(*sample),
            lines_view(final(lines)@) == lines_view(old(lines)@) + old(self)@.sample_lines(
                *sample,
                measured@,
                dt@,
                tick,
            ),
    {
        broadcast use vstd::std_specs::btree::group_btree_axioms;

        let emitted: u32 = self.edges_emitted;
        let suppressed: u32 = self.edges_suppressed;
        let ghost start = self@;
        let ghost opening = lines_view(lines@);
        self.edges_emitted = 0;
        self.edges_suppressed = 0;
        let count: usize = sample.phantoms.len();
        let quiet: u32 = self.quiet;
        if count == 0 {
            self.quiet = if quiet + 1 == QUIET_SAMPLE_EVERY {
                0
            } else {
                quiet + 1
            };
            if quiet != 0 {
                self.last_sample = BTreeMap::new();
                assert(lines_view(lines@) =~= opening + start.sample_lines(
                    *sample,
                    measured@,
                    dt@,
                    tick,
                ));
                return;
            }
        } else {
            self.quiet = 0;
        }
        let head = header(sample, dt, tick, emitted, suppressed);
        push_line(lines, Level::Info, head);
        let ghost headed = lines_view(lines@);
        let mut base: BTreeMap<u64, Mark> = BTreeMap::new();
        let mut i: usize = 0;
        assert(lines_view(lines@) =~= headed + phantom_lines(*sample, start.base, measured@, 0));
        while i < count
            invariant
                i <= count,
                count == sample.phantoms@.len(),
                measured@.len() == count,
                self.last_sample@ == start.base,
                base@ == marks(sample.phantoms@, i as nat),
                lines_view(lines@) == headed + phantom_lines(
                    *sample,
                    start.base,
                    measured@,
                    i as nat,
                ),
            decreases count - i,
        {
            broadcast use vstd::std_specs::btree::group_btree_axioms;

            let slot = &sample.phantoms[i];
            let before = self.baseline(slot.ptr);
            let line = phantom_text(slot, &sample.own, before, &measured[i]);
            push_line(lines, Level::Info, line);
            match &slot.detail {
                Some(d) => {
                    base.insert(slot.ptr, Mark { pos: d.pos, block: d.block });
                },
                None => {},
            }
            i = i + 1;
            assert(lines_view(lines@) =~= headed + phantom_lines(
                *sample,
                start.base,
                measured@,
                i as nat,
            ));
        }
        self.last_sample = base;
        assert(lines_view(lines@) =~= opening + start.sample_lines(
            *sample,
            measured@,
            dt@,
            tick,
        ));
    }

    /// A frame in the world: the first reading is announced, the edges since the last frame are logged
    /// under the budget, and the roster is logged when a sample is due. `measured` holds the distances
    /// of each phantom, `dt` the seconds since the last sample with two decimals.
    pub fn on_frame(
        &mut self,
        sample: Sample,
        sample_due: bool,
        measured: &Vec<Measured>,
        dt: &str,
        tick: u64,
    ) -> (lines: Vec<LogLine>)
        requires
            old(self)@.wf(),
            in_slot_order(sample.phantoms@),
            sample_due ==> measured@.len() == sample.phantoms@.len(),
        ensures
            final(self)@.wf(),
            ({
                let start = old(self)@;
                let edged = (ProbeView { announced: true, ..start }).after_edges(
                    edges(start.last, sample.phantoms@).len(),
                );
                let sampled = if sample_due {
                    edged.after_sample(sample)
                } else {
                    edged
                };
                &&& final(self)@ == (ProbeView { last: sample.phantoms@, ..sampled })
                &&& lines_view(lines@) == start.live_lines(tick) + start.edge_lines(
                    sample.phantoms@,
                    tick,
                ) + (if sample_due {
                    edged.sample_lines(sample, measured@, dt@, tick)
                } else {
                    Seq::empty()
                })
            }),
    {
        let mut lines: Vec<LogLine> = Vec::new();
        assert(lines_view(lines@) =~= Seq::empty());
        let ghost start = self@;
        if !self.announced {
            self.announced = true;
            let mut line = LIVE_HEAD.to_owned();
            line.append(text::dec_text(tick).as_str());
            line.append(LIVE_TAIL);
            push_line(&mut lines, Level::Info, line);
        }
        assert(lines_view(lines@) =~= start.live_lines(tick));
        assert(self@ == (ProbeView { announced: true, ..start }));
        self.log_edges(&sample.phantoms, tick, &mut lines);
        if sample_due {
            self.log_roster(&sample, measured, dt, tick, &mut lines);
        } else {
            assert(lines_view(lines@) =~= lines_view(lines@) + Seq::<LogLineView>::empty());
        }
        self.last = sample.phantoms;
        lines
    }
}

fn own_text(own: &Option<Detail>) -> (out: String)
    ensures
        out@ == own_chars(*own),
{
    match own {
        Some(d) => {
            let mut out = "self ".to_owned();
            out.append(d.text().as_str());
            out
        },
        None => "self (no active local player)".to_owned(),
    }
}

fn header(sample: &Sample, dt: &str, tick: u64, emitted: u32, suppressed: u32) -> (out: String)
    ensures
        out@ == header_chars(*sample, dt@, tick, emitted, suppressed),
{
    let slots = &sample.phantoms;
    let mut active: usize = 0;
    let mut remote: usize = 0;
    let mut i: usize = 0;
    while i < slots.len()
        invariant
            i <= slots@.len(),
            active <= i,
            remote <= i,
            active as nat == active_count(slots@, i as nat),
            remote as nat == remote_count(slots@, i as nat),
        decreases slots@.len() - i,
    {
        if slots[i].status == STATUS_ACTIVE {
            active = active + 1;
        }
        if slots[i].update_type == UPDATE_REMOTE {
            remote = remote + 1;
        }
        i = i + 1;
    }
    let mut out = "presence-probe: roster @tick ".to_owned();
    out.append(text::dec_text(tick).as_str());
    out.append(" dt=");
    out.append(dt);
    out.append("s: phantoms=");
    out.append(text::dec_text(slots.len() as u64).as_str());
    out.append(" (active=");
    out.append(text::dec_text(active as u64).as_str());
    out.append(" remote=");
    out.append(text::dec_text(remote as u64).as_str());
    out.append(") | ");
    out.append(own_text(&sample.own).as_str());
    if !sample.exclusion_ok {
        out.append(NO_EXCLUSION);
    }
    if suppressed > 0 {
        out.append(" | ");
        out.append(text::dec_text(suppressed as u64).as_str());
        out.append(" edge line(s) suppressed this interval (cap 8, ");
        out.append(text::dec_text(emitted as u64).as_str());
        out.append(" emitted)");
    }
    out
}

fn moved_text(detail: &Option<Detail>, before: Option<Mark>, measured: &str) -> (out: String)
    ensures
        out@ == moved_chars(*detail, before, measured@),
{
    match detail {
        None => "moved=n/a (position not readable)".to_owned(),
        Some(d) => match before {
            None => "moved=n/a (no baseline yet)".to_owned(),
            Some(m) => {
                if m.block == d.block {
                    let mut out = "moved=".to_owned();
                    out.append(measured);
                    out.append("m");
                    out
                } else {
                    "moved=n/a (block changed; Havok frames differ)".to_owned()
                }
            },
        },
    }
}

fn dist_text(detail: &Option<Detail>, own: &Option<Detail>, measured: &str) -> (out: String)
    ensures
        out@ == dist_chars(*detail, *own, measured@),
{
    match (detail, own) {
        (Some(d), Some(o)) => {
            if d.block == o.block {
                let mut out = "dist=".to_owned();
                out.append(measured);
                out.append("m");
                out
            } else {
                let mut out = "dist=n/a (different block: ".to_owned();
                out.append(d.block_text.as_str());
                out.append(" vs self ");
                out.append(o.block_text.as_str());
                out.append(")");
                out
            }
        },
        _ => "dist=n/a (position not readable)".to_owned(),
    }
}

fn phantom_text(
    slot: &Slot,
    own: &Option<Detail>,
    before: Option<Mark>,
    measured: &Measured,
) -> (out: String)
    ensures
        out@ == phantom_line(*slot, *own, before, *measured).text,
{
    let mut out = "presence-probe:   phantom ".to_owned();
    out.append(slot.ident_text().as_str());
    out.append("  ");
    out.append(slot.position_text().as_str());
    out.append(" ");
    out.append(dist_text(&slot.detail, own, measured.from_self.as_str()).as_str());
    out.append(" ");
    out.append(moved_text(&slot.detail, before, measured.moved.as_str()).as_str());
    out
}

pub const LOOK_ENABLED: &'static str = "presence-probe: look-at: enabled — will aim the camera at the first Active+Remote phantom in player_chr_set and report whether the write sticks (docs/SPECTATE.md > \"Rig asks\" #1).";

pub const CONFIRM_READING: &'static str = ". Reading it: camera_type=7 and target_held=yes mean our write survives the game's own camera update; a small aim_error (<~15deg) at a plausible cam_to_phantom means the camera really is framing the phantom, which answers docs/SPECTATE.md > \"Rig asks\" #1 YES. camera_type=0 or target_held=no means the game is reverting us and this phase/field set is the wrong lever (next thing to try: register in CameraStep).";

/// The local player, wired and active.
#[derive(Debug)]
pub struct LocalPlayer {
    pub addr: u64,
    pub block: u32,
    pub block_text: String,
}

/// What the game left in the camera before this frame's write.
#[derive(Clone, Copy, Debug)]
pub struct CameraRead {
    pub camera_type: u32,
    /// The address the death-cam target points at.
    pub held: Option<u64>,
}

/// The camera's geometry relative to the target: the distance in metres with two decimals, and the
/// angle off the camera's forward vector in degrees with one decimal unless a vector is degenerate.
#[derive(Debug)]
pub struct AimReading {
    pub distance: String,
    pub error: Option<String>,
}

/// What to do to the camera.
#[derive(Clone, Copy, Debug, PartialEq, Eq, Structural)]
pub enum CameraWrite {
    /// Leave it alone.
    Keep,
    /// Clear the target, go back to the normal follow camera and ask for its position to be reset.
    Release,
    /// Point the death-cam target at this character and force the death camera.
    Aim(u64),
}

/// What a frame of the camera lever comes to.
#[derive(Debug)]
pub struct LookOutcome {
    pub write: CameraWrite,
    pub line: Option<LogLine>,
}

/// Whether an entry may be aimed at: a readable, active, networked character other than the local one.
pub open spec fn eligible(local: LocalPlayer, e: RawEntry) -> bool {
    &&& e.ptr is Some
    &&& e.ptr->0 != local.addr
    &&& e.status == STATUS_ACTIVE
    &&& e.update_type == UPDATE_REMOTE
    &&& e.detail is Some
}

/// `k` is the first entry that may be aimed at.
pub open spec fn is_first_eligible(local: LocalPlayer, entries: Seq<RawEntry>, k: int) -> bool {
    &&& 0 <= k < entries.len()
    &&& eligible(local, entries[k])
    &&& forall|j: int| 0 <= j < k ==> !eligible(local, #[trigger] entries[j])
}

/// The entry to aim at: the first eligible one, and none at all without a local player to tell apart.
pub fn choose_target(local: &Option<LocalPlayer>, entries: &Vec<RawEntry>) -> (at: Option<usize>)
    ensures
        match at {
            Some(k) => local is Some && is_first_eligible(local->0, entries@, k as int),
            None => local is Some ==> forall|j: int|
                0 <= j < entries@.len() ==> !eligible(local->0, #[trigger] entries@[j]),
        },
{
    match local {
        None => None,
        Some(me) => {
            let mut i: usize = 0;
            while i < entries.len()
                invariant
                    i <= entries@.len(),
                    *local == Some(*me),
                    forall|j: int| 0 <= j < i ==> !eligible(*me, #[trigger] entries@[j]),
                decreases entries@.len() - i,
            {
                let e = &entries[i];
                let other = match e.ptr {
                    Some(ptr) => ptr != me.addr,
                    None => false,
                };
                if other && e.status == STATUS_ACTIVE && e.update_type == UPDATE_REMOTE
                    && e.detail.is_some() {
                    return Some(i);
                }
                i = i + 1;
            }
            None
        },
    }
}

/// Points the camera at a phantom for as long as one is there, and reports once for each target
/// whether the write sticks.
#[derive(Clone, Copy, Debug, PartialEq, Eq, Structural)]
pub struct LookAtPhantom {
    /// The character that is aimed at.
    pub current: Option<u64>,
    /// Frames since it was acquired.
    pub since_acquire: u64,
    /// Whether the read-back was reported for it.
    pub confirmed: bool,
    /// Consecutive frames without a target.
    pub missing: u64,
    /// Whether the camera is being driven.
    pub aiming: bool,
    /// Whether the lever was announced.
    pub announced: bool,
}

/// One more frame, up to the largest count that can be held.
pub open spec fn next_count(n: u64) -> u64 {
    if n < u64::MAX {
        (n + 1) as u64
    } else {
        n
    }
}

/// The character of a target.
pub open spec fn target_addr(target: RawEntry) -> u64 {
    target.ptr->0
}

/// The line for a fresh target.
pub open spec fn aiming_chars(target: RawEntry, camera: CameraRead) -> Seq<char> {
    "presence-probe: look-at: aiming at phantom tag="@ + tag_chars(target_addr(target))
        + " chr_ins=0x"@ + hex_digits(target_addr(target) as nat) + " block="@
        + target.detail->0.block_text@ + "; camera_type was "@ + camera_chars(camera.camera_type)
        + " before the write, now forced "@ + camera_chars(DEATH_CAM)
        + ". A CONFIRM line follows in ~60 frames."@
}

/// Whether the installed target survived the game's own camera update.
pub open spec fn held_chars(held: Option<u64>, addr: u64) -> Seq<char> {
    match held {
        Some(h) => if h == addr {
            "target_held=yes"@
        } else {
            "target_held=no (game holds 0x"@ + hex_digits(h as nat) + ")"@
        },
        None => "target_held=no (game cleared it)"@,
    }
}

/// Where the camera is relative to the phantom; a number only within one block.
pub open spec fn geometry_chars(local: LocalPlayer, target: RawEntry, aim: AimReading) -> Seq<
    char,
> {
    if local.block == target.detail->0.block {
        match aim.error {
            Some(e) => "cam_to_phantom="@ + aim.distance@ + "m aim_error="@ + e@ + "deg"@,
            None => "cam_to_phantom="@ + aim.distance@ + "m aim_error=n/a (degenerate vector)"@,
        }
    } else {
        "cam_to_phantom=n/a (phantom block "@ + target.detail->0.block_text@ + " != local block "@
            + local.block_text@ + ")"@
    }
}

/// The read-back report.
pub open spec fn confirm_chars(
    local: LocalPlayer,
    target: RawEntry,
    camera: CameraRead,
    aim: AimReading,
) -> Seq<char> {
    "presence-probe: look-at CONFIRM: tag="@ + tag_chars(target_addr(target)) + " chr_ins=0x"@
        + hex_digits(target_addr(target) as nat)
        + " after 60 frames of re-asserting — the game left camera_type="@ + camera_chars(
        camera.camera_type,
    ) + " "@ + held_chars(camera.held, target_addr(target)) + " "@ + geometry_chars(
        local,
        target,
        aim,
    ) + CONFIRM_READING@
}

/// The line for a released camera.
pub open spec fn released_chars(missing: u64) -> Seq<char> {
    "presence-probe: look-at: released camera — no Active+Remote phantom for "@ + dec(
        missing as nat,
    ) + " frames"@
}

impl LookAtPhantom {
    /// The state after a frame without a target.
    pub open spec fn lost(self) -> LookAtPhantom {
        let missing = next_count(self.missing);
        if self.releases() {
            LookAtPhantom { missing, aiming: false, current: None, ..self }
        } else {
            LookAtPhantom { missing, ..self }
        }
    }

    /// Whether a frame without a target releases the camera: it was driven, and the absence lasted.
    pub open spec fn releases(self) -> bool {
        self.aiming && next_count(self.missing) >= RELEASE_AFTER_FRAMES
    }

    /// The state after a frame with a target.
    pub open spec fn aimed(self, addr: u64) -> LookAtPhantom {
        if self.current != Some(addr) {
            LookAtPhantom {
                current: Some(addr),
                since_acquire: 0,
                confirmed: false,
                missing: 0,
                aiming: true,
                ..self
            }
        } else {
            LookAtPhantom {
                since_acquire: next_count(self.since_acquire),
                confirmed: self.confirmed || self.confirms(addr),
                missing: 0,
                aiming: true,
                ..self
            }
        }
    }

    /// Whether a frame with this target reports the read-back.
    pub open spec fn confirms(self, addr: u64) -> bool {
        &&& self.current == Some(addr)
        &&& !self.confirmed
        &&& next_count(self.since_acquire) >= CONFIRM_AFTER_FRAMES
    }

    /// A lever that has done nothing yet.
    pub fn new() -> (look: LookAtPhantom)
        ensures
            look == (LookAtPhantom {
                current: None,
                since_acquire: 0,
                confirmed: false,
                missing: 0,
                aiming: false,
                announced: false,
            }),
    {
        LookAtPhantom {
            current: None,
            since_acquire: 0,
            confirmed: false,
            missing: 0,
            aiming: false,
            announced: false,
        }
    }

    /// The announcement, on the first frame only.
    pub fn announce(&mut self) -> (line: Option<LogLine>)
        ensures
            *final(self) == (LookAtPhantom { announced: true, ..*old(self) }),
            line is Some == !old(self).announced,
            line is Some ==> line->0@ == (LogLineView { level: Level::Info, text: LOOK_ENABLED@ }),
    {
        if self.announced {
            return None;
        }
        self.announced = true;
        Some(LogLine { level: Level::Info, text: LOOK_ENABLED.to_owned() })
    }

    /// One frame: aims at the first eligible phantom, and releases the camera exactly once when there
    /// has been none for long enough. Without a camera nothing happens.
    pub fn tick(
        &mut self,
        local: &Option<LocalPlayer>,
        entries: &Vec<RawEntry>,
        camera: Option<CameraRead>,
        aim: &AimReading,
    ) -> (outcome: LookOutcome)
        ensures
            camera is None ==> *final(self) == *old(self) && outcome.write == CameraWrite::Keep
                && outcome.line is None,
            camera is Some && (local is None || forall|j: int|
                0 <= j < entries@.len() ==> !eligible(local->0, #[trigger] entries@[j])) ==> {
                &&& *final(self) == old(self).lost()
                &&& outcome.write == (if old(self).releases() {
                    CameraWrite::Release
                } else {
                    CameraWrite::Keep
                })
                &&& outcome.line is Some == old(self).releases()
                &&& outcome.line is Some ==> outcome.line->0@ == (LogLineView {
                    level: Level::Info,
                    text: released_chars(next_count(old(self).missing)),
                })
            },
            forall|k: int|
                camera is Some && local is Some && #[trigger] is_first_eligible(
                    local->0,
                    entries@,
                    k,
                ) ==> {
                    let addr = target_addr(entries@[k]);
                    &&& *final(self) == old(self).aimed(addr)
                    &&& outcome.write == CameraWrite::Aim(addr)
                    &&& outcome.line is Some == (old(self).current != Some(addr) || old(
                        self,
                    ).confirms(addr))
                    &&& outcome.line is Some ==> outcome.line->0@ == (LogLineView {
                        level: Level::Info,
                        text: if old(self).current != Some(addr) {
                            aiming_chars(entries@[k], camera->0)
                        } else {
                            confirm_chars(local->0, entries@[k], camera->0, *aim)
                        },
                    })
                },
    {
        let read = match camera {
            Some(c) => c,
            None => {
                return LookOutcome { write: CameraWrite::Keep, line: None };
            },
        };
        let at = match choose_target(local, entries) {
            Some(k) => k,
            None => {
                return self.lose();
            },
        };
        let me = match local {
            Some(me) => me,
            None => {
                return self.lose();
            },
        };
        assert forall|k: int| #[trigger] is_first_eligible(*me, entries@, k) implies k == at by {
            if k < at {
                assert(!eligible(*me, entries@[k]));
            } else if k > at {
                assert(!eligible(*me, entries@[at as int]));
            }
        }
        let target = &entries[at];
        let addr: u64 = match target.ptr {
            Some(a) => a,
            None => 0,
        };
        self.missing = 0;
        self.aiming = true;
        let same = match self.current {
            Some(c) => c == addr,
            None => false,
        };
        if !same {
            self.current = Some(addr);
            self.since_acquire = 0;
            self.confirmed = false;
            return LookOutcome {
                write: CameraWrite::Aim(addr),
                line: Some(LogLine { level: Level::Info, text: aiming_text(target, addr, read) }),
            };
        }
        if self.since_acquire < u64::MAX {
            self.since_acquire = self.since_acquire + 1;
        }
        if self.confirmed || self.since_acquire < CONFIRM_AFTER_FRAMES {
            return LookOutcome { write: CameraWrite::Aim(addr), line: None };
        }
        self.confirmed = true;
        LookOutcome {
            write: CameraWrite::Aim(addr),
            line: Some(
                LogLine { level: Level::Info, text: confirm_text(me, target, addr, read, aim) },
            ),
        }
    }

    fn lose(&mut self) -> (outcome: LookOutcome)
        ensures
            *final(self) == old(self).lost(),
            outcome.write == (if old(self).releases() {
                CameraWrite::Release
            } else {
                CameraWrite::Keep
            }),
            outcome.line is Some == old(self).releases(),
            outcome.line is Some ==> outcome.line->0@ == (LogLineView {
                level: Level::Info,
                text: released_chars(next_count(old(self).missing)),
            }),
    {
        if self.missing < u64::MAX {
            self.missing = self.missing + 1;
        }
        if self.aiming && self.missing >= RELEASE_AFTER_FRAMES {
            self.aiming = false;
            self.current = None;
            let mut line =
                "presence-probe: look-at: released camera — no Active+Remote phantom for ".to_owned();
            line.append(text::dec_text(self.missing).as_str());
            line.append(" frames");
            LookOutcome {
                write: CameraWrite::Release,
                line: Some(LogLine { level: Level::Info, text: line }),
            }
        } else {
            LookOutcome { write: CameraWrite::Keep, line: None }
        }
    }
}

fn aiming_text(target: &RawEntry, addr: u64, camera: CameraRead) -> (out: String)
    requires
        target.ptr == Some(addr),
        target.detail is Some,
    ensures
        out@ == aiming_chars(*target, camera),
{
    let mut out = "presence-probe: look-at: aiming at phantom tag=".to_owned();
    out.append(phantom_tag(addr).as_str());
    out.append(" chr_ins=0x");
    out.append(text::hex_text(addr).as_str());
    out.append(" block=");
    match &target.detail {
        Some(d) => out.append(d.block_text.as_str()),
        None => {},
    }
    out.append("; camera_type was ");
    out.append(camera_type_text(camera.camera_type).as_str());
    out.append(" before the write, now forced ");
    out.append(camera_type_text(DEATH_CAM).as_str());
    out.append(". A CONFIRM line follows in ~60 frames.");
    out
}

fn held_text(held: Option<u64>, addr: u64) -> (out: String)
    ensures
        out@ == held_chars(held, addr),
{
    match held {
        Some(h) => {
            if h == addr {
                "target_held=yes".to_owned()
            } else {
                let mut out = "target_held=no (game holds 0x".to_owned();
                out.append(text::hex_text(h).as_str());
                out.append(")");
                out
            }
        },
        None => "target_held=no (game cleared it)".to_owned(),
    }
}

fn geometry_text(local: &LocalPlayer, target: &RawEntry, aim: &AimReading) -> (out: String)
    requires
        target.detail is Some,
    ensures
        out@ == geometry_chars(*local, *target, *aim),
{
    match &target.detail {
        Some(d) => {
            if local.block == d.block {
                let mut out = "cam_to_phantom=".to_owned();
                out.append(aim.distance.as_str());
                match &aim.error {
                    Some(e) => {
                        out.append("m aim_error=");
                        out.append(e.as_str());
                        out.append("deg");
                    },
                    None => out.append("m aim_error=n/a (degenerate vector)"),
                }
                out
            } else {
                let mut out = "cam_to_phantom=n/a (phantom block ".to_owned();
                out.append(d.block_text.as_str());
                out.append(" != local block ");
                out.append(local.block_text.as_str());
                out.append(")");
                out
            }
        },
        None => String::new(),
    }
}

fn confirm_text(
    local: &LocalPlayer,
    target: &RawEntry,
    addr: u64,
    camera: CameraRead,
    aim: &AimReading,
) -> (out: String)
    requires
        target.ptr == Some(addr),
        target.detail is Some,
    ensures
        out@ == confirm_chars(*local, *target, camera, *aim),
{
    let mut out = "presence-probe: look-at CONFIRM: tag=".to_owned();
    out.append(phantom_tag(addr).as_str());
    out.append(" chr_ins=0x");
    out.append(text::hex_text(addr).as_str());
    out.append(" after 60 frames of re-asserting — the game left camera_type=");
    out.append(camera_type_text(camera.camera_type).as_str());
    out.append(" ");
    out.append(held_text(camera.held, addr).as_str());
    out.append(" ");
    out.append(geometry_text(local, target, aim).as_str());
    out.append(CONFIRM_READING);
    out
}

/// Releasing ends the aim: after it the lever drives nothing and holds no target, and no later frame
/// without a target releases again.
pub proof fn release_happens_once(look: LookAtPhantom)
    requires
        look.releases(),
    ensures
        !look.lost().aiming,
        look.lost().current is None,
        !look.lost().releases(),
{
}

/// A frame without a target that stops the drive is the one that clears the camera, so a target is
/// never left installed.
pub proof fn drive_stops_only_by_release(look: LookAtPhantom)
    requires
        look.aiming,
        !look.lost().aiming,
    ensures
        look.releases(),
{
}

/// While the same phantom stays the target its read-back is reported at most once.
pub proof fn confirmed_at_most_once(look: LookAtPhantom, addr: u64)
    requires
        look.confirms(addr),
    ensures
        !look.aimed(addr).confirms(addr),
        look.aimed(addr).confirmed,
        look.aimed(addr).aimed(addr).confirmed,
{
}

/// Edge lines never exceed the budget, and every edge is either logged or counted.
pub proof fn edge_budget(probe: ProbeView, found: nat)
    requires
        probe.wf(),
    ensures
        probe.after_edges(found).emitted <= MAX_EDGES_PER_INTERVAL,
        probe.suppressed + found <= u32::MAX ==> (probe.after_edges(found).emitted - probe.emitted)
            + (probe.after_edges(found).suppressed - probe.suppressed) == found,
{
}

/// A roster compared with itself has no edges.
pub proof fn no_edges_without_change(slots: Seq<Slot>)
    requires
        in_slot_order(slots),
    ensures
        edges(slots, slots) =~= Seq::empty(),
{
    assert forall|n: nat| n <= slots.len() implies #[trigger] present_edges(slots, slots, n)
        =~= Seq::empty() by {
        no_present_edges(slots, n);
    }
    assert forall|n: nat| n <= slots.len() implies #[trigger] gone_edges(slots, slots, n)
        =~= Seq::empty() by {
        no_gone_edges(slots, n);
    }
}

proof fn found_at_its_index(slots: Seq<Slot>, i: int, n: nat)
    requires
        in_slot_order(slots),
        0 <= i < n <= slots.len(),
    ensures
        at_index(slots, slots[i].index, n) == Some(slots[i]),
    decreases n,
{
    if n - 1 != i {
        assert(slots[i].index < slots[n - 1].index);
        found_at_its_index(slots, i, (n - 1) as nat);
    }
}

proof fn no_present_edges(slots: Seq<Slot>, n: nat)
    requires
        in_slot_order(slots),
        n <= slots.len(),
    ensures
        present_edges(slots, slots, n) =~= Seq::empty(),
    decreases n,
{
    if n > 0 {
        no_present_edges(slots, (n - 1) as nat);
        found_at_its_index(slots, n - 1, slots.len());
    }
}

proof fn no_gone_edges(slots: Seq<Slot>, n: nat)
    requires
        in_slot_order(slots),
        n <= slots.len(),
    ensures
        gone_edges(slots, slots, n) =~= Seq::empty(),
    decreases n,
{
    if n > 0 {
        no_gone_edges(slots, (n - 1) as nat);
        found_at_its_index(slots, n - 1, slots.len());
    }
}

/// Every entry that holds a character other than one's own is a phantom, under its own index and as it was read;
/// a position is taken only of one that is active.
pub proof fn every_other_character_is_a_phantom(
    entries: Seq<RawEntry>,
    main: Option<u64>,
    n: nat,
)
    requires
        n <= entries.len() <= usize::MAX,
    ensures
        forall|i: int|
            0 <= i < n && (#[trigger] entries[i]).ptr is Some && entries[i].ptr != main
                ==> occupied(entries, main, n).contains(
                Slot {
                    index: i as usize,
                    status: entries[i].status,
                    update_type: entries[i].update_type,
                    ptr: entries[i].ptr->0,
                    detail: if entries[i].status == 2 {
                        entries[i].detail
                    } else {
                        None
                    },
                },
            ),
        forall|k: int|
            #![trigger occupied(entries, main, n)[k]]
            0 <= k < occupied(entries, main, n).len() ==> {
                let slot = occupied(entries, main, n)[k];
                &&& slot.index < n
                &&& entries[slot.index as int].ptr == Some(slot.ptr)
                &&& Some(slot.ptr) != main
                &&& entries[slot.index as int].status == slot.status
                &&& entries[slot.index as int].update_type == slot.update_type
                &&& slot.status != 2 ==> slot.detail is None
                &&& slot.status == 2 ==> slot.detail == entries[slot.index as int].detail
            },
    decreases n,
{
    if n > 0 {
        every_other_character_is_a_phantom(entries, main, (n - 1) as nat);
        let before = occupied(entries, main, (n - 1) as nat);
        let now = occupied(entries, main, n);
        assert forall|i: int|
            0 <= i < n && (#[trigger] entries[i]).ptr is Some && entries[i].ptr
                != main implies now.contains(
            Slot {
                index: i as usize,
                status: entries[i].status,
                update_type: entries[i].update_type,
                ptr: entries[i].ptr->0,
                detail: if entries[i].status == 2 {
                    entries[i].detail
                } else {
                    None
                },
            },
        ) by {
            let slot = Slot {
                index: i as usize,
                status: entries[i].status,
                update_type: entries[i].update_type,
                ptr: entries[i].ptr->0,
                detail: if entries[i].status == 2 {
                    entries[i].detail
                } else {
                    None
                },
            };
            if i < n - 1 {
                assert(before.contains(slot));
                let j = choose|j: int| 0 <= j < before.len() && before[j] == slot;
                assert(now[j] == slot);
            } else {
                assert(now[before.len() as int] == slot);
            }
        }
        assert forall|k: int|
            #![trigger now[k]]
            0 <= k < now.len() implies {
            let slot = now[k];
            &&& slot.index < n
            &&& entries[slot.index as int].ptr == Some(slot.ptr)
            &&& Some(slot.ptr) != main
            &&& entries[slot.index as int].status == slot.status
            &&& entries[slot.index as int].update_type == slot.update_type
            &&& slot.status != 2 ==> slot.detail is None
            &&& slot.status == 2 ==> slot.detail == entries[slot.index as int].detail
        } by {
            if k < before.len() {
                assert(before[k] == now[k]);
            }
        }
    }
}

/// A slot is found under its index, and only one that has it is.
pub proof fn a_slot_is_found_under_its_index(slots: Seq<Slot>, index: usize, n: nat)
    requires
        n <= slots.len(),
    ensures
        at_index(slots, index, n) is Some == (exists|i: int|
            0 <= i < n && (#[trigger] slots[i]).index == index),
        at_index(slots, index, n) is Some ==> at_index(slots, index, n)->0.index == index
            && slots.contains(at_index(slots, index, n)->0),
    decreases n,
{
    if n > 0 {
        a_slot_is_found_under_its_index(slots, index, (n - 1) as nat);
        if slots[n - 1].index != index {
            if exists|i: int| 0 <= i < n && (#[trigger] slots[i]).index == index {
                let i = choose|i: int| 0 <= i < n && (#[trigger] slots[i]).index == index;
                assert(i < n - 1);
            }
        } else {
            assert(slots.contains(slots[n - 1]));
        }
    }
}

/// A slot has an edge exactly if it is new, holds another character, or its status or kind of update changed.
pub proof fn an_edge_is_a_change(prev: Slot, slot: Slot)
    ensures
        edge_chars(None, slot) is Some,
        edge_chars(Some(prev), slot) is None == (prev.ptr == slot.ptr && prev.status == slot.status
            && prev.update_type == slot.update_type),
        edge_chars(None, slot)->0 == "SPAWNED "@ + slot.ident() + "  "@ + slot.position(),
{
}

/// Every slot that is new or changed has its edge told, and so has every slot that is gone.
pub proof fn every_edge_is_told(last: Seq<Slot>, now: Seq<Slot>, k: int)
    ensures
        0 <= k < now.len() && edge_chars(at_index(last, now[k].index, last.len()), now[k]) is Some
            ==> edges(last, now).contains(
            edge_chars(at_index(last, now[k].index, last.len()), now[k])->0,
        ),
        0 <= k < last.len() && at_index(now, last[k].index, now.len()) is None ==> edges(
            last,
            now,
        ).contains("DESPAWNED "@ + last[k].ident() + "  last "@ + last[k].position()),
{
    let present = present_edges(last, now, now.len());
    let gone = gone_edges(last, now, last.len());
    if 0 <= k < now.len() && edge_chars(at_index(last, now[k].index, last.len()), now[k]) is Some {
        let line = edge_chars(at_index(last, now[k].index, last.len()), now[k])->0;
        present_edge_is_told(last, now, k, now.len());
        let j = choose|j: int| 0 <= j < present.len() && present[j] == line;
        assert(edges(last, now)[j] == line);
    }
    if 0 <= k < last.len() && at_index(now, last[k].index, now.len()) is None {
        let line = "DESPAWNED "@ + last[k].ident() + "  last "@ + last[k].position();
        gone_edge_is_told(last, now, k, last.len());
        let j = choose|j: int| 0 <= j < gone.len() && gone[j] == line;
        assert(edges(last, now)[present.len() + j] == line);
    }
}

proof fn present_edge_is_told(last: Seq<Slot>, now: Seq<Slot>, k: int, n: nat)
    requires
        0 <= k < n <= now.len(),
        edge_chars(at_index(last, now[k].index, last.len()), now[k]) is Some,
    ensures
        present_edges(last, now, n).contains(
            edge_chars(at_index(last, now[k].index, last.len()), now[k])->0,
        ),
    decreases n,
{
    let line = edge_chars(at_index(last, now[k].index, last.len()), now[k])->0;
    let before = present_edges(last, now, (n - 1) as nat);
    let all = present_edges(last, now, n);
    if k < n - 1 {
        present_edge_is_told(last, now, k, (n - 1) as nat);
        let j = choose|j: int| 0 <= j < before.len() && before[j] == line;
        assert(all[j] == line);
    } else {
        assert(all[before.len() as int] == line);
    }
}

proof fn gone_edge_is_told(last: Seq<Slot>, now: Seq<Slot>, k: int, n: nat)
    requires
        0 <= k < n <= last.len(),
        at_index(now, last[k].index, now.len()) is None,
    ensures
        gone_edges(last, now, n).contains(
            "DESPAWNED "@ + last[k].ident() + "  last "@ + last[k].position(),
        ),
    decreases n,
{
    let line = "DESPAWNED "@ + last[k].ident() + "  last "@ + last[k].position();
    let before = gone_edges(last, now, (n - 1) as nat);
    let all = gone_edges(last, now, n);
    if k < n - 1 {
        gone_edge_is_told(last, now, k, (n - 1) as nat);
        let j = choose|j: int| 0 <= j < before.len() && before[j] == line;
        assert(all[j] == line);
    } else {
        assert(all[before.len() as int] == line);
    }
}

/// As many edges are told as the interval has room for, and none is left out before it is full.
pub proof fn edges_fill_the_interval(emitted: nat, found: nat)
    requires
        emitted <= 8,
    ensures
        edges_that_fit(emitted, found) <= found,
        emitted + edges_that_fit(emitted, found) <= 8,
        edges_that_fit(emitted, found) < found ==> emitted + edges_that_fit(emitted, found) == 8,
{
}

/// Counts add up until they are full, and stay full.
pub proof fn counts_stop_at_the_top(a: nat, b: nat)
    ensures
        a + b <= u32::MAX ==> capped_sum(a, b) == a + b,
        a + b > u32::MAX ==> capped_sum(a, b) == u32::MAX,
{
}

/// A phantom adds one to the count of active ones exactly if it is active, and one to that of remote ones exactly
/// if it is driven from afar.
pub proof fn each_phantom_counts_once(slots: Seq<Slot>, n: nat)
    requires
        n < slots.len(),
    ensures
        active_count(slots, 0) == 0,
        remote_count(slots, 0) == 0,
        active_count(slots, n + 1) - active_count(slots, n) == (if slots[n as int].status == 2 {
            1int
        } else {
            0
        }),
        remote_count(slots, n + 1) - remote_count(slots, n) == (if slots[n as int].update_type
            == 4 {
            1int
        } else {
            0
        }),
{
}

/// What is remembered of a phantom is where it was last seen.
pub proof fn the_last_sighting_is_remembered(slots: Seq<Slot>, i: int, n: nat)
    requires
        0 <= i < n <= slots.len(),
        slots[i].detail is Some,
        forall|j: int| i < j < n ==> (#[trigger] slots[j]).ptr != slots[i].ptr,
    ensures
        mark_of(marks(slots, n), slots[i].ptr) == Some(
            Mark { pos: slots[i].detail->0.pos, block: slots[i].detail->0.block },
        ),
    decreases n,
{
    if i < n - 1 {
        the_last_sighting_is_remembered(slots, i, (n - 1) as nat);
        assert(slots[n - 1].ptr != slots[i].ptr);
    }
}

/// Of a phantom that was not seen nothing is remembered.
pub proof fn the_unseen_are_not_remembered(slots: Seq<Slot>, ptr: u64, n: nat)
    requires
        n <= slots.len(),
        forall|i: int|
            0 <= i < n && (#[trigger] slots[i]).ptr == ptr ==> slots[i].detail is None,
    ensures
        mark_of(marks(slots, n), ptr) is None,
    decreases n,
{
    if n > 0 {
        the_unseen_are_not_remembered(slots, ptr, (n - 1) as nat);
        assert(slots[n - 1].ptr == ptr ==> slots[n - 1].detail is None);
    }
}

/// A distance is printed between two positions in the same block and nowhere else: elsewhere what was measured
/// does not show.
pub proof fn distances_stay_within_a_block(
    d: Detail,
    own: Detail,
    mark: Mark,
    a: Seq<char>,
    b: Seq<char>,
)
    ensures
        mark.block == d.block ==> moved_chars(Some(d), Some(mark), a) == "moved="@ + a + "m"@,
        mark.block != d.block ==> moved_chars(Some(d), Some(mark), a) == moved_chars(
            Some(d),
            Some(mark),
            b,
        ),
        moved_chars(Some(d), None, a) == moved_chars(Some(d), None, b),
        moved_chars(None, Some(mark), a) == moved_chars(None, Some(mark), b),
        own.block == d.block ==> dist_chars(Some(d), Some(own), a) == "dist="@ + a + "m"@,
        own.block != d.block ==> dist_chars(Some(d), Some(own), a) == dist_chars(
            Some(d),
            Some(own),
            b,
        ),
        dist_chars(None, Some(own), a) == dist_chars(None, Some(own), b),
        dist_chars(Some(d), None, a) == dist_chars(Some(d), None, b),
{
}

/// While there are phantoms every sample is logged; while there are none the first is, and then one in thirty.
pub proof fn a_quiet_world_is_logged_rarely(probe: ProbeView, sample: Sample)
    requires
        probe.wf(),
    ensures
        sample.phantoms@.len() > 0 ==> probe.logs_sample(sample) && probe.after_sample(sample).quiet
            == 0,
        sample.phantoms@.len() == 0 ==> probe.logs_sample(sample) == (probe.quiet == 0),
        sample.phantoms@.len() == 0 && probe.quiet < 29 ==> probe.after_sample(sample).quiet
            == probe.quiet + 1,
        sample.phantoms@.len() == 0 && probe.quiet == 29 ==> probe.after_sample(sample).quiet == 0,
        probe.after_sample(sample).emitted == 0,
        probe.after_sample(sample).suppressed == 0,
        probe.after_sample(sample).last == probe.last,
        probe.after_sample(sample).announced == probe.announced,
{
}

/// When the world is gone its phantoms are forgotten, which is told if there were any; waiting for a world is told
/// once, and so is finding one.
pub proof fn a_world_that_is_gone_is_forgotten(probe: ProbeView, tick: u64)
    ensures
        probe.without_world().last.len() == 0,
        probe.without_world().base == Map::<u64, Mark>::empty(),
        probe.without_world().waiting_announced,
        probe.without_world().gap_lines().len() == 0,
        !probe.waiting_announced ==> probe.gap_lines().len() >= 1 && probe.gap_lines()[0].text
            == WAITING@,
        probe.last.len() > 0 ==> probe.gap_lines().len() >= 1 && probe.gap_lines().last().text
            == GONE_HEAD@ + dec(probe.last.len()) + GONE_TAIL@,
        probe.announced ==> probe.live_lines(tick).len() == 0,
        !probe.announced ==> probe.live_lines(tick).len() == 1,
{
}

/// A phantom that can be looked at is a readable, active one, driven from afar, other than oneself.
pub proof fn only_phantoms_are_looked_at(local: LocalPlayer, e: RawEntry)
    ensures
        eligible(local, e) ==> e.ptr is Some && e.ptr->0 != local.addr && e.status == 2
            && e.update_type == 4 && e.detail is Some,
        e.ptr is Some && e.ptr->0 != local.addr && e.status == 2 && e.update_type == 4
            && e.detail is Some ==> eligible(local, e),
{
}

/// There is never more than one first phantom to look at, and where any can be looked at there is one.
pub proof fn the_first_phantom_is_unique(
    local: LocalPlayer,
    entries: Seq<RawEntry>,
    a: int,
    b: int,
)
    ensures
        is_first_eligible(local, entries, a) && is_first_eligible(local, entries, b) ==> a == b,
        is_first_eligible(local, entries, a) && 0 <= b < a ==> !eligible(local, entries[b]),
        is_first_eligible(local, entries, a) ==> 0 <= a < entries.len() && eligible(
            local,
            entries[a],
        ),
{
}

/// A phantom out of sight is waited for twenty-nine frames and let go in the thirtieth; one frame in sight starts
/// the wait over.
pub proof fn a_lost_phantom_is_let_go_in_time(look: LookAtPhantom, addr: u64)
    requires
        look.aiming,
        look.missing < u64::MAX,
    ensures
        look.lost().missing == look.missing + 1,
        look.missing + 1 < 30 ==> !look.releases() && look.lost().aiming && look.lost().current
            == look.current,
        look.missing + 1 >= 30 ==> look.releases() && !look.lost().aiming
            && look.lost().current is None,
        look.aimed(addr).missing == 0,
        look.aimed(addr).aiming,
        look.aimed(addr).current == Some(addr),
{
}

/// Aiming at the same phantom counts frames and confirms in the sixtieth; aiming at another one starts over.
pub proof fn a_look_is_confirmed_in_time(look: LookAtPhantom, addr: u64)
    requires
        look.since_acquire < u64::MAX,
    ensures
        look.current != Some(addr) ==> look.aimed(addr).since_acquire == 0 && !look.aimed(
            addr,
        ).confirmed && !look.confirms(addr),
        look.current == Some(addr) ==> look.aimed(addr).since_acquire == look.since_acquire + 1,
        look.current == Some(addr) && !look.confirmed ==> look.confirms(addr) == (look.since_acquire
            + 1 >= 60),
        look.current == Some(addr) ==> look.aimed(addr).confirmed == (look.confirmed
            || look.since_acquire + 1 >= 60),
        look.aimed(addr).announced == look.announced,
{
}

/// A probe starts out with nothing seen, nothing told and nothing counted.
pub proof fn a_probe_starts_out_fresh()
    ensures
        ProbeView::initial().last.len() == 0,
        ProbeView::initial().base == Map::<u64, Mark>::empty(),
        ProbeView::initial().quiet == 0,
        ProbeView::initial().emitted == 0,
        ProbeView::initial().suppressed == 0,
        !ProbeView::initial().waiting_announced,
        !ProbeView::initial().announced,
{
}

/// The states of a slot and the ways it is driven, by their names; others have none.
pub proof fn states_go_by_their_names(raw: u8)
    ensures
        status_name(0) == Some("Unloaded"@),
        status_name(1) == Some("Initializing"@),
        status_name(2) == Some("Active"@),
        status_name(3) == Some("NetworkInitializing"@),
        status_name(4) == Some("ReadyForActivation"@),
        status_name(5) == Some("Unloading"@),
        raw > 5 ==> status_name(raw) is None,
        update_name(0) == Some("Local"@),
        update_name(1) == Some("Unknown1"@),
        update_name(2) == Some("Unknown2"@),
        update_name(3) == Some("Unknown3"@),
        update_name(4) == Some("Remote"@),
        raw > 4 ==> update_name(raw) is None,
        named_chars(raw, None) == dec(raw as nat) + " (UNKNOWN)"@,
        named_chars(2, status_name(2)) == dec(2) + " ("@ + "Active"@ + ")"@,
{
}

/// The camera's kinds, by their names where they have one.
pub proof fn cameras_go_by_their_names(raw: u32)
    ensures
        camera_chars(0) == "0 (Unk0, normal follow cam)"@,
        camera_chars(7) == "7 (DeathCam)"@,
        raw != 0 && raw != 7 ==> camera_chars(raw) == dec(raw as nat),
{
}

/// A slot is told by its index, its character, its status and how it is driven; its position only where there is one.
pub proof fn a_slot_is_told_by_what_it_holds(slot: Slot, d: Detail)
    ensures
        slot.ident() == "slot="@ + dec(slot.index as nat) + " tag="@ + tag_chars(slot.ptr)
            + " chr_ins=0x"@ + hex_digits(slot.ptr as nat) + " status="@ + named_chars(
            slot.status,
            status_name(slot.status),
        ) + " update="@ + named_chars(slot.update_type, update_name(slot.update_type)),
        slot.detail == Some(d) ==> slot.position() == "pos_havok=("@ + d.pos_text@ + ") block="@
            + d.block_text@,
        slot.detail is None ==> slot.position() == "pos_havok=(not readable; entry not Active)"@,
        own_chars(Some(d)) == "self pos_havok=("@ + d.pos_text@ + ") block="@ + d.block_text@
            || own_chars(Some(d)) == "self "@ + d.shown(),
        own_chars(None) == "self (no active local player)"@,
{
}

/// An edge tells what changed: another character, another status or another way of being driven, from and to.
pub proof fn an_edge_tells_what_changed(p: Slot, slot: Slot)
    ensures
        p.ptr != slot.ptr ==> edge_chars(Some(p), slot)->0 == "REPLACED (was tag="@ + tag_chars(
            p.ptr,
        ) + " chr_ins=0x"@ + hex_digits(p.ptr as nat) + ") "@ + slot.ident() + "  "@
            + slot.position(),
        p.ptr == slot.ptr && p.status != slot.status ==> edge_chars(Some(p), slot)->0 == "STATUS "@
            + named_chars(p.status, status_name(p.status)) + " -> "@ + named_chars(
            slot.status,
            status_name(slot.status),
        ) + " "@ + slot.ident() + "  "@ + slot.position(),
        p.ptr == slot.ptr && p.status == slot.status && p.update_type != slot.update_type
            ==> edge_chars(Some(p), slot)->0 == "UPDATE-TYPE "@ + named_chars(
            p.update_type,
            update_name(p.update_type),
        ) + " -> "@ + named_chars(slot.update_type, update_name(slot.update_type)) + " "@
            + slot.ident(),
{
}

/// The head of the roster counts the phantoms, the active and the remote ones, warns where oneself could not be told
/// apart, and tells of edges that were left out, if any.
pub proof fn the_head_counts_the_phantoms(
    sample: Sample,
    dt: Seq<char>,
    tick: u64,
    emitted: u32,
    suppressed: u32,
)
    ensures
        ({
            let slots = sample.phantoms@;
            let counts = "presence-probe: roster @tick "@ + dec(tick as nat) + " dt="@ + dt
                + "s: phantoms="@ + dec(slots.len()) + " (active="@ + dec(
                active_count(slots, slots.len()),
            ) + " remote="@ + dec(remote_count(slots, slots.len())) + ") | "@ + own_chars(
                sample.own,
            );
            &&& sample.exclusion_ok && suppressed == 0 ==> header_chars(
                sample,
                dt,
                tick,
                emitted,
                suppressed,
            ) == counts
            &&& !sample.exclusion_ok && suppressed == 0 ==> header_chars(
                sample,
                dt,
                tick,
                emitted,
                suppressed,
            ) == counts + NO_EXCLUSION@
            &&& sample.exclusion_ok && suppressed > 0 ==> header_chars(
                sample,
                dt,
                tick,
                emitted,
                suppressed,
            ) == counts + " | "@ + dec(suppressed as nat)
                + " edge line(s) suppressed this interval (cap 8, "@ + dec(emitted as nat)
                + " emitted)"@
        }),
{
}

/// A sample that is logged has a head and a line for every phantom, with what is remembered of it; one that is not
/// logged has none.
pub proof fn every_phantom_has_a_line(
    probe: ProbeView,
    sample: Sample,
    measured: Seq<Measured>,
    dt: Seq<char>,
    tick: u64,
    i: int,
)
    ensures
        !probe.logs_sample(sample) ==> probe.sample_lines(sample, measured, dt, tick).len() == 0,
        probe.logs_sample(sample) ==> probe.sample_lines(sample, measured, dt, tick).len() == 1
            + sample.phantoms@.len() && probe.sample_lines(sample, measured, dt, tick)[0].text
            == header_chars(sample, dt, tick, probe.emitted, probe.suppressed),
        probe.logs_sample(sample) && 0 <= i < sample.phantoms@.len() ==> probe.sample_lines(
            sample,
            measured,
            dt,
            tick,
        )[i + 1] == phantom_line(
            sample.phantoms@[i],
            sample.own,
            mark_of(probe.base, sample.phantoms@[i].ptr),
            measured[i],
        ),
{
    phantom_lines_are_complete(sample, probe.base, measured, sample.phantoms@.len());
}

proof fn phantom_lines_are_complete(
    sample: Sample,
    base: Map<u64, Mark>,
    measured: Seq<Measured>,
    n: nat,
)
    requires
        n <= sample.phantoms@.len(),
    ensures
        phantom_lines(sample, base, measured, n).len() == n,
        forall|i: int|
            0 <= i < n ==> #[trigger] phantom_lines(sample, base, measured, n)[i] == phantom_line(
                sample.phantoms@[i],
                sample.own,
                mark_of(base, sample.phantoms@[i].ptr),
                measured[i],
            ),
    decreases n,
{
    if n > 0 {
        phantom_lines_are_complete(sample, base, measured, (n - 1) as nat);
        let before = phantom_lines(sample, base, measured, (n - 1) as nat);
        assert forall|i: int| 0 <= i < n implies #[trigger] phantom_lines(
            sample,
            base,
            measured,
            n,
        )[i] == phantom_line(
            sample.phantoms@[i],
            sample.own,
            mark_of(base, sample.phantoms@[i].ptr),
            measured[i],
        ) by {
            if i < n - 1 {
                assert(phantom_lines(sample, base, measured, n)[i] == before[i]);
            }
        }
    }
}

/// The edges that are told are the first ones, each in a line of its own.
pub proof fn the_first_edges_are_told(probe: ProbeView, now: Seq<Slot>, tick: u64, i: int)
    ensures
        probe.edge_lines(now, tick).len() == edges_that_fit(
            probe.emitted as nat,
            edges(probe.last, now).len(),
        ),
        0 <= i < probe.edge_lines(now, tick).len() ==> probe.edge_lines(now, tick)[i].text
            == "presence-probe: EDGE @tick "@ + dec(tick as nat) + " "@ + edges(probe.last, now)[i],
{
}

/// Whether the game held what was written is told for what it is.
pub proof fn what_the_game_holds_is_told(addr: u64, other: u64)
    ensures
        held_chars(Some(addr), addr) == "target_held=yes"@,
        other != addr ==> held_chars(Some(other), addr) == "target_held=no (game holds 0x"@
            + hex_digits(other as nat) + ")"@,
        held_chars(None, addr) == "target_held=no (game cleared it)"@,
{
}

/// The aim is measured within one block and not told across two.
pub proof fn the_aim_stays_within_a_block(
    local: LocalPlayer,
    target: RawEntry,
    a: AimReading,
    b: AimReading,
)
    requires
        target.detail is Some,
    ensures
        local.block != target.detail->0.block ==> geometry_chars(local, target, a)
            == geometry_chars(local, target, b),
        local.block == target.detail->0.block && a.error is Some ==> geometry_chars(
            local,
            target,
            a,
        ) == "cam_to_phantom="@ + a.distance@ + "m aim_error="@ + a.error->0@ + "deg"@,
        local.block == target.detail->0.block && a.error is None ==> geometry_chars(
            local,
            target,
            a,
        ) == "cam_to_phantom="@ + a.distance@ + "m aim_error=n/a (degenerate vector)"@,
{
}

/// What the lever does is told: what it aims at and from which camera, what it confirmed, and when it let go.
pub proof fn the_lever_tells_what_it_does(
    local: LocalPlayer,
    target: RawEntry,
    camera: CameraRead,
    aim: AimReading,
    missing: u64,
    slot: Slot,
    own: Option<Detail>,
    before: Option<Mark>,
    measured: Measured,
)
    requires
        target.ptr is Some,
    ensures
        aiming_chars(target, camera) == "presence-probe: look-at: aiming at phantom tag="@
            + tag_chars(target.ptr->0) + " chr_ins=0x"@ + hex_digits(target.ptr->0 as nat)
            + " block="@ + target.detail->0.block_text@ + "; camera_type was "@ + camera_chars(
            camera.camera_type,
        ) + " before the write, now forced "@ + camera_chars(7)
            + ". A CONFIRM line follows in ~60 frames."@,
        confirm_chars(local, target, camera, aim) == "presence-probe: look-at CONFIRM: tag="@
            + tag_chars(target.ptr->0) + " chr_ins=0x"@ + hex_digits(target.ptr->0 as nat)
            + " after 60 frames of re-asserting — the game left camera_type="@ + camera_chars(
            camera.camera_type,
        ) + " "@ + held_chars(camera.held, target.ptr->0) + " "@ + geometry_chars(
            local,
            target,
            aim,
        ) + CONFIRM_READING@,
        released_chars(missing)
            == "presence-probe: look-at: released camera — no Active+Remote phantom for "@ + dec(
            missing as nat,
        ) + " frames"@,
        phantom_line(slot, own, before, measured).text == "presence-probe:   phantom "@
            + slot.ident() + "  "@ + slot.position() + " "@ + dist_chars(
            slot.detail,
            own,
            measured.from_self@,
        ) + " "@ + moved_chars(slot.detail, before, measured.moved@),
        target_addr(target) == target.ptr->0,
{
}

/// Why a distance is not told is told in its place.
pub proof fn why_a_distance_is_missing_is_told(d: Detail, own: Detail, mark: Mark, m: Seq<char>)
    ensures
        moved_chars(None, Some(mark), m) == "moved=n/a (position not readable)"@,
        moved_chars(Some(d), None, m) == "moved=n/a (no baseline yet)"@,
        mark.block != d.block ==> moved_chars(Some(d), Some(mark), m)
            == "moved=n/a (block changed; Havok frames differ)"@,
        dist_chars(None, Some(own), m) == "dist=n/a (position not readable)"@,
        dist_chars(Some(d), None, m) == "dist=n/a (position not readable)"@,
        own.block != d.block ==> dist_chars(Some(d), Some(own), m)
            == "dist=n/a (different block: "@ + d.block_text@ + " vs self "@ + own.block_text@
            + ")"@,
{
}

/// A character's tag is made of the middle bits of its address, six digits wide.
pub proof fn a_tag_is_made_of_the_address(addr: u64)
    ensures
        tag_chars(addr) == "p"@ + zero_pad(hex_digits(((addr >> 4u64) & 0xff_ffffu64) as nat), 6),
        ((addr >> 4u64) & 0xff_ffffu64) == (addr / 16) % 0x100_0000,
{
    assert(((addr >> 4u64) & 0xff_ffffu64) == (addr / 16) % 0x100_0000) by (bit_vector);
}

/// Slots in order have indexes that grow, so that no two share one.
pub proof fn ordered_slots_have_their_own_indexes(slots: Seq<Slot>, i: int, j: int)
    requires
        in_slot_order(slots),
        0 <= i < j < slots.len(),
    ensures
        slots[i].index < slots[j].index,
{
}

/// A phantom that can be looked at and has none before it is the first, at the front of the list too.
pub proof fn a_phantom_with_none_before_it_is_the_first(
    local: LocalPlayer,
    entries: Seq<RawEntry>,
    k: int,
)
    requires
        0 <= k < entries.len(),
        eligible(local, entries[k]),
        forall|j: int| 0 <= j < k ==> !eligible(local, #[trigger] entries[j]),
    ensures
        is_first_eligible(local, entries, k),
{
}

/// Everything that the probe finds is told to everyone.
pub proof fn the_probe_is_told_to_everyone(
    probe: ProbeView,
    sample: Sample,
    measured: Seq<Measured>,
    dt: Seq<char>,
    tick: u64,
    edge: Seq<char>,
    slot: Slot,
    m: Measured,
)
    ensures
        edge_line(tick, edge).level == Level::Info,
        phantom_line(slot, sample.own, None, m).level == Level::Info,
        probe.logs_sample(sample) ==> probe.sample_lines(sample, measured, dt, tick)[0].level
            == Level::Info,
        !probe.waiting_announced ==> probe.gap_lines()[0].level == Level::Info,
        probe.last.len() > 0 ==> probe.gap_lines().last().level == Level::Info,
        !probe.announced ==> probe.live_lines(tick)[0].level == Level::Info,
        !probe.announced ==> probe.live_lines(tick)[0].text == LIVE_HEAD@ + dec(tick as nat)
            + LIVE_TAIL@,
{
    phantom_lines_are_complete(sample, probe.base, measured, sample.phantoms@.len());
}

} // verus!
