//! The experiment with two hooks on one controller query: which phase runs, the jump instructions that
//! are laid, where executable memory is looked for, and which slot of an import table is swapped.

use pelite::pe64::imports::Import;
use pelite::pe64::{Pe, PeView};
use pelite::Error;
use vstd::prelude::*;

use crate::levels::{lines_view, push_line, Level, LogLine, LogLineView};
use crate::patch::{place, room_for, MAX_IMAGE};
use crate::text;
use crate::text::{ascii_lower_all, dec, hex_digits, joined, texts, trimmed, zero_pad};

verus! {

/// Which phase of the experiment runs.
#[derive(Clone, Copy, Debug, PartialEq, Eq, Structural)]
pub enum Phase {
    /// Two inline hooks collide.
    Repro,
    /// A swapped import slot survives the other hook.
    Iat,
}

impl Phase {
    /// The phase that a lower-case selector names.
    pub open spec fn named(name: Seq<char>) -> Option<Phase> {
        if name == "repro"@ || name == "inline"@ {
            Some(Phase::Repro)
        } else if name == "iat"@ || name == "survival"@ || name == "survive"@ {
            Some(Phase::Iat)
        } else {
            None
        }
    }

    /// The name of the phase.
    pub open spec fn name(self) -> Seq<char> {
        match self {
            Phase::Repro => "Repro"@,
            Phase::Iat => "Iat"@,
        }
    }

    /// Parses a selector, whatever its case and the blanks around it; anything unknown is refused.
    pub fn parse(sel: &str) -> (phase: Option<Phase>)
        ensures
            phase == Phase::named(ascii_lower_all(trimmed(sel@))),
    {
        let trimmed_sel = text::trim(sel);
        let low = text::ascii_lowercase(trimmed_sel.as_str());
        let name = low.as_str();
        if text::same_text(name, "repro") || text::same_text(name, "inline") {
            Some(Phase::Repro)
        } else if text::same_text(name, "iat") || text::same_text(name, "survival")
            || text::same_text(name, "survive") {
            Some(Phase::Iat)
        } else {
            None
        }
    }
}

/// Bytes as two-digit hexadecimal numbers with blanks between them.
pub open spec fn spaced_hex(bytes: Seq<u8>) -> Seq<char> {
    joined(
        Seq::new(bytes.len(), |i: int| zero_pad(hex_digits(bytes[i] as nat), 2)),
        " "@,
    )
}

/// Bytes as two-digit hexadecimal numbers with blanks between them.
pub fn hex(bytes: &Vec<u8>) -> (out: String)
    ensures
        out@ == spaced_hex(bytes@),
{
    let mut parts: Vec<String> = Vec::new();
    let ghost all = Seq::new(bytes@.len(), |i: int| zero_pad(hex_digits(bytes@[i] as nat), 2));
    let mut i: usize = 0;
    assert(texts(parts@) =~= all.take(0));
    while i < bytes.len()
        invariant
            i <= bytes@.len(),
            all == Seq::new(bytes@.len(), |i: int| zero_pad(hex_digits(bytes@[i] as nat), 2)),
            texts(parts@) == all.take(i as int),
        decreases bytes@.len() - i,
    {
        let ghost before = texts(parts@);
        let part = text::hex_padded(bytes[i] as u64, 2);
        let ghost chars = part@;
        parts.push(part);
        assert(texts(parts@) =~= before.push(chars));
        i = i + 1;
        assert(all.take(i as int) =~= before.push(all[i - 1]));
    }
    assert(all.take(i as int) =~= all);
    text::join(&parts, " ")
}

/// The eight bytes of a word, lowest first.
pub open spec fn le64(n: u64) -> Seq<u8> {
    seq![
        (n & 0xff) as u8,
        ((n >> 8u64) & 0xff) as u8,
        ((n >> 16u64) & 0xff) as u8,
        ((n >> 24u64) & 0xff) as u8,
        ((n >> 32u64) & 0xff) as u8,
        ((n >> 40u64) & 0xff) as u8,
        ((n >> 48u64) & 0xff) as u8,
        ((n >> 56u64) & 0xff) as u8,
    ]
}

/// The word that eight bytes, lowest first, stand for.
pub open spec fn word_of(b: Seq<u8>) -> u64 {
    (b[0] as u64) | ((b[1] as u64) << 8u64) | ((b[2] as u64) << 16u64) | ((b[3] as u64) << 24u64)
        | ((b[4] as u64) << 32u64) | ((b[5] as u64) << 40u64) | ((b[6] as u64) << 48u64) | ((
    b[7] as u64) << 56u64)
}

/// The four bytes of a half word, lowest first.
pub open spec fn le32(n: u32) -> Seq<u8> {
    seq![
        (n & 0xff) as u8,
        ((n >> 8u32) & 0xff) as u8,
        ((n >> 16u32) & 0xff) as u8,
        ((n >> 24u32) & 0xff) as u8,
    ]
}

/// The half word that four bytes, lowest first, stand for.
pub open spec fn half_of(b: Seq<u8>) -> u32 {
    (b[0] as u32) | ((b[1] as u32) << 8u32) | ((b[2] as u32) << 16u32) | ((b[3] as u32) << 24u32)
}

/// The absolute jump: an indirect jump through the eight bytes behind it.
pub open spec fn absolute_jump(target: u64) -> Seq<u8> {
    seq![0xffu8, 0x25u8, 0u8, 0u8, 0u8, 0u8] + le64(target)
}

/// A jump to `target` from anywhere, fourteen bytes long.
pub fn abs_jmp(target: u64) -> (code: Vec<u8>)
    ensures
        code@ == absolute_jump(target),
{
    let code: Vec<u8> = vec![
        0xff,
        0x25,
        0,
        0,
        0,
        0,
        (target & 0xff) as u8,
        ((target >> 8u64) & 0xff) as u8,
        ((target >> 16u64) & 0xff) as u8,
        ((target >> 24u64) & 0xff) as u8,
        ((target >> 32u64) & 0xff) as u8,
        ((target >> 40u64) & 0xff) as u8,
        ((target >> 48u64) & 0xff) as u8,
        ((target >> 56u64) & 0xff) as u8,
    ];
    assert(code@ =~= absolute_jump(target));
    code
}

/// The distance a relative jump at `at` has to cover to `target`.
pub open spec fn jump_distance(at: u64, target: u64) -> int {
    target - (at + 5)
}

/// Whether a relative jump reaches.
pub open spec fn reaches(at: u64, target: u64) -> bool {
    i32::MIN <= jump_distance(at, target) <= i32::MAX
}

/// A signed distance as the 32 bits that stand for it.
pub open spec fn distance_bits(distance: int) -> u32 {
    if distance < 0 {
        (distance + 0x1_0000_0000) as u32
    } else {
        distance as u32
    }
}

/// The relative jump from `at` to `target`.
pub open spec fn relative_jump(at: u64, target: u64) -> Seq<u8> {
    seq![0xe9u8] + le32(distance_bits(jump_distance(at, target)))
}

/// A jump from `at` to `target`, five bytes long, for a target in reach.
pub fn rel32_jmp(at: u64, target: u64) -> (code: Vec<u8>)
    requires
        reaches(at, target),
    ensures
        code@ == relative_jump(at, target),
{
    let distance: i128 = target as i128 - (at as i128 + 5);
    let bits: u32 = if distance < 0 {
        (distance + 0x1_0000_0000) as u32
    } else {
        distance as u32
    };
    let code: Vec<u8> = vec![
        0xe9,
        (bits & 0xff) as u8,
        ((bits >> 8u32) & 0xff) as u8,
        ((bits >> 16u32) & 0xff) as u8,
        ((bits >> 24u32) & 0xff) as u8,
    ];
    assert(code@ =~= relative_jump(at, target));
    code
}

/// Reading an absolute jump back gives its target.
pub proof fn absolute_jump_hits_target(target: u64)
    ensures
        absolute_jump(target).len() == 14,
        word_of(absolute_jump(target).skip(6)) == target,
{
    let b = absolute_jump(target).skip(6);
    assert(b =~= le64(target));
    let (b0, b1, b2, b3) = (b[0], b[1], b[2], b[3]);
    let (b4, b5, b6, b7) = (b[4], b[5], b[6], b[7]);
    assert((b0 as u64) | ((b1 as u64) << 8u64) | ((b2 as u64) << 16u64) | ((b3 as u64) << 24u64) | ((
    b4 as u64) << 32u64) | ((b5 as u64) << 40u64) | ((b6 as u64) << 48u64) | ((b7 as u64) << 56u64)
        == target) by (bit_vector)
        requires
            b0 == (target & 0xff) as u8,
            b1 == ((target >> 8u64) & 0xff) as u8,
            b2 == ((target >> 16u64) & 0xff) as u8,
            b3 == ((target >> 24u64) & 0xff) as u8,
            b4 == ((target >> 32u64) & 0xff) as u8,
            b5 == ((target >> 40u64) & 0xff) as u8,
            b6 == ((target >> 48u64) & 0xff) as u8,
            b7 == ((target >> 56u64) & 0xff) as u8,
    ;
}

/// Reading a relative jump back gives a distance that ends at its target.
pub proof fn relative_jump_hits_target(at: u64, target: u64)
    requires
        reaches(at, target),
    ensures
        relative_jump(at, target).len() == 5,
        ({
            let bits = half_of(relative_jump(at, target).skip(1));
            let distance = if bits >= 0x8000_0000u32 {
                bits - 0x1_0000_0000
            } else {
                bits as int
            };
            at + 5 + distance == target
        }),
{
    let bits = distance_bits(jump_distance(at, target));
    let b = relative_jump(at, target).skip(1);
    assert(b =~= le32(bits));
    let (b0, b1, b2, b3) = (b[0], b[1], b[2], b[3]);
    assert((b0 as u32) | ((b1 as u32) << 8u32) | ((b2 as u32) << 16u32) | ((b3 as u32) << 24u32)
        == bits) by (bit_vector)
        requires
            b0 == (bits & 0xff) as u8,
            b1 == ((bits >> 8u32) & 0xff) as u8,
            b2 == ((bits >> 16u32) & 0xff) as u8,
            b3 == ((bits >> 24u32) & 0xff) as u8,
    ;
}

/// The call-original code of a five-byte hook: the bytes that were overwritten, then a jump to what
/// follows them.
pub fn trampoline(prologue: &Vec<u8>, entry: u64) -> (code: Vec<u8>)
    requires
        entry + 5 <= u64::MAX,
    ensures
        code@ == prologue@ + absolute_jump((entry + 5) as u64),
{
    let mut code: Vec<u8> = Vec::new();
    let mut i: usize = 0;
    while i < prologue.len()
        invariant
            i <= prologue@.len(),
            code@ == prologue@.take(i as int),
        decreases prologue@.len() - i,
    {
        code.push(prologue[i]);
        i = i + 1;
        assert(code@ =~= prologue@.take(i as int));
    }
    let mut jump = abs_jmp(entry + 5);
    code.append(&mut jump);
    assert(code@ =~= prologue@ + absolute_jump((entry + 5) as u64));
    code
}

/// A read of the null page: the bytes that fault wherever they are executed.
pub open spec fn fault_sled() -> Seq<u8> {
    seq![0x48u8, 0x8bu8, 0x04u8, 0x25u8, 0u8, 0u8, 0u8, 0u8]
}

/// The colliding patch: a jump to `gateway`, with the faulting bytes where the other hook jumps to.
pub fn colliding_patch(entry: u64, gateway: u64) -> (code: Vec<u8>)
    requires
        reaches(entry, gateway),
    ensures
        code@ == relative_jump(entry, gateway) + fault_sled(),
{
    let mut code = rel32_jmp(entry, gateway);
    let mut sled: Vec<u8> = vec![0x48, 0x8b, 0x04, 0x25, 0, 0, 0, 0];
    assert(sled@ =~= fault_sled());
    code.append(&mut sled);
    code
}

/// The granularity in which memory can be placed.
pub const GRANULE: u64 = 0x1_0000;

/// How far from an address memory is looked for, well inside the reach of a relative jump.
pub const SPAN: u64 = 0x4000_0000;

/// An address rounded down to the granularity.
pub open spec fn granule_of(addr: u64) -> u64 {
    (addr - addr % GRANULE) as u64
}

/// `a - b` as a machine word.
pub open spec fn word_minus(a: u64, b: u64) -> u64 {
    if a >= b {
        (a - b) as u64
    } else {
        (a + 0x1_0000_0000_0000_0000 - b) as u64
    }
}

/// `a + b` as a machine word.
pub open spec fn word_plus(a: u64, b: u64) -> u64 {
    if a + b <= u64::MAX {
        (a + b) as u64
    } else {
        (a + b - 0x1_0000_0000_0000_0000) as u64
    }
}

/// The places to try for executable memory near an address, in the order they are tried: below and
/// above it at one granule's distance, then at two, and so on up to the span.
pub open spec fn candidates(near: u64, steps: nat) -> Seq<u64>
    decreases steps,
{
    if steps == 0 {
        Seq::empty()
    } else {
        let delta = (steps * GRANULE) as u64;
        candidates(near, (steps - 1) as nat).push(granule_of(word_minus(near, delta))).push(
            granule_of(word_plus(near, delta)),
        )
    }
}

/// The number of distances that are tried.
pub open spec fn steps_in_span() -> nat {
    ((SPAN - 1) / GRANULE as int) as nat
}

/// The places to try for executable memory near an address.
pub fn near_candidates(near: u64) -> (places: Vec<u64>)
    ensures
        places@ == candidates(near, steps_in_span()),
{
    let mut places: Vec<u64> = Vec::new();
    let mut delta: u64 = GRANULE;
    let ghost mut steps: nat = 0;
    while delta < SPAN
        invariant
            delta == (steps + 1) * GRANULE,
            delta <= SPAN,
            steps <= steps_in_span(),
            places@ == candidates(near, steps),
        decreases SPAN - delta,
    {
        let below: u64 = near.wrapping_sub(delta);
        let above: u64 = near.wrapping_add(delta);
        places.push(below - below % GRANULE);
        places.push(above - above % GRANULE);
        proof {
            steps = steps + 1;
        }
        delta = delta + GRANULE;
    }
    assert(steps == steps_in_span());
    places
}

/// Every place tried for an address away from both ends of memory is reached by a relative jump from
/// there.
pub proof fn candidates_are_in_reach(near: u64, steps: nat, k: int)
    requires
        steps <= steps_in_span(),
        SPAN + GRANULE <= near,
        near + SPAN <= u64::MAX,
        0 <= k < candidates(near, steps).len(),
    ensures
        reaches(near, candidates(near, steps)[k]),
    decreases steps,
{
    if steps > 0 {
        let before = candidates(near, (steps - 1) as nat);
        let delta = (steps * GRANULE) as u64;
        assert(steps * GRANULE < SPAN);
        if k < before.len() {
            candidates_are_in_reach(near, (steps - 1) as nat, k);
        } else if k == before.len() {
            assert(candidates(near, steps)[k] == granule_of(word_minus(near, delta)));
        } else {
            assert(candidates(near, steps)[k] == granule_of(word_plus(near, delta)));
        }
    }
}

/// The first instruction that the query is expected to start with.
pub open spec fn expected_prologue() -> Seq<u8> {
    seq![0x48u8, 0x89u8, 0x5cu8, 0x24u8, 0x08u8]
}

pub const PROLOGUE_WARNING: &'static str = "] != expected `mov [rsp+8],rbx` (48 89 5c 24 08) — the 5-byte-copy trampoline assumes a clean instruction boundary at +5; if this build splits an instruction, results below are UNTRUSTWORTHY (a trampoline-site fault, not the entry+5 collision)";

/// The warning about a query that starts otherwise.
pub fn prologue_warning(prologue: &Vec<u8>) -> (line: Option<LogLine>)
    ensures
        line is None == (prologue@ == expected_prologue()),
        line is Some ==> line->0@ == (LogLineView {
            level: Level::Warn,
            text: "xinput: [second hooker] prologue ["@ + spaced_hex(prologue@)
                + PROLOGUE_WARNING@,
        }),
{
    let expected = prologue.len() == 5 && prologue[0] == 0x48 && prologue[1] == 0x89 && prologue[2]
        == 0x5c && prologue[3] == 0x24 && prologue[4] == 0x08;
    if expected {
        assert(prologue@ =~= expected_prologue());
        return None;
    }
    let mut out = "xinput: [second hooker] prologue [".to_owned();
    out.append(hex(prologue).as_str());
    out.append(PROLOGUE_WARNING);
    Some(LogLine { level: Level::Warn, text: out })
}

/// The line on where the query lies.
pub fn entry_line(entry: u64, base: u64) -> (line: LogLine)
    requires
        entry + 5 <= u64::MAX,
    ensures
        line@ == (LogLineView {
            level: Level::Info,
            text: "xinput: XInputGetState @ 0x"@ + hex_digits(entry as nat)
                + " | XINPUT1_4.dll base 0x"@ + hex_digits(base as nat) + " | RVA 0x"@ + hex_digits(
                word_minus(entry, base) as nat,
            ) + " | entry+5 RVA 0x"@ + hex_digits(word_minus((entry + 5) as u64, base) as nat)
                + " (WER P8 was 0x9a65)"@,
        }),
{
    let mut out = "xinput: XInputGetState @ 0x".to_owned();
    out.append(text::hex_text(entry).as_str());
    out.append(" | XINPUT1_4.dll base 0x");
    out.append(text::hex_text(base).as_str());
    out.append(" | RVA 0x");
    out.append(text::hex_text(entry.wrapping_sub(base)).as_str());
    out.append(" | entry+5 RVA 0x");
    out.append(text::hex_text((entry + 5).wrapping_sub(base)).as_str());
    out.append(" (WER P8 was 0x9a65)");
    LogLine { level: Level::Info, text: out }
}

/// The line on a phase whose preparation failed.
pub fn phase_failed_line(phase: Phase, message: &str) -> (line: LogLine)
    ensures
        line@ == (LogLineView {
            level: Level::Error,
            text: "xinput: phase "@ + phase.name() + " panicked during setup: "@ + message@
                + " (backtrace in run-out.txt)"@,
        }),
{
    let mut out = "xinput: phase ".to_owned();
    match phase {
        Phase::Repro => out.append("Repro"),
        Phase::Iat => out.append("Iat"),
    }
    out.append(" panicked during setup: ");
    out.append(message);
    out.append(" (backtrace in run-out.txt)");
    LogLine { level: Level::Error, text: out }
}

/// One imported function.
#[derive(Debug)]
pub enum ImportEntry {
    ByName(String),
    ByOrdinal(u16),
    /// The entry could not be read.
    Unreadable,
}

/// One imported function with the characters of its name.
pub enum ImportEntryView {
    ByName(Seq<char>),
    ByOrdinal(u16),
    Unreadable,
}

impl View for ImportEntry {
    type V = ImportEntryView;

    open spec fn view(&self) -> ImportEntryView {
        match self {
            ImportEntry::ByName(name) => ImportEntryView::ByName(name@),
            ImportEntry::ByOrdinal(ord) => ImportEntryView::ByOrdinal(*ord),
            ImportEntry::Unreadable => ImportEntryView::Unreadable,
        }
    }
}

/// The imports of a list.
pub open spec fn entries_view(entries: Seq<ImportEntry>) -> Seq<ImportEntryView> {
    Seq::new(entries.len(), |i: int| entries[i]@)
}

/// The imports from one library.
#[derive(Debug)]
pub struct ImportDesc {
    /// The library's name, if it could be read.
    pub dll: Option<String>,
    /// Where the addresses of the imports are, relative to the image.
    pub first_thunk: u32,
    /// The imports in order, if both of their tables could be read.
    pub entries: Option<Vec<ImportEntry>>,
}

/// The imports from one library with the characters of their names.
pub struct ImportDescView {
    pub dll: Option<Seq<char>>,
    pub first_thunk: u32,
    pub entries: Option<Seq<ImportEntryView>>,
}

/// The characters of a text, if there is one.
pub open spec fn opt_chars(text: Option<String>) -> Option<Seq<char>> {
    match text {
        Some(t) => Some(t@),
        None => None,
    }
}

/// The imports of a list, if there is one.
pub open spec fn opt_entries(entries: Option<Vec<ImportEntry>>) -> Option<Seq<ImportEntryView>> {
    match entries {
        Some(e) => Some(entries_view(e@)),
        None => None,
    }
}

impl View for ImportDesc {
    type V = ImportDescView;

    open spec fn view(&self) -> ImportDescView {
        ImportDescView {
            dll: opt_chars(self.dll),
            first_thunk: self.first_thunk,
            entries: opt_entries(self.entries),
        }
    }
}

/// The libraries of a list.
pub open spec fn descs_view(imports: Seq<ImportDesc>) -> Seq<ImportDescView> {
    Seq::new(imports.len(), |i: int| imports[i]@)
}

/// The ordinal of the controller query.
pub const GET_STATE_ORDINAL: u16 = 2;

/// Whether an import is the controller query.
pub open spec fn is_get_state(e: ImportEntryView) -> bool {
    match e {
        ImportEntryView::ByName(name) => name == "XInputGetState"@,
        ImportEntryView::ByOrdinal(ord) => ord == GET_STATE_ORDINAL,
        ImportEntryView::Unreadable => false,
    }
}

/// Whether a library is the controller library, whatever the case of its name.
pub open spec fn names_xinput(dll: Option<Seq<char>>) -> bool {
    dll matches Some(name) && ascii_lower_all(name) == "xinput1_4.dll"@
}

/// Whether imports come from the controller library and can be read.
pub open spec fn is_xinput(d: ImportDescView) -> bool {
    names_xinput(d.dll) && d.entries is Some
}

/// Whether the slot at position `k` of library `d` is the controller query's.
pub open spec fn is_slot(imports: Seq<ImportDescView>, d: int, k: int) -> bool {
    &&& 0 <= d < imports.len()
    &&& is_xinput(imports[d])
    &&& 0 <= k < imports[d].entries->0.len()
    &&& is_get_state(imports[d].entries->0[k])
}

/// Whether one slot comes before another in the import table.
pub open spec fn slot_before(d: int, k: int, d2: int, k2: int) -> bool {
    d < d2 || (d == d2 && k < k2)
}

/// `(d, k)` is the first slot of the controller query.
pub open spec fn is_first_slot(imports: Seq<ImportDescView>, d: int, k: int) -> bool {
    &&& is_slot(imports, d, k)
    &&& forall|d2: int, k2: int|
        slot_before(d2, k2, d, k) ==> !#[trigger] is_slot(imports, d2, k2)
}

fn is_controller_library(dll: &Option<String>) -> (yes: bool)
    ensures
        yes == names_xinput(opt_chars(*dll)),
{
    match dll {
        Some(name) => {
            let low = text::ascii_lowercase(name.as_str());
            text::same_text(low.as_str(), "xinput1_4.dll")
        },
        None => false,
    }
}

fn find_in(entries: &Vec<ImportEntry>) -> (at: Option<usize>)
    ensures
        match at {
            Some(k) => k < entries@.len() && is_get_state(entries@[k as int]@) && forall|j: int|
                0 <= j < k ==> !is_get_state((#[trigger] entries@[j])@),
            None => forall|j: int|
                0 <= j < entries@.len() ==> !is_get_state((#[trigger] entries@[j])@),
        },
{
    let mut k: usize = 0;
    while k < entries.len()
        invariant
            k <= entries@.len(),
            forall|j: int| 0 <= j < k ==> !is_get_state((#[trigger] entries@[j])@),
        decreases entries@.len() - k,
    {
        let hit = match &entries[k] {
            ImportEntry::ByName(name) => text::same_text(name.as_str(), "XInputGetState"),
            ImportEntry::ByOrdinal(ord) => *ord == GET_STATE_ORDINAL,
            ImportEntry::Unreadable => false,
        };
        if hit {
            return Some(k);
        }
        k = k + 1;
    }
    None
}

/// The first slot of the controller query in an import table: the library's position and the import's.
pub fn find_slot(imports: &Vec<ImportDesc>) -> (at: Option<(usize, usize)>)
    ensures
        match at {
            Some(p) => is_first_slot(descs_view(imports@), p.0 as int, p.1 as int),
            None => forall|d: int, k: int| !#[trigger] is_slot(descs_view(imports@), d, k),
        },
{
    let ghost all = descs_view(imports@);
    let mut d: usize = 0;
    while d < imports.len()
        invariant
            d <= imports@.len(),
            all == descs_view(imports@),
            forall|d2: int, k2: int| d2 < d ==> !#[trigger] is_slot(all, d2, k2),
        decreases imports@.len() - d,
    {
        let desc = &imports[d];
        assert(all[d as int] == desc@);
        if is_controller_library(&desc.dll) {
            match &desc.entries {
                Some(entries) => match find_in(entries) {
                    Some(k) => {
                        return Some((d, k));
                    },
                    None => {},
                },
                None => {},
            }
        }
        d = d + 1;
    }
    None
}

/// Where a slot lies, relative to the image: eight bytes for each import before it.
pub fn slot_offset(first_thunk: u32, position: usize) -> (offset: u64)
    requires
        first_thunk + 8 * position <= u64::MAX,
    ensures
        offset == first_thunk + 8 * position,
{
    first_thunk as u64 + 8 * (position as u64)
}

/// How many libraries the import directory of an image lists, or why there is no directory.
pub uninterp spec fn import_directory(image: Seq<u8>) -> Result<usize, Seq<char>>;

/// The name of a library of the import directory, and where the names and the addresses of its imports are.
pub uninterp spec fn imported_library(image: Seq<u8>, i: int) -> (Option<Seq<char>>, u32, u32);

/// The imports that a library of the import directory is asked for, if their table can be read.
pub uninterp spec fn imported_names(image: Seq<u8>, i: int) -> Option<Seq<ImportEntryView>>;

/// How many addresses a library of the import directory has, if their table can be read.
pub uninterp spec fn imported_addresses(image: Seq<u8>, i: int) -> Option<usize>;

/// The names and the addresses of a library side by side: as many imports as there are both.
pub open spec fn side_by_side(
    names: Option<Seq<ImportEntryView>>,
    addresses: Option<usize>,
) -> Option<Seq<ImportEntryView>> {
    match (names, addresses) {
        (Some(n), Some(a)) => Some(
            n.take(
                if n.len() <= a {
                    n.len() as int
                } else {
                    a as int
                },
            ),
        ),
        _ => None,
    }
}

/// How the directory was read, with the characters of the reason.
pub open spec fn directory_view(read: Result<usize, String>) -> Result<usize, Seq<char>> {
    match read {
        Ok(n) => Ok(n),
        Err(e) => Err(e@),
    }
}

/// `pelite::pe64::Pe::imports` on the view of the image that lies between two positions of a buffer: the
/// number of the libraries in the import directory, or the error in words, is a function of the image.
/// Nothing is returned for bytes that `pelite::pe64::PeView::from_bytes` rejects as an image, which also
/// depends on where they lie in memory: it takes an image only at a multiple of four.
#[verifier::external_body]
fn count_libraries(buffer: &Vec<u8>, from: usize, to: usize) -> (found: Option<Result<usize, String>>)
    requires
        from <= to <= buffer@.len(),
        to - from <= MAX_IMAGE,
    ensures
        found matches Some(r) ==> directory_view(r) == import_directory(
            buffer@.subrange(from as int, to as int),
        ),
{
    let view = PeView::from_bytes(&buffer[from..to]).ok()?;
    Some(view.imports().map(|list| list.image().len()).map_err(|e| e.to_string()))
}

/// `pelite::pe64::imports::Desc::dll_name` and `image` for one library of the import directory: its
/// name, where that can be read as UTF-8, and the places of its names and of its addresses are a function of
/// the image and the library's position. Nothing is returned where there is no such library, nor for bytes
/// that are rejected as an image.
#[verifier::external_body]
fn read_library(buffer: &Vec<u8>, from: usize, to: usize, i: usize) -> (found: Option<
    (Option<String>, u32, u32),
>)
    requires
        from <= to <= buffer@.len(),
        to - from <= MAX_IMAGE,
    ensures
        found matches Some(l) ==> (opt_chars(l.0), l.1, l.2) == imported_library(
            buffer@.subrange(from as int, to as int),
            i as int,
        ),
{
    let view = PeView::from_bytes(&buffer[from..to]).ok()?;
    let desc = view.imports().ok()?.iter().nth(i)?;
    let name = desc.dll_name().ok().and_then(|n| n.to_str().ok()).map(|n| n.to_owned());
    Some((name, desc.image().OriginalFirstThunk, desc.image().FirstThunk))
}

/// `pelite::pe64::imports::Desc::int` for one library of the import directory: the imports that it is asked
/// for, or that their table cannot be read, are a function of the image and the library's position, and each
/// takes eight bytes of the image. A table has to lie at a multiple of eight in memory; nothing is returned
/// where it does not, nor where there is no such library, nor for bytes that are rejected as an image.
#[verifier::external_body]
fn read_names(buffer: &Vec<u8>, from: usize, to: usize, i: usize) -> (found: Option<
    Option<Vec<ImportEntry>>,
>)
    requires
        from <= to <= buffer@.len(),
        to - from <= MAX_IMAGE,
    ensures
        found matches Some(l) ==> opt_entries(l) == imported_names(
            buffer@.subrange(from as int, to as int),
            i as int,
        ),
        found matches Some(l) ==> (l matches Some(e) ==> 8 * e@.len() <= to - from),
{
    let view = PeView::from_bytes(&buffer[from..to]).ok()?;
    match view.imports().ok()?.iter().nth(i)?.int() {
        Err(Error::Misaligned) => None,
        Err(_) => Some(None),
        Ok(names) => Some(Some(names.map(|import| match import {
            Ok(Import::ByName { name, .. }) => match name.to_str() {
                Ok(n) => ImportEntry::ByName(n.to_owned()),
                Err(_) => ImportEntry::Unreadable,
            },
            Ok(Import::ByOrdinal { ord }) => ImportEntry::ByOrdinal(ord),
            Err(_) => ImportEntry::Unreadable,
        }).collect())),
    }
}

/// `pelite::pe64::imports::Desc::iat` for one library of the import directory: the number of its addresses,
/// or that their table cannot be read, is a function of the image and the library's position. A table has to
/// lie at a multiple of eight in memory; nothing is returned where it does not, nor where there is no such
/// library, nor for bytes that are rejected as an image.
#[verifier::external_body]
fn count_addresses(buffer: &Vec<u8>, from: usize, to: usize, i: usize) -> (found: Option<Option<usize>>)
    requires
        from <= to <= buffer@.len(),
        to - from <= MAX_IMAGE,
    ensures
        found matches Some(n) ==> n == imported_addresses(
            buffer@.subrange(from as int, to as int),
            i as int,
        ),
{
    let view = PeView::from_bytes(&buffer[from..to]).ok()?;
    match view.imports().ok()?.iter().nth(i)?.iat() {
        Err(Error::Misaligned) => None,
        Err(_) => Some(None),
        Ok(addresses) => Some(Some(addresses.len())),
    }
}

/// Puts the names and the addresses of a library side by side.
fn pair_up(names: Option<Vec<ImportEntry>>, addresses: Option<usize>) -> (entries: Option<
    Vec<ImportEntry>,
>)
    ensures
        opt_entries(entries) == side_by_side(opt_entries(names), addresses),
        entries matches Some(e) ==> names is Some && e@.len() <= names->0@.len(),
{
    match (names, addresses) {
        (Some(n), Some(a)) => {
            let mut entries = n;
            let ghost all = entries_view(entries@);
            if entries.len() > a {
                entries.truncate(a);
                assert(entries_view(entries@) =~= all.take(a as int));
            } else {
                assert(entries_view(entries@) =~= all.take(all.len() as int));
            }
            Some(entries)
        },
        _ => None,
    }
}

/// Whether the tables of a library lie at multiples of eight, where addresses can be read.
pub open spec fn tables_aligned(names: u32, addresses: u32) -> bool {
    names % 8 == 0 && addresses % 8 == 0
}

/// The import table of an image. A library whose tables lie at other places has no readable imports.
pub open spec fn import_table(image: Seq<u8>, n: nat) -> Seq<ImportDescView> {
    Seq::new(
        n,
        |i: int|
            {
                let (dll, names, addresses) = imported_library(image, i);
                ImportDescView {
                    dll,
                    first_thunk: addresses,
                    entries: if tables_aligned(names, addresses) {
                        side_by_side(imported_names(image, i), imported_addresses(image, i))
                    } else {
                        None
                    },
                }
            },
    )
}

/// The whole import table of an image.
pub open spec fn whole_table(image: Seq<u8>) -> Seq<ImportDescView> {
    import_table(image, import_directory(image)->Ok_0 as nat)
}

/// Whether the first slot of the controller query lies here.
pub open spec fn is_slot_offset(imports: Seq<ImportDescView>, offset: int) -> bool {
    exists|d: int, k: int| #[trigger]
        is_first_slot(imports, d, k) && offset == imports[d].first_thunk + 8 * k
}

/// What was read of the import table of an image.
#[derive(Debug)]
pub enum TableRead {
    /// The bytes were not taken for an image, or a table does not lie where it could be read.
    NotRead,
    /// There is no import directory, and this is why.
    NoDirectory(String),
    /// The libraries of the import directory.
    Libraries(Vec<ImportDesc>),
}

/// What a look at the import table of an image found.
#[derive(Debug)]
pub enum SlotScan {
    /// The bytes were not taken for an image, or a table does not lie where it could be read.
    NotRead,
    /// There is no import directory, and this is why.
    NoDirectory(String),
    /// The controller query is not imported.
    NotImported,
    /// The slot lies here, relative to the image.
    At(u64),
}

/// Whether the imports of every library fit into an image, at eight bytes each.
pub open spec fn tables_fit(imports: Seq<ImportDesc>) -> bool {
    forall|j: int|
        0 <= j < imports.len() ==> (((#[trigger] imports[j]).entries) matches Some(e) ==> 8
            * e@.len() <= MAX_IMAGE)
}

/// Whether a scan tells where the first slot of the controller query lies in an import table, or that there
/// is none.
pub open spec fn tells_slot(scan: SlotScan, imports: Seq<ImportDescView>) -> bool {
    match scan {
        SlotScan::At(offset) => is_slot_offset(imports, offset as int),
        SlotScan::NotImported => forall|d: int, k: int| !#[trigger] is_slot(imports, d, k),
        _ => false,
    }
}

/// What follows from what was read of an import table: the first slot of the controller query, or why there
/// is none.
pub fn slot_after_read(read: TableRead) -> (scan: SlotScan)
    requires
        read matches TableRead::Libraries(l) ==> tables_fit(l@),
    ensures
        match read {
            TableRead::NotRead => scan is NotRead,
            TableRead::NoDirectory(why) => scan == SlotScan::NoDirectory(why),
            TableRead::Libraries(l) => tells_slot(scan, descs_view(l@)),
        },
{
    let imports = match read {
        TableRead::NotRead => {
            return SlotScan::NotRead;
        },
        TableRead::NoDirectory(why) => {
            return SlotScan::NoDirectory(why);
        },
        TableRead::Libraries(l) => l,
    };
    match find_slot(&imports) {
        None => SlotScan::NotImported,
        Some(p) => {
            let (d, k) = p;
            let ghost seen = descs_view(imports@);
            let desc = &imports[d];
            assert(is_slot(seen, d as int, k as int));
            assert(seen[d as int] == desc@);
            let offset: u64 = slot_offset(desc.first_thunk, k);
            assert(is_first_slot(seen, d as int, k as int));
            SlotScan::At(offset)
        },
    }
}

/// Whether what was read of a library stands for it: of the controller library everything, of another one
/// everything but its imports.
pub open spec fn reads_as(seen: ImportDescView, all: ImportDescView) -> bool {
    &&& seen.dll == all.dll
    &&& seen.first_thunk == all.first_thunk
    &&& names_xinput(all.dll) ==> seen.entries == all.entries
}

/// Reads the import table of the image between two positions of a buffer; of the imports only those from
/// the controller library.
fn read_table(buffer: &Vec<u8>, from: usize, to: usize) -> (read: TableRead)
    requires
        from <= to <= buffer@.len(),
        to - from <= MAX_IMAGE,
    ensures
        stands_for(read, buffer@.subrange(from as int, to as int)),
{
    let ghost image = buffer@.subrange(from as int, to as int);
    let n: usize = match count_libraries(buffer, from, to) {
        None => {
            return TableRead::NotRead;
        },
        Some(Err(e)) => {
            return TableRead::NoDirectory(e);
        },
        Some(Ok(n)) => n,
    };
    let ghost table = import_table(image, n as nat);
    let mut imports: Vec<ImportDesc> = Vec::new();
    let mut i: usize = 0;
    while i < n
        invariant
            i <= n,
            imports@.len() == i,
            from <= to <= buffer@.len(),
            to - from <= MAX_IMAGE,
            image == buffer@.subrange(from as int, to as int),
            table == import_table(image, n as nat),
            forall|j: int| 0 <= j < i ==> reads_as(#[trigger] descs_view(imports@)[j], table[j]),
            tables_fit(imports@),
        decreases n - i,
    {
        let (dll, names_at, addresses_at) = match read_library(buffer, from, to, i) {
            Some(l) => l,
            None => {
                return TableRead::NotRead;
            },
        };
        let entries = if is_controller_library(&dll) && names_at % 8 == 0 && addresses_at % 8 == 0 {
            match (read_names(buffer, from, to, i), count_addresses(buffer, from, to, i)) {
                (Some(names), Some(addresses)) => pair_up(names, addresses),
                _ => {
                    return TableRead::NotRead;
                },
            }
        } else {
            None
        };
        let ghost before = descs_view(imports@);
        let desc = ImportDesc { dll, first_thunk: addresses_at, entries };
        let ghost shown = desc@;
        imports.push(desc);
        assert(descs_view(imports@) =~= before.push(shown));
        i = i + 1;
    }
    TableRead::Libraries(imports)
}

/// Whether what was read, if anything was, stands for the import table of an image.
pub open spec fn stands_for(read: TableRead, image: Seq<u8>) -> bool {
    match read {
        TableRead::NotRead => true,
        TableRead::NoDirectory(e) => import_directory(image) == Err::<usize, Seq<char>>(e@),
        TableRead::Libraries(l) => {
            &&& import_directory(image) is Ok
            &&& l@.len() == whole_table(image).len()
            &&& tables_fit(l@)
            &&& forall|j: int|
                0 <= j < l@.len() ==> reads_as(#[trigger] descs_view(l@)[j], whole_table(image)[j])
        },
    }
}

/// The places in a row of which one is a multiple of eight.
pub const TABLE_PLACES: usize = 8;

/// Reads the import table of an image. Where the image lies at no multiple of eight, it is read at places in
/// a row of which one is.
fn read_image(image: &Vec<u8>) -> (read: TableRead)
    ensures
        image@.len() > MAX_IMAGE ==> read is NotRead,
        stands_for(read, image@),
{
    let n: usize = image.len();
    if n > MAX_IMAGE {
        return TableRead::NotRead;
    }
    assert(image@.subrange(0, n as int) =~= image@);
    let first = read_table(image, 0, n);
    if !matches!(first, TableRead::NotRead) || n > usize::MAX - TABLE_PLACES {
        return first;
    }
    let mut buffer = room_for(image, TABLE_PLACES);
    let mut k: usize = 0;
    while k < TABLE_PLACES
        invariant
            n == image@.len(),
            n <= MAX_IMAGE,
            n + TABLE_PLACES <= usize::MAX,
            k <= TABLE_PLACES,
            buffer@.len() == n + TABLE_PLACES,
        decreases TABLE_PLACES - k,
    {
        place(&mut buffer, image, k);
        let read = read_table(&buffer, k, k + n);
        if !matches!(read, TableRead::NotRead) {
            return read;
        }
        k = k + 1;
    }
    TableRead::NotRead
}

/// Looks for the slot of the controller query in the import table of a loaded image. Only the imports from
/// the controller library are read. Whether the bytes are taken for an image, and whether its tables can be
/// read, also depends on where the bytes lie in memory; what is told otherwise is a function of the bytes.
pub fn locate_slot(image: &Vec<u8>) -> (scan: SlotScan)
    ensures
        image@.len() > MAX_IMAGE ==> scan is NotRead,
        match scan {
            SlotScan::NotRead => true,
            SlotScan::NoDirectory(e) => import_directory(image@) == Err::<usize, Seq<char>>(e@),
            _ => import_directory(image@) is Ok && tells_slot(scan, whole_table(image@)),
        },
{
    let ghost table = whole_table(image@);
    let read = read_image(image);
    let ghost kept = read;
    let scan = slot_after_read(read);
    proof {
        if let TableRead::Libraries(l) = kept {
            let seen = descs_view(l@);
            assert forall|d: int, k: int| #[trigger] is_slot(table, d, k) == is_slot(seen, d, k) by {
                if 0 <= d < seen.len() {
                    assert(reads_as(seen[d], table[d]));
                }
            }
            match scan {
                SlotScan::At(offset) => {
                    let (d, k) = choose|d: int, k: int| #[trigger]
                        is_first_slot(seen, d, k) && offset == seen[d].first_thunk + 8 * k;
                    assert(is_slot(table, d, k) && reads_as(seen[d], table[d]));
                    assert forall|d2: int, k2: int| slot_before(d2, k2, d, k) implies !#[trigger] is_slot(
                        table,
                        d2,
                        k2,
                    ) by {
                        assert(!is_slot(seen, d2, k2));
                    }
                    assert(is_first_slot(table, d, k));
                },
                _ => {
                    assert forall|d: int, k: int| !#[trigger] is_slot(table, d, k) by {
                        assert(!is_slot(seen, d, k));
                    }
                },
            }
        }
    }
    scan
}

/// The slot that is swapped is the only one that comes first.
pub proof fn first_slot_is_unique(imports: Seq<ImportDescView>, d: int, k: int, d2: int, k2: int)
    requires
        is_first_slot(imports, d, k),
        is_first_slot(imports, d2, k2),
    ensures
        d == d2,
        k == k2,
{
    assert(is_slot(imports, d, k) && is_slot(imports, d2, k2));
}

pub const NO_SLOT: &'static str = "xinput: could not find XInputGetState in the harness IAT — is the raw-dylib import present? (x86_64-w64-mingw32-objdump -p dx12-harness.exe)";

/// The lines on a slot that was not found; none on one that was.
pub open spec fn missing_slot_lines(scan: SlotScan) -> Seq<LogLineView> {
    let lost = LogLineView { level: Level::Error, text: NO_SLOT@ };
    match scan {
        SlotScan::At(_) => Seq::empty(),
        SlotScan::NoDirectory(why) => seq![
            LogLineView {
                level: Level::Error,
                text: "xinput: harness has no import directory: "@ + why@,
            },
            lost,
        ],
        _ => seq![lost],
    }
}

/// The lines on a slot that was not found; none on one that was.
pub fn missing_slot(scan: &SlotScan) -> (lines: Vec<LogLine>)
    ensures
        lines_view(lines@) == missing_slot_lines(*scan),
{
    let mut lines: Vec<LogLine> = Vec::new();
    match scan {
        SlotScan::At(_) => {},
        SlotScan::NoDirectory(why) => {
            let mut out = "xinput: harness has no import directory: ".to_owned();
            out.append(why.as_str());
            push_line(&mut lines, Level::Error, out);
            push_line(&mut lines, Level::Error, NO_SLOT.to_owned());
        },
        _ => {
            push_line(&mut lines, Level::Error, NO_SLOT.to_owned());
        },
    }
    assert(lines_view(lines@) =~= missing_slot_lines(*scan));
    lines
}

/// The line on the survival phase having gone well; `rc` is what the last poll returned.
pub fn survived_line(rc: u32) -> (line: LogLine)
    ensures
        line@ == (LogLineView {
            level: Level::Info,
            text: "xinput: IAT (survival) phase SURVIVED 10 polls (last rc "@ + dec(rc as nat)
                + ") with the second hooker present — no AV. The IAT hook composes with the inline hooker by construction."@,
        }),
{
    let mut out = "xinput: IAT (survival) phase SURVIVED 10 polls (last rc ".to_owned();
    out.append(text::dec_text(rc as u64).as_str());
    out.append(
        ") with the second hooker present — no AV. The IAT hook composes with the inline hooker by construction.",
    );
    LogLine { level: Level::Info, text: out }
}

/// The line on a swapped slot.
pub fn swapped_line(slot: u64, from: u64, to: u64) -> (line: LogLine)
    ensures
        line@ == (LogLineView {
            level: Level::Info,
            text: "xinput: [our IAT hook] swapped harness IAT slot 0x"@ + hex_digits(slot as nat)
                + " (0x"@ + hex_digits(from as nat) + " -> 0x"@ + hex_digits(to as nat) + ")"@,
        }),
{
    let mut out = "xinput: [our IAT hook] swapped harness IAT slot 0x".to_owned();
    out.append(text::hex_text(slot).as_str());
    out.append(" (0x");
    out.append(text::hex_text(from).as_str());
    out.append(" -> 0x");
    out.append(text::hex_text(to).as_str());
    out.append(")");
    LogLine { level: Level::Info, text: out }
}

/// Polls of the survival phase that are logged: the first and the last of ten.
pub fn survival_line(poll: u32, rc: u32) -> (line: Option<LogLine>)
    ensures
        line is Some == (poll == 1 || poll == 10),
        line is Some ==> line->0@ == (LogLineView {
            level: Level::Info,
            text: "xinput: [survival] IAT poll #"@ + dec(poll as nat) + " returned "@ + dec(
                rc as nat,
            ),
        }),
{
    if poll != 1 && poll != 10 {
        return None;
    }
    let mut out = "xinput: [survival] IAT poll #".to_owned();
    out.append(text::dec_text(poll as u64).as_str());
    out.append(" returned ");
    out.append(text::dec_text(rc as u64).as_str());
    Some(LogLine { level: Level::Info, text: out })
}

/// The line on a call that went through the swapped slot; only the first three have one.
pub fn slot_call_line(n: u64, rc: u32) -> (line: Option<LogLine>)
    ensures
        line is Some == (n <= 3),
        line is Some ==> line->0@ == (LogLineView {
            level: Level::Info,
            text: "xinput: [our IAT hook] call #"@ + dec(n as nat)
                + " chained to the real XInputGetState -> "@ + dec(rc as nat)
                + " (no AV; body untouched)"@,
        }),
{
    if n > 3 {
        return None;
    }
    let mut out = "xinput: [our IAT hook] call #".to_owned();
    out.append(text::dec_text(n).as_str());
    out.append(" chained to the real XInputGetState -> ");
    out.append(text::dec_text(rc as u64).as_str());
    out.append(" (no AV; body untouched)");
    Some(LogLine { level: Level::Info, text: out })
}

/// A phase goes by any of its names and by no other.
pub proof fn phases_go_by_their_names(name: Seq<char>)
    ensures
        (Phase::named(name) == Some(Phase::Repro)) == (name == "repro"@ || name == "inline"@),
        name == "iat"@ || name == "survival"@ || name == "survive"@ ==> Phase::named(name) == Some(
            Phase::Iat,
        ) || name == "repro"@ || name == "inline"@,
        Phase::named(name) == Some(Phase::Iat) ==> name == "iat"@ || name == "survival"@ || name
            == "survive"@,
{
}

/// An absolute jump goes through the word behind it, a relative one over the distance behind it, and a sled reads
/// from nowhere.
pub proof fn jumps_have_their_instructions(at: u64, target: u64)
    ensures
        absolute_jump(target).take(6) == seq![0xffu8, 0x25u8, 0u8, 0u8, 0u8, 0u8],
        relative_jump(at, target)[0] == 0xe9,
        jump_distance(at, target) + at + 5 == target,
        reaches(at, target) == (-0x8000_0000 <= target - at - 5 < 0x8000_0000),
        fault_sled() == seq![0x48u8, 0x8bu8, 0x04u8, 0x25u8, 0u8, 0u8, 0u8, 0u8],
{
    assert(absolute_jump(target).take(6) =~= seq![0xffu8, 0x25u8, 0u8, 0u8, 0u8, 0u8]);
}

/// A granule is the last multiple of its size at or below an address.
pub proof fn a_granule_is_just_below(addr: u64)
    ensures
        granule_of(addr) % 0x1_0000 == 0,
        granule_of(addr) <= addr < granule_of(addr) + 0x1_0000,
{
}

/// Going forward by a distance undoes going back by it, around the end of memory too.
pub proof fn forward_undoes_back(a: u64, b: u64)
    ensures
        word_plus(word_minus(a, b), b) == a,
        word_minus(word_plus(a, b), b) == a,
        a >= b ==> word_minus(a, b) == a - b,
        a + b <= u64::MAX ==> word_plus(a, b) == a + b,
{
}

/// Memory is looked for outwards: each step one granule farther, first below and then above.
pub proof fn memory_is_looked_for_outwards(near: u64, steps: nat, i: int)
    requires
        1 <= i <= steps,
        steps * 0x1_0000 <= near,
        near + steps * 0x1_0000 <= u64::MAX,
    ensures
        candidates(near, steps).len() == 2 * steps,
        candidates(near, steps)[2 * i - 2] == granule_of((near - i * 0x1_0000) as u64),
        candidates(near, steps)[2 * i - 1] == granule_of((near + i * 0x1_0000) as u64),
    decreases steps,
{
    if i < steps {
        memory_is_looked_for_outwards(near, (steps - 1) as nat, i);
    } else {
        candidates_come_in_pairs(near, (steps - 1) as nat);
    }
}

proof fn candidates_come_in_pairs(near: u64, steps: nat)
    ensures
        candidates(near, steps).len() == 2 * steps,
    decreases steps,
{
    if steps > 0 {
        candidates_come_in_pairs(near, (steps - 1) as nat);
    }
}

/// The search ends within a gigabyte.
pub proof fn the_search_ends_within_the_span()
    ensures
        steps_in_span() == 0x3fff,
        steps_in_span() * 0x1_0000 < 0x4000_0000,
{
}

/// The query is imported by its name or by its number, from the controller's library in whatever case it is written.
pub proof fn the_query_is_recognised(name: Seq<char>, ord: u16)
    ensures
        is_get_state(ImportEntryView::ByName(name)) == (name == "XInputGetState"@),
        is_get_state(ImportEntryView::ByOrdinal(ord)) == (ord == 2),
        !is_get_state(ImportEntryView::Unreadable),
        names_xinput(Some(name)) == (ascii_lower_all(name) == "xinput1_4.dll"@),
        !names_xinput(None),
{
}

/// No slot goes before the first one, library by library and entry by entry.
pub proof fn nothing_goes_before_the_first_slot(
    imports: Seq<ImportDescView>,
    d: int,
    k: int,
    d2: int,
    k2: int,
)
    requires
        is_first_slot(imports, d, k),
        is_slot(imports, d2, k2),
    ensures
        d < d2 || (d == d2 && k <= k2),
        0 <= d < imports.len(),
        names_xinput(imports[d].dll),
        imports[d].entries is Some,
        0 <= k < imports[d].entries->0.len(),
        is_get_state(imports[d].entries->0[k]),
{
    if slot_before(d2, k2, d, k) {
        assert(!is_slot(imports, d2, k2));
    }
}

/// Names and addresses are paired up as far as both go, in order; without either there is no table.
pub proof fn names_and_addresses_are_paired_up(
    names: Seq<ImportEntryView>,
    addresses: usize,
    i: int,
)
    ensures
        side_by_side(Some(names), Some(addresses)) is Some,
        names.len() <= addresses ==> side_by_side(Some(names), Some(addresses))->0 == names,
        names.len() > addresses ==> side_by_side(Some(names), Some(addresses))->0.len()
            == addresses,
        0 <= i < names.len() && i < addresses ==> side_by_side(Some(names), Some(addresses))->0[i]
            == names[i],
        side_by_side(None, Some(addresses)) is None,
        side_by_side(Some(names), None) is None,
{
    if names.len() <= addresses {
        assert(names.take(names.len() as int) =~= names);
    }
}

/// A slot that was found loses nothing; of one that was not the log says so, and why where that is known.
pub proof fn a_missing_slot_is_told(scan: SlotScan)
    ensures
        (missing_slot_lines(scan).len() == 0) == (scan is At),
        !(scan is At) ==> missing_slot_lines(scan).last().text == NO_SLOT@,
        scan matches SlotScan::NoDirectory(why) ==> missing_slot_lines(scan).len() == 2
            && missing_slot_lines(scan)[0].text == "xinput: harness has no import directory: "@
            + why@,
{
}

/// Bytes are told in two digits each, with a blank between them.
pub proof fn bytes_are_told_with_blanks_between(bytes: Seq<u8>, b: u8)
    ensures
        spaced_hex(Seq::empty()).len() == 0,
        spaced_hex(seq![b]) == zero_pad(hex_digits(b as nat), 2),
        bytes.len() > 0 ==> spaced_hex(bytes.push(b)) == spaced_hex(bytes) + " "@ + zero_pad(
            hex_digits(b as nat),
            2,
        ),
{
    let pairs = |list: Seq<u8>|
        Seq::new(list.len(), |i: int| zero_pad(hex_digits(list[i] as nat), 2));
    assert(pairs(Seq::empty()) =~= Seq::empty());
    assert(pairs(seq![b]) =~= seq![zero_pad(hex_digits(b as nat), 2)]);
    let last = zero_pad(hex_digits(b as nat), 2);
    assert(pairs(bytes.push(b)) =~= pairs(bytes).push(last));
    text::separators_stand_between_the_parts(pairs(bytes), last, " "@);
}

/// The entry that is expected is the one that saves a register first.
pub proof fn the_expected_entry()
    ensures
        expected_prologue() == seq![0x48u8, 0x89u8, 0x5cu8, 0x24u8, 0x08u8],
        Phase::Repro.name() == "Repro"@,
        Phase::Iat.name() == "Iat"@,
{
}

/// A table is read as it is: its library, its place, and its entries where they are those of the controller's library.
pub proof fn a_table_is_read_as_it_is(seen: ImportDescView, all: ImportDescView)
    requires
        reads_as(seen, all),
    ensures
        seen.dll == all.dll,
        seen.first_thunk == all.first_thunk,
        names_xinput(all.dll) ==> seen.entries == all.entries,
{
}

/// Only tables on word boundaries are read.
pub proof fn tables_lie_on_word_boundaries(names: u32, addresses: u32)
    ensures
        tables_aligned(names, addresses) == (names % 8 == 0 && addresses % 8 == 0),
{
}

/// A scan tells the place of the first slot, or that there is none.
pub proof fn a_scan_tells_the_first_slot(
    imports: Seq<ImportDescView>,
    offset: u64,
    d: int,
    k: int,
)
    ensures
        tells_slot(SlotScan::At(offset), imports) && is_first_slot(imports, d, k) ==> offset
            == imports[d].first_thunk + 8 * k,
        tells_slot(SlotScan::NotImported, imports) ==> !is_slot(imports, d, k),
        !tells_slot(SlotScan::NotRead, imports),
{
    if tells_slot(SlotScan::At(offset), imports) && is_first_slot(imports, d, k) {
        let (d2, k2) = choose|d2: int, k2: int| #[trigger]
            is_first_slot(imports, d2, k2) && offset as int == imports[d2].first_thunk + 8 * k2;
        first_slot_is_unique(imports, d, k, d2, k2);
    }
}

/// A slot is an entry for the query in a readable table of the controller's library, and every such entry is one.
pub proof fn every_entry_for_the_query_is_a_slot(imports: Seq<ImportDescView>, d: int, k: int)
    requires
        0 <= d < imports.len(),
        imports[d].entries is Some,
        0 <= k < imports[d].entries->0.len(),
    ensures
        is_slot(imports, d, k) == (names_xinput(imports[d].dll) && is_get_state(
            imports[d].entries->0[k],
        )),
{
}

/// Each library of an image has its place in the table, with its entries where its own tables lie on word boundaries.
pub proof fn every_library_has_its_place(image: Seq<u8>, n: nat, i: int)
    requires
        0 <= i < n,
    ensures
        import_table(image, n).len() == n,
        import_table(image, n)[i].dll == imported_library(image, i).0,
        import_table(image, n)[i].first_thunk == imported_library(image, i).2,
        imported_library(image, i).1 % 8 == 0 && imported_library(image, i).2 % 8 == 0
            ==> import_table(image, n)[i].entries == side_by_side(
            imported_names(image, i),
            imported_addresses(image, i),
        ),
        imported_library(image, i).1 % 8 != 0 || imported_library(image, i).2 % 8 != 0
            ==> import_table(image, n)[i].entries is None,
{
}

/// What was read stands for the image exactly if it tells the image's own error, or each of its libraries.
pub proof fn what_was_read_stands_for_the_image(image: Seq<u8>, why: String, l: Vec<ImportDesc>, j: int)
    ensures
        stands_for(TableRead::NotRead, image),
        stands_for(TableRead::NoDirectory(why), image) == (import_directory(image) == Err::<
            usize,
            Seq<char>,
        >(why@)),
        stands_for(TableRead::Libraries(l), image) ==> import_directory(image) is Ok && l@.len()
            == import_directory(image)->Ok_0,
        stands_for(TableRead::Libraries(l), image) && 0 <= j < l@.len() ==> descs_view(l@)[j].dll
            == imported_library(image, j).0 && descs_view(l@)[j].first_thunk == imported_library(
            image,
            j,
        ).2,
{
    if stands_for(TableRead::Libraries(l), image) && 0 <= j < l@.len() {
        assert(reads_as(descs_view(l@)[j], whole_table(image)[j]));
    }
}

/// That the slot is missing is an error.
pub proof fn a_missing_slot_is_an_error(scan: SlotScan, i: int)
    requires
        0 <= i < missing_slot_lines(scan).len(),
    ensures
        missing_slot_lines(scan)[i].level == Level::Error,
{
}

/// Slots are ordered by their library first and by their entry in it second.
pub proof fn slots_are_ordered_by_library_first(d: int, k: int, d2: int, k2: int)
    ensures
        d < d2 ==> slot_before(d, k, d2, k2) && !slot_before(d2, k2, d, k),
        d == d2 && k < k2 ==> slot_before(d, k, d2, k2) && !slot_before(d2, k2, d, k),
        !slot_before(d, k, d, k),
{
}

} // verus!
