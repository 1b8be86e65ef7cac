//! One-shot code patches: where a patch goes, found relative to a distinctive landmark in the loaded
//! image, and what is said about it. Every failure leaves the game as it is.

use pelite::pe64::Pe;
use vstd::prelude::*;

use crate::levels::{Level, LogLine, LogLineView};
use crate::text;
use crate::text::{dec, joined, plus_minus_dec, texts, upper_hex_digits, zero_pad};

verus! {

/// The most bytes an image may have: the size that its headers name is a number of 32 bits.
pub const MAX_IMAGE: usize = 0xffff_ffff;

/// The opcode of an instruction that does nothing.
pub const NOP: u8 = 0x90;

/// The little-endian number in the four bytes at `at`.
pub open spec fn le32(image: Seq<u8>, at: int) -> nat {
    (image[at] + image[at + 1] * 0x100 + image[at + 2] * 0x1_0000 + image[at + 3] * 0x100_0000) as nat
}

/// Whether the code that an image's headers name starts inside the image and ends at an offset of 32 bits.
/// What of it lies past the end of the image is not scanned.
pub open spec fn code_starts_inside(image: Seq<u8>) -> bool {
    &&& image.len() >= 0x40
    &&& le32(image, 0x3C) + 48 <= image.len()
    &&& le32(image, (le32(image, 0x3C) + 44) as int) <= image.len()
    &&& le32(image, (le32(image, 0x3C) + 44) as int) + le32(
        image,
        (le32(image, 0x3C) + 28) as int,
    ) <= u32::MAX
}

/// A range of a landmark as far as it was read: its lower bound, and its upper bound once that has begun.
pub struct RangeRead {
    pub low: nat,
    pub high: Option<nat>,
}

/// How far a landmark was read.
#[verifier::ext_equal]
pub struct Reading {
    /// Inside quotes.
    pub quoted: bool,
    /// The bits of an alignment are expected next.
    pub aligning: bool,
    /// Inside this range.
    pub range: Option<RangeRead>,
    /// How many references are being followed inside each other.
    pub depth: nat,
    /// How many references were being followed where each open alternative began.
    pub open: Seq<nat>,
    /// How many ranges there were that leave a choice.
    pub ranges: nat,
    /// How many references and alternatives are never returned from, since an alternative ended before the
    /// references that it began to follow.
    pub unfinished: nat,
    /// In how many ways one place of the code is tried at most.
    pub tries: nat,
}

/// The most calls inside each other that one place of the code may take.
pub const MAX_CALLS: u32 = 255;

/// The most ways in which one place of the code may be tried.
pub const MAX_TRIES: u32 = 0x1_0000;

/// Where the bounds of a range end.
pub const MAX_RANGE: u32 = 16384;

/// Whether a character asks for an alignment to two to the power of 32 or more.
pub open spec fn is_huge_alignment(c: char) -> bool {
    'W' <= c <= 'Z' || 'w' <= c <= 'z'
}

impl Reading {
    /// Nothing read yet.
    pub open spec fn start() -> Reading {
        Reading {
            quoted: false,
            aligning: false,
            range: None,
            depth: 0,
            open: Seq::empty(),
            ranges: 0,
            unfinished: 0,
            tries: 1,
        }
    }

    /// How many calls inside each other one place of the code takes at most: one for each reference and
    /// each alternative, and two for each range.
    pub open spec fn calls(self) -> nat {
        self.depth + self.open.len() + 2 * self.ranges + self.unfinished
    }

    /// The reading, if a scan returns from what was read so far.
    pub open spec fn bounded(self) -> Option<Reading> {
        if self.calls() <= MAX_CALLS && self.tries <= MAX_TRIES {
            Some(self)
        } else {
            None
        }
    }

    /// The reading at the end of an alternative. One that ends before the references it began to follow has
    /// what comes behind it tried once more.
    pub open spec fn alternative_ended(self) -> Reading {
        let began = self.open.last();
        if self.depth > began {
            Reading {
                depth: began,
                unfinished: (self.unfinished + self.depth - began + 1) as nat,
                tries: 2 * self.tries,
                ..self
            }
        } else {
            Reading { depth: began, ..self }
        }
    }

    /// The reading at the end of a range from `low` up to `high`.
    pub open spec fn range_ended(self, low: nat, high: nat) -> Reading {
        Reading {
            range: None,
            ranges: self.ranges + 1,
            tries: self.tries * ((high - low) as nat),
            ..self
        }
    }

    /// One more character inside a range.
    pub open spec fn read_in_range(self, range: RangeRead, c: char) -> Option<Reading> {
        let low = range.low;
        let high = range.high;
        if '0' <= c <= '9' {
            let digit = (c as nat - '0' as nat) as nat;
            match high {
                None => if low * 10 + digit < MAX_RANGE {
                    Some(Reading { range: Some(RangeRead { low: low * 10 + digit, high: None }), ..self })
                } else {
                    None
                },
                Some(h) => if h * 10 + digit < MAX_RANGE {
                    Some(Reading { range: Some(RangeRead { low, high: Some(h * 10 + digit) }), ..self })
                } else {
                    None
                },
            }
        } else if c == '-' && high is None {
            Some(Reading { range: Some(RangeRead { low, high: Some(0) }), ..self })
        } else if c == ']' {
            match high {
                None => Some(Reading { range: None, ..self }),
                Some(h) => if low < h {
                    self.range_ended(low, h).bounded()
                } else {
                    None
                },
            }
        } else {
            None
        }
    }
}

/// Reads one more character of a landmark; nothing where it cannot be parsed, or where the scan would not
/// return: on an alignment of more than 31 bits, on too many calls inside each other, or with too many ways
/// to try one place.
pub open spec fn read_on(r: Reading, c: char) -> Option<Reading> {
    if r.quoted {
        Some(Reading { quoted: c != '"', ..r })
    } else if r.range is Some {
        r.read_in_range(r.range->0, c)
    } else if r.aligning {
        if is_huge_alignment(c) {
            None
        } else {
            Some(Reading { aligning: false, ..r })
        }
    } else if c == '"' {
        Some(Reading { quoted: true, ..r })
    } else if c == '@' {
        Some(Reading { aligning: true, ..r })
    } else if c == '[' {
        Some(Reading { range: Some(RangeRead { low: 0, high: None }), ..r })
    } else if c == '{' {
        Reading { depth: r.depth + 1, ..r }.bounded()
    } else if c == '}' && r.depth > 0 {
        Some(Reading { depth: (r.depth - 1) as nat, ..r })
    } else if c == '(' {
        Reading { open: r.open.push(r.depth), ..r }.bounded()
    } else if c == '|' && r.open.len() > 0 {
        r.alternative_ended().bounded()
    } else if c == ')' && r.open.len() > 0 {
        Reading { open: r.open.drop_last(), ..r.alternative_ended() }.bounded()
    } else {
        Some(r)
    }
}

/// The first `n` characters of a landmark read.
pub open spec fn read_of(landmark: Seq<char>, n: nat) -> Option<Reading>
    decreases n,
{
    if n == 0 {
        Some(Reading::start())
    } else {
        match read_of(landmark, (n - 1) as nat) {
            Some(r) => read_on(r, landmark[n - 1]),
            None => None,
        }
    }
}

/// Whether a scan can follow a landmark.
pub open spec fn can_be_followed(landmark: Seq<char>) -> bool {
    read_of(landmark, landmark.len()) is Some
}

/// Whether an image can be scanned for a landmark.
pub open spec fn scannable(image: Seq<u8>, landmark: Seq<char>) -> bool {
    image.len() <= MAX_IMAGE && code_starts_inside(image) && can_be_followed(landmark)
}

/// Where a landmark occurs in the code of an image, if it occurs exactly once.
pub uninterp spec fn unique_match(image: Seq<u8>, landmark: Seq<char>) -> Option<u32>;

/// What a scan found.
#[derive(Clone, Copy, Debug, PartialEq, Eq, Structural)]
pub enum Scan {
    /// The bytes were not taken for an image.
    NotAnImage,
    /// The landmark does not occur, or more than once.
    NoUniqueMatch,
    /// The landmark starts at this offset.
    At(u32),
}

/// What a scan found that told where the landmark is.
pub open spec fn scan_of(found: Option<u32>) -> Scan {
    match found {
        Some(at) => Scan::At(at),
        None => Scan::NoUniqueMatch,
    }
}

/// `pelite::pe64::scanner::Scanner::finds_code` on the view of the image that lies between two positions of
/// a buffer, with the landmark parsed by `pelite::pattern::parse`: whether the landmark has a unique match in
/// the code range of the headers, and, if it has, where that starts; a landmark that does not parse has none.
/// Nothing is returned for bytes that `pelite::pe64::PeView::from_bytes` rejects as an image, which also
/// depends on where they lie in memory: it takes an image only at a multiple of four. Otherwise the outcome
/// is a function of the image and the landmark. The scan panics on an image whose code starts behind its end
/// or ends past 32 bits, and on an alignment of more than 31 bits. It calls itself for every reference, every
/// alternative and every range of a landmark, so that too many of them overflow the stack, and it tries all
/// lengths of a range with all lengths of the next, so that wide ones keep it from ever returning.
#[verifier::external_body]
fn find_code(buffer: &Vec<u8>, from: usize, to: usize, landmark: &str) -> (found: Option<(bool, u32)>)
    requires
        from <= to <= buffer@.len(),
        scannable(buffer@.subrange(from as int, to as int), landmark@),
    ensures
        found matches Some(f) ==> match unique_match(
            buffer@.subrange(from as int, to as int),
            landmark@,
        ) {
            Some(at) => f.0 && f.1 == at,
            None => !f.0,
        },
{
    let Ok(view) = pelite::pe64::PeView::from_bytes(&buffer[from..to]) else {
        return None;
    };
    let Ok(atoms) = pelite::pattern::parse(landmark) else {
        return Some((false, 0));
    };
    let mut save = [0u32; 1];
    let unique = view.scanner().finds_code(&atoms, &mut save);
    Some((unique, save[0]))
}

/// Room for an image at any of so many places in a row.
pub(crate) fn room_for(image: &Vec<u8>, places: usize) -> (buffer: Vec<u8>)
    requires
        image@.len() + places <= usize::MAX,
    ensures
        buffer@.len() == image@.len() + places,
{
    let n: usize = image.len() + places;
    let mut buffer: Vec<u8> = Vec::with_capacity(n);
    let mut i: usize = 0;
    while i < n
        invariant
            i <= n,
            buffer@.len() == i,
        decreases n - i,
    {
        buffer.push(0);
        i = i + 1;
    }
    buffer
}

/// Puts an image at a place of a buffer, which stays where it is.
pub(crate) fn place(buffer: &mut Vec<u8>, image: &Vec<u8>, at: usize)
    requires
        at + image@.len() <= old(buffer)@.len(),
    ensures
        final(buffer)@.len() == old(buffer)@.len(),
        final(buffer)@.subrange(at as int, at + image@.len()) == image@,
{
    let n: usize = image.len();
    let room: usize = buffer.len();
    let mut i: usize = 0;
    while i < n
        invariant
            n == image@.len(),
            i <= n,
            buffer@.len() == room,
            at + n <= room,
            forall|k: int| 0 <= k < i ==> #[trigger] buffer@[at + k] == image@[k],
        decreases n - i,
    {
        buffer.set(at + i, image[i]);
        i = i + 1;
    }
    let ghost put = buffer@.subrange(at as int, at + n);
    assert forall|k: int| 0 <= k < n implies #[trigger] put[k] == image@[k] by {
        assert(buffer@[at + k] == image@[k]);
    }
    assert(put =~= image@);
}

/// The places in a row of which one is a multiple of four.
pub const SCAN_PLACES: usize = 4;

/// Scans an image for a landmark. Where the image lies at no multiple of four, it is scanned at places in a
/// row of which one is.
fn scan(image: &Vec<u8>, landmark: &str) -> (found: Scan)
    requires
        scannable(image@, landmark@),
    ensures
        found == Scan::NotAnImage || found == scan_of(unique_match(image@, landmark@)),
{
    let n: usize = image.len();
    assert(image@.subrange(0, n as int) =~= image@);
    match find_code(image, 0, n, landmark) {
        Some(f) => {
            return if f.0 {
                Scan::At(f.1)
            } else {
                Scan::NoUniqueMatch
            };
        },
        None => {},
    }
    if n > usize::MAX - SCAN_PLACES {
        return Scan::NotAnImage;
    }
    let mut buffer = room_for(image, SCAN_PLACES);
    let mut k: usize = 0;
    while k < SCAN_PLACES
        invariant
            n == image@.len(),
            n + SCAN_PLACES <= usize::MAX,
            k <= SCAN_PLACES,
            buffer@.len() == n + SCAN_PLACES,
            scannable(image@, landmark@),
        decreases SCAN_PLACES - k,
    {
        place(&mut buffer, image, k);
        match find_code(&buffer, k, k + n, landmark) {
            Some(f) => {
                return if f.0 {
                    Scan::At(f.1)
                } else {
                    Scan::NoUniqueMatch
                };
            },
            None => {},
        }
        k = k + 1;
    }
    Scan::NotAnImage
}

fn read_le32(image: &Vec<u8>, at: usize) -> (n: u32)
    requires
        at + 4 <= image@.len(),
    ensures
        n as nat == le32(image@, at as int),
{
    let len: usize = image.len();
    assert(at + 3 < len);
    image[at] as u32 + image[at + 1] as u32 * 0x100 + image[at + 2] as u32 * 0x1_0000 + image[at
        + 3] as u32 * 0x100_0000
}

/// Whether the code that an image's headers name can be scanned.
pub fn code_in_image(image: &Vec<u8>) -> (fits: bool)
    ensures
        fits == code_starts_inside(image@),
{
    if image.len() < 0x40 {
        return false;
    }
    let nt: u64 = read_le32(image, 0x3C) as u64;
    if nt + 48 > image.len() as u64 {
        return false;
    }
    let base: u64 = read_le32(image, nt as usize + 44) as u64;
    let size: u64 = read_le32(image, nt as usize + 28) as u64;
    base <= image.len() as u64 && base + size <= u32::MAX as u64
}

/// The numbers of a list.
pub open spec fn depths(open: Seq<u32>) -> Seq<nat> {
    Seq::new(open.len(), |i: int| open[i] as nat)
}

/// Reads a landmark, character by character.
struct Reader {
    quoted: bool,
    aligning: bool,
    in_range: bool,
    low: u32,
    /// The upper bound of a range has begun.
    upper: bool,
    high: u32,
    depth: u32,
    open: Vec<u32>,
    ranges: u32,
    unfinished: u32,
    tries: u32,
}

impl View for Reader {
    type V = Reading;

    closed spec fn view(&self) -> Reading {
        Reading {
            quoted: self.quoted,
            aligning: self.aligning,
            range: if self.in_range {
                Some(
                    RangeRead {
                        low: self.low as nat,
                        high: if self.upper {
                            Some(self.high as nat)
                        } else {
                            None
                        },
                    },
                )
            } else {
                None
            },
            depth: self.depth as nat,
            open: depths(self.open@),
            ranges: self.ranges as nat,
            unfinished: self.unfinished as nat,
            tries: self.tries as nat,
        }
    }
}

impl Reader {
    /// What was read so far is within the limits.
    spec fn wf(&self) -> bool {
        &&& self@.bounded() is Some
        &&& self.low < MAX_RANGE
        &&& self.high < MAX_RANGE
        &&& forall|i: int| 0 <= i < self.open@.len() ==> (#[trigger] self.open@[i]) <= MAX_CALLS
    }

    fn new() -> (reader: Reader)
        ensures
            reader.wf(),
            reader@ == Reading::start(),
    {
        let reader = Reader {
            quoted: false,
            aligning: false,
            in_range: false,
            low: 0,
            upper: false,
            high: 0,
            depth: 0,
            open: Vec::new(),
            ranges: 0,
            unfinished: 0,
            tries: 1,
        };
        assert(reader@ =~= Reading::start());
        reader
    }

    /// Whether what was read is within the limits.
    fn is_bounded(&self) -> (yes: bool)
        requires
            self.depth <= MAX_CALLS,
            self.ranges <= MAX_CALLS,
            self.unfinished <= 3 * MAX_CALLS,
        ensures
            yes == (self@.bounded() is Some),
    {
        let calls: usize = (self.depth + 2 * self.ranges + self.unfinished) as usize;
        if self.open.len() > MAX_CALLS as usize {
            return false;
        }
        calls + self.open.len() <= MAX_CALLS as usize && self.tries <= MAX_TRIES
    }

    /// The end of an alternative.
    fn end_alternative(&mut self)
        requires
            old(self).wf(),
            old(self).open@.len() > 0,
        ensures
            final(self)@ == old(self)@.alternative_ended(),
            final(self).open@ == old(self).open@,
            final(self).low < MAX_RANGE,
            final(self).high < MAX_RANGE,
            final(self).depth <= MAX_CALLS,
            final(self).ranges <= MAX_CALLS,
            final(self).unfinished <= 3 * MAX_CALLS,
    {
        let began: u32 = self.open[self.open.len() - 1];
        if self.depth > began {
            self.unfinished = self.unfinished + (self.depth - began) + 1;
            self.tries = 2 * self.tries;
        }
        self.depth = began;
    }

    /// One more character inside a range; whether it can be read.
    fn read_in_range(&mut self, c: char) -> (read: bool)
        requires
            old(self).wf(),
            old(self)@.range is Some,
        ensures
            read ==> final(self).wf(),
            old(self)@.read_in_range(old(self)@.range->0, c) == (if read {
                Some(final(self)@)
            } else {
                None
            }),
    {
        if '0' <= c && c <= '9' {
            let digit: u32 = c as u32 - '0' as u32;
            if self.upper {
                let high: u32 = self.high * 10 + digit;
                if high >= MAX_RANGE {
                    return false;
                }
                self.high = high;
            } else {
                let low: u32 = self.low * 10 + digit;
                if low >= MAX_RANGE {
                    return false;
                }
                self.low = low;
            }
            true
        } else if c == '-' && !self.upper {
            self.upper = true;
            self.high = 0;
            true
        } else if c == ']' {
            self.in_range = false;
            if !self.upper {
                return true;
            }
            if self.low >= self.high {
                return false;
            }
            let width: u32 = self.high - self.low;
            proof {
                vstd::arithmetic::mul::lemma_mul_upper_bound(
                    self.tries as int,
                    MAX_TRIES as int,
                    width as int,
                    MAX_RANGE as int,
                );
            }
            self.tries = self.tries * width;
            self.ranges = self.ranges + 1;
            self.is_bounded()
        } else {
            false
        }
    }

    /// One more character; whether it can be read.
    fn read(&mut self, c: char) -> (read: bool)
        requires
            old(self).wf(),
        ensures
            read ==> final(self).wf(),
            read_on(old(self)@, c) == (if read {
                Some(final(self)@)
            } else {
                None
            }),
    {
        let ghost before = self@;
        if self.quoted {
            self.quoted = c != '"';
            return true;
        }
        if self.in_range {
            return self.read_in_range(c);
        }
        if self.aligning {
            self.aligning = false;
            return !(('W' <= c && c <= 'Z') || ('w' <= c && c <= 'z'));
        }
        if c == '"' {
            self.quoted = true;
        } else if c == '@' {
            self.aligning = true;
        } else if c == '[' {
            self.in_range = true;
            self.low = 0;
            self.upper = false;
        } else if c == '{' {
            if self.depth == MAX_CALLS {
                return false;
            }
            self.depth = self.depth + 1;
            return self.is_bounded();
        } else if c == '}' && self.depth > 0 {
            self.depth = self.depth - 1;
        } else if c == '(' {
            self.open.push(self.depth);
            assert(depths(self.open@) =~= before.open.push(before.depth));
            return self.is_bounded();
        } else if c == '|' && self.open.len() > 0 {
            self.end_alternative();
            return self.is_bounded();
        } else if c == ')' && self.open.len() > 0 {
            self.end_alternative();
            let ghost open = self.open@;
            let _ = self.open.pop();
            assert(depths(self.open@) =~= depths(open).drop_last());
            return self.is_bounded();
        }
        true
    }
}

/// Whether a scan can follow a landmark and returns: no alignment has more than 31 bits, and neither the calls
/// inside each other nor the ways to try one place pass their limits.
pub fn is_followable(landmark: &str) -> (yes: bool)
    ensures
        yes == can_be_followed(landmark@),
{
    let n: usize = landmark.unicode_len();
    let mut reader = Reader::new();
    let mut i: usize = 0;
    while i < n
        invariant
            n == landmark@.len(),
            i <= n,
            reader.wf(),
            read_of(landmark@, i as nat) == Some(reader@),
        decreases n - i,
    {
        let c = landmark.get_char(i);
        assert(read_of(landmark@, (i + 1) as nat) == read_on(reader@, c));
        if !reader.read(c) {
            proof {
                stays_unread(landmark@, (i + 1) as nat, n as nat);
            }
            return false;
        }
        i = i + 1;
    }
    true
}

/// A landmark of which a beginning cannot be followed cannot be followed.
proof fn stays_unread(landmark: Seq<char>, i: nat, n: nat)
    requires
        i <= n,
        read_of(landmark, i) is None,
    ensures
        read_of(landmark, n) is None,
    decreases n,
{
    if i < n {
        stays_unread(landmark, i, (n - 1) as nat);
    }
}

/// The landmark of the boot-logo gate.
pub const BOOT_LOGO_LANDMARK: &'static str = "C6 ? ? ? ? ? 01 ? 03 00 00 00 ? 8B ? E8 ? ? ? ? E9 ? ? ? ? ? 8D";

/// The landmark of the "is offline" predicate.
pub const IS_OFFLINE_LANDMARK: &'static str = "48 83 EC 28 E8 ? ? ? ? 83 F8 02 0F 94 C0 48 83 C4 28 C3";

/// The landmark of the return of the online-mode getter.
pub const ONLINE_MODE_LANDMARK: &'static str = "0F B6 05 B1 26 73 03";

/// The landmark of the session-create gate.
pub const CREATE_GATE_LANDMARK: &'static str = "E8 26 2B 00 00 90 48 8D 4C 24 30 84 C0 75 07";

/// One patch: the landmark, the distance from it to the site, the byte the site must hold, and the
/// bytes to put there.
#[derive(Debug)]
pub struct PatchSpec {
    pub name: String,
    pub landmark: String,
    pub offset: i64,
    pub expect: u8,
    pub bytes: Vec<u8>,
}

/// The contents of a patch.
pub struct PatchSpecView {
    pub name: Seq<char>,
    pub landmark: Seq<char>,
    pub offset: int,
    pub expect: u8,
    pub bytes: Seq<u8>,
}

impl View for PatchSpec {
    type V = PatchSpecView;

    open spec fn view(&self) -> PatchSpecView {
        PatchSpecView {
            name: self.name@,
            landmark: self.landmark@,
            offset: self.offset as int,
            expect: self.expect,
            bytes: self.bytes@,
        }
    }
}

/// Which boot patches are switched on.
#[derive(Clone, Copy, Debug, PartialEq, Eq, Structural)]
pub struct BootPatches {
    pub skip_splash_screens: bool,
    pub enable_offline_multiplayer: bool,
    pub force_online_menu_mode: bool,
    pub bypass_session_create_gate: bool,
}

/// Fall through to the title instead of playing the logos.
pub open spec fn skip_splash() -> PatchSpecView {
    PatchSpecView {
        name: "skip_splash_screens"@,
        landmark: BOOT_LOGO_LANDMARK@,
        offset: -60,
        expect: 0x74,
        bytes: seq![0x90u8, 0x90u8],
    }
}

/// The "is offline" predicate answers no.
pub open spec fn offline_multiplayer() -> PatchSpecView {
    PatchSpecView {
        name: "enable_offline_multiplayer"@,
        landmark: IS_OFFLINE_LANDMARK@,
        offset: 12,
        expect: 0x0F,
        bytes: seq![0x31u8, 0xC0u8, 0x90u8],
    }
}

/// The online-mode getter answers yes.
pub open spec fn online_menu() -> PatchSpecView {
    PatchSpecView {
        name: "force_online_menu_mode"@,
        landmark: ONLINE_MODE_LANDMARK@,
        offset: 0,
        expect: 0x0F,
        bytes: seq![0xB8u8, 0x01u8, 0x00u8, 0x00u8, 0x00u8, 0x90u8, 0x90u8],
    }
}

/// A session is created whatever the availability test before it answers.
pub open spec fn create_gate() -> PatchSpecView {
    PatchSpecView {
        name: "bypass_session_create_gate"@,
        landmark: CREATE_GATE_LANDMARK@,
        offset: 13,
        expect: 0x75,
        bytes: seq![0xEBu8],
    }
}

/// `list` with `item` behind it, if it is switched on.
pub open spec fn with_if(
    list: Seq<PatchSpecView>,
    on: bool,
    item: PatchSpecView,
) -> Seq<PatchSpecView> {
    if on {
        list.push(item)
    } else {
        list
    }
}

/// The patches that are switched on, in the order they are applied.
pub open spec fn boot_patches(flags: BootPatches) -> Seq<PatchSpecView> {
    with_if(
        with_if(
            with_if(
                with_if(Seq::empty(), flags.skip_splash_screens, skip_splash()),
                flags.enable_offline_multiplayer,
                offline_multiplayer(),
            ),
            flags.force_online_menu_mode,
            online_menu(),
        ),
        flags.bypass_session_create_gate,
        create_gate(),
    )
}

/// The views of a list of patches.
pub open spec fn specs_view(specs: Seq<PatchSpec>) -> Seq<PatchSpecView> {
    Seq::new(specs.len(), |i: int| specs[i]@)
}

fn push_spec(
    specs: &mut Vec<PatchSpec>,
    name: &str,
    landmark: &str,
    offset: i64,
    expect: u8,
    bytes: Vec<u8>,
)
    ensures
        specs_view(final(specs)@) == specs_view(old(specs)@).push(
            PatchSpecView {
                name: name@,
                landmark: landmark@,
                offset: offset as int,
                expect,
                bytes: bytes@,
            },
        ),
{
    let ghost before = specs_view(specs@);
    let ghost content = bytes@;
    specs.push(
        PatchSpec { name: name.to_owned(), landmark: landmark.to_owned(), offset, expect, bytes },
    );
    assert(specs_view(specs@) =~= before.push(
        PatchSpecView {
            name: name@,
            landmark: landmark@,
            offset: offset as int,
            expect,
            bytes: content,
        },
    ));
}

/// The boot patches that are switched on, in the order they are applied.
pub fn apply_boot_patches(flags: BootPatches) -> (specs: Vec<PatchSpec>)
    ensures
        specs_view(specs@) == boot_patches(flags),
        specs@.len() == (flags.skip_splash_screens as int) + (flags.enable_offline_multiplayer as int)
            + (flags.force_online_menu_mode as int) + (flags.bypass_session_create_gate as int),
        (exists|i: int|
            0 <= i < specs@.len() && (#[trigger] specs@[i]).landmark@ == BOOT_LOGO_LANDMARK@)
            == flags.skip_splash_screens,
        (exists|i: int|
            0 <= i < specs@.len() && (#[trigger] specs@[i]).landmark@ == IS_OFFLINE_LANDMARK@)
            == flags.enable_offline_multiplayer,
        (exists|i: int|
            0 <= i < specs@.len() && (#[trigger] specs@[i]).landmark@ == ONLINE_MODE_LANDMARK@)
            == flags.force_online_menu_mode,
        (exists|i: int|
            0 <= i < specs@.len() && (#[trigger] specs@[i]).landmark@ == CREATE_GATE_LANDMARK@)
            == flags.bypass_session_create_gate,
{
    let mut specs: Vec<PatchSpec> = Vec::new();
    assert(specs_view(specs@) =~= Seq::empty());
    if flags.skip_splash_screens {
        let bytes: Vec<u8> = vec![0x90, 0x90];
        assert(bytes@ =~= skip_splash().bytes);
        push_spec(&mut specs, "skip_splash_screens", BOOT_LOGO_LANDMARK, -60, 0x74, bytes);
    }
    if flags.enable_offline_multiplayer {
        let bytes: Vec<u8> = vec![0x31, 0xC0, 0x90];
        assert(bytes@ =~= offline_multiplayer().bytes);
        push_spec(&mut specs, "enable_offline_multiplayer", IS_OFFLINE_LANDMARK, 12, 0x0F, bytes);
    }
    if flags.force_online_menu_mode {
        let bytes: Vec<u8> = vec![0xB8, 0x01, 0x00, 0x00, 0x00, 0x90, 0x90];
        assert(bytes@ =~= online_menu().bytes);
        push_spec(&mut specs, "force_online_menu_mode", ONLINE_MODE_LANDMARK, 0, 0x0F, bytes);
    }
    if flags.bypass_session_create_gate {
        let bytes: Vec<u8> = vec![0xEB];
        assert(bytes@ =~= create_gate().bytes);
        push_spec(&mut specs, "bypass_session_create_gate", CREATE_GATE_LANDMARK, 13, 0x75, bytes);
    }
    proof {
        each_patch_has_its_own_switch(flags);
        let listed = specs_view(specs@);
        assert(specs@.len() == listed.len());
        assert forall|i: int| 0 <= i < specs@.len() implies (#[trigger] specs@[i]).landmark@
            == listed[i].landmark by {}
        assert forall|i: int| 0 <= i < listed.len() implies (#[trigger] listed[i]).landmark
            == specs@[i].landmark@ by {}
    }
    specs
}

/// A byte as two upper-case hexadecimal digits behind `0x`.
pub open spec fn byte_chars(b: u8) -> Seq<char> {
    "0x"@ + zero_pad(upper_hex_digits(b as nat), 2)
}

/// A warning about a patch.
pub open spec fn warning(name: Seq<char>, why: Seq<char>) -> LogLineView {
    LogLineView { level: Level::Warn, text: "patch '"@ + name + "': "@ + why }
}

/// Whether an offset into the image can be patched, and why not.
#[derive(Debug)]
pub enum Site {
    /// The patch goes to this offset.
    At(u32),
    /// There is no patch, and this is why.
    Skip(LogLine),
}

/// The site for a scan that found `found`: the landmark's start plus the offset, if that is an offset
/// into the image and the byte there is the expected one.
pub open spec fn site_of(
    name: Seq<char>,
    found: Scan,
    image: Seq<u8>,
    offset: int,
    expect: u8,
) -> Result<u32, LogLineView> {
    match found {
        Scan::At(start) => {
            let at = start + offset;
            if at < 0 || at > u32::MAX {
                Err(
                    warning(
                        name,
                        "patch site (match 0x"@ + upper_hex_digits(start as nat) + " "@
                            + plus_minus_dec(offset) + ") out of range; skipping"@,
                    ),
                )
            } else if at == 0 || at >= image.len() {
                Err(
                    warning(
                        name,
                        "patch site RVA 0x"@ + upper_hex_digits(at as nat)
                            + " not in the loaded image; skipping"@,
                    ),
                )
            } else if image[at] != expect {
                Err(
                    warning(
                        name,
                        "site byte "@ + byte_chars(image[at]) + " != expected "@ + byte_chars(
                            expect,
                        ) + " (AOB drift?); skipping"@,
                    ),
                )
            } else {
                Ok(at as u32)
            }
        },
        _ => Err(
            warning(
                name,
                "landmark not found or not unique; feature disabled this session"@,
            ),
        ),
    }
}

/// A site stands for what `site_of` gives.
pub open spec fn site_is(site: Site, wanted: Result<u32, LogLineView>) -> bool {
    match site {
        Site::At(at) => wanted == Ok::<u32, LogLineView>(at),
        Site::Skip(line) => wanted == Err::<u32, LogLineView>(line@),
    }
}

fn warn(name: &str, why: &str) -> (line: LogLine)
    ensures
        line@ == warning(name@, why@),
{
    let mut out = "patch '".to_owned();
    out.append(name);
    out.append("': ");
    out.append(why);
    assert(out@ =~= "patch '"@ + name@ + "': "@ + why@);
    LogLine { level: Level::Warn, text: out }
}

fn byte_text(b: u8) -> (out: String)
    ensures
        out@ == byte_chars(b),
{
    let mut out = "0x".to_owned();
    out.append(text::upper_hex_padded(b as u64, 2).as_str());
    out
}

/// Decides about a patch after the scan for its landmark.
pub fn site_after_scan(
    name: &str,
    found: Scan,
    image: &Vec<u8>,
    offset: i64,
    expect: u8,
) -> (site: Site)
    ensures
        site_is(site, site_of(name@, found, image@, offset as int, expect)),
{
    let start: u32 = match found {
        Scan::At(start) => start,
        _ => {
            return Site::Skip(
                warn(name, "landmark not found or not unique; feature disabled this session"),
            );
        },
    };
    let at: i128 = start as i128 + offset as i128;
    if at < 0 || at > u32::MAX as i128 {
        let mut why = "patch site (match 0x".to_owned();
        why.append(text::upper_hex_text(start as u64).as_str());
        why.append(" ");
        why.append(text::plus_minus_text(offset).as_str());
        why.append(") out of range; skipping");
        return Site::Skip(warn(name, why.as_str()));
    }
    let rva: u32 = at as u32;
    if rva == 0 || rva as usize >= image.len() {
        let mut why = "patch site RVA 0x".to_owned();
        why.append(text::upper_hex_text(rva as u64).as_str());
        why.append(" not in the loaded image; skipping");
        return Site::Skip(warn(name, why.as_str()));
    }
    let actual: u8 = image[rva as usize];
    if actual != expect {
        let mut why = "site byte ".to_owned();
        why.append(byte_text(actual).as_str());
        why.append(" != expected ");
        why.append(byte_text(expect).as_str());
        why.append(" (AOB drift?); skipping");
        return Site::Skip(warn(name, why.as_str()));
    }
    Site::At(rva)
}

/// Looks for the site of a patch in the loaded image. Bytes that cannot be scanned hold no landmark. Whether
/// bytes are taken for an image also depends on where they lie in memory, so that no success is promised.
pub fn locate(name: &str, image: &Vec<u8>, landmark: &str, offset: i64, expect: u8) -> (site: Site)
    ensures
        site_is(site, site_of(name@, Scan::NoUniqueMatch, image@, offset as int, expect)) || (
        scannable(image@, landmark@) && site_is(
            site,
            site_of(
                name@,
                scan_of(unique_match(image@, landmark@)),
                image@,
                offset as int,
                expect,
            ),
        )),
        !scannable(image@, landmark@) ==> site is Skip,
        site is At ==> 0 < site->At_0 < image@.len() && image@[site->At_0 as int] == expect,
{
    let found = if image.len() <= MAX_IMAGE && code_in_image(image) && is_followable(landmark) {
        scan(image, landmark)
    } else {
        Scan::NoUniqueMatch
    };
    site_after_scan(name, found, image, offset, expect)
}

/// A patch that is ready to be written: where, and which bytes.
#[derive(Debug)]
pub enum PatchPlan {
    Write { at: u32, bytes: Vec<u8> },
    Skip(LogLine),
}

/// A plan stands for putting bytes at the site that `site_of` gives.
pub open spec fn plan_is(
    plan: PatchPlan,
    wanted: Result<u32, LogLineView>,
    put: Seq<u8>,
) -> bool {
    match plan {
        PatchPlan::Write { at, bytes } => wanted == Ok::<u32, LogLineView>(at) && bytes@ == put,
        PatchPlan::Skip(line) => wanted == Err::<u32, LogLineView>(line@),
    }
}

/// The plan to put bytes at a site.
pub fn plan_for(site: Site, bytes: Vec<u8>) -> (plan: PatchPlan)
    ensures
        plan == (match site {
            Site::At(at) => PatchPlan::Write { at, bytes },
            Site::Skip(line) => PatchPlan::Skip(line),
        }),
{
    match site {
        Site::At(at) => PatchPlan::Write { at, bytes },
        Site::Skip(line) => PatchPlan::Skip(line),
    }
}

/// The bytes that blank out `count` bytes.
pub open spec fn nops(count: nat) -> Seq<u8> {
    Seq::new(count, |i: int| NOP)
}

/// Plans to blank out `count` bytes at the site of a landmark.
pub fn nop_landmark(
    name: &str,
    image: &Vec<u8>,
    landmark: &str,
    offset: i64,
    expect: u8,
    count: usize,
) -> (plan: PatchPlan)
    ensures
        plan_is(
            plan,
            site_of(name@, Scan::NoUniqueMatch, image@, offset as int, expect),
            nops(count as nat),
        ) || (scannable(image@, landmark@) && plan_is(
            plan,
            site_of(
                name@,
                scan_of(unique_match(image@, landmark@)),
                image@,
                offset as int,
                expect,
            ),
            nops(count as nat),
        )),
        !scannable(image@, landmark@) ==> plan is Skip,
        plan matches PatchPlan::Write { at, .. } ==> 0 < at < image@.len() && image@[at as int]
            == expect,
{
    let mut bytes: Vec<u8> = Vec::new();
    let mut i: usize = 0;
    while i < count
        invariant
            i <= count,
            bytes@ == nops(i as nat),
        decreases count - i,
    {
        bytes.push(NOP);
        i = i + 1;
        assert(bytes@ =~= nops(i as nat));
    }
    overwrite_landmark(name, image, landmark, offset, expect, bytes)
}

/// Plans to put the given bytes at the site of a landmark.
pub fn overwrite_landmark(
    name: &str,
    image: &Vec<u8>,
    landmark: &str,
    offset: i64,
    expect: u8,
    bytes: Vec<u8>,
) -> (plan: PatchPlan)
    ensures
        plan_is(
            plan,
            site_of(name@, Scan::NoUniqueMatch, image@, offset as int, expect),
            bytes@,
        ) || (scannable(image@, landmark@) && plan_is(
            plan,
            site_of(
                name@,
                scan_of(unique_match(image@, landmark@)),
                image@,
                offset as int,
                expect,
            ),
            bytes@,
        )),
        !scannable(image@, landmark@) ==> plan is Skip,
        plan matches PatchPlan::Write { at, .. } ==> 0 < at < image@.len() && image@[at as int]
            == expect,
{
    let site = locate(name, image, landmark, offset, expect);
    plan_for(site, bytes)
}

/// Bytes as a list of two-digit upper-case hexadecimal numbers.
pub open spec fn byte_list(bytes: Seq<u8>) -> Seq<char> {
    "["@ + joined(
        Seq::new(bytes.len(), |i: int| zero_pad(upper_hex_digits(bytes[i] as nat), 2)),
        ", "@,
    ) + "]"@
}

fn byte_list_text(bytes: &Vec<u8>) -> (out: String)
    ensures
        out@ == byte_list(bytes@),
{
    let mut parts: Vec<String> = Vec::new();
    let ghost all = Seq::new(
        bytes@.len(),
        |i: int| zero_pad(upper_hex_digits(bytes@[i] as nat), 2),
    );
    let mut i: usize = 0;
    assert(texts(parts@) =~= all.take(0));
    while i < bytes.len()
        invariant
            i <= bytes@.len(),
            all == Seq::new(
                bytes@.len(),
                |i: int| zero_pad(upper_hex_digits(bytes@[i] as nat), 2),
            ),
            texts(parts@) == all.take(i as int),
        decreases bytes@.len() - i,
    {
        let ghost before = texts(parts@);
        let part = text::upper_hex_padded(bytes[i] as u64, 2);
        let ghost chars = part@;
        parts.push(part);
        assert(texts(parts@) =~= before.push(chars));
        i = i + 1;
        assert(all.take(i as int) =~= before.push(all[i - 1]));
    }
    assert(all.take(i as int) =~= all);
    let mut out = "[".to_owned();
    out.append(text::join(&parts, ", ").as_str());
    out.append("]");
    out
}

fn failed_line(name: &str, why: &str) -> (line: LogLine)
    ensures
        line@ == write_failure(name@, why@),
{
    let mut out = "patch '".to_owned();
    out.append(name);
    out.append("' write failed: ");
    out.append(why);
    LogLine { level: Level::Error, text: out }
}

/// The line on a failed write.
pub open spec fn write_failure(name: Seq<char>, why: Seq<char>) -> LogLineView {
    LogLineView { level: Level::Error, text: "patch '"@ + name + "' write failed: "@ + why }
}

/// The line on a blanking write: what was there before, or why the write failed.
pub fn nop_result(name: &str, count: usize, written: &Result<Vec<u8>, String>) -> (line: LogLine)
    ensures
        line@ == (match *written {
            Ok(before) => LogLineView {
                level: Level::Info,
                text: "patched '"@ + name@ + "': "@ + byte_list(before@) + " -> NOP×"@ + dec(
                    count as nat,
                ),
            },
            Err(e) => write_failure(name@, e@),
        }),
{
    match written {
        Ok(before) => {
            let mut out = "patched '".to_owned();
            out.append(name);
            out.append("': ");
            out.append(byte_list_text(before).as_str());
            out.append(" -> NOP×");
            out.append(text::dec_text(count as u64).as_str());
            LogLine { level: Level::Info, text: out }
        },
        Err(e) => failed_line(name, e.as_str()),
    }
}

/// The line on a write of other bytes: what was there before and what is now, or why the write failed.
pub fn overwrite_result(name: &str, bytes: &Vec<u8>, written: &Result<Vec<u8>, String>) -> (line:
    LogLine)
    ensures
        line@ == (match *written {
            Ok(before) => LogLineView {
                level: Level::Info,
                text: "patched '"@ + name@ + "': "@ + byte_list(before@) + " -> "@ + byte_list(
                    bytes@,
                ),
            },
            Err(e) => write_failure(name@, e@),
        }),
{
    match written {
        Ok(before) => {
            let mut out = "patched '".to_owned();
            out.append(name);
            out.append("': ");
            out.append(byte_list_text(before).as_str());
            out.append(" -> ");
            out.append(byte_list_text(bytes).as_str());
            LogLine { level: Level::Info, text: out }
        },
        Err(e) => failed_line(name, e.as_str()),
    }
}

/// A patch never goes anywhere but to a byte of the image that reads as expected.
pub proof fn patches_only_the_expected_byte(
    name: Seq<char>,
    found: Scan,
    image: Seq<u8>,
    offset: int,
    expect: u8,
)
    ensures
        site_of(name, found, image, offset, expect) matches Ok(at) ==> 0 < at < image.len()
            && image[at as int] == expect && found is At,
{
}

/// The landmarks of the four patches are told apart by their lengths or their first characters.
proof fn landmarks_differ()
    ensures
        BOOT_LOGO_LANDMARK@ != IS_OFFLINE_LANDMARK@,
        BOOT_LOGO_LANDMARK@ != ONLINE_MODE_LANDMARK@,
        BOOT_LOGO_LANDMARK@ != CREATE_GATE_LANDMARK@,
        IS_OFFLINE_LANDMARK@ != ONLINE_MODE_LANDMARK@,
        IS_OFFLINE_LANDMARK@ != CREATE_GATE_LANDMARK@,
        ONLINE_MODE_LANDMARK@ != CREATE_GATE_LANDMARK@,
{
    reveal_strlit("C6 ? ? ? ? ? 01 ? 03 00 00 00 ? 8B ? E8 ? ? ? ? E9 ? ? ? ? ? 8D");
    reveal_strlit("48 83 EC 28 E8 ? ? ? ? 83 F8 02 0F 94 C0 48 83 C4 28 C3");
    reveal_strlit("0F B6 05 B1 26 73 03");
    reveal_strlit("E8 26 2B 00 00 90 48 8D 4C 24 30 84 C0 75 07");
    assert(BOOT_LOGO_LANDMARK@[0] == 'C');
    assert(IS_OFFLINE_LANDMARK@[0] == '4');
    assert(ONLINE_MODE_LANDMARK@[0] == '0');
    assert(CREATE_GATE_LANDMARK@[0] == 'E');
}

/// A patch is in the list exactly if its own switch is on: the one at the boot-logo gate if the logos are to be
/// skipped, the one at the offline predicate if offline multiplayer is wanted, the one at the online-mode getter
/// if the online menu is forced, and the one at the session gate if that is bypassed. Nothing else is patched.
pub proof fn each_patch_has_its_own_switch(flags: BootPatches)
    ensures
        (exists|i: int|
            0 <= i < boot_patches(flags).len() && (#[trigger] boot_patches(flags)[i]).landmark
                == BOOT_LOGO_LANDMARK@) == flags.skip_splash_screens,
        (exists|i: int|
            0 <= i < boot_patches(flags).len() && (#[trigger] boot_patches(flags)[i]).landmark
                == IS_OFFLINE_LANDMARK@) == flags.enable_offline_multiplayer,
        (exists|i: int|
            0 <= i < boot_patches(flags).len() && (#[trigger] boot_patches(flags)[i]).landmark
                == ONLINE_MODE_LANDMARK@) == flags.force_online_menu_mode,
        (exists|i: int|
            0 <= i < boot_patches(flags).len() && (#[trigger] boot_patches(flags)[i]).landmark
                == CREATE_GATE_LANDMARK@) == flags.bypass_session_create_gate,
        boot_patches(flags).len() == (flags.skip_splash_screens as int)
            + (flags.enable_offline_multiplayer as int) + (flags.force_online_menu_mode as int)
            + (flags.bypass_session_create_gate as int),
{
    landmarks_differ();
    let list = boot_patches(flags);
    let a = with_if(Seq::empty(), flags.skip_splash_screens, skip_splash());
    let b = with_if(a, flags.enable_offline_multiplayer, offline_multiplayer());
    let c = with_if(b, flags.force_online_menu_mode, online_menu());
    assert(list == with_if(c, flags.bypass_session_create_gate, create_gate()));
    assert(flags.skip_splash_screens ==> list[0].landmark == BOOT_LOGO_LANDMARK@);
    assert(flags.enable_offline_multiplayer ==> list[a.len() as int].landmark == IS_OFFLINE_LANDMARK@);
    assert(flags.force_online_menu_mode ==> list[b.len() as int].landmark == ONLINE_MODE_LANDMARK@);
    assert(flags.bypass_session_create_gate ==> list[c.len() as int].landmark == CREATE_GATE_LANDMARK@);
}

/// A patch goes by the name of its switch, and what it expects and writes fits the code at its landmark: blanks
/// over the short jump before the logos, a cleared register and a blank over the offline predicate's test, a
/// constant one over the whole of the getter's return, and an unconditional jump over the conditional one.
pub proof fn each_patch_fits_its_landmark(flags: BootPatches, i: int)
    requires
        0 <= i < boot_patches(flags).len(),
    ensures
        ({
            let p = boot_patches(flags)[i];
            &&& p.landmark == BOOT_LOGO_LANDMARK@ ==> p.name == "skip_splash_screens"@ && p.offset
                == -60 && p.expect == 0x74 && p.bytes.len() == 2 && p.bytes[0] == NOP && p.bytes[1]
                == NOP
            &&& p.landmark == IS_OFFLINE_LANDMARK@ ==> p.name == "enable_offline_multiplayer"@
                && p.offset == 12 && p.bytes.len() == 3 && p.bytes[0] == 0x31 && p.bytes[1] == 0xC0
                && p.bytes[2] == NOP && IS_OFFLINE_LANDMARK@[32] == '0' && IS_OFFLINE_LANDMARK@[33]
                == 'F' && p.expect == 0x0F
            &&& p.landmark == ONLINE_MODE_LANDMARK@ ==> p.name == "force_online_menu_mode"@
                && p.offset == 0 && p.bytes.len() == 7 && p.bytes[0] == 0xB8 && p.bytes[1] == 1
                && p.bytes[2] == 0 && p.bytes[3] == 0 && p.bytes[4] == 0 && p.bytes[5] == NOP
                && p.bytes[6] == NOP && ONLINE_MODE_LANDMARK@[0] == '0' && ONLINE_MODE_LANDMARK@[1]
                == 'F' && p.expect == 0x0F
            &&& p.landmark == CREATE_GATE_LANDMARK@ ==> p.name == "bypass_session_create_gate"@
                && p.offset == 13 && p.bytes.len() == 1 && p.bytes[0] == 0xEB
                && CREATE_GATE_LANDMARK@[39] == '7' && CREATE_GATE_LANDMARK@[40] == '5'
                && p.expect == 0x75
        }),
{
    landmarks_differ();
    reveal_strlit("48 83 EC 28 E8 ? ? ? ? 83 F8 02 0F 94 C0 48 83 C4 28 C3");
    reveal_strlit("0F B6 05 B1 26 73 03");
    reveal_strlit("E8 26 2B 00 00 90 48 8D 4C 24 30 84 C0 75 07");
}

/// A landmark that was found leads to the site at its distance: the patch is made there exactly if that is in
/// the image, past its first byte, and holds the expected byte.
pub proof fn a_fitting_site_is_patched(
    name: Seq<char>,
    start: u32,
    image: Seq<u8>,
    offset: int,
    expect: u8,
)
    requires
        image.len() <= u32::MAX,
    ensures
        (site_of(name, Scan::At(start), image, offset, expect) is Ok) == (0 < start + offset
            < image.len() && image[start + offset] == expect),
        site_of(name, Scan::At(start), image, offset, expect) is Ok ==> site_of(
            name,
            Scan::At(start),
            image,
            offset,
            expect,
        )->Ok_0 == start + offset,
        site_of(name, Scan::NoUniqueMatch, image, offset, expect) is Err,
        site_of(name, Scan::NotAnImage, image, offset, expect) is Err,
{
}

/// What a scan tells is a place if and only if the landmark was found once.
pub proof fn a_scan_tells_the_place(found: Option<u32>)
    ensures
        found matches Some(at) ==> scan_of(found) == Scan::At(at),
        found is None ==> scan_of(found) == Scan::NoUniqueMatch,
{
}

/// Blanking writes as many blanks as bytes are to go.
pub proof fn blanks_are_blank(count: nat, i: int)
    requires
        0 <= i < count,
    ensures
        nops(count).len() == count,
        nops(count)[i] == 0x90,
{
}

/// A landmark of bytes and blanks alone can always be followed.
pub proof fn plain_landmarks_can_be_followed(landmark: Seq<char>, n: nat)
    requires
        n <= landmark.len(),
        forall|i: int|
            0 <= i < landmark.len() ==> (#[trigger] landmark[i]) == ' ' || landmark[i] == '?' || '0'
                <= landmark[i] <= '9' || 'A' <= landmark[i] <= 'F',
    ensures
        read_of(landmark, n) == Some(Reading::start()),
        can_be_followed(landmark),
    decreases landmark.len() - n,
{
    plain_landmarks_read_as_nothing(landmark, n);
    plain_landmarks_read_as_nothing(landmark, landmark.len());
}

proof fn plain_landmarks_read_as_nothing(landmark: Seq<char>, n: nat)
    requires
        n <= landmark.len(),
        forall|i: int|
            0 <= i < landmark.len() ==> (#[trigger] landmark[i]) == ' ' || landmark[i] == '?' || '0'
                <= landmark[i] <= '9' || 'A' <= landmark[i] <= 'F',
    ensures
        read_of(landmark, n) == Some(Reading::start()),
    decreases n,
{
    if n > 0 {
        plain_landmarks_read_as_nothing(landmark, (n - 1) as nat);
        let c = landmark[n - 1];
        assert(c == ' ' || c == '?' || '0' <= c <= '9' || 'A' <= c <= 'F');
    }
}

/// A landmark that can be followed stays within the calls and the tries that following it may take, and never aligns
/// to more than an address can hold.
pub proof fn following_stays_in_bounds(r: Reading, c: char)
    requires
        r.calls() <= 255,
        r.tries <= 0x1_0000,
        read_on(r, c) is Some,
    ensures
        read_on(r, c)->0.calls() <= 255,
        read_on(r, c)->0.tries <= 0x1_0000,
        !r.quoted && r.range is None && r.aligning ==> !('W' <= c <= 'Z' || 'w' <= c <= 'z'),
{
}

/// Each opened group and each range counts against the bounds: a jump by one call, a choice by one, and a range
/// by as many tries as it is wide.
pub proof fn what_is_opened_is_counted(r: Reading, low: nat, high: nat)
    requires
        low < high,
    ensures
        read_on(Reading { quoted: false, range: None, aligning: false, ..r }, '{') matches Some(s)
            ==> s.depth == r.depth + 1 && s.calls() == r.calls() + 1,
        read_on(Reading { quoted: false, range: None, aligning: false, ..r }, '(') matches Some(s)
            ==> s.open == r.open.push(r.depth) && s.calls() == r.calls() + 1,
        r.range_ended(low, high).tries == r.tries * (high - low),
        r.range_ended(low, high).ranges == r.ranges + 1,
        r.range_ended(low, high).range is None,
        Reading::start().calls() == 0,
        Reading::start().tries == 1,
{
}

/// A word is read from its four bytes, the lowest first.
pub proof fn words_are_read_lowest_byte_first(image: Seq<u8>, at: int)
    requires
        0 <= at,
        at + 4 <= image.len(),
    ensures
        le32(image, at) <= u32::MAX,
        le32(image, at) % 0x100 == image[at],
        le32(image, at) / 0x100_0000 == image[at + 3],
        (le32(image, at) / 0x100) % 0x100 == image[at + 1],
        (le32(image, at) / 0x1_0000) % 0x100 == image[at + 2],
{
}

/// A site is what was wanted exactly if it names the same place, or says why there is none.
pub proof fn a_site_names_its_place(at: u32, wanted: u32, why: LogLineView, line: LogLine)
    ensures
        site_is(Site::At(at), Ok(wanted)) == (at == wanted),
        !site_is(Site::At(at), Err(why)),
        site_is(Site::Skip(line), Err(why)) == (line@ == why),
        !site_is(Site::Skip(line), Ok(wanted)),
{
}

/// A plan writes the wanted bytes at the wanted place, or says why it writes nothing.
pub proof fn a_plan_writes_what_is_wanted(
    at: u32,
    bytes: Vec<u8>,
    put: Seq<u8>,
    wanted: u32,
    why: LogLineView,
    line: LogLine,
)
    ensures
        plan_is(PatchPlan::Write { at, bytes }, Ok(wanted), put) == (at == wanted && bytes@ == put),
        !plan_is(PatchPlan::Write { at, bytes }, Err(why), put),
        plan_is(PatchPlan::Skip(line), Err(why), put) == (line@ == why),
        !plan_is(PatchPlan::Skip(line), Ok(wanted), put),
{
}

/// Bytes are told in two upper-case hexadecimal digits each, with a comma between them.
pub proof fn bytes_are_told_in_two_digits(bytes: Seq<u8>, b: u8)
    ensures
        byte_chars(b) == "0x"@ + zero_pad(upper_hex_digits(b as nat), 2),
        byte_list(Seq::empty()) == "["@ + Seq::empty() + "]"@,
        byte_list(seq![b]) == "["@ + zero_pad(upper_hex_digits(b as nat), 2) + "]"@,
        bytes.len() > 0 ==> exists|inner: Seq<char>|
            byte_list(bytes) == "["@ + inner + "]"@ && byte_list(bytes.push(b)) == "["@ + (
            #[trigger] (inner + ", "@) + zero_pad(upper_hex_digits(b as nat), 2)) + "]"@,
{
    let pairs = |list: Seq<u8>|
        Seq::new(list.len(), |i: int| zero_pad(upper_hex_digits(list[i] as nat), 2));
    assert(pairs(Seq::empty()) =~= Seq::empty());
    assert(pairs(seq![b]) =~= seq![zero_pad(upper_hex_digits(b as nat), 2)]);
    if bytes.len() > 0 {
        let last = zero_pad(upper_hex_digits(b as nat), 2);
        assert(pairs(bytes.push(b)) =~= pairs(bytes).push(last));
        text::separators_stand_between_the_parts(pairs(bytes), last, ", "@);
        let inner = joined(pairs(bytes), ", "@);
        assert(byte_list(bytes) == "["@ + inner + "]"@);
        assert(byte_list(bytes.push(b)) == "["@ + ((inner + ", "@) + last) + "]"@);
    }
}

/// A patch that is left out is warned of, and one that could not be written is an error, each under its name.
pub proof fn what_goes_wrong_is_told_by_name(name: Seq<char>, why: Seq<char>)
    ensures
        warning(name, why).level == Level::Warn,
        warning(name, why).text == "patch '"@ + name + "': "@ + why,
        write_failure(name, why).level == Level::Error,
        write_failure(name, why).text == "patch '"@ + name + "' write failed: "@ + why,
{
}

/// A range is read digit by digit, a dash goes on to its upper end, and a bracket closes it: a skip where there is no
/// upper end, and otherwise a range that must not be empty.
pub proof fn a_range_is_read_to_its_end(r: Reading, low: nat, high: nat, c: char)
    requires
        '0' <= c <= '9',
        low < MAX_RANGE,
        high < MAX_RANGE,
    ensures
        r.read_in_range(RangeRead { low, high: None }, '-') matches Some(s) && s.range == Some(
            RangeRead { low, high: Some(0) },
        ),
        r.read_in_range(RangeRead { low, high: None }, ']') matches Some(s) && s.range is None
            && s.tries == r.tries && s.ranges == r.ranges,
        low >= high ==> r.read_in_range(RangeRead { low, high: Some(high) }, ']') is None,
        low < high && r.read_in_range(RangeRead { low, high: Some(high) }, ']') is Some
            ==> r.read_in_range(RangeRead { low, high: Some(high) }, ']')->0 == r.range_ended(
            low,
            high,
        ),
        low * 10 + (c as nat - 48) < 16384 ==> (r.read_in_range(
            RangeRead { low, high: None },
            c,
        ) matches Some(s) && s.range == Some(
            RangeRead { low: (low * 10 + (c as nat - 48)) as nat, high: None },
        )),
        high * 10 + (c as nat - 48) < 16384 ==> (r.read_in_range(
            RangeRead { low, high: Some(high) },
            c,
        ) matches Some(s) && s.range == Some(
            RangeRead { low, high: Some((high * 10 + (c as nat - 48)) as nat) },
        )),
        low * 10 + (c as nat - 48) >= 16384 ==> r.read_in_range(RangeRead { low, high: None }, c)
            is None,
        r.read_in_range(RangeRead { low, high: None }, 'x') is None,
        r.read_in_range(RangeRead { low, high: Some(high) }, '-') is None,
{
}

/// Text in quotes is passed over, and what is opened is closed again.
pub proof fn quotes_and_groups_close(r: Reading, c: char)
    requires
        !r.quoted,
        r.range is None,
        !r.aligning,
    ensures
        read_on(r, '"') == Some(Reading { quoted: true, ..r }),
        read_on(Reading { quoted: true, ..r }, '"') == Some(r),
        c != '"' ==> read_on(Reading { quoted: true, ..r }, c) == Some(Reading { quoted: true, ..r }),
        read_on(r, '@') == Some(Reading { aligning: true, ..r }),
        read_on(Reading { aligning: true, ..r }, '4') == Some(r),
        read_on(r, '[') == Some(Reading { range: Some(RangeRead { low: 0, high: None }), ..r }),
        r.depth > 0 ==> read_on(r, '}') == Some(Reading { depth: (r.depth - 1) as nat, ..r }),
        r.depth == 0 ==> read_on(r, '}') == Some(r),
        read_on(r, ' ') == Some(r),
        read_on(r, '?') == Some(r),
{
}

/// An alternative that ends deeper than it began is gone back on: that doubles the tries; one that ends as deep does
/// not.
pub proof fn an_open_alternative_doubles_the_tries(r: Reading)
    requires
        r.open.len() > 0,
    ensures
        r.alternative_ended().depth == r.open.last(),
        r.depth > r.open.last() ==> r.alternative_ended().tries == 2 * r.tries
            && r.alternative_ended().unfinished == r.unfinished + (r.depth - r.open.last()) + 1,
        r.depth <= r.open.last() ==> r.alternative_ended().tries == r.tries
            && r.alternative_ended().unfinished == r.unfinished,
        r.alternative_ended().open == r.open,
        r.alternative_ended().ranges == r.ranges,
{
}

/// An image is scanned exactly if it is not too large, its code starts inside it and the landmark can be followed.
pub proof fn what_is_scanned(image: Seq<u8>, landmark: Seq<char>)
    ensures
        scannable(image, landmark) ==> image.len() <= 0xffff_ffff && code_starts_inside(image)
            && can_be_followed(landmark),
        image.len() <= 0xffff_ffff && code_starts_inside(image) && can_be_followed(landmark)
            ==> scannable(image, landmark),
{
}

/// Code starts inside an image exactly if its header, the place of its code and the end of it can be told from it.
pub proof fn where_code_starts(image: Seq<u8>)
    ensures
        image.len() < 0x40 ==> !code_starts_inside(image),
        image.len() >= 0x40 ==> ({
            let header = le32(image, 0x3C) as int;
            let start = le32(image, header + 44);
            let size = le32(image, header + 28);
            code_starts_inside(image) == (header + 48 <= image.len() && start <= image.len() && start
                + size <= u32::MAX)
        }),
{
}

/// Following a landmark takes a call for each open group and each open alternative, two for each range, and those of
/// what was left unfinished.
pub proof fn calls_add_up(r: Reading)
    ensures
        r.calls() == r.depth + r.open.len() + r.ranges + r.ranges + r.unfinished,
        r.bounded() is Some == (r.calls() <= 255 && r.tries <= 0x1_0000),
        r.bounded() matches Some(s) ==> s == r,
{
}

/// Why a patch is left out is told: no unique landmark, a site out of range or outside the image, or another byte than
/// the one expected.
pub proof fn why_a_patch_is_left_out_is_told(
    name: Seq<char>,
    start: u32,
    image: Seq<u8>,
    offset: int,
    expect: u8,
)
    ensures
        site_of(name, Scan::NoUniqueMatch, image, offset, expect) == Err::<u32, LogLineView>(
            warning(name, "landmark not found or not unique; feature disabled this session"@),
        ),
        start + offset < 0 || start + offset > u32::MAX ==> site_of(
            name,
            Scan::At(start),
            image,
            offset,
            expect,
        ) == Err::<u32, LogLineView>(
            warning(
                name,
                "patch site (match 0x"@ + upper_hex_digits(start as nat) + " "@ + plus_minus_dec(
                    offset,
                ) + ") out of range; skipping"@,
            ),
        ),
        0 < start + offset < image.len() && start + offset <= u32::MAX && image[start + offset]
            != expect ==> site_of(name, Scan::At(start), image, offset, expect) == Err::<
            u32,
            LogLineView,
        >(
            warning(
                name,
                "site byte "@ + byte_chars(image[start + offset]) + " != expected "@ + byte_chars(
                    expect,
                ) + " (AOB drift?); skipping"@,
            ),
        ),
        0 < start + offset <= u32::MAX && start + offset >= image.len() ==> site_of(
            name,
            Scan::At(start),
            image,
            offset,
            expect,
        ) == Err::<u32, LogLineView>(
            warning(
                name,
                "patch site RVA 0x"@ + upper_hex_digits((start + offset) as nat)
                    + " not in the loaded image; skipping"@,
            ),
        ),
{
}

} // verus!
