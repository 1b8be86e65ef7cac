//! What is logged when the process dies of an unhandled exception, and the watch over the handler that
//! logs it.

use vstd::prelude::*;

use crate::levels::{lines_view, push_line, Level, LogLine, LogLineView};
use crate::text;
use crate::text::{dec, hex_digits, zero_pad};

verus! {

/// Stands for "nobody displaced the handler"; no real handler has this address.
pub const NO_DISPLACER: u64 = 0xffff_ffff_ffff_ffff;

/// How many words of the stack are looked through.
pub const SCAN_WORDS: usize = 256;

/// How many return addresses are logged at most.
pub const MAX_FRAMES: usize = 24;

pub const ACCESS_VIOLATION: u32 = 0xC000_0005;

pub const END_LINE: &'static str = "crashdump: ==== end ==== (symbolicate our frames: addr2line on a --diag build at ImageBase+offset; see the /windows-test skill)";

pub const CLEARED_LINE: &'static str = "crashdump: unhandled-exception filter had been CLEARED (top-level filter was null) — re-asserted ours";

/// The module that owns an address: its file path and where it is loaded.
#[derive(Debug)]
pub struct Owner {
    pub path: String,
    pub base: u64,
}

/// The part of a path after its last separator.
pub open spec fn file_name(path: Seq<char>) -> Seq<char>
    decreases path.len(),
{
    if path.len() == 0 {
        path
    } else if path.last() == '\\' || path.last() == '/' {
        Seq::empty()
    } else {
        file_name(path.drop_last()).push(path.last())
    }
}

/// An address as sixteen hexadecimal digits.
pub open spec fn full_hex(n: u64) -> Seq<char> {
    "0x"@ + zero_pad(hex_digits(n as nat), 16)
}

/// The distance of an address from a base, as a machine word.
pub open spec fn word_distance(addr: u64, base: u64) -> u64 {
    if addr >= base {
        (addr - base) as u64
    } else {
        (addr + 0x1_0000_0000_0000_0000 - base) as u64
    }
}

/// An address as the module that owns it and the offset into it.
pub open spec fn module_chars(addr: u64, owner: Option<Owner>) -> Seq<char> {
    if addr == 0 {
        "0x0 (null)"@
    } else {
        match owner {
            None => full_hex(addr) + " (no owning module)"@,
            Some(o) => file_name(o.path@) + "+0x"@ + hex_digits(
                word_distance(addr, o.base) as nat,
            ),
        }
    }
}

/// The name of an exception code.
pub open spec fn code_chars(code: u32) -> Seq<char> {
    if code == 0xC000_0005 {
        "ACCESS_VIOLATION"@
    } else if code == 0xC000_001D {
        "ILLEGAL_INSTRUCTION"@
    } else if code == 0xC000_0025 {
        "NONCONTINUABLE_EXCEPTION"@
    } else if code == 0xC000_008C {
        "ARRAY_BOUNDS_EXCEEDED"@
    } else if code == 0xC000_0094 {
        "INT_DIVIDE_BY_ZERO"@
    } else if code == 0xC000_00FD {
        "STACK_OVERFLOW"@
    } else if code == 0x8000_0003 {
        "BREAKPOINT"@
    } else if code == 0xC000_0096 {
        "PRIV_INSTRUCTION"@
    } else {
        "UNKNOWN"@
    }
}

/// The name of an exception code.
pub fn code_name(code: u32) -> (name: &'static str)
    ensures
        name@ == code_chars(code),
{
    if code == 0xC000_0005 {
        "ACCESS_VIOLATION"
    } else if code == 0xC000_001D {
        "ILLEGAL_INSTRUCTION"
    } else if code == 0xC000_0025 {
        "NONCONTINUABLE_EXCEPTION"
    } else if code == 0xC000_008C {
        "ARRAY_BOUNDS_EXCEEDED"
    } else if code == 0xC000_0094 {
        "INT_DIVIDE_BY_ZERO"
    } else if code == 0xC000_00FD {
        "STACK_OVERFLOW"
    } else if code == 0x8000_0003 {
        "BREAKPOINT"
    } else if code == 0xC000_0096 {
        "PRIV_INSTRUCTION"
    } else {
        "UNKNOWN"
    }
}

fn file_name_text(path: &str) -> (name: String)
    ensures
        name@ == file_name(path@),
{
    let chars = text::char_list(path);
    let mut start: usize = chars.len();
    let ghost whole = path@;
    assert(whole.take(start as int) =~= whole);
    assert(whole.skip(start as int) =~= Seq::empty());
    assert(file_name(whole) =~= file_name(whole.take(start as int)) + whole.skip(start as int));
    while start > 0 && chars[start - 1] != '\\' && chars[start - 1] != '/'
        invariant
            chars@ == whole,
            start <= whole.len(),
            file_name(whole) == file_name(whole.take(start as int)) + whole.skip(start as int),
        decreases start,
    {
        proof {
            let upto = whole.take(start as int);
            assert(upto.last() == whole[start - 1]);
            assert(upto.drop_last() =~= whole.take(start - 1));
            assert(whole.skip(start - 1) =~= seq![whole[start - 1]] + whole.skip(start as int));
            assert(file_name(upto) =~= file_name(whole.take(start - 1)).push(whole[start - 1]));
            assert(file_name(upto) + whole.skip(start as int) =~= file_name(whole.take(start - 1))
                + whole.skip(start - 1));
        }
        start = start - 1;
    }
    proof {
        let upto = whole.take(start as int);
        if start > 0 {
            assert(upto.last() == whole[start - 1]);
        }
        assert(file_name(upto) =~= Seq::empty());
        assert(file_name(whole) =~= whole.skip(start as int));
    }
    let mut tail: Vec<char> = Vec::new();
    let mut i: usize = start;
    while i < chars.len()
        invariant
            start <= i <= chars@.len(),
            chars@ == whole,
            tail@ == whole.subrange(start as int, i as int),
        decreases chars@.len() - i,
    {
        tail.push(chars[i]);
        i = i + 1;
        assert(tail@ =~= whole.subrange(start as int, i as int));
    }
    assert(tail@ =~= whole.skip(start as int));
    text::from_chars(&tail)
}

fn full_hex_text(n: u64) -> (out: String)
    ensures
        out@ == full_hex(n),
{
    let mut out = "0x".to_owned();
    out.append(text::hex_padded(n, 16).as_str());
    out
}

/// An address as the module that owns it and the offset into it.
pub fn module_at(addr: u64, owner: &Option<Owner>) -> (out: String)
    ensures
        out@ == module_chars(addr, *owner),
{
    if addr == 0 {
        return "0x0 (null)".to_owned();
    }
    match owner {
        None => {
            let mut out = full_hex_text(addr);
            out.append(" (no owning module)");
            out
        },
        Some(o) => {
            let mut out = file_name_text(o.path.as_str());
            out.append("+0x");
            let offset: u64 = addr.wrapping_sub(o.base);
            out.append(text::hex_text(offset).as_str());
            out
        },
    }
}

/// The watch over the exception handler: which handler was found in its place.
#[derive(Clone, Copy, Debug, PartialEq, Eq, Structural)]
pub struct FilterWatch {
    /// The handler that was in place of ours at the last look.
    pub last_displacer: u64,
}

impl FilterWatch {
    /// Nobody displaced the handler so far.
    pub fn new() -> (watch: FilterWatch)
        ensures
            watch.last_displacer == NO_DISPLACER,
    {
        FilterWatch { last_displacer: NO_DISPLACER }
    }

    /// Whether a handler found at `prev` opens a new episode of displacement.
    pub open spec fn is_news(self, prev: u64, ours: u64) -> bool {
        prev != ours && prev != self.last_displacer
    }

    /// After ours was put back and `prev` was found in its place: one warning for each episode of
    /// displacement by one handler, none while the handler was in place.
    pub fn reassert(&mut self, prev: u64, ours: u64, owner: &Option<Owner>) -> (line: Option<
        LogLine,
    >)
        ensures
            final(self).last_displacer == (if prev == ours {
                NO_DISPLACER
            } else {
                prev
            }),
            line is Some == old(self).is_news(prev, ours),
            line is Some ==> line->0@ == (LogLineView {
                level: Level::Warn,
                text: if prev == 0 {
                    CLEARED_LINE@
                } else {
                    "crashdump: unhandled-exception filter had been DISPLACED by "@ + module_chars(
                        prev,
                        *owner,
                    )
                        + " — re-asserted ours (a crash while displaced logs nothing here; check WER)"@
                },
            }),
            prev == ours ==> line is None,
    {
        if prev == ours {
            self.last_displacer = NO_DISPLACER;
            return None;
        }
        let last: u64 = self.last_displacer;
        self.last_displacer = prev;
        if last == prev {
            return None;
        }
        if prev == 0 {
            return Some(LogLine { level: Level::Warn, text: CLEARED_LINE.to_owned() });
        }
        let mut out = "crashdump: unhandled-exception filter had been DISPLACED by ".to_owned();
        out.append(module_at(prev, owner).as_str());
        out.append(" — re-asserted ours (a crash while displaced logs nothing here; check WER)");
        Some(LogLine { level: Level::Warn, text: out })
    }
}

/// The registers at the crash.
#[derive(Debug)]
pub struct CrashContext {
    pub rip: u64,
    pub rip_owner: Option<Owner>,
    pub rsp: u64,
    pub rbp: u64,
    /// The base of the process image; zero if it could not be had.
    pub base: u64,
    /// The words on the stack from the stack pointer up.
    pub stack: Vec<u64>,
}

impl CrashContext {
    /// The addresses that a scan of the stack computes with fit a machine word. Without the base of the
    /// image nothing is scanned.
    pub open spec fn scan_fits(self) -> bool {
        self.base != 0 ==> self.base + 0x0700_0000 <= u64::MAX && self.rsp + (SCAN_WORDS - 1) * 8
            <= u64::MAX
    }
}

/// What the system handed over about the crash.
#[derive(Debug)]
pub enum CrashInfo {
    /// Nothing at all.
    NoPointers,
    /// No exception record.
    NoRecord,
    /// The exception record, and the registers if they are known.
    Record(CrashRecord),
}

/// An exception record.
#[derive(Debug)]
pub struct CrashRecord {
    pub code: u32,
    pub fault: u64,
    pub fault_owner: Option<Owner>,
    /// How many of the parameters are set.
    pub parameters: u32,
    /// What an access violation tried to do.
    pub operation: u64,
    /// The address it tried to do it at.
    pub target: u64,
    pub context: Option<CrashContext>,
}

/// Whether a stack word looks like a return address into the image.
pub open spec fn in_code(base: u64, word: u64) -> bool {
    base + 0x1000 <= word && word < base + 0x0700_0000
}

/// The positions of the first `n` stack words that look like return addresses.
pub open spec fn frames(stack: Seq<u64>, base: u64, n: nat) -> Seq<int>
    decreases n,
{
    if n == 0 {
        Seq::empty()
    } else {
        let before = frames(stack, base, (n - 1) as nat);
        if in_code(base, stack[n - 1]) {
            before.push(n - 1)
        } else {
            before
        }
    }
}

/// How many stack words are looked through.
pub open spec fn scanned(stack: Seq<u64>) -> nat {
    if stack.len() < SCAN_WORDS {
        stack.len()
    } else {
        SCAN_WORDS as nat
    }
}

/// The positions of the return addresses that are logged.
pub open spec fn logged_frames(stack: Seq<u64>, base: u64) -> Seq<int> {
    let all = frames(stack, base, scanned(stack));
    if all.len() <= MAX_FRAMES {
        all
    } else {
        all.take(MAX_FRAMES as int)
    }
}

/// A line at `error`.
pub open spec fn error(text: Seq<char>) -> LogLineView {
    LogLineView { level: Level::Error, text }
}

/// The line for the frame that is logged as number `k`, found at stack position `at`.
pub open spec fn frame_line(k: int, at: int, context: CrashContext) -> LogLineView {
    error(
        "crashdump:   bt["@ + dec(k as nat) + "] eldenring.exe+0x"@ + hex_digits(
            (context.stack@[at] - context.base) as nat,
        ) + "  (stack "@ + full_hex((context.rsp + at * 8) as u64) + ")"@,
    )
}

/// The lines on the stack: the return addresses found, or that there are none. Without an image base
/// nothing can be told.
pub open spec fn stack_lines(context: CrashContext) -> Seq<LogLineView> {
    let found = logged_frames(context.stack@, context.base);
    if context.base == 0 {
        Seq::empty()
    } else if found.len() == 0 {
        Seq::empty().push(
            error("crashdump:   bt: no in-image return addresses found in the scanned window"@),
        )
    } else {
        Seq::new(found.len(), |k: int| frame_line(k, found[k], context))
    }
}

/// The line on the registers.
pub open spec fn register_line(c: CrashContext) -> LogLineView {
    error(
        "crashdump:   regs: rip="@ + full_hex(c.rip) + " ("@ + module_chars(c.rip, c.rip_owner)
            + ") rsp="@ + full_hex(c.rsp) + " rbp="@ + full_hex(c.rbp),
    )
}

/// What an access violation tried to do, if it is one of the known operations.
pub open spec fn operation_chars(op: u64) -> Option<Seq<char>> {
    if op == 0 {
        Some("read"@)
    } else if op == 1 {
        Some("write"@)
    } else if op == 8 {
        Some("execute (DEP)"@)
    } else {
        None
    }
}

impl CrashRecord {
    /// The head line.
    pub open spec fn head(self) -> LogLineView {
        error(
            "crashdump: ==== UNHANDLED EXCEPTION ==== code=0x"@ + zero_pad(
                hex_digits(self.code as nat),
                8,
            ) + " ("@ + code_chars(self.code) + ") at "@ + module_chars(
                self.fault,
                self.fault_owner,
            ) + " [raw "@ + full_hex(self.fault) + "]"@,
        )
    }

    /// Whether the record says what an access violation tried to do.
    pub open spec fn tells_operation(self) -> bool {
        self.code == ACCESS_VIOLATION && self.parameters >= 2
    }

    /// The line on the attempted access.
    pub open spec fn access(self) -> LogLineView {
        match operation_chars(self.operation) {
            Some(op) => error(
                "crashdump:   access violation: tried to "@ + op + " "@ + full_hex(self.target),
            ),
            None => error(
                "crashdump:   access violation (op code "@ + dec(self.operation as nat) + ")"@,
            ),
        }
    }

    /// The lines up to the registers.
    pub open spec fn opening(self) -> Seq<LogLineView> {
        if self.tells_operation() {
            Seq::empty().push(self.head()).push(self.access())
        } else {
            Seq::empty().push(self.head())
        }
    }

    /// Every line. An unknown operation ends the report.
    pub open spec fn lines(self) -> Seq<LogLineView> {
        if self.tells_operation() && operation_chars(self.operation) is None {
            self.opening()
        } else {
            match self.context {
                Some(c) => (self.opening().push(register_line(c)) + stack_lines(c)).push(
                    error(END_LINE@),
                ),
                None => self.opening().push(error(END_LINE@)),
            }
        }
    }

    /// The addresses that the report computes with fit a machine word.
    pub open spec fn addresses_fit(self) -> bool {
        self.context matches Some(c) ==> c.scan_fits()
    }
}

fn log_stack_backtrace(context: &CrashContext, lines: &mut Vec<LogLine>)
    requires
        context.scan_fits(),
    ensures
        lines_view(final(lines)@) == lines_view(old(lines)@) + stack_lines(*context),
{
    let base: u64 = context.base;
    if base == 0 {
        assert(lines_view(lines@) =~= lines_view(old(lines)@) + stack_lines(*context));
        return;
    }
    let ghost start = lines_view(lines@);
    let ghost stack = context.stack@;
    let n: usize = if context.stack.len() < SCAN_WORDS {
        context.stack.len()
    } else {
        SCAN_WORDS
    };
    let lo: u64 = base + 0x1000;
    let hi: u64 = base + 0x0700_0000;
    let mut printed: usize = 0;
    let mut i: usize = 0;
    assert(lines_view(lines@) =~= start + Seq::new(
        0,
        |k: int| frame_line(k, frames(stack, base, 0)[k], *context),
    ));
    while i < n && printed < MAX_FRAMES
        invariant
            context.base == base,
            context.stack@ == stack,
            context.base + 0x0700_0000 <= u64::MAX,
            context.rsp + (SCAN_WORDS - 1) * 8 <= u64::MAX,
            n <= SCAN_WORDS,
            lo == base + 0x1000,
            hi == base + 0x0700_0000,
            n as nat == scanned(stack),
            i <= n,
            printed <= MAX_FRAMES,
            printed == frames(stack, base, i as nat).len(),
            lines_view(lines@) == start + Seq::new(
                printed as nat,
                |k: int| frame_line(k, frames(stack, base, i as nat)[k], *context),
            ),
        decreases n - i,
    {
        let word: u64 = context.stack[i];
        let ghost before = frames(stack, base, i as nat);
        if word >= lo && word < hi {
            let mut out = "crashdump:   bt[".to_owned();
            out.append(text::dec_text(printed as u64).as_str());
            out.append("] eldenring.exe+0x");
            out.append(text::hex_text(word - base).as_str());
            out.append("  (stack ");
            out.append(full_hex_text(context.rsp + (i as u64) * 8).as_str());
            out.append(")");
            push_line(lines, Level::Error, out);
            printed = printed + 1;
        }
        i = i + 1;
        assert(lines_view(lines@) =~= start + Seq::new(
            printed as nat,
            |k: int| frame_line(k, frames(stack, base, i as nat)[k], *context),
        ));
    }
    proof {
        frames_grow(stack, base, i as nat, n as nat);
        let all = frames(stack, base, n as nat);
        let upto = frames(stack, base, i as nat);
        assert(logged_frames(stack, base) =~= upto);
    }
    if printed == 0 {
        push_line(
            lines,
            Level::Error,
            "crashdump:   bt: no in-image return addresses found in the scanned window".to_owned(),
        );
        assert(lines_view(lines@) =~= start + stack_lines(*context));
    } else {
        assert(lines_view(lines@) =~= start + stack_lines(*context));
    }
}

/// Looking further only adds frames behind those already found.
proof fn frames_grow(stack: Seq<u64>, base: u64, m: nat, n: nat)
    requires
        m <= n,
    ensures
        frames(stack, base, m).len() <= frames(stack, base, n).len(),
        frames(stack, base, n).take(frames(stack, base, m).len() as int) =~= frames(stack, base, m),
    decreases n,
{
    if m < n {
        frames_grow(stack, base, m, (n - 1) as nat);
        let before = frames(stack, base, (n - 1) as nat);
        let all = frames(stack, base, n);
        let k = frames(stack, base, m).len() as int;
        assert(all.take(k) =~= before.take(k));
    }
}

/// The lines logged for a crash, in order.
pub fn handler(info: &CrashInfo) -> (lines: Vec<LogLine>)
    requires
        info matches CrashInfo::Record(r) ==> r.addresses_fit(),
    ensures
        lines_view(lines@) == (match *info {
            CrashInfo::NoPointers => Seq::empty().push(
                error("crashdump: unhandled exception (no EXCEPTION_POINTERS)"@),
            ),
            CrashInfo::NoRecord => Seq::empty().push(
                error("crashdump: unhandled exception (no EXCEPTION_RECORD)"@),
            ),
            CrashInfo::Record(r) => r.lines(),
        }),
{
    let mut lines: Vec<LogLine> = Vec::new();
    assert(lines_view(lines@) =~= Seq::empty());
    match info {
        CrashInfo::NoPointers => push_line(
            &mut lines,
            Level::Error,
            "crashdump: unhandled exception (no EXCEPTION_POINTERS)".to_owned(),
        ),
        CrashInfo::NoRecord => push_line(
            &mut lines,
            Level::Error,
            "crashdump: unhandled exception (no EXCEPTION_RECORD)".to_owned(),
        ),
        CrashInfo::Record(r) => record_lines(r, &mut lines),
    }
    lines
}

fn record_lines(r: &CrashRecord, lines: &mut Vec<LogLine>)
    requires
        r.addresses_fit(),
        lines_view(old(lines)@) == Seq::<LogLineView>::empty(),
    ensures
        lines_view(final(lines)@) == r.lines(),
{
    let mut head = "crashdump: ==== UNHANDLED EXCEPTION ==== code=0x".to_owned();
    head.append(text::hex_padded(r.code as u64, 8).as_str());
    head.append(" (");
    head.append(code_name(r.code));
    head.append(") at ");
    head.append(module_at(r.fault, &r.fault_owner).as_str());
    head.append(" [raw ");
    head.append(full_hex_text(r.fault).as_str());
    head.append("]");
    push_line(lines, Level::Error, head);
    if r.code == ACCESS_VIOLATION && r.parameters >= 2 {
        let op = if r.operation == 0 {
            "read"
        } else if r.operation == 1 {
            "write"
        } else if r.operation == 8 {
            "execute (DEP)"
        } else {
            let mut out = "crashdump:   access violation (op code ".to_owned();
            out.append(text::dec_text(r.operation).as_str());
            out.append(")");
            push_line(lines, Level::Error, out);
            return;
        };
        let mut out = "crashdump:   access violation: tried to ".to_owned();
        out.append(op);
        out.append(" ");
        out.append(full_hex_text(r.target).as_str());
        push_line(lines, Level::Error, out);
    }
    match &r.context {
        Some(c) => {
            let mut regs = "crashdump:   regs: rip=".to_owned();
            regs.append(full_hex_text(c.rip).as_str());
            regs.append(" (");
            regs.append(module_at(c.rip, &c.rip_owner).as_str());
            regs.append(") rsp=");
            regs.append(full_hex_text(c.rsp).as_str());
            regs.append(" rbp=");
            regs.append(full_hex_text(c.rbp).as_str());
            push_line(lines, Level::Error, regs);
            log_stack_backtrace(c, lines);
        },
        None => {},
    }
    push_line(lines, Level::Error, END_LINE.to_owned());
}

/// While one and the same handler keeps displacing ours, only the first look at it warns; once ours
/// was found in place, the next displacement warns again.
pub proof fn one_warning_per_episode(watch: FilterWatch, prev: u64, ours: u64)
    requires
        prev != ours,
        prev != NO_DISPLACER,
    ensures
        !(FilterWatch { last_displacer: prev }).is_news(prev, ours),
        (FilterWatch { last_displacer: NO_DISPLACER }).is_news(prev, ours),
{
}

/// A file's name is what stands behind the last separator of its path, and the whole path where there is none.
pub proof fn the_file_name_is_the_last_part(dir: Seq<char>, sep: char, name: Seq<char>)
    requires
        sep == '\\' || sep == '/',
        forall|i: int| 0 <= i < name.len() ==> (#[trigger] name[i]) != '\\' && name[i] != '/',
    ensures
        file_name(dir.push(sep) + name) == name,
        file_name(name) == name,
    decreases name.len(),
{
    if name.len() == 0 {
        assert(dir.push(sep) + name =~= dir.push(sep));
    } else {
        let rest = name.drop_last();
        assert forall|i: int| 0 <= i < rest.len() implies (#[trigger] rest[i]) != '\\' && rest[i]
            != '/' by {
            assert(rest[i] == name[i]);
        }
        the_file_name_is_the_last_part(dir, sep, rest);
        assert((dir.push(sep) + name).drop_last() =~= dir.push(sep) + rest);
        assert((dir.push(sep) + name).last() == name.last());
        assert(name[name.len() - 1] == name.last());
        assert(rest.push(name.last()) =~= name);
    }
}

/// An address lies as far behind the base of its module as its offset says, around the end of memory where it lies
/// before it.
pub proof fn an_offset_leads_back_to_the_address(addr: u64, base: u64)
    ensures
        addr >= base ==> base + word_distance(addr, base) == addr,
        addr < base ==> base + word_distance(addr, base) == addr + 0x1_0000_0000_0000_0000,
{
}

/// A word counts as a return address exactly if it points into the image's code, past its header.
pub proof fn return_addresses_point_into_the_code(base: u64, word: u64)
    ensures
        in_code(base, word) == (0x1000 <= word - base < 0x0700_0000),
{
}

/// Every word in the window that points into the code is a frame, once, in the order of the stack.
pub proof fn every_return_address_is_a_frame(stack: Seq<u64>, base: u64, n: nat)
    requires
        n <= stack.len(),
    ensures
        forall|i: int|
            0 <= i < n && in_code(base, #[trigger] stack[i]) ==> frames(stack, base, n).contains(i),
        forall|k: int|
            0 <= k < frames(stack, base, n).len() ==> 0 <= (#[trigger] frames(stack, base, n)[k])
                < n && in_code(base, stack[frames(stack, base, n)[k]]),
        forall|j: int, k: int|
            0 <= j < k < frames(stack, base, n).len() ==> frames(stack, base, n)[j] < frames(
                stack,
                base,
                n,
            )[k],
    decreases n,
{
    if n > 0 {
        every_return_address_is_a_frame(stack, base, (n - 1) as nat);
        let before = frames(stack, base, (n - 1) as nat);
        let now = frames(stack, base, n);
        assert forall|i: int|
            0 <= i < n && in_code(base, #[trigger] stack[i]) implies now.contains(i) by {
            if i < n - 1 {
                assert(before.contains(i));
                let j = choose|j: int| 0 <= j < before.len() && before[j] == i;
                assert(now[j] == i);
            } else {
                assert(now[before.len() as int] == i);
            }
        }
    }
}

/// The frames that are logged are the first ones, and all of them where they are no more than fit.
pub proof fn the_first_frames_are_logged(stack: Seq<u64>, base: u64, k: int)
    ensures
        scanned(stack) <= stack.len(),
        stack.len() <= 256 ==> scanned(stack) == stack.len(),
        stack.len() > 256 ==> scanned(stack) == 256,
        logged_frames(stack, base).len() <= 24,
        frames(stack, base, scanned(stack)).len() <= 24 ==> logged_frames(stack, base) == frames(
            stack,
            base,
            scanned(stack),
        ),
        frames(stack, base, scanned(stack)).len() > 24 ==> logged_frames(stack, base).len() == 24,
        0 <= k < logged_frames(stack, base).len() ==> logged_frames(stack, base)[k] == frames(
            stack,
            base,
            scanned(stack),
        )[k],
{
}

/// A displacement is news exactly if the filter is neither ours nor the one that was last told of.
pub proof fn a_new_displacer_is_news(watch: FilterWatch, prev: u64, ours: u64)
    ensures
        !watch.is_news(ours, ours),
        prev != ours && prev != watch.last_displacer ==> watch.is_news(prev, ours),
        !watch.is_news(watch.last_displacer, ours),
{
}

/// A crash is told with its exception first, what was accessed where that is known, then the registers and the
/// stack, and an end, unless the access is of no known kind.
pub proof fn a_crash_is_told_in_order(r: CrashRecord)
    ensures
        r.lines().len() >= 1,
        r.lines()[0] == r.head(),
        r.code == 0xC000_0005 && r.parameters >= 2 ==> r.lines().len() >= 2 && r.lines()[1]
            == r.access(),
        r.code != 0xC000_0005 || r.parameters < 2 || operation_chars(r.operation) is Some
            ==> r.lines().last().text == END_LINE@,
        r.code != 0xC000_0005 || r.parameters < 2 ==> (r.context matches Some(c) ==> r.lines()[1]
            == register_line(c) && r.lines().len() == 3 + stack_lines(c).len()),
        r.code == 0xC000_0005 && r.parameters >= 2 && operation_chars(r.operation) is Some ==> (
        r.context matches Some(c) ==> r.lines()[2] == register_line(c) && r.lines().len() == 4
            + stack_lines(c).len()),
        r.code != 0xC000_0005 || r.parameters < 2 ==> (r.context is None ==> r.lines().len() == 2),
{
}

/// Without an image nothing is told of the stack; with one, each logged frame has its line, or there is one line
/// that says there is none.
pub proof fn every_logged_frame_has_its_line(c: CrashContext, k: int)
    ensures
        c.base == 0 ==> stack_lines(c).len() == 0,
        c.base != 0 && logged_frames(c.stack@, c.base).len() > 0 ==> stack_lines(c).len()
            == logged_frames(c.stack@, c.base).len(),
        c.base != 0 && logged_frames(c.stack@, c.base).len() == 0 ==> stack_lines(c).len() == 1,
        c.base != 0 && 0 <= k < logged_frames(c.stack@, c.base).len() ==> stack_lines(c)[k]
            == frame_line(k, logged_frames(c.stack@, c.base)[k], c),
{
}

/// An access is told for what it was: reading, writing or executing.
pub proof fn accesses_are_told_apart(op: u64)
    ensures
        operation_chars(0) == Some("read"@),
        operation_chars(1) == Some("write"@),
        operation_chars(8) == Some("execute (DEP)"@),
        op != 0 && op != 1 && op != 8 ==> operation_chars(op) is None,
{
}

/// An address is told in full: by its module and its offset where it has one, and as nothing where it is null.
pub proof fn an_address_is_told_by_its_module(addr: u64, o: Owner)
    ensures
        full_hex(addr) == "0x"@ + zero_pad(hex_digits(addr as nat), 16),
        module_chars(0, Some(o)) == "0x0 (null)"@,
        module_chars(0, None) == "0x0 (null)"@,
        addr != 0 ==> module_chars(addr, None) == full_hex(addr) + " (no owning module)"@,
        addr != 0 ==> module_chars(addr, Some(o)) == file_name(o.path@) + "+0x"@ + hex_digits(
            word_distance(addr, o.base) as nat,
        ),
{
}

/// The exceptions that have a name go by it, and no other does.
pub proof fn exceptions_go_by_their_names(code: u32)
    ensures
        code_chars(0xC000_0005) == "ACCESS_VIOLATION"@,
        code_chars(0xC000_001D) == "ILLEGAL_INSTRUCTION"@,
        code_chars(0xC000_0025) == "NONCONTINUABLE_EXCEPTION"@,
        code_chars(0xC000_008C) == "ARRAY_BOUNDS_EXCEEDED"@,
        code_chars(0xC000_0094) == "INT_DIVIDE_BY_ZERO"@,
        code_chars(0xC000_00FD) == "STACK_OVERFLOW"@,
        code_chars(0x8000_0003) == "BREAKPOINT"@,
        code_chars(0xC000_0096) == "PRIV_INSTRUCTION"@,
        code != 0xC000_0005 && code != 0xC000_001D && code != 0xC000_0025 && code != 0xC000_008C
            && code != 0xC000_0094 && code != 0xC000_00FD && code != 0x8000_0003 && code
            != 0xC000_0096 ==> code_chars(code) == "UNKNOWN"@,
{
}

/// A frame is told with its offset in the image and its place on the stack, eight bytes for each word.
pub proof fn a_frame_tells_its_offset(k: int, at: int, c: CrashContext)
    ensures
        frame_line(k, at, c).text == "crashdump:   bt["@ + dec(k as nat) + "] eldenring.exe+0x"@
            + hex_digits((c.stack@[at] - c.base) as nat) + "  (stack "@ + full_hex(
            (c.rsp + 8 * at) as u64,
        ) + ")"@,
        frame_line(k, at, c).level == Level::Error,
        register_line(c).text == "crashdump:   regs: rip="@ + full_hex(c.rip) + " ("@
            + module_chars(c.rip, c.rip_owner) + ") rsp="@ + full_hex(c.rsp) + " rbp="@
            + full_hex(c.rbp),
{
}

/// The first line tells the exception and where it came from; what was accessed is told with the address.
pub proof fn the_head_tells_the_exception(r: CrashRecord)
    ensures
        r.head().text == "crashdump: ==== UNHANDLED EXCEPTION ==== code=0x"@ + zero_pad(
            hex_digits(r.code as nat),
            8,
        ) + " ("@ + code_chars(r.code) + ") at "@ + module_chars(r.fault, r.fault_owner)
            + " [raw "@ + full_hex(r.fault) + "]"@,
        operation_chars(r.operation) matches Some(op) ==> r.access().text
            == "crashdump:   access violation: tried to "@ + op + " "@ + full_hex(r.target),
        operation_chars(r.operation) is None ==> r.access().text
            == "crashdump:   access violation (op code "@ + dec(r.operation as nat) + ")"@,
        r.tells_operation() == (r.code == 0xC000_0005 && r.parameters >= 2),
{
}

} // verus!
