//! Plain text building: decimal and hexadecimal numbers, joined lists, and the few string tests the
//! rest of the library needs. Every function states the exact characters it produces, so the log
//! lines, notices and report rows built on top of it can be stated exactly too.

use vstd::prelude::*;

verus! {

/// `String::push` appends the character to the end of the string.
pub assume_specification[ String::push ](s: &mut String, c: char)
    ensures
        final(s)@ == old(s)@.push(c),
;

/// The lower-case digit character of `d` in a base up to sixteen.
pub open spec fn digit_char(d: nat) -> char {
    if d < 10 {
        (d + 48) as char
    } else {
        (d + 87) as char
    }
}

/// `n` written in `base`, most significant digit first, with no leading zero (zero itself is `0`).
pub open spec fn digits(n: nat, base: nat) -> Seq<char>
    decreases n,
    when base >= 2
{
    if n < base {
        seq![digit_char(n)]
    } else {
        proof {
            assert(n / base < n) by (nonlinear_arith)
                requires
                    2 <= base,
                    n >= base,
            ;
        }
        digits(n / base, base).push(digit_char(n % base))
    }
}

/// `n` in decimal.
pub open spec fn dec(n: nat) -> Seq<char> {
    digits(n, 10)
}

/// `n` in lower-case hexadecimal.
pub open spec fn hex_digits(n: nat) -> Seq<char> {
    digits(n, 16)
}

/// The upper-case form of a hexadecimal digit character.
pub open spec fn upper_digit(c: char) -> char {
    if 'a' <= c && c <= 'f' {
        (c as u32 - 32) as char
    } else {
        c
    }
}

/// `n` in upper-case hexadecimal.
pub open spec fn upper_hex_digits(n: nat) -> Seq<char> {
    Seq::new(hex_digits(n).len(), |i: int| upper_digit(hex_digits(n)[i]))
}

/// An integer in decimal with its sign always written.
pub open spec fn plus_minus_dec(n: int) -> Seq<char> {
    if n < 0 {
        seq!['-'] + dec((-n) as nat)
    } else {
        seq!['+'] + dec(n as nat)
    }
}

/// A possibly negative integer in decimal.
pub open spec fn signed_dec(n: int) -> Seq<char> {
    if n < 0 {
        seq!['-'] + dec((-n) as nat)
    } else {
        dec(n as nat)
    }
}

/// `text` with zeros in front until it is at least `width` characters long.
pub open spec fn zero_pad(text: Seq<char>, width: nat) -> Seq<char> {
    if text.len() >= width {
        text
    } else {
        Seq::new((width - text.len()) as nat, |i: int| '0') + text
    }
}

/// `true` or `false` as written in a report row.
pub open spec fn bool_chars(b: bool) -> Seq<char> {
    if b {
        "true"@
    } else {
        "false"@
    }
}

/// The pieces one after another with `sep` between neighbours.
pub open spec fn joined(parts: Seq<Seq<char>>, sep: Seq<char>) -> Seq<char>
    decreases parts.len(),
{
    if parts.len() == 0 {
        Seq::empty()
    } else if parts.len() == 1 {
        parts[0]
    } else {
        joined(parts.drop_last(), sep) + sep + parts.last()
    }
}

/// The character sequences of a list of strings.
pub open spec fn texts(parts: Seq<String>) -> Seq<Seq<char>> {
    Seq::new(parts.len(), |i: int| parts[i]@)
}

/// The ASCII lower case of one character; every other character is itself.
pub open spec fn ascii_lower(c: char) -> char {
    if 'A' <= c && c <= 'Z' {
        (c as u32 + 32) as char
    } else {
        c
    }
}

/// The ASCII lower case of a whole text.
pub open spec fn ascii_lower_all(s: Seq<char>) -> Seq<char> {
    Seq::new(s.len(), |i: int| ascii_lower(s[i]))
}

/// The characters with the Unicode `White_Space` property.
pub open spec fn is_space(c: char) -> bool {
    let n = c as u32;
    ||| 0x09 <= n <= 0x0D
    ||| n == 0x20
    ||| n == 0x85
    ||| n == 0xA0
    ||| n == 0x1680
    ||| 0x2000 <= n <= 0x200A
    ||| n == 0x2028
    ||| n == 0x2029
    ||| n == 0x202F
    ||| n == 0x205F
    ||| n == 0x3000
}

/// `s` without the white space at its start.
pub open spec fn trimmed_start(s: Seq<char>) -> Seq<char>
    decreases s.len(),
{
    if s.len() > 0 && is_space(s[0]) {
        trimmed_start(s.skip(1))
    } else {
        s
    }
}

/// `s` without the white space at its end.
pub open spec fn trimmed_end(s: Seq<char>) -> Seq<char>
    decreases s.len(),
{
    if s.len() > 0 && is_space(s.last()) {
        trimmed_end(s.drop_last())
    } else {
        s
    }
}

/// `s` without the white space at either end.
pub open spec fn trimmed(s: Seq<char>) -> Seq<char> {
    trimmed_end(trimmed_start(s))
}

/// Whether the character is a decimal digit.
pub open spec fn is_digit(c: char) -> bool {
    '0' <= c && c <= '9'
}

/// The number that decimal digits stand for, if they are digits.
pub open spec fn digits_value(s: Seq<char>) -> Option<nat>
    decreases s.len(),
{
    if s.len() == 0 {
        Some(0)
    } else if !is_digit(s.last()) {
        None
    } else {
        match digits_value(s.drop_last()) {
            Some(v) => Some(v * 10 + (s.last() as nat - 48) as nat),
            None => None,
        }
    }
}

/// The unsigned number a text stands for: decimal digits, at least one, with an optional plus sign in
/// front, and not too large to be held.
pub open spec fn unsigned_value(s: Seq<char>) -> Option<nat> {
    let body = if s.len() > 0 && s[0] == '+' {
        s.skip(1)
    } else {
        s
    };
    if body.len() == 0 {
        None
    } else {
        match digits_value(body) {
            Some(v) => if v <= u64::MAX {
                Some(v)
            } else {
                None
            },
            None => None,
        }
    }
}

/// The digit character of a value below sixteen.
fn digit(d: u64) -> (c: char)
    requires
        d < 16,
    ensures
        c == digit_char(d as nat),
{
    if d < 10 {
        (48u8 + d as u8) as char
    } else {
        (87u8 + d as u8) as char
    }
}

/// Appends `n` in `base` to `out`.
fn append_digits(out: &mut String, n: u64, base: u64)
    requires
        2 <= base <= 16,
    ensures
        final(out)@ == old(out)@ + digits(n as nat, base as nat),
    decreases n,
{
    if n < base {
        out.push(digit(n));
    } else {
        assert(n / base < n) by (nonlinear_arith)
            requires
                2 <= base,
                n >= base,
        ;
        append_digits(out, n / base, base);
        out.push(digit(n % base));
    }
    assert(out@ =~= old(out)@ + digits(n as nat, base as nat));
}

/// `n` in decimal.
pub fn dec_text(n: u64) -> (text: String)
    ensures
        text@ == dec(n as nat),
{
    let mut out = String::new();
    append_digits(&mut out, n, 10);
    assert(out@ =~= dec(n as nat));
    out
}

/// `n` in decimal, with a leading minus sign when it is negative.
pub fn signed_text(n: i64) -> (text: String)
    ensures
        text@ == signed_dec(n as int),
{
    let mut out = String::new();
    if n < 0 {
        out.push('-');
        // The magnitude of the smallest value does not fit the signed type.
        let magnitude: u64 = (-(n as i128)) as u64;
        append_digits(&mut out, magnitude, 10);
    } else {
        append_digits(&mut out, n as u64, 10);
    }
    assert(out@ =~= signed_dec(n as int));
    out
}

/// `n` in decimal with its sign always written.
pub fn plus_minus_text(n: i64) -> (text: String)
    ensures
        text@ == plus_minus_dec(n as int),
{
    let mut out = String::new();
    if n < 0 {
        out.push('-');
        let magnitude: u64 = (-(n as i128)) as u64;
        append_digits(&mut out, magnitude, 10);
    } else {
        out.push('+');
        append_digits(&mut out, n as u64, 10);
    }
    assert(out@ =~= plus_minus_dec(n as int));
    out
}

/// `n` in upper-case hexadecimal.
pub fn upper_hex_text(n: u64) -> (text: String)
    ensures
        text@ == upper_hex_digits(n as nat),
{
    let low = hex_text(n);
    let len: usize = low.as_str().unicode_len();
    let mut out = String::new();
    let mut i: usize = 0;
    assert(out@ =~= upper_hex_digits(n as nat).take(0));
    while i < len
        invariant
            low@ == hex_digits(n as nat),
            len == low@.len(),
            i <= len,
            out@ == upper_hex_digits(n as nat).take(i as int),
        decreases len - i,
    {
        let c = low.as_str().get_char(i);
        if 'a' <= c && c <= 'f' {
            out.push((c as u8 - 32) as char);
        } else {
            out.push(c);
        }
        i = i + 1;
        assert(out@ =~= upper_hex_digits(n as nat).take(i as int));
    }
    assert(upper_hex_digits(n as nat).take(len as int) =~= upper_hex_digits(n as nat));
    out
}

/// `n` in upper-case hexadecimal, zero-padded to `width` digits.
pub fn upper_hex_padded(n: u64, width: usize) -> (text: String)
    ensures
        text@ == zero_pad(upper_hex_digits(n as nat), width as nat),
{
    let plain = upper_hex_text(n);
    zero_padded(plain.as_str(), width)
}

/// `n` in lower-case hexadecimal.
pub fn hex_text(n: u64) -> (text: String)
    ensures
        text@ == hex_digits(n as nat),
{
    let mut out = String::new();
    append_digits(&mut out, n, 16);
    assert(out@ =~= hex_digits(n as nat));
    out
}

/// `text` with zeros in front until it is at least `width` characters long.
pub fn zero_padded(text: &str, width: usize) -> (padded: String)
    ensures
        padded@ == zero_pad(text@, width as nat),
{
    let len: usize = text.unicode_len();
    let mut out = String::new();
    let mut done: usize = len;
    while done < width
        invariant
            len == text@.len(),
            len <= done,
            done <= width || done == len,
            out@ == Seq::new((done - len) as nat, |i: int| '0'),
        decreases width - done,
    {
        out.push('0');
        done = done + 1;
        assert(out@ =~= Seq::new((done - len) as nat, |i: int| '0'));
    }
    out.append(text);
    assert(out@ =~= zero_pad(text@, width as nat));
    out
}

/// `n` in decimal with at least two digits.
pub fn two_digits(n: u64) -> (text: String)
    ensures
        text@ == zero_pad(dec(n as nat), 2),
{
    let plain = dec_text(n);
    zero_padded(plain.as_str(), 2)
}

/// `n` in hexadecimal, zero-padded to `width` digits.
pub fn hex_padded(n: u64, width: usize) -> (text: String)
    ensures
        text@ == zero_pad(hex_digits(n as nat), width as nat),
{
    let plain = hex_text(n);
    zero_padded(plain.as_str(), width)
}

/// Two hexadecimal digits for each byte, one byte after another.
pub open spec fn byte_pairs(bytes: Seq<u8>) -> Seq<char>
    decreases bytes.len(),
{
    if bytes.len() == 0 {
        Seq::empty()
    } else {
        byte_pairs(bytes.drop_last()) + zero_pad(hex_digits(bytes.last() as nat), 2)
    }
}

/// Whether the character is a lower-case hexadecimal digit.
pub open spec fn is_hex_digit(c: char) -> bool {
    ('0' <= c && c <= '9') || ('a' <= c && c <= 'f')
}

/// A byte takes exactly two hexadecimal digits.
pub proof fn byte_takes_two_digits(b: u8)
    ensures
        zero_pad(hex_digits(b as nat), 2).len() == 2,
        forall|i: int|
            0 <= i < 2 ==> is_hex_digit(#[trigger] zero_pad(hex_digits(b as nat), 2)[i]),
{
    reveal_with_fuel(digits, 3);
    let n = b as nat;
    if n >= 16 {
        assert(n / 16 < 16 && n % 16 < 16);
        assert(hex_digits(n) =~= seq![digit_char(n / 16), digit_char(n % 16)]);
        assert(zero_pad(hex_digits(n), 2) =~= hex_digits(n));
    } else {
        assert(hex_digits(n) =~= seq![digit_char(n)]);
        assert(zero_pad(hex_digits(n), 2) =~= seq!['0', digit_char(n)]);
    }
}

/// The hexadecimal form of bytes has two characters for each, all of them hexadecimal digits.
pub proof fn byte_pairs_are_hex(bytes: Seq<u8>)
    ensures
        byte_pairs(bytes).len() == 2 * bytes.len(),
        forall|i: int|
            0 <= i < byte_pairs(bytes).len() ==> is_hex_digit(#[trigger] byte_pairs(bytes)[i]),
    decreases bytes.len(),
{
    if bytes.len() > 0 {
        byte_pairs_are_hex(bytes.drop_last());
        byte_takes_two_digits(bytes.last());
        let head = byte_pairs(bytes.drop_last());
        let tail = zero_pad(hex_digits(bytes.last() as nat), 2);
        assert forall|i: int| 0 <= i < byte_pairs(bytes).len() implies is_hex_digit(
            #[trigger] byte_pairs(bytes)[i],
        ) by {
            if i < head.len() {
                assert(byte_pairs(bytes)[i] == head[i]);
            } else {
                assert(byte_pairs(bytes)[i] == tail[i - head.len()]);
            }
        }
    }
}

/// The bytes in hexadecimal, two digits each.
pub fn byte_pairs_text(bytes: &Vec<u8>) -> (text: String)
    ensures
        text@ == byte_pairs(bytes@),
{
    let mut out = String::new();
    let mut i: usize = 0;
    assert(out@ =~= byte_pairs(bytes@.take(0)));
    while i < bytes.len()
        invariant
            i <= bytes@.len(),
            out@ == byte_pairs(bytes@.take(i as int)),
        decreases bytes@.len() - i,
    {
        out.append(hex_padded(bytes[i] as u64, 2).as_str());
        i = i + 1;
        assert(bytes@.take(i as int).drop_last() =~= bytes@.take(i - 1));
    }
    assert(bytes@.take(i as int) =~= bytes@);
    out
}

/// `true` or `false`.
pub fn bool_text(b: bool) -> (text: String)
    ensures
        text@ == bool_chars(b),
{
    if b {
        "true".to_owned()
    } else {
        "false".to_owned()
    }
}

/// The strings one after another with `sep` between neighbours.
pub fn join(parts: &Vec<String>, sep: &str) -> (text: String)
    ensures
        text@ == joined(texts(parts@), sep@),
{
    let mut out = String::new();
    let mut i: usize = 0;
    assert(out@ =~= joined(texts(parts@).take(0), sep@));
    while i < parts.len()
        invariant
            i <= parts.len(),
            out@ == joined(texts(parts@).take(i as int), sep@),
        decreases parts.len() - i,
    {
        if i > 0 {
            out.append(sep);
        }
        out.append(parts[i].as_str());
        i = i + 1;
        proof {
            let upto = texts(parts@).take(i as int);
            assert(upto.drop_last() =~= texts(parts@).take(i - 1));
            assert(upto.last() == parts@[i - 1]@);
            assert(out@ =~= joined(upto, sep@));
        }
    }
    assert(texts(parts@).take(i as int) =~= texts(parts@));
    out
}

/// The characters of a text.
pub fn char_list(s: &str) -> (list: Vec<char>)
    ensures
        list@ == s@,
{
    let n: usize = s.unicode_len();
    let mut out: Vec<char> = Vec::new();
    let mut i: usize = 0;
    while i < n
        invariant
            n == s@.len(),
            i <= n,
            out@ == s@.take(i as int),
        decreases n - i,
    {
        out.push(s.get_char(i));
        i = i + 1;
        assert(out@ =~= s@.take(i as int));
    }
    assert(s@.take(n as int) =~= s@);
    out
}

/// The string made of `list`.
pub fn from_chars(list: &Vec<char>) -> (text: String)
    ensures
        text@ == list@,
{
    let mut out = String::new();
    let mut i: usize = 0;
    assert(out@ =~= list@.take(0));
    while i < list.len()
        invariant
            i <= list.len(),
            out@ == list@.take(i as int),
        decreases list.len() - i,
    {
        out.push(list[i]);
        i = i + 1;
        assert(out@ =~= list@.take(i as int));
    }
    assert(list@.take(i as int) =~= list@);
    out
}

/// Whether two texts hold the same characters.
pub fn same_text(a: &str, b: &str) -> (same: bool)
    ensures
        same == (a@ == b@),
{
    let n: usize = a.unicode_len();
    if n != b.unicode_len() {
        return false;
    }
    starts_with(a, b)
}

/// Whether `s` begins with `prefix`.
pub fn starts_with(s: &str, prefix: &str) -> (yes: bool)
    ensures
        yes == prefix@.is_prefix_of(s@),
        yes && s@.len() == prefix@.len() ==> s@ == prefix@,
{
    let n: usize = prefix.unicode_len();
    if s.unicode_len() < n {
        return false;
    }
    let mut i: usize = 0;
    while i < n
        invariant
            n == prefix@.len(),
            n <= s@.len(),
            i <= n,
            forall|j: int| 0 <= j < i ==> s@[j] == prefix@[j],
        decreases n - i,
    {
        if s.get_char(i) != prefix.get_char(i) {
            assert(s@.subrange(0, n as int)[i as int] != prefix@[i as int]);
            return false;
        }
        i = i + 1;
    }
    assert(s@.subrange(0, n as int) =~= prefix@);
    assert(s@.len() == prefix@.len() ==> s@ =~= prefix@);
    true
}

/// Whether `s` ends with `suffix`.
pub fn ends_with(s: &str, suffix: &str) -> (yes: bool)
    ensures
        yes == suffix@.is_suffix_of(s@),
{
    let m: usize = s.unicode_len();
    let n: usize = suffix.unicode_len();
    if m < n {
        return false;
    }
    let start: usize = m - n;
    let mut i: usize = 0;
    while i < n
        invariant
            m == s@.len(),
            n == suffix@.len(),
            start == m - n,
            n <= m,
            i <= n,
            forall|j: int| 0 <= j < i ==> s@[start + j] == suffix@[j],
        decreases n - i,
    {
        if s.get_char(start + i) != suffix.get_char(i) {
            assert(s@.subrange(start as int, m as int)[i as int] != suffix@[i as int]);
            return false;
        }
        i = i + 1;
    }
    assert(s@.subrange(start as int, m as int) =~= suffix@);
    true
}

/// The ASCII lower case of one character.
pub fn lower_char(c: char) -> (low: char)
    ensures
        low == ascii_lower(c),
{
    if 'A' <= c && c <= 'Z' {
        (c as u8 + 32) as char
    } else {
        c
    }
}

/// The text in ASCII lower case.
pub fn ascii_lowercase(s: &str) -> (low: String)
    ensures
        low@ == ascii_lower_all(s@),
{
    let n: usize = s.unicode_len();
    let mut out = String::new();
    let mut i: usize = 0;
    assert(out@ =~= ascii_lower_all(s@).take(0));
    while i < n
        invariant
            n == s@.len(),
            i <= n,
            out@ == ascii_lower_all(s@).take(i as int),
        decreases n - i,
    {
        out.push(lower_char(s.get_char(i)));
        i = i + 1;
        assert(out@ =~= ascii_lower_all(s@).take(i as int));
    }
    assert(ascii_lower_all(s@).take(n as int) =~= ascii_lower_all(s@));
    out
}

/// Whether the character is white space.
pub fn is_white_space(c: char) -> (yes: bool)
    ensures
        yes == is_space(c),
{
    let n: u32 = c as u32;
    (0x09 <= n && n <= 0x0D) || n == 0x20 || n == 0x85 || n == 0xA0 || n == 0x1680
        || (0x2000 <= n && n <= 0x200A) || n == 0x2028 || n == 0x2029 || n == 0x202F || n == 0x205F
        || n == 0x3000
}

/// The text without white space at either end.
pub fn trim(s: &str) -> (out: String)
    ensures
        out@ == trimmed(s@),
{
    let n: usize = s.unicode_len();
    let mut a: usize = 0;
    assert(s@.skip(0) =~= s@);
    while a < n && is_white_space(s.get_char(a))
        invariant
            n == s@.len(),
            a <= n,
            trimmed_start(s@) == trimmed_start(s@.skip(a as int)),
        decreases n - a,
    {
        assert(s@.skip(a as int)[0] == s@[a as int]);
        assert(s@.skip(a as int).skip(1) =~= s@.skip(a + 1));
        a = a + 1;
    }
    proof {
        if a < n {
            assert(s@.skip(a as int)[0] == s@[a as int]);
        }
        assert(trimmed_start(s@) =~= s@.skip(a as int));
    }
    let mut b: usize = n;
    assert(s@.subrange(a as int, n as int) =~= s@.skip(a as int));
    while a < b && is_white_space(s.get_char((b - 1) as usize))
        invariant
            n == s@.len(),
            a <= b <= n,
            trimmed(s@) == trimmed_end(s@.subrange(a as int, b as int)),
        decreases b,
    {
        assert(s@.subrange(a as int, b as int).last() == s@[b - 1]);
        assert(s@.subrange(a as int, b as int).drop_last() =~= s@.subrange(a as int, b - 1));
        b = b - 1;
    }
    proof {
        if a < b {
            assert(s@.subrange(a as int, b as int).last() == s@[b - 1]);
        }
        assert(trimmed(s@) =~= s@.subrange(a as int, b as int));
    }
    let mut out = String::new();
    let mut i: usize = a;
    while i < b
        invariant
            n == s@.len(),
            a <= i <= b,
            b <= n,
            out@ == s@.subrange(a as int, i as int),
        decreases b - i,
    {
        out.push(s.get_char(i));
        i = i + 1;
        assert(out@ =~= s@.subrange(a as int, i as int));
    }
    out
}

proof fn prefix_value_at_most(s: Seq<char>, n: int)
    requires
        0 <= n <= s.len(),
        digits_value(s) is Some,
    ensures
        digits_value(s.take(n)) is Some,
        digits_value(s.take(n))->0 <= digits_value(s)->0,
    decreases s.len(),
{
    if n < s.len() {
        prefix_value_at_most(s.drop_last(), n);
        assert(s.drop_last().take(n) =~= s.take(n));
    } else {
        assert(s.take(n) =~= s);
    }
}

proof fn prefix_has_value(s: Seq<char>, n: int)
    requires
        0 <= n <= s.len(),
        digits_value(s.take(n)) is None,
    ensures
        digits_value(s) is None,
{
    if digits_value(s) is Some {
        prefix_value_at_most(s, n);
    }
}

/// The unsigned number that a text stands for.
pub fn parse_unsigned(s: &str) -> (n: Option<u64>)
    ensures
        match n {
            Some(v) => unsigned_value(s@) == Some(v as nat),
            None => unsigned_value(s@) is None,
        },
{
    let len: usize = s.unicode_len();
    let start: usize = if len > 0 && s.get_char(0) == '+' {
        1
    } else {
        0
    };
    let ghost body = if s@.len() > 0 && s@[0] == '+' {
        s@.skip(1)
    } else {
        s@
    };
    assert(body =~= s@.skip(start as int));
    if len == start {
        return None;
    }
    let mut value: u64 = 0;
    let mut i: usize = start;
    assert(body.take(0) =~= Seq::empty());
    while i < len
        invariant
            len == s@.len(),
            start <= i <= len,
            start <= 1,
            body == s@.skip(start as int),
            body == (if s@.len() > 0 && s@[0] == '+' {
                s@.skip(1)
            } else {
                s@
            }),
            digits_value(body.take(i - start)) == Some(value as nat),
        decreases len - i,
    {
        let c = s.get_char(i);
        let ghost k = i - start;
        proof {
            assert(body[k] == c);
            assert(body.take(k + 1).drop_last() =~= body.take(k));
            assert(body.take(k + 1).last() == c);
        }
        if !('0' <= c && c <= '9') {
            proof {
                prefix_has_value(body, k + 1);
            }
            return None;
        }
        let digit: u64 = (c as u8 - 48) as u64;
        assert(digits_value(body.take(k + 1)) == Some((value * 10 + digit) as nat));
        if value > (u64::MAX - digit) / 10 {
            proof {
                assert(value * 10 + digit > u64::MAX) by (nonlinear_arith)
                    requires
                        value > (u64::MAX - digit) / 10,
                        digit <= 9,
                ;
                if digits_value(body) is Some {
                    prefix_value_at_most(body, k + 1);
                }
            }
            return None;
        }
        assert(value * 10 + digit <= u64::MAX) by (nonlinear_arith)
            requires
                value <= (u64::MAX - digit) / 10,
                digit <= 9,
        ;
        value = value * 10 + digit;
        i = i + 1;
    }
    assert(body.take(len - start) =~= body);
    Some(value)
}

/// A number that is written in decimals reads back as itself.
pub proof fn a_number_reads_back(n: nat)
    ensures
        digits_value(dec(n)) == Some(n),
        dec(n).len() >= 1,
        n > 0 ==> dec(n)[0] != '0',
        forall|i: int| 0 <= i < dec(n).len() ==> is_digit(#[trigger] dec(n)[i]),
    decreases n,
{
    reveal_with_fuel(digits_value, 2);
    if n < 10 {
        assert(dec(n) =~= seq![digit_char(n)]);
        assert(dec(n).drop_last() =~= Seq::empty());
    } else {
        a_number_reads_back(n / 10);
        assert(dec(n) == dec(n / 10).push(digit_char(n % 10)));
        assert(dec(n).drop_last() =~= dec(n / 10));
        assert(is_digit(digit_char(n % 10)));
        assert forall|i: int| 0 <= i < dec(n).len() implies is_digit(#[trigger] dec(n)[i]) by {
            if i < dec(n / 10).len() {
                assert(dec(n)[i] == dec(n / 10)[i]);
            }
        }
    }
}

/// What is written of a number is read as that number, with a plus sign before it too.
pub proof fn a_written_number_is_read(n: nat)
    requires
        n <= u64::MAX,
    ensures
        unsigned_value(dec(n)) == Some(n),
        unsigned_value(seq!['+'] + dec(n)) == Some(n),
        unsigned_value(Seq::empty()) is None,
{
    a_number_reads_back(n);
    assert(is_digit(dec(n)[0]));
    assert((seq!['+'] + dec(n)).skip(1) =~= dec(n));
}

/// A text with anything but digits in it has no value, and neither has one whose value is too large.
pub proof fn only_digits_have_a_value(s: Seq<char>, i: int)
    requires
        0 <= i < s.len(),
        !is_digit(s[i]),
    ensures
        digits_value(s) is None,
    decreases s.len(),
{
    if i < s.len() - 1 {
        assert(s.drop_last()[i] == s[i]);
        only_digits_have_a_value(s.drop_last(), i);
    }
}

/// The last hexadecimal digit of a number is what remains of it, and those before it are those of the rest.
pub proof fn hexadecimals_are_written_digit_by_digit(n: nat, d: nat)
    requires
        d < 16,
    ensures
        hex_digits(d).len() == 1,
        d < 10 ==> hex_digits(d)[0] as int == '0' as int + d,
        d >= 10 ==> hex_digits(d)[0] as int == 'a' as int + (d - 10),
        n > 0 ==> hex_digits(16 * n + d) == hex_digits(n) + hex_digits(d),
{
    if n > 0 {
        assert((16 * n + d) / 16 == n);
        assert((16 * n + d) % 16 == d);
        assert(hex_digits(n) + hex_digits(d) =~= hex_digits(n).push(digit_char(d)));
    }
}

/// Upper-case hexadecimals are the lower-case ones with their letters raised.
pub proof fn upper_hexadecimals_lower_to_the_others(n: nat, i: int)
    requires
        0 <= i < hex_digits(n).len(),
        is_hex_digit(hex_digits(n)[i]),
    ensures
        upper_hex_digits(n).len() == hex_digits(n).len(),
        ascii_lower(upper_hex_digits(n)[i]) == hex_digits(n)[i],
        !('a' <= upper_hex_digits(n)[i] && upper_hex_digits(n)[i] <= 'f'),
{
}

/// A negative number is its opposite with a minus sign; a plus sign is written only where it is asked for.
pub proof fn signs_are_written(n: nat)
    requires
        n > 0,
    ensures
        signed_dec(n as int) == dec(n),
        signed_dec(-(n as int)) == seq!['-'] + dec(n),
        plus_minus_dec(n as int) == seq!['+'] + dec(n),
        plus_minus_dec(-(n as int)) == seq!['-'] + dec(n),
        signed_dec(0) == dec(0),
        plus_minus_dec(0) == seq!['+'] + dec(0),
{
}

/// Padding puts zeros before a text until it is wide enough, and leaves a wide one as it is.
pub proof fn padding_puts_zeros_in_front(text: Seq<char>, width: nat, i: int)
    ensures
        text.len() >= width ==> zero_pad(text, width) == text,
        text.len() < width ==> zero_pad(text, width).len() == width,
        text.len() < width && 0 <= i < width - text.len() ==> zero_pad(text, width)[i] == '0',
        text.len() < width ==> zero_pad(text, width).skip(width - text.len()) == text,
{
    if text.len() < width {
        assert(zero_pad(text, width).skip(width - text.len()) =~= text);
    }
}

/// A list is joined with the separator between its parts, and before and after none of them.
pub proof fn separators_stand_between_the_parts(
    parts: Seq<Seq<char>>,
    part: Seq<char>,
    sep: Seq<char>,
)
    ensures
        joined(Seq::empty(), sep).len() == 0,
        joined(seq![part], sep) == part,
        parts.len() > 0 ==> joined(parts.push(part), sep) == joined(parts, sep) + sep + part,
{
    assert(parts.push(part).drop_last() =~= parts);
}

/// Lowering changes capital letters to their small ones and nothing else, and lowering twice changes nothing more.
pub proof fn only_capitals_are_lowered(s: Seq<char>, i: int)
    requires
        0 <= i < s.len(),
    ensures
        ascii_lower_all(s).len() == s.len(),
        'A' <= s[i] && s[i] <= 'Z' ==> ascii_lower_all(s)[i] as int - 'a' as int == s[i] as int
            - 'A' as int,
        !('A' <= s[i] && s[i] <= 'Z') ==> ascii_lower_all(s)[i] == s[i],
        ascii_lower_all(ascii_lower_all(s)) == ascii_lower_all(s),
{
    assert forall|j: int| 0 <= j < s.len() implies ascii_lower(#[trigger] ascii_lower_all(s)[j])
        == ascii_lower_all(s)[j] by {}
    assert(ascii_lower_all(ascii_lower_all(s)) =~= ascii_lower_all(s));
}

/// Trimming takes away spaces at both ends and nothing else: what is left begins and ends otherwise, and whatever
/// spaces are put around such a text are taken away again.
pub proof fn trimming_takes_away_the_spaces_around(
    before: Seq<char>,
    s: Seq<char>,
    after: Seq<char>,
)
    requires
        s.len() > 0,
        !is_space(s[0]),
        !is_space(s.last()),
        forall|i: int| 0 <= i < before.len() ==> is_space(#[trigger] before[i]),
        forall|i: int| 0 <= i < after.len() ==> is_space(#[trigger] after[i]),
    ensures
        trimmed(before + s + after) == s,
{
    start_is_trimmed(before, s + after);
    assert(before + s + after =~= before + (s + after));
    end_is_trimmed(s, after);
}

proof fn start_is_trimmed(before: Seq<char>, rest: Seq<char>)
    requires
        rest.len() > 0,
        !is_space(rest[0]),
        forall|i: int| 0 <= i < before.len() ==> is_space(#[trigger] before[i]),
    ensures
        trimmed_start(before + rest) == rest,
    decreases before.len(),
{
    if before.len() == 0 {
        assert(before + rest =~= rest);
    } else {
        let next = before.skip(1);
        assert forall|i: int| 0 <= i < next.len() implies is_space(#[trigger] next[i]) by {
            assert(next[i] == before[i + 1]);
        }
        start_is_trimmed(next, rest);
        assert((before + rest)[0] == before[0]);
        assert((before + rest).skip(1) =~= next + rest);
    }
}

proof fn end_is_trimmed(rest: Seq<char>, after: Seq<char>)
    requires
        rest.len() > 0,
        !is_space(rest.last()),
        forall|i: int| 0 <= i < after.len() ==> is_space(#[trigger] after[i]),
    ensures
        trimmed_end(rest + after) == rest,
    decreases after.len(),
{
    if after.len() == 0 {
        assert(rest + after =~= rest);
    } else {
        let next = after.drop_last();
        assert forall|i: int| 0 <= i < next.len() implies is_space(#[trigger] next[i]) by {
            assert(next[i] == after[i]);
        }
        end_is_trimmed(rest, next);
        assert((rest + after).last() == after[after.len() - 1]);
        assert((rest + after).drop_last() =~= rest + next);
    }
}

/// A text of spaces is trimmed to nothing.
pub proof fn spaces_are_trimmed_to_nothing(s: Seq<char>)
    requires
        forall|i: int| 0 <= i < s.len() ==> is_space(#[trigger] s[i]),
    ensures
        trimmed(s).len() == 0,
    decreases s.len(),
{
    if s.len() > 0 {
        let next = s.skip(1);
        assert forall|i: int| 0 <= i < next.len() implies is_space(#[trigger] next[i]) by {
            assert(next[i] == s[i + 1]);
        }
        assert(is_space(s[0]));
        spaces_are_trimmed_to_nothing(next);
    }
}

/// Bytes are written one after the other, two digits each.
pub proof fn bytes_are_written_one_after_the_other(bytes: Seq<u8>, b: u8)
    ensures
        byte_pairs(Seq::empty()).len() == 0,
        byte_pairs(bytes.push(b)) == byte_pairs(bytes) + zero_pad(hex_digits(b as nat), 2),
{
    assert(bytes.push(b).drop_last() =~= bytes);
}

/// What is told of a list of texts is the characters of each.
pub proof fn texts_are_told_as_they_are(parts: Seq<String>, i: int)
    requires
        0 <= i < parts.len(),
    ensures
        texts(parts).len() == parts.len(),
        texts(parts)[i] == parts[i]@,
{
}

/// A truth is written as the word for it.
pub proof fn truths_are_written_out()
    ensures
        bool_chars(true) == "true"@,
        bool_chars(false) == "false"@,
{
}

/// The spaces: the blank and the controls that move on, and the blanks of other scripts; no letter, digit or mark is
/// one.
pub proof fn the_spaces(c: char)
    ensures
        c == ' ' || c == '\t' || c == '\n' || c == '\r' ==> is_space(c),
        c as u32 == 0x0B || c as u32 == 0x0C || c as u32 == 0x85 || c as u32 == 0xA0 ==> is_space(c),
        c as u32 == 0x1680 || c as u32 == 0x2028 || c as u32 == 0x2029 || c as u32 == 0x202F || c as u32
            == 0x205F || c as u32 == 0x3000 ==> is_space(c),
        0x2000 <= c as u32 <= 0x200A ==> is_space(c),
        0x21 <= c as u32 <= 0x84 ==> !is_space(c),
        c as u32 <= 0x08 || 0x0E <= c as u32 <= 0x1F ==> !is_space(c),
        0x86 <= c as u32 <= 0x9F || 0xA1 <= c as u32 <= 0x167F ==> !is_space(c),
        0x1681 <= c as u32 <= 0x1FFF || 0x200B <= c as u32 <= 0x2027 || c as u32 > 0x3000
            ==> !is_space(c),
{
}

} // verus!
