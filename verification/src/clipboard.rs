//! What goes onto the clipboard.

use vstd::prelude::*;

use crate::levels::{Level, LogLine, LogLineView};
use crate::text;

verus! {

/// The UTF-16 units of one character.
pub open spec fn char_units(c: char) -> Seq<u16> {
    let n = c as u32;
    if n < 0x1_0000 {
        seq![n as u16]
    } else {
        seq![
            (0xD800 + (n - 0x1_0000) / 0x400) as u16,
            (0xDC00 + (n - 0x1_0000) % 0x400) as u16,
        ]
    }
}

/// The UTF-16 units of a text.
pub open spec fn utf16(s: Seq<char>) -> Seq<u16>
    decreases s.len(),
{
    if s.len() == 0 {
        Seq::empty()
    } else {
        utf16(s.drop_last()) + char_units(s.last())
    }
}

/// The text as the clipboard takes it: UTF-16 with a zero behind it.
pub fn wide_text(s: &str) -> (wide: Vec<u16>)
    ensures
        wide@ == utf16(s@).push(0),
{
    let chars = text::char_list(s);
    let mut wide: Vec<u16> = Vec::new();
    let mut i: usize = 0;
    assert(wide@ =~= utf16(s@.take(0)));
    while i < chars.len()
        invariant
            chars@ == s@,
            i <= s@.len(),
            wide@ == utf16(s@.take(i as int)),
        decreases s@.len() - i,
    {
        let c = chars[i];
        let n: u32 = c as u32;
        let ghost before = wide@;
        if n < 0x1_0000 {
            wide.push(n as u16);
            assert(wide@ =~= before + char_units(c));
        } else {
            let rest: u32 = n - 0x1_0000;
            proof {
                vstd::utf8::char_is_scalar(c);
            }
            wide.push((0xD800 + rest / 0x400) as u16);
            wide.push((0xDC00 + rest % 0x400) as u16);
            assert(wide@ =~= before + char_units(c));
        }
        i = i + 1;
        assert(s@.take(i as int).drop_last() =~= s@.take(i - 1));
    }
    assert(s@.take(i as int) =~= s@);
    wide.push(0);
    wide
}

/// The warning, if any, on an attempt to copy: whether the clipboard could be opened, and whether the
/// text could be handed over.
pub fn set_text_warning(opened: bool, handed_over: bool) -> (line: Option<LogLine>)
    ensures
        line is None == (opened && handed_over),
        line is Some ==> line->0@ == (LogLineView {
            level: Level::Warn,
            text: if !opened {
                "clipboard: OpenClipboard failed; nothing copied"@
            } else {
                "clipboard: failed to set text; nothing copied"@
            },
        }),
{
    if !opened {
        return Some(
            LogLine {
                level: Level::Warn,
                text: "clipboard: OpenClipboard failed; nothing copied".to_owned(),
            },
        );
    }
    if !handed_over {
        return Some(
            LogLine {
                level: Level::Warn,
                text: "clipboard: failed to set text; nothing copied".to_owned(),
            },
        );
    }
    None
}

/// A character can be read back from its units: one unit that is the character itself, or a leading and a trailing
/// surrogate that hold its bits.
pub proof fn a_character_reads_back(c: char)
    ensures
        (c as u32) < 0x1_0000 ==> char_units(c).len() == 1 && char_units(c)[0] == c as u32,
        (c as u32) >= 0x1_0000 ==> {
            &&& char_units(c).len() == 2
            &&& 0xD800 <= char_units(c)[0] < 0xDC00
            &&& 0xDC00 <= char_units(c)[1] < 0xE000
            &&& 0x1_0000 + (char_units(c)[0] - 0xD800) * 0x400 + (char_units(c)[1] - 0xDC00)
                == c as u32
        },
{
}

/// Texts are encoded piece by piece: the units of two texts together are the units of each, one after the other.
pub proof fn encoding_goes_piece_by_piece(a: Seq<char>, b: Seq<char>)
    ensures
        utf16(a + b) == utf16(a) + utf16(b),
        a.len() <= utf16(a).len() <= 2 * a.len(),
    decreases b.len() + a.len(),
{
    if b.len() == 0 {
        assert(a + b =~= a);
        if a.len() > 0 {
            encoding_goes_piece_by_piece(a.drop_last(), b);
            assert(a.drop_last() + b =~= a.drop_last());
        }
        assert(utf16(a) + utf16(b) =~= utf16(a));
    } else {
        encoding_goes_piece_by_piece(a, b.drop_last());
        assert((a + b).drop_last() =~= a + b.drop_last());
        assert(utf16(a) + utf16(b) =~= utf16(a) + utf16(b.drop_last()) + char_units(b.last()));
    }
}

} // verus!
