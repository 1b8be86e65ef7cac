use unseamless_coop::text::{
    ascii_lowercase, bool_text, byte_pairs_text, dec_text, ends_with, from_chars, hex_padded,
    hex_text, join, lower_char, parse_unsigned, plus_minus_text, same_text, signed_text,
    starts_with, trim, two_digits, upper_hex_padded, upper_hex_text, zero_padded,
};

#[test]
fn numbers_in_decimal() {
    assert_eq!(dec_text(0), "0");
    assert_eq!(dec_text(u64::MAX), "18446744073709551615");
    assert_eq!(signed_text(-12), "-12");
    assert_eq!(signed_text(i64::MIN), "-9223372036854775808");
    assert_eq!(plus_minus_text(0), "+0");
    assert_eq!(plus_minus_text(7), "+7");
    assert_eq!(plus_minus_text(-7), "-7");
    assert_eq!(two_digits(5), "05");
    assert_eq!(two_digits(123), "123");
}

#[test]
fn numbers_in_hexadecimal() {
    assert_eq!(hex_text(0), "0");
    assert_eq!(hex_text(0xbeef), "beef");
    assert_eq!(upper_hex_text(0xbeef), "BEEF");
    assert_eq!(hex_padded(0xff, 4), "00ff");
    assert_eq!(hex_padded(0x12345, 4), "12345");
    assert_eq!(upper_hex_padded(0xab, 8), "000000AB");
    assert_eq!(zero_padded("7", 3), "007");
}

#[test]
fn two_digits_for_each_byte() {
    assert_eq!(byte_pairs_text(&vec![0x00, 0x0f, 0xa5, 0xff]), "000fa5ff");
    assert_eq!(byte_pairs_text(&vec![]), "");
}

#[test]
fn joining_puts_the_separator_between() {
    assert_eq!(join(&vec![], ", "), "");
    assert_eq!(join(&vec!["a".to_owned()], ", "), "a");
    assert_eq!(join(&vec!["a".to_owned(), "b".to_owned(), "".to_owned()], ", "), "a, b, ");
    assert_eq!(bool_text(true), "true");
    assert_eq!(bool_text(false), "false");
}

#[test]
fn prefixes_and_suffixes() {
    assert!(starts_with("unseamless", "un"));
    assert!(!starts_with("un", "unseamless"));
    assert!(ends_with("mod.dll", ".dll"));
    assert!(ends_with("x", ""));
    assert!(!ends_with("dll", ".dll"));
    assert!(same_text("é", "é"));
    assert!(!same_text("a", "A"));
}

#[test]
fn lower_case_is_ascii_only() {
    assert_eq!(ascii_lowercase("MoD.DLL É"), "mod.dll É");
    assert_eq!(lower_char('Z'), 'z');
    assert_eq!(lower_char('['), '[');
    assert_eq!(from_chars(&vec!['o', 'k']), "ok");
}

#[test]
fn trimming_takes_unicode_white_space() {
    assert_eq!(trim("  \t a b \r\n"), "a b");
    assert_eq!(trim("\u{3000}x\u{2003}"), "x");
    assert_eq!(trim(" \u{85} "), "");
}

#[test]
fn parsing_an_unsigned_number() {
    assert_eq!(parse_unsigned("0"), Some(0));
    assert_eq!(parse_unsigned("+42"), Some(42));
    assert_eq!(parse_unsigned("18446744073709551615"), Some(u64::MAX));
    assert_eq!(parse_unsigned("18446744073709551616"), None);
    assert_eq!(parse_unsigned(""), None);
    assert_eq!(parse_unsigned("+"), None);
    assert_eq!(parse_unsigned("-1"), None);
    assert_eq!(parse_unsigned("1 "), None);
}
