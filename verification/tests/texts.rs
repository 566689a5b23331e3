use mailbridge::decimal::{read_decimal, write_decimal, DecimalError};
use mailbridge::text;
use std::num::IntErrorKind;

fn samples() -> Vec<&'static str> {
    vec![
        "", "0", "7", "+7", "-7", "+", "-", "++1", "+-1", "007", "65535", "65536", "65535x",
        "65536x", "6553x", "x65536", "99999", "+65535", "+65536", " 1", "1 ", "1_000", "１２",
        "4294967295", "4294967296", "18446744073709551615", "18446744073709551616",
        "00000000000000000000000000000000042", "999999999999999999999x",
    ]
}

fn kind(error: DecimalError) -> IntErrorKind {
    match error {
        DecimalError::Empty => IntErrorKind::Empty,
        DecimalError::InvalidDigit => IntErrorKind::InvalidDigit,
        DecimalError::TooLarge => IntErrorKind::PosOverflow,
    }
}

#[test]
fn numerals_are_read_like_integers_of_sixteen_bits() {
    for s in samples() {
        let expected = s.parse::<u16>().map(u64::from).map_err(|e| e.kind().clone());
        assert_eq!(read_decimal(s, u16::MAX as u64).map_err(kind), expected, "{}", s);
    }
}

#[test]
fn numerals_are_read_like_integers_of_more_bits() {
    for s in samples() {
        let expected = s.parse::<u32>().map(u64::from).map_err(|e| e.kind().clone());
        assert_eq!(read_decimal(s, u32::MAX as u64).map_err(kind), expected, "{}", s);
        let expected = s.parse::<u64>().map_err(|e| e.kind().clone());
        assert_eq!(read_decimal(s, u64::MAX).map_err(kind), expected, "{}", s);
    }
}

#[test]
fn numerals_are_written_and_read_back() {
    for n in [0, 9, 10, 99, 100, 8090, 65535, u32::MAX as u64, u64::MAX] {
        assert_eq!(write_decimal(n), n.to_string());
        assert_eq!(read_decimal(&write_decimal(n), u64::MAX), Ok(n));
    }
}

#[test]
fn white_space_is_that_of_unicode() {
    for n in 0..=0x10ffff_u32 {
        if let Some(c) = char::from_u32(n) {
            assert_eq!(text::white_space(c), c.is_whitespace(), "{:x}", n);
        }
    }
}

#[test]
fn texts_are_cut() {
    assert_eq!(text::strip_prefix("ACCOUNT_X_LOGIN", "ACCOUNT_"), Some("X_LOGIN"));
    assert_eq!(text::strip_prefix("ACCOUNT", "ACCOUNT_"), None);
    assert_eq!(text::strip_prefix("éa", "é"), Some("a"));
    assert_eq!(text::strip_suffix("X_LOGIN", "_LOGIN"), Some("X"));
    assert_eq!(text::strip_suffix("LOGIN", "_LOGIN"), None);
    assert_eq!(text::strip_suffix("aé", "é"), Some("a"));
    assert!(text::same_text("né", "né"));
    assert!(!text::same_text("ne", "né"));
}

#[test]
fn texts_are_split_and_joined() {
    for s in ["", "-", "a", "a-b", "-a--b-", "é-ü-ß"] {
        let parts: Vec<&str> = s.split('-').collect();
        assert_eq!(text::split(s, '-'), parts);
        let owned: Vec<String> = parts.iter().map(|part| part.to_string()).collect();
        assert_eq!(text::join(&owned, "-"), s);
    }
    assert_eq!(text::join(&vec![], ", "), "");
    assert_eq!(text::join(&vec!["a".to_string(), "b".to_string()], ", "), "a, b");
}

#[test]
fn texts_are_trimmed() {
    for s in ["", "0", "000", "0a0", "a0", " 0a\t", "\u{3000}a b\u{85}", " \n ", "0 0"] {
        assert_eq!(text::trim(s), s.trim());
        assert_eq!(text::trim_start_matches(s, '0'), s.trim_start_matches('0'));
    }
}
