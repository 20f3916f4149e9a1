use rust_miner::decimal::{decimal_string, parse_u32};
use rust_miner::text::{char_is_whitespace, chars_of, same_text, split_fields, starts_with, trim};

#[test]
fn trim_strips_both_ends() {
    assert_eq!(trim("  abc,def \r\n"), "abc,def");
    assert_eq!(trim("GOOD\n"), "GOOD");
    assert_eq!(trim("a b"), "a b");
    assert_eq!(trim("x"), "x");
}

#[test]
fn trim_of_blank_text_is_empty() {
    assert_eq!(trim(""), "");
    assert_eq!(trim(" \t\n"), "");
}

#[test]
fn trim_knows_wide_whitespace() {
    assert_eq!(trim("\u{a0}\u{3000}é b\u{2028}\u{85}"), "é b");
    assert_eq!(trim("\u{200b}a"), "\u{200b}a");
}

#[test]
fn trim_agrees_with_std() {
    for text in ["", " ", "a", " a", "a ", "\ta\u{b}b\u{c}\r", "\u{1680}x\u{205f}", "\u{feff}y "] {
        assert_eq!(trim(text), text.trim());
    }
}

#[test]
fn whitespace_is_what_std_says() {
    for code in 0u32..0x3100 {
        if let Some(c) = char::from_u32(code) {
            assert_eq!(char_is_whitespace(c), c.is_whitespace(), "U+{:04X}", code);
        }
    }
}

#[test]
fn split_gives_the_pieces_between_commas() {
    assert_eq!(split_fields("abc,def,5"), vec!["abc", "def", "5"]);
    assert_eq!(split_fields("abc"), vec!["abc"]);
    assert_eq!(split_fields(""), vec![""]);
    assert_eq!(split_fields(","), vec!["", ""]);
    assert_eq!(split_fields("a,,b,"), vec!["a", "", "b", ""]);
    assert_eq!(split_fields("é,ü"), vec!["é", "ü"]);
}

#[test]
fn split_then_join_is_the_text() {
    for text in ["", ",", "a,b", ",a,", "no comma", "ä,ö,,ü"] {
        assert_eq!(split_fields(text).join(","), text);
        assert_eq!(split_fields(text), text.split(',').collect::<Vec<&str>>());
    }
}

#[test]
fn prefix_and_equality() {
    assert!(starts_with("BAD,reason", "BAD,"));
    assert!(starts_with("BAD,", "BAD,"));
    assert!(!starts_with("BAD", "BAD,"));
    assert!(!starts_with("bad,reason", "BAD,"));
    assert!(starts_with("anything", ""));
    assert!(same_text("GOOD", "GOOD"));
    assert!(!same_text("GOOD", "GOODS"));
    assert!(!same_text("GOODS", "GOOD"));
    assert!(!same_text("GOOD", "GOOd"));
    assert!(same_text("", ""));
    assert_eq!(chars_of("aé"), vec!['a', 'é']);
}

#[test]
fn decimal_text_has_no_leading_zeros() {
    assert_eq!(decimal_string(0), "0");
    assert_eq!(decimal_string(7), "7");
    assert_eq!(decimal_string(10), "10");
    assert_eq!(decimal_string(42), "42");
    assert_eq!(decimal_string(99999), "99999");
    assert_eq!(decimal_string(u128::MAX), u128::MAX.to_string());
}

#[test]
fn parse_accepts_digits_with_an_optional_plus() {
    assert_eq!(parse_u32("0"), Some(0));
    assert_eq!(parse_u32("5"), Some(5));
    assert_eq!(parse_u32("+5"), Some(5));
    assert_eq!(parse_u32("007"), Some(7));
    assert_eq!(parse_u32("4294967295"), Some(u32::MAX));
    assert_eq!(parse_u32("0000000004294967295"), Some(u32::MAX));
}

#[test]
fn parse_refuses_everything_else() {
    assert_eq!(parse_u32(""), None);
    assert_eq!(parse_u32("+"), None);
    assert_eq!(parse_u32("-"), None);
    assert_eq!(parse_u32("-0"), None);
    assert_eq!(parse_u32("++5"), None);
    assert_eq!(parse_u32("5+"), None);
    assert_eq!(parse_u32(" 5"), None);
    assert_eq!(parse_u32("5 "), None);
    assert_eq!(parse_u32("1_000"), None);
    assert_eq!(parse_u32("12a"), None);
    assert_eq!(parse_u32("٣"), None);
    assert_eq!(parse_u32("4294967296"), None);
    assert_eq!(parse_u32("99999999999999999999999999"), None);
}

#[test]
fn parse_agrees_with_std() {
    for text in ["", "+", "-", "+0", "-1", "12", "0012", "4294967295", "4294967296", "1e3", "+-1"] {
        assert_eq!(parse_u32(text), text.parse::<u32>().ok(), "{:?}", text);
    }
}
