use qa_web_app::decimal::{
    append_decimal, append_signed_decimal, parse_i32, parse_u32, parse_usize, ParseFailure,
};
use std::num::IntErrorKind;

fn failure_of(kind: &IntErrorKind) -> ParseFailure {
    match kind {
        IntErrorKind::Empty => ParseFailure::Empty,
        IntErrorKind::InvalidDigit => ParseFailure::InvalidDigit,
        IntErrorKind::PosOverflow => ParseFailure::PosOverflow,
        IntErrorKind::NegOverflow => ParseFailure::NegOverflow,
        other => panic!("no such failure here: {:?}", other),
    }
}

fn texts() -> Vec<&'static str> {
    vec![
    "",
    "0",
    "7",
    "10",
    "+",
    "-",
    "+0",
    "-0",
    "+12",
    "-12",
    "++1",
    "+-1",
    "-+1",
    "--1",
    "007",
    "0000000000000000000000000000000000012",
    "4294967295",
    "4294967296",
    "+4294967295",
    "42949672950",
    "2147483647",
    "2147483648",
    "-2147483648",
    "-2147483649",
    "18446744073709551615",
    "18446744073709551616",
    "99999999999999999999999999",
    "-99999999999999999999999999",
    "99999999999x",
    "x99999999999",
    "-99999999999x",
    "12 ",
    " 12",
    "1 2",
    "1_2",
    "1.5",
    "1e3",
    "0x10",
    "abc",
    "\u{661}\u{662}",
    "12\u{e9}",
    "\u{e9}",
    "\u{0}",
    "9/",
    ]
}

#[test]
fn parse_u32_agrees_with_std() {
    for text in texts() {
        let expected = text.parse::<u32>().map_err(|e| failure_of(e.kind()));
        assert_eq!(parse_u32(text), expected, "{:?}", text);
    }
}

#[test]
fn parse_usize_agrees_with_std() {
    for text in texts() {
        let expected = text.parse::<usize>().map_err(|e| failure_of(e.kind()));
        assert_eq!(parse_usize(text), expected, "{:?}", text);
    }
}

#[test]
fn parse_i32_agrees_with_std() {
    for text in texts() {
        let expected = text.parse::<i32>().map_err(|e| failure_of(e.kind()));
        assert_eq!(parse_i32(text), expected, "{:?}", text);
    }
}

#[test]
fn parse_u32_exact_values() {
    assert_eq!(parse_u32("0"), Ok(0));
    assert_eq!(parse_u32("+15"), Ok(15));
    assert_eq!(parse_u32("4294967295"), Ok(u32::MAX));
    assert_eq!(parse_u32(""), Err(ParseFailure::Empty));
    assert_eq!(parse_u32("+"), Err(ParseFailure::InvalidDigit));
    assert_eq!(parse_u32("-1"), Err(ParseFailure::InvalidDigit));
    assert_eq!(parse_u32("4294967296"), Err(ParseFailure::PosOverflow));
}

#[test]
fn the_first_bad_character_decides_the_failure() {
    assert_eq!(parse_u32("99999999999x"), Err(ParseFailure::PosOverflow));
    assert_eq!(parse_u32("9x9999999999"), Err(ParseFailure::InvalidDigit));
    assert_eq!(parse_i32("-99999999999x"), Err(ParseFailure::NegOverflow));
}

#[test]
fn parse_i32_exact_values() {
    assert_eq!(parse_i32("-2147483648"), Ok(i32::MIN));
    assert_eq!(parse_i32("2147483647"), Ok(i32::MAX));
    assert_eq!(parse_i32("2147483648"), Err(ParseFailure::PosOverflow));
    assert_eq!(parse_i32("-2147483649"), Err(ParseFailure::NegOverflow));
    assert_eq!(parse_i32("-"), Err(ParseFailure::InvalidDigit));
}

#[test]
fn append_decimal_writes_what_display_writes() {
    for n in [0u64, 1, 9, 10, 11, 99, 100, 1234, 65535, 4294967295, u64::MAX] {
        let mut out = String::from("n=");
        append_decimal(&mut out, n);
        assert_eq!(out, format!("n={}", n));
    }
}

#[test]
fn append_signed_decimal_writes_what_display_writes() {
    for n in [0i64, 1, -1, 10, -10, 1234, -1234, i64::MAX, i64::MIN, -2147483648] {
        let mut out = String::from("n=");
        append_signed_decimal(&mut out, n);
        assert_eq!(out, format!("n={}", n));
    }
}

#[test]
fn what_is_written_is_read_back() {
    for n in [0u32, 5, 10, 999, 1000, 123456789, u32::MAX] {
        let mut out = String::new();
        append_decimal(&mut out, n as u64);
        assert_eq!(parse_u32(&out), Ok(n));
    }
}

#[test]
fn parse_failure_messages() {
    assert_eq!(ParseFailure::Empty.to_string(), "cannot parse integer from empty string");
    assert_eq!(ParseFailure::InvalidDigit.to_string(), "invalid digit found in string");
    assert_eq!(ParseFailure::PosOverflow.to_string(), "number too large to fit in target type");
    assert_eq!(ParseFailure::NegOverflow.to_string(), "number too small to fit in target type");
    assert_eq!(
        ParseFailure::Empty.to_string(),
        "".parse::<u32>().unwrap_err().to_string()
    );
    assert_eq!(
        ParseFailure::InvalidDigit.to_string(),
        "x".parse::<u32>().unwrap_err().to_string()
    );
    assert_eq!(
        ParseFailure::PosOverflow.to_string(),
        "99999999999".parse::<u32>().unwrap_err().to_string()
    );
    assert_eq!(
        ParseFailure::NegOverflow.to_string(),
        "-99999999999".parse::<i32>().unwrap_err().to_string()
    );
}
