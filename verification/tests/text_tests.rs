use rust_worker::clock::{millis_since_epoch, now_ms};
use rust_worker::decode::try_string_from_bytes;
use rust_worker::text::{first_field, format_i32, format_u64, parse_u64, same_text};

#[test]
fn formats_unsigned_decimals() {
    assert_eq!(format_u64(0), "0");
    assert_eq!(format_u64(7), "7");
    assert_eq!(format_u64(10), "10");
    assert_eq!(format_u64(1234567890), "1234567890");
    assert_eq!(format_u64(u64::MAX), "18446744073709551615");
}

#[test]
fn formats_signed_decimals() {
    assert_eq!(format_i32(0), "0");
    assert_eq!(format_i32(42), "42");
    assert_eq!(format_i32(-42), "-42");
    assert_eq!(format_i32(i32::MIN), "-2147483648");
    assert_eq!(format_i32(i32::MAX), "2147483647");
}

#[test]
fn parses_like_from_str() {
    assert_eq!(parse_u64("0"), Some(0));
    assert_eq!(parse_u64("007"), Some(7));
    assert_eq!(parse_u64("+5"), Some(5));
    assert_eq!(parse_u64("+"), None);
    assert_eq!(parse_u64(""), None);
    assert_eq!(parse_u64("-5"), None);
    assert_eq!(parse_u64("12a"), None);
    assert_eq!(parse_u64(" 1"), None);
    assert_eq!(parse_u64("18446744073709551615"), Some(u64::MAX));
    assert_eq!(parse_u64("18446744073709551616"), None);
    assert_eq!(parse_u64("99999999999999999999x"), None);
    for s in ["1", "+1", "-1", "", "x", "1700000000000", "00", "+-1"] {
        assert_eq!(parse_u64(s), s.parse::<u64>().ok(), "input {:?}", s);
    }
}

#[test]
fn decimal_text_parses_back() {
    for n in [0u64, 1, 9, 10, 99, 100, 1700000000000, u64::MAX - 1, u64::MAX] {
        assert_eq!(parse_u64(&format_u64(n)), Some(n));
        let id = format!("{}-17", format_u64(n));
        assert_eq!(first_field(&id), format_u64(n));
    }
}

#[test]
fn first_field_splits_at_first_dash() {
    assert_eq!(first_field("1700000000000-5"), "1700000000000");
    assert_eq!(first_field("1-2-3"), "1");
    assert_eq!(first_field("abc"), "abc");
    assert_eq!(first_field("-x"), "");
    assert_eq!(first_field(""), "");
    assert_eq!(first_field("é-ü"), "é");
}

#[test]
fn compares_texts() {
    assert!(same_text("0-0", "0-0"));
    assert!(!same_text("0-0", "0-1"));
    assert!(!same_text("0-0", "0-00"));
    assert!(same_text("", ""));
}

#[test]
fn decodes_valid_utf8() {
    assert_eq!(try_string_from_bytes(b"hello"), "hello");
    assert_eq!(try_string_from_bytes("grüß".as_bytes()), "grüß");
    assert_eq!(try_string_from_bytes(b""), "");
}

#[test]
fn decodes_invalid_utf8_lossily() {
    assert_eq!(try_string_from_bytes(&[0x66, 0xff, 0x6f]), "f\u{FFFD}o");
    assert_eq!(try_string_from_bytes(&[0xc3]), "\u{FFFD}");
}

#[test]
fn converts_durations_to_millis() {
    assert_eq!(millis_since_epoch(None), 0);
    assert_eq!(millis_since_epoch(Some((0, 0))), 0);
    assert_eq!(millis_since_epoch(Some((1, 999_999_999))), 1999);
    assert_eq!(millis_since_epoch(Some((1_700_000_000, 500_000_000))), 1_700_000_000_500);
    let big = u64::MAX;
    let expected = ((big as u128) * 1000 % (1u128 << 64)) as u64;
    assert_eq!(millis_since_epoch(Some((big, 0))), expected);
}

#[test]
fn reads_the_wall_clock() {
    let a = now_ms();
    let b = now_ms();
    assert!(a > 1_600_000_000_000);
    assert!(b >= a);
}
