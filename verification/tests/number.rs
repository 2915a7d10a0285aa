use syscall2struct::number::parse_i32;
use syscall2struct::text::u64_text;

#[test]
fn parse_i32_accepts_decimal_literals() {
    assert_eq!(parse_i32("0"), Some(0));
    assert_eq!(parse_i32("123"), Some(123));
    assert_eq!(parse_i32("+7"), Some(7));
    assert_eq!(parse_i32("-45"), Some(-45));
    assert_eq!(parse_i32("007"), Some(7));
    assert_eq!(parse_i32("2147483647"), Some(i32::MAX));
    assert_eq!(parse_i32("-2147483648"), Some(i32::MIN));
}

#[test]
fn parse_i32_rejects_what_from_str_rejects() {
    for text in ["", "-", "+", "12a", "a12", " 1", "1 ", "--1", "0x10", "2147483648", "-2147483649", "99999999999999999999"] {
        assert_eq!(parse_i32(text), text.parse::<i32>().ok(), "{text}");
        assert_eq!(parse_i32(text), None, "{text}");
    }
}

#[test]
fn parse_i32_agrees_with_from_str() {
    for n in [-1000i64, -1, 0, 1, 9, 10, 99, 100, 65535, 2147483646, 2147483647, -2147483648, 2147483648] {
        let text = n.to_string();
        assert_eq!(parse_i32(&text), text.parse::<i32>().ok());
    }
}

#[test]
fn sysno_text_round_trip() {
    for n in [0u64, 5, 10, 123, 456, 2147483647] {
        assert_eq!(parse_i32(&n.to_string()), Some(n as i32));
    }
}

#[test]
fn u64_text_writes_decimal_numerals() {
    assert_eq!(u64_text(0), "0");
    assert_eq!(u64_text(9), "9");
    assert_eq!(u64_text(10), "10");
    assert_eq!(u64_text(4096), "4096");
    assert_eq!(u64_text(u64::MAX), "18446744073709551615");
}
