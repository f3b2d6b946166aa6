use aether::text::{concat2, concat3, decimal_string, find_first, parse_u16, split_once_char, str_eq, two_digit_string};

#[test]
fn decimal_rendering() {
    assert_eq!(decimal_string(0), "0");
    assert_eq!(decimal_string(7), "7");
    assert_eq!(decimal_string(407), "407");
    assert_eq!(decimal_string(65535), "65535");
    assert_eq!(decimal_string(u64::MAX), u64::MAX.to_string());
}

#[test]
fn two_digit_rendering() {
    assert_eq!(two_digit_string(0), "00");
    assert_eq!(two_digit_string(9), "09");
    assert_eq!(two_digit_string(10), "10");
    assert_eq!(two_digit_string(123), "123");
}

#[test]
fn keepalive_written_in_decimal_reads_back() {
    for n in [0u16, 5, 120, 65535] {
        let text = decimal_string(n as u64);
        assert_eq!(text.parse::<u16>().ok(), Some(n));
    }
}

#[test]
fn splitting_and_searching() {
    assert_eq!(split_once_char("a:b:c", ':'), Some(("a".to_string(), "b:c".to_string())));
    assert_eq!(split_once_char("abc", ':'), None);
    assert_eq!(split_once_char("é:ü", ':'), Some(("é".to_string(), "ü".to_string())));
    assert_eq!(find_first("xyz", 'z'), Some(2));
    assert_eq!(find_first("xyz", 'q'), None);
}

#[test]
fn equality_and_concatenation() {
    assert!(str_eq("abc", "abc"));
    assert!(!str_eq("abc", "abd"));
    assert!(!str_eq("ab", "abc"));
    assert!(str_eq("", ""));
    assert_eq!(concat2("ab", "cd"), "abcd");
    assert_eq!(concat3("a", "/", "b"), "a/b");
}

#[test]
fn parse_u16_grammar() {
    assert_eq!(parse_u16("0"), Some(0));
    assert_eq!(parse_u16("42"), Some(42));
    assert_eq!(parse_u16("+42"), Some(42));
    assert_eq!(parse_u16("00065535"), Some(65535));
    assert_eq!(parse_u16("65536"), None);
    assert_eq!(parse_u16("99999999999999999999"), None);
    assert_eq!(parse_u16("1x"), None);
    assert_eq!(parse_u16("+"), None);
    assert_eq!(parse_u16(""), None);
    assert_eq!(parse_u16("-0"), None);
    assert_eq!(parse_u16("1_000"), None);
    assert_eq!(parse_u16("٣"), None);
    for s in ["0", "7", "+7", "65535", "65536", "-1", "", "+", "12a", " 1", "070"] {
        assert_eq!(parse_u16(s), s.parse::<u16>().ok(), "{s}");
    }
}
