use pam_rustface::text::{
    chars_of, decimal_string, parse_decimal_u64, str_eq, str_le, string_of, strip_prefix,
};

#[test]
fn parse_u64_accepts_what_std_accepts() {
    for s in [
        "0", "7", "+7", "007", "120", "18446744073709551615", "", "+", "-0", "-5", "++5", "1 ",
        " 1", "1.5", "18446744073709551616", "99999999999999999999", "٣",
    ] {
        assert_eq!(parse_decimal_u64(s), s.parse::<u64>().ok(), "input {s:?}");
    }
}

#[test]
fn decimal_string_matches_to_string() {
    for n in [0u64, 1, 9, 10, 42, 4096, 1000000, u64::MAX] {
        assert_eq!(decimal_string(n), n.to_string());
    }
}

#[test]
fn strip_prefix_gives_rest() {
    assert_eq!(strip_prefix("device=/dev/x", "device="), Some("/dev/x".to_string()));
    assert_eq!(strip_prefix("device=", "device="), Some(String::new()));
    assert_eq!(strip_prefix("devic", "device="), None);
    assert_eq!(strip_prefix("xdevice=", "device="), None);
}

#[test]
fn str_eq_and_order() {
    assert!(str_eq("debug", "debug"));
    assert!(!str_eq("debug", "debug=true"));
    assert!(str_le("/dev/video10", "/dev/video2"));
    assert!(!str_le("/dev/video2", "/dev/video10"));
    assert!(str_le("", "a"));
    assert!(str_le("ab", "ab"));
    assert!(!str_le("ab", "a"));
}

#[test]
fn chars_roundtrip() {
    let s = "héllo — ü";
    let v = chars_of(s);
    assert_eq!(v, s.chars().collect::<Vec<_>>());
    assert_eq!(string_of(&v), s);
}

#[test]
fn decimal_then_parse_roundtrip() {
    for n in [0u64, 5, 10, 99, 100, 120, 4096, 123456789, u64::MAX] {
        assert_eq!(parse_decimal_u64(&decimal_string(n)), Some(n));
    }
}
