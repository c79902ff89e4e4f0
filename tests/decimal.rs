use gopener::decimal::{decimal_text, parse_u64};

#[test]
fn decimal_round_trip() {
    for v in [0u64, 7, 10, 1_700_003_600, u64::MAX] {
        assert_eq!(parse_u64(&decimal_text(v)), Some(v));
        assert_eq!(decimal_text(v), v.to_string());
    }
}

#[test]
fn parse_rejects_non_numbers() {
    assert_eq!(parse_u64(""), None);
    assert_eq!(parse_u64("12a"), None);
    assert_eq!(parse_u64("-1"), None);
    assert_eq!(parse_u64("18446744073709551616"), None);
    assert_eq!(parse_u64("18446744073709551615"), Some(u64::MAX));
    assert_eq!(parse_u64("007"), Some(7));
}

#[test]
fn parse_accepts_one_leading_plus() {
    assert_eq!(parse_u64("+999"), Some(999));
    assert_eq!(parse_u64("+0"), Some(0));
    assert_eq!(parse_u64("+"), None);
    assert_eq!(parse_u64("++1"), None);
    assert_eq!(parse_u64("1+"), None);
    assert_eq!(parse_u64("+18446744073709551616"), None);
    for text in ["+999", "+", "++1", "-1", "", "007", "+18446744073709551615"] {
        assert_eq!(parse_u64(text), text.parse::<u64>().ok(), "differs on {:?}", text);
    }
}
