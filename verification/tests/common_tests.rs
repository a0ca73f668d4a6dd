use picoauth::common::is_valid_username;
use picoauth::digits::parse_u64;
use picoauth::RequestIdCounter;

#[test]
fn request_ids_count_up_from_zero() {
    let mut counter = RequestIdCounter::new();
    assert_eq!(counter.make_request_id(), 0);
    assert_eq!(counter.make_request_id(), 1);
    assert_eq!(counter.make_request_id(), 2);
}

#[test]
fn username_rule() {
    assert!(is_valid_username("alice"));
    assert!(is_valid_username("Al1ce_99"));
    assert!(is_valid_username("abc"));
    assert!(is_valid_username("a2345678901234567890123456789012"));
    assert!(!is_valid_username("ab"));
    assert!(!is_valid_username("a23456789012345678901234567890123"));
    assert!(!is_valid_username("has space"));
    assert!(!is_valid_username("dash-ed"));
    assert!(!is_valid_username("umläut"));
    assert!(!is_valid_username(""));
}

#[test]
fn decimal_parsing_is_exact() {
    assert_eq!(parse_u64("0"), Some(0));
    assert_eq!(parse_u64("42"), Some(42));
    assert_eq!(parse_u64("007"), Some(7));
    assert_eq!(parse_u64("18446744073709551615"), Some(u64::MAX));
    assert_eq!(parse_u64("18446744073709551616"), None);
    assert_eq!(parse_u64("99999999999999999999999"), None);
    assert_eq!(parse_u64(""), None);
    assert_eq!(parse_u64("12a"), None);
    assert_eq!(parse_u64("-1"), None);
    assert_eq!(parse_u64("+1"), None);
    assert_eq!(parse_u64(" 1"), None);
}
