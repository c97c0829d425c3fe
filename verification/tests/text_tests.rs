use github_notifier::text::{i32_to_string, parse_u64, u64_to_string};

#[test]
fn renders_zero() {
    assert_eq!(u64_to_string(0), "0");
}

#[test]
fn renders_plain_number() {
    assert_eq!(u64_to_string(12345), "12345");
}

#[test]
fn renders_u64_max() {
    assert_eq!(u64_to_string(u64::MAX), "18446744073709551615");
}

#[test]
fn renders_negative() {
    assert_eq!(i32_to_string(-123), "-123");
}

#[test]
fn renders_i32_min() {
    assert_eq!(i32_to_string(i32::MIN), "-2147483648");
}

#[test]
fn renders_positive_i32() {
    assert_eq!(i32_to_string(2845072), "2845072");
}

#[test]
fn parses_plain_number() {
    assert_eq!(parse_u64("60"), Some(60));
}

#[test]
fn parses_leading_plus() {
    assert_eq!(parse_u64("+7"), Some(7));
}

#[test]
fn rejects_empty() {
    assert_eq!(parse_u64(""), None);
    assert_eq!(parse_u64("+"), None);
}

#[test]
fn rejects_trailing_garbage() {
    assert_eq!(parse_u64("12a"), None);
    assert_eq!(parse_u64("-3"), None);
}

#[test]
fn parses_u64_max_and_rejects_overflow() {
    assert_eq!(parse_u64("18446744073709551615"), Some(u64::MAX));
    assert_eq!(parse_u64("18446744073709551616"), None);
}
