use round_timer::parse::parse_u32;

#[test]
fn test_parse_simple_number() {
    assert_eq!(parse_u32("90"), Some(90));
}

#[test]
fn test_parse_empty_string_rejected() {
    assert_eq!(parse_u32(""), None);
}

#[test]
fn test_parse_zero_is_a_number() {
    // Zero parses; the engine rejects it at the configuration boundary.
    assert_eq!(parse_u32("0"), Some(0));
}

#[test]
fn test_parse_leading_zeros() {
    assert_eq!(parse_u32("007"), Some(7));
}

#[test]
fn test_parse_non_digit_rejected() {
    assert_eq!(parse_u32("abc"), None);
    assert_eq!(parse_u32("12a"), None);
    assert_eq!(parse_u32("1 2"), None);
}

#[test]
fn test_parse_leading_plus_accepted() {
    // Like Rust's own u32 parsing: one leading `+` carries no meaning.
    assert_eq!(parse_u32("+5"), Some(5));
    assert_eq!(parse_u32("+0"), Some(0));
    assert_eq!(parse_u32("+4294967295"), Some(u32::MAX));
}

#[test]
fn test_parse_sign_rejected() {
    assert_eq!(parse_u32("-5"), None);
    assert_eq!(parse_u32("+"), None);
    assert_eq!(parse_u32("++5"), None);
    assert_eq!(parse_u32("5+"), None);
}

#[test]
fn test_parse_largest_value() {
    assert_eq!(parse_u32("4294967295"), Some(u32::MAX));
}

#[test]
fn test_parse_overflow_rejected() {
    assert_eq!(parse_u32("4294967296"), None);
    assert_eq!(parse_u32("99999999999999999999"), None);
}
