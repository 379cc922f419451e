use opensea_stream::number::{parse_u64, u64_to_dec};

#[test]
fn parse_exact_values() {
    assert_eq!(parse_u64("0"), Some(0));
    assert_eq!(parse_u64("7"), Some(7));
    assert_eq!(parse_u64("42"), Some(42));
    assert_eq!(parse_u64("1000000000000000000"), Some(1_000_000_000_000_000_000));
    assert_eq!(parse_u64("18446744073709551615"), Some(u64::MAX));
}

#[test]
fn parse_rejects_out_of_range() {
    assert_eq!(parse_u64("18446744073709551616"), None);
    assert_eq!(parse_u64("99999999999999999999999"), None);
}

#[test]
fn parse_rejects_non_canonical_text() {
    assert_eq!(parse_u64(""), None);
    assert_eq!(parse_u64("007"), None);
    assert_eq!(parse_u64("00"), None);
    assert_eq!(parse_u64("1a"), None);
    assert_eq!(parse_u64("-1"), None);
    assert_eq!(parse_u64("3.5"), None);
    assert_eq!(parse_u64(" 1"), None);
    assert_eq!(parse_u64("+1"), None);
}

#[test]
fn render_exact_values() {
    assert_eq!(u64_to_dec(0), "0");
    assert_eq!(u64_to_dec(9), "9");
    assert_eq!(u64_to_dec(10), "10");
    assert_eq!(u64_to_dec(305), "305");
    assert_eq!(u64_to_dec(u64::MAX), "18446744073709551615");
}

#[test]
fn render_then_parse_is_identity() {
    for n in [0u64, 1, 9, 10, 99, 100, 12345, u64::MAX - 1, u64::MAX] {
        assert_eq!(parse_u64(&u64_to_dec(n)), Some(n));
    }
}
