//! Tests for timestamp/offset parsing and resolution, and identifier
//! classification.

use ucas_iclass::cli::classify_identifier;
use ucas_iclass::cli::parse_timestamp_or_offset;
use ucas_iclass::cli::IdentifierKind;
use ucas_iclass::cli::TimestampOrOffset;
use ucas_iclass::util::current_timestamp_millis;
use ucas_iclass::IClassError;

#[test]
fn parse_plus_offset() {
    assert_eq!(parse_timestamp_or_offset("+100"), Ok(TimestampOrOffset::Plus(100)));
    assert_eq!(parse_timestamp_or_offset("+0"), Ok(TimestampOrOffset::Plus(0)));
}

#[test]
fn parse_minus_offset() {
    assert_eq!(parse_timestamp_or_offset("-100"), Ok(TimestampOrOffset::Minus(100)));
}

#[test]
fn parse_absolute_timestamp() {
    assert_eq!(parse_timestamp_or_offset("500"), Ok(TimestampOrOffset::Timestamp(500)));
}

#[test]
fn parse_rejects_malformed() {
    assert_eq!(parse_timestamp_or_offset(""), Err(IClassError::FormatError));
    assert_eq!(parse_timestamp_or_offset("+"), Err(IClassError::FormatError));
    assert_eq!(parse_timestamp_or_offset("-"), Err(IClassError::FormatError));
    assert_eq!(parse_timestamp_or_offset("abc"), Err(IClassError::FormatError));
    assert_eq!(parse_timestamp_or_offset("+-5"), Err(IClassError::FormatError));
    assert_eq!(parse_timestamp_or_offset("1.5"), Err(IClassError::FormatError));
}

#[test]
fn parse_trims_surrounding_whitespace() {
    assert_eq!(parse_timestamp_or_offset(" +100 "), Ok(TimestampOrOffset::Plus(100)));
    assert_eq!(parse_timestamp_or_offset("\t-7\n"), Ok(TimestampOrOffset::Minus(7)));
    assert_eq!(parse_timestamp_or_offset("  500\r"), Ok(TimestampOrOffset::Timestamp(500)));
    assert_eq!(parse_timestamp_or_offset("   "), Err(IClassError::FormatError));
    assert_eq!(parse_timestamp_or_offset("1 0"), Err(IClassError::FormatError));
}

#[test]
fn parse_rejects_oversized() {
    // One more digit than u128::MAX has.
    assert_eq!(
        parse_timestamp_or_offset("3402823669209384634633746074317682114550"),
        Err(IClassError::FormatError)
    );
}

#[test]
fn resolve_plus_adds() {
    let t = TimestampOrOffset::Plus(100);
    assert_eq!(t.resolve_at(1_000_000), 1_000_100);
}

#[test]
fn resolve_minus_saturates_at_zero() {
    let t = TimestampOrOffset::Minus(100);
    assert_eq!(t.resolve_at(99), 0);
    assert_eq!(t.resolve_at(100), 0);
    assert_eq!(t.resolve_at(101), 1);
}

#[test]
fn resolve_absolute_passes_through() {
    let t = TimestampOrOffset::Timestamp(500);
    assert_eq!(t.resolve_at(123_456_789), 500);
    assert_eq!(t.resolve(), 500);
}

#[test]
fn resolve_plus_saturates_at_max() {
    let t = TimestampOrOffset::Plus(u128::MAX);
    assert_eq!(t.resolve_at(1), u128::MAX);
}

#[test]
fn default_is_now() {
    assert_eq!(TimestampOrOffset::default(), TimestampOrOffset::Plus(0));
}

#[test]
fn clock_is_past_epoch() {
    // A very loose sanity bound: after 2020-01-01 in epoch millis.
    assert!(current_timestamp_millis() > 1_577_836_800_000);
}

#[test]
fn classify_lowercase_hex_uuid() {
    assert_eq!(classify_identifier("0123456789abcdef0123456789abcdef"), IdentifierKind::Uuid);
}

#[test]
fn classify_uppercase_hex_uuid() {
    assert_eq!(classify_identifier("0123456789ABCDEF0123456789ABCDEF"), IdentifierKind::Uuid);
}

#[test]
fn classify_numeric_id() {
    assert_eq!(classify_identifier("123456"), IdentifierKind::Id);
}

#[test]
fn classify_rejects_mixed() {
    assert_eq!(classify_identifier("abc-123"), IdentifierKind::Invalid);
    assert_eq!(classify_identifier("abc123"), IdentifierKind::Invalid);
    assert_eq!(classify_identifier("0123456789abcdef0123456789abcdeg"), IdentifierKind::Invalid);
}

#[test]
fn classify_32_digits_is_uuid() {
    assert_eq!(classify_identifier("01234567890123456789012345678901"), IdentifierKind::Uuid);
}

#[test]
fn classify_short_hex_is_not_uuid() {
    assert_eq!(classify_identifier("0123456789abcdef"), IdentifierKind::Invalid);
}
