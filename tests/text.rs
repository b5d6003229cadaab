use traymonitor::option_u64_as_string::{deserialize, parse_u64_str, serialize, ParseIntError};
use traymonitor::clock::now_millis;
use traymonitor::text::{decimal_string, format_duration, signed_decimal_string};

#[test]
fn test_format_duration() {
    assert_eq!(format_duration(0), "0ms");
    assert_eq!(format_duration(100), "100ms");
    assert_eq!(format_duration(1000), "1s");
    assert_eq!(format_duration(60400), "1m, 400ms");
    assert_eq!(format_duration(3600000), "1h");
    assert_eq!(format_duration(3602000), "1h 2s");
}

#[test]
fn format_duration_days_and_negatives() {
    assert_eq!(format_duration(90061001), "1d 1h 1m 1s, 1ms");
    assert_eq!(format_duration(86400000), "1d");
    assert_eq!(format_duration(-5), "-5ms");
    assert_eq!(format_duration(999), "999ms");
    assert_eq!(format_duration(i64::MIN), "-9223372036854775808ms");
}

#[test]
fn decimal_text() {
    assert_eq!(decimal_string(0), "0");
    assert_eq!(decimal_string(907), "907");
    assert_eq!(decimal_string(u64::MAX), "18446744073709551615");
    assert_eq!(signed_decimal_string(-42), "-42");
}

#[test]
fn optional_id_round_trip() {
    assert_eq!(serialize(&Some(42)), Some("42".to_string()));
    assert_eq!(serialize(&None), None);
    assert_eq!(deserialize(None), Ok(None));
    assert_eq!(deserialize(Some("42".to_string())), Ok(Some(42)));
    assert_eq!(deserialize(serialize(&Some(u64::MAX))), Ok(Some(u64::MAX)));
}

#[test]
fn optional_id_errors() {
    assert_eq!(parse_u64_str("+7"), Ok(7));
    assert_eq!(parse_u64_str(""), Err(ParseIntError::Empty));
    assert_eq!(parse_u64_str("+"), Err(ParseIntError::InvalidDigit));
    assert_eq!(parse_u64_str("-1"), Err(ParseIntError::InvalidDigit));
    assert_eq!(parse_u64_str("12a"), Err(ParseIntError::InvalidDigit));
    assert_eq!(parse_u64_str("18446744073709551616"), Err(ParseIntError::PosOverflow));
    assert_eq!(deserialize(Some("x".to_string())), Err(ParseIntError::InvalidDigit));
}

#[test]
fn clock_reading_in_millis() {
    assert_eq!(now_millis(0, 0), 0);
    assert_eq!(now_millis(1_700_000_000, 123_999_999), 1_700_000_000_123);
    assert_eq!(now_millis(u64::MAX, 999_999_999), u64::MAX as u128 * 1000 + 999);
}
