use zana::text::{
    i64_to_decimal, join_strings, parse_i64, to_ascii_lowercase, to_hex_lower, u64_to_decimal,
};
use zana::utils::common::{convert_naive_datetime_to_utc, try_convert_naive_datetime_to_utc};
use zana::utils::fileutil::{AgeDuration, FileAge};

#[test]
fn decimal_rendering() {
    assert_eq!(u64_to_decimal(0), "0");
    assert_eq!(u64_to_decimal(1234), "1234");
    assert_eq!(u64_to_decimal(u64::MAX), u64::MAX.to_string());
    assert_eq!(i64_to_decimal(-5), "-5");
    assert_eq!(i64_to_decimal(i64::MIN), i64::MIN.to_string());
    assert_eq!(i64_to_decimal(i64::MAX), i64::MAX.to_string());
}

#[test]
fn integer_parsing_matches_std() {
    let cases = [
        "0", "+12", "-0", "", "-", "+", "12a", " 1", "1 ", "007",
        "9223372036854775807", "9223372036854775808", "-9223372036854775808",
        "-9223372036854775809", "1234567890123456789012",
    ];
    for c in cases {
        assert_eq!(parse_i64(c), c.parse::<i64>().ok(), "input {:?}", c);
    }
}

#[test]
fn decimal_round_trip() {
    for n in [0i64, 1, -1, 42, 1_700_000_000, i64::MIN, i64::MAX] {
        assert_eq!(parse_i64(&i64_to_decimal(n)), Some(n));
    }
}

#[test]
fn hex_and_lowercase() {
    assert_eq!(to_hex_lower(&[0x00, 0x0f, 0xbe, 0xef]), "000fbeef");
    assert_eq!(to_hex_lower(&[]), "");
    assert_eq!(to_ascii_lowercase("DaILy-Ä"), "daily-Ä");
}

#[test]
fn joining() {
    let v = vec!["TEXT".to_string(), "IMAGE".to_string()];
    assert_eq!(join_strings(&v, ", "), "TEXT, IMAGE");
    assert_eq!(join_strings(&vec![], ","), "");
    assert_eq!(join_strings(&vec!["A".to_string()], ","), "A");
}

#[test]
fn file_age_split() {
    let age = FileAge::from_elapsed(AgeDuration { secs: 3723, nanos: 5 });
    assert_eq!((age.hours, age.minutes, age.seconds), (1, 2, 3));
    assert_eq!(age.to_display_string(), "1h 2m 3s");
    let day = FileAge::from_elapsed(AgeDuration { secs: 90061, nanos: 0 });
    assert_eq!((day.hours, day.minutes, day.seconds), (25, 1, 1));
    assert_eq!(day.hours * 3600 + day.minutes * 60 + day.seconds, 90061);
    assert_eq!(FileAge::default().to_display_string(), "0h 0m 0s");
}

#[test]
fn file_age_threshold() {
    let exact = FileAge::from_elapsed(AgeDuration { secs: 21600, nanos: 0 });
    assert!(!exact.is_older_than(21600));
    let just_over = FileAge::from_elapsed(AgeDuration { secs: 21600, nanos: 1 });
    assert!(just_over.is_older_than(21600));
    let younger = FileAge::from_elapsed(AgeDuration { secs: 21599, nanos: 999_999_999 });
    assert!(!younger.is_older_than(21600));
}

#[test]
fn naive_datetime_conversion() {
    let t = convert_naive_datetime_to_utc("2024-01-02 03:04:05");
    assert_eq!((t.secs, t.nanos), (1704164645, 0));
    assert!(try_convert_naive_datetime_to_utc("2024-01-02T03:04:05").is_none());
}
