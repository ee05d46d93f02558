use cache_flow::text::{decimal_string, zero_padded_string};
use cache_flow::time::{minutes_delta_fits, Timestamp, MAX_SECS, MIN_SECS};
use chrono::{DateTime, TimeDelta, Utc};

#[test]
fn decimal_strings() {
    assert_eq!(decimal_string(0), "0");
    assert_eq!(decimal_string(7), "7");
    assert_eq!(decimal_string(5432), "5432");
    assert_eq!(decimal_string(u64::MAX), u64::MAX.to_string());
}

#[test]
fn zero_padded_strings_match_format() {
    for (n, w) in [(0u64, 6usize), (42, 6), (999_999, 6), (1_234_567, 6), (5, 0), (0, 0), (12, 1)] {
        assert_eq!(zero_padded_string(n, w), format!("{:0width$}", n, width = w));
    }
}

#[test]
fn range_limits_match_chrono() {
    assert_eq!(MIN_SECS, DateTime::<Utc>::MIN_UTC.timestamp());
    assert_eq!(MAX_SECS, DateTime::<Utc>::MAX_UTC.timestamp());
    assert_eq!(DateTime::<Utc>::MIN_UTC.to_rfc3339(), "-262143-01-01T00:00:00+00:00");
    assert!(DateTime::<Utc>::from_timestamp(MIN_SECS, 0).is_some());
    assert!(DateTime::<Utc>::from_timestamp(MIN_SECS - 1, 0).is_none());
    assert!(DateTime::<Utc>::from_timestamp(MAX_SECS, 999_999_999).is_some());
    assert!(DateTime::<Utc>::from_timestamp(MAX_SECS + 1, 0).is_none());
}

#[test]
fn minute_deltas_match_chrono() {
    for m in [0i64, 1, -1, 153_722_867_280_912, 153_722_867_280_913, -153_722_867_280_912, -153_722_867_280_913, i64::MAX, i64::MIN] {
        assert_eq!(minutes_delta_fits(m), TimeDelta::try_minutes(m).is_some(), "minutes {m}");
    }
}

#[test]
fn adding_minutes_matches_chrono() {
    let cases = [
        (Timestamp { secs: 1_700_000_000, nanos: 5 }, 15i64),
        (Timestamp { secs: 1_700_000_000, nanos: 5 }, -15),
        (Timestamp { secs: MAX_SECS - 59, nanos: 999_999_999 }, 1),
        (Timestamp { secs: MAX_SECS - 60, nanos: 0 }, 1),
        (Timestamp { secs: MIN_SECS + 59, nanos: 0 }, -1),
        (Timestamp { secs: MIN_SECS + 60, nanos: 0 }, -1),
        (Timestamp { secs: 0, nanos: 0 }, i64::MAX),
    ];
    for (t, m) in cases {
        let dt = DateTime::from_timestamp(t.secs, t.nanos).unwrap();
        let expected = TimeDelta::try_minutes(m)
            .and_then(|d| dt.checked_add_signed(d))
            .map(|r| Timestamp { secs: r.timestamp(), nanos: r.timestamp_subsec_nanos() });
        assert_eq!(t.checked_add_minutes(m), expected, "{t:?} + {m} min");
    }
}

#[test]
fn earlier_than() {
    let a = Timestamp { secs: 10, nanos: 5 };
    let b = Timestamp { secs: 10, nanos: 6 };
    let c = Timestamp { secs: 11, nanos: 0 };
    assert!(a.is_before(&b));
    assert!(b.is_before(&c));
    assert!(!a.is_before(&a));
    assert!(!c.is_before(&a));
}
