use indradb_lib::{ArbitraryError, FiniteFloat, Timestamp, VertexId, MAX_TIMESTAMP_SECS, MIN_TIMESTAMP_SECS};

fn expected_naive(secs: i64, nsecs: u32) -> chrono::NaiveDateTime {
    chrono::DateTime::from_timestamp(secs, nsecs).unwrap().naive_utc()
}

#[test]
fn vertex_id_from_drawn_value() {
    let raw: u128 = 0xa1a2a3a4b1b2c1c2d1d2d3d4d5d6d7d8;
    let id = VertexId::from_arbitrary(raw);
    assert_eq!(id.into_uuid(), uuid::Uuid::from_u128(raw));
    assert_eq!(id.into_uuid().to_string(), "a1a2a3a4-b1b2-c1c2-d1d2-d3d4d5d6d7d8");
}

#[test]
fn vertex_ids_from_distinct_draws_differ() {
    assert_ne!(VertexId::from_arbitrary(1), VertexId::from_arbitrary(2));
    assert_eq!(VertexId::from_arbitrary(0).into_uuid(), uuid::Uuid::nil());
    assert_eq!(VertexId::from_arbitrary(u128::MAX).into_uuid(), uuid::Uuid::max());
}

#[test]
fn timestamp_epoch() {
    let ts = Timestamp::from_arbitrary(0, 0).unwrap();
    assert_eq!(ts.into_naive_utc(), expected_naive(0, 0));
    assert_eq!(ts.into_naive_utc().to_string(), "1970-01-01 00:00:00");
}

#[test]
fn timestamp_bounds() {
    assert!(Timestamp::from_arbitrary(MIN_TIMESTAMP_SECS, 0).is_ok());
    assert_eq!(Timestamp::from_arbitrary(MIN_TIMESTAMP_SECS - 1, 999_999_999), Err(ArbitraryError::IncorrectFormat));
    assert!(Timestamp::from_arbitrary(MAX_TIMESTAMP_SECS, 999_999_999).is_ok());
    assert_eq!(Timestamp::from_arbitrary(MAX_TIMESTAMP_SECS + 1, 0), Err(ArbitraryError::IncorrectFormat));
    assert_eq!(Timestamp::from_arbitrary(i64::MIN, 0), Err(ArbitraryError::IncorrectFormat));
    assert_eq!(Timestamp::from_arbitrary(i64::MAX, 0), Err(ArbitraryError::IncorrectFormat));
}

#[test]
fn timestamp_bounds_are_the_supported_dates() {
    let first = Timestamp::from_arbitrary(MIN_TIMESTAMP_SECS, 0).unwrap().into_naive_utc();
    let last = Timestamp::from_arbitrary(MAX_TIMESTAMP_SECS, 999_999_999).unwrap().into_naive_utc();
    assert_eq!(first.date(), chrono::NaiveDate::MIN);
    assert_eq!(last.date(), chrono::NaiveDate::MAX);
}

#[test]
fn timestamp_nanoseconds() {
    assert!(Timestamp::from_arbitrary(1_000, 999_999_999).is_ok());
    assert_eq!(Timestamp::from_arbitrary(1_000, 2_000_000_000), Err(ArbitraryError::IncorrectFormat));
    assert_eq!(Timestamp::from_arbitrary(59, u32::MAX), Err(ArbitraryError::IncorrectFormat));
}

#[test]
fn timestamp_leap_second_only_at_end_of_minute() {
    let ts = Timestamp::from_arbitrary(59, 1_500_000_000).unwrap();
    assert_eq!(ts.into_naive_utc(), expected_naive(59, 1_500_000_000));
    assert_eq!(Timestamp::from_arbitrary(58, 1_500_000_000), Err(ArbitraryError::IncorrectFormat));
    // -1 is the last second of the minute before the epoch.
    assert!(Timestamp::from_arbitrary(-1, 1_000_000_000).is_ok());
    assert_eq!(Timestamp::from_arbitrary(-2, 1_000_000_000), Err(ArbitraryError::IncorrectFormat));
}

#[test]
fn timestamp_value() {
    let ts = Timestamp::from_arbitrary(1_431_648_000, 123).unwrap();
    assert_eq!(ts.into_naive_utc(), expected_naive(1_431_648_000, 123));
    assert_eq!(ts.into_naive_utc().to_string(), "2015-05-15 00:00:00.000000123");
}

#[test]
fn finite_float_accepts_finite_values() {
    for f in [0.0f64, -0.0, 1.5, -2.25, f64::MAX, f64::MIN, f64::MIN_POSITIVE, 5e-324] {
        let x = FiniteFloat::from_bits(f.to_bits()).unwrap();
        assert_eq!(x.to_bits(), f.to_bits());
        assert_eq!(f64::from_bits(x.to_bits()), f);
    }
}

#[test]
fn finite_float_refuses_infinities_and_nan() {
    for f in [f64::INFINITY, f64::NEG_INFINITY, f64::NAN] {
        assert_eq!(FiniteFloat::from_bits(f.to_bits()), Err(ArbitraryError::IncorrectFormat));
    }
    // A NaN with another payload.
    assert_eq!(FiniteFloat::from_bits(0xfff8_0000_0000_0001), Err(ArbitraryError::IncorrectFormat));
}
