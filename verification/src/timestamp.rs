use crate::error::ArbitraryError;
use vstd::prelude::*;

verus! {

#[verifier::external_type_specification]
#[verifier::external_body]
pub struct ExNaiveDateTime(chrono::NaiveDateTime);

/// The earliest second, counted from the Unix epoch, of the dates that a
/// timestamp can name (January 1 of the year -262143).
pub const MIN_TIMESTAMP_SECS: i64 = -8_334_601_228_800;

/// The last second, counted from the Unix epoch, of the dates that a
/// timestamp can name (the end of December 31 of the year 262142).
pub const MAX_TIMESTAMP_SECS: i64 = 8_210_266_876_799;

/// Whether `secs` seconds and `nsecs` nanoseconds after the Unix epoch name
/// a date and time: the second lies in the supported range of dates, the
/// nanoseconds are under two seconds, and a second of one billion or more
/// nanoseconds (a leap second) is only allowed at the last second of a minute.
pub open spec fn timestamp_in_range(secs: i64, nsecs: u32) -> bool {
    &&& MIN_TIMESTAMP_SECS <= secs <= MAX_TIMESTAMP_SECS
    &&& nsecs < 2_000_000_000
    &&& nsecs >= 1_000_000_000 ==> secs % 60 == 59
}

/// What `chrono::NaiveDateTime::from_timestamp_opt(secs, nsecs)` holds when it
/// succeeds.
pub uninterp spec fn naive_at_timestamp(secs: i64, nsecs: u32) -> chrono::NaiveDateTime;

/// Calls `chrono::NaiveDateTime::from_timestamp_opt`. Claimed: it returns a
/// value exactly when `timestamp_in_range(secs, nsecs)` (the source finds the
/// day with `secs.div_euclid(86_400)`, which must fall between the first and
/// the last supported date, and the time of day with
/// `NaiveTime::from_num_seconds_from_midnight_opt`, which refuses two
/// seconds or more of nanoseconds and a leap second that does not end a
/// minute), and that value is the named `naive_at_timestamp(secs, nsecs)`.
#[verifier::external_body]
#[allow(deprecated)]
fn naive_from_timestamp_opt(secs: i64, nsecs: u32) -> (res: Option<chrono::NaiveDateTime>)
    ensures
        res is Some <==> timestamp_in_range(secs, nsecs),
        res matches Some(naive) ==> naive == naive_at_timestamp(secs, nsecs),
{
    chrono::NaiveDateTime::from_timestamp_opt(secs, nsecs)
}

/// The moment at which an edge was created, as a date and time in UTC.
#[derive(Debug, Clone, Copy, PartialEq)]
pub struct Timestamp(chrono::NaiveDateTime);

impl View for Timestamp {
    type V = chrono::NaiveDateTime;

    closed spec fn view(&self) -> chrono::NaiveDateTime {
        self.0
    }
}

impl Timestamp {
    /// The moment `secs` seconds and `nsecs` nanoseconds after the Unix epoch,
    /// both drawn from the fuzzer's input; refused as ill-formed when they
    /// name no date and time.
    pub fn from_arbitrary(secs: i64, nsecs: u32) -> (res: Result<Timestamp, ArbitraryError>)
        ensures
            res is Ok <==> timestamp_in_range(secs, nsecs),
            res matches Ok(dt) ==> dt@ == naive_at_timestamp(secs, nsecs),
            res matches Err(e) ==> e == ArbitraryError::IncorrectFormat,
    {
        match naive_from_timestamp_opt(secs, nsecs) {
            Some(naive) => Ok(Timestamp(naive)),
            None => Err(ArbitraryError::IncorrectFormat),
        }
    }

    /// The date and time in UTC this value holds.
    pub fn into_naive_utc(self) -> (dt: chrono::NaiveDateTime)
        ensures
            dt == self@,
    {
        self.0
    }
}

} // verus!
