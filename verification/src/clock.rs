//! The wall clock, in whole Unix seconds.
use std::time::{Duration, SystemTime, SystemTimeError, UNIX_EPOCH};
use vstd::prelude::*;

verus! {

#[verifier::external_type_specification]
#[verifier::external_body]
pub struct ExSystemTime(SystemTime);

#[verifier::external_type_specification]
#[verifier::external_body]
pub struct ExSystemTimeError(SystemTimeError);

/// Calls `SystemTime::now`. Nothing is stated of the reading.
#[verifier::external_body]
fn read_clock() -> SystemTime {
    SystemTime::now()
}

/// Calls `SystemTime::duration_since` with the Unix epoch. Nothing is stated:
/// it fails when the reading is before the epoch.
#[verifier::external_body]
fn since_epoch(t: SystemTime) -> Result<Duration, SystemTimeError> {
    t.duration_since(UNIX_EPOCH)
}

/// Calls `Duration::as_secs`. Nothing is stated of the value.
#[verifier::external_body]
fn whole_seconds(d: Duration) -> u64 {
    d.as_secs()
}

/// Whole seconds since the epoch as an `i64`: `None` when there is no
/// reading, or when the reading does not fit an `i64`.
pub fn unix_seconds(since: Option<u64>) -> (r: Option<i64>)
    ensures
        r == (match since {
            Some(s) => if s <= i64::MAX as u64 {
                Some(s as i64)
            } else {
                None
            },
            None => None,
        }),
{
    match since {
        Some(s) => if s <= 9223372036854775807u64 {
            Some(s as i64)
        } else {
            None
        },
        None => None,
    }
}

/// The current time in whole Unix seconds (as `unix_seconds` converts the
/// clock's reading), or `None` when the clock reads before the epoch or past
/// the range of `i64`.
pub fn unix_time() -> (r: Option<i64>)
    ensures
        r matches Some(t) ==> t >= 0,
{
    let since = match since_epoch(read_clock()) {
        Ok(d) => Some(whole_seconds(d)),
        Err(_) => None,
    };
    unix_seconds(since)
}

} // verus!
