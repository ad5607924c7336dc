//! The time of a sample.

use std::time::{Duration, SystemTime, SystemTimeError, UNIX_EPOCH};
use vstd::prelude::*;

verus! {

/// `std::time::SystemTime`: a point in time as the system clock gives it.
/// Nothing is known of a value of it.
#[verifier::external_type_specification]
#[verifier::external_body]
pub struct ExSystemTime(SystemTime);

/// `std::time::SystemTimeError`: what `SystemTime::duration_since` returns
/// where the second point in time is the later one. Nothing is known of a
/// value of it.
#[verifier::external_type_specification]
#[verifier::external_body]
pub struct ExSystemTimeError(SystemTimeError);

/// Calls `SystemTime::now`. The result depends on the clock, so nothing is
/// claimed of it.
#[verifier::external_body]
fn now() -> SystemTime {
    SystemTime::now()
}

/// Calls `SystemTime::duration_since` with the Unix epoch as the earlier
/// point. Nothing is claimed of the result: a clock that is set before the
/// epoch gives an error.
#[verifier::external_body]
fn since_epoch(time: &SystemTime) -> Result<Duration, SystemTimeError> {
    time.duration_since(UNIX_EPOCH)
}

/// Calls `Duration::as_secs`: the whole seconds of a duration. Nothing is
/// claimed of the result.
#[verifier::external_body]
fn whole_seconds(duration: &Duration) -> u64 {
    duration.as_secs()
}

/// The timestamp for a reading of `secs` whole seconds since the Unix
/// epoch: `secs` itself while it fits a signed 64-bit number, and from there
/// on the number that has the same 64 bits.
pub open spec fn timestamp_of(secs: u64) -> int {
    if secs <= i64::MAX {
        secs as int
    } else {
        secs - 0x1_0000_0000_0000_0000
    }
}

/// The timestamp for a reading of `secs` whole seconds since the Unix epoch.
pub fn timestamp_from_secs(secs: u64) -> (ts: i64)
    ensures
        ts == timestamp_of(secs),
        secs <= i64::MAX ==> ts == secs,
{
    if secs <= 0x7FFF_FFFF_FFFF_FFFF {
        secs as i64
    } else {
        let low: u64 = secs - 0x8000_0000_0000_0000;
        (low as i64) + i64::MIN
    }
}

/// The seconds since the Unix epoch according to the system clock, or `None`
/// where the clock stands before the epoch. The clock decides the result;
/// what becomes of its reading is stated at [`timestamp_from_reading`].
pub fn get_timestamp() -> (ts: Option<i64>) {
    let time = now();
    let reading: Option<u64> = match since_epoch(&time) {
        Ok(duration) => Some(whole_seconds(&duration)),
        Err(_) => None,
    };
    timestamp_from_reading(reading)
}

/// The timestamp for a reading of the clock: none where the clock stands
/// before the epoch and has no reading, and else the timestamp for the whole
/// seconds that were read.
pub fn timestamp_from_reading(reading: Option<u64>) -> (ts: Option<i64>)
    ensures
        reading is None ==> ts is None,
        reading matches Some(secs) ==> ts matches Some(t) && t == timestamp_of(secs),
{
    match reading {
        Some(secs) => Some(timestamp_from_secs(secs)),
        None => None,
    }
}

} // verus!
