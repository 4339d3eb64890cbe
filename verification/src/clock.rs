//! The host clock, and what to record when it cannot be read.

use std::time::{Duration, SystemTime, SystemTimeError, UNIX_EPOCH};
use vstd::prelude::*;

verus! {

/// `std::time::SystemTime`, carried through as an opaque value.
#[verifier::external_type_specification]
#[verifier::external_body]
pub struct ExSystemTime(SystemTime);

/// `std::time::SystemTimeError`, carried through as an opaque value.
#[verifier::external_type_specification]
#[verifier::external_body]
pub struct ExSystemTimeError(SystemTimeError);

/// `std::time::UNIX_EPOCH`, the instant from which timestamps are counted.
/// Nothing is claimed of the value.
#[verifier::external_body]
fn unix_epoch() -> (epoch: SystemTime) {
    UNIX_EPOCH
}

/// `SystemTime::now` reads the host clock. Nothing is claimed of the value.
pub assume_specification[ SystemTime::now ]() -> (now: SystemTime)
;

/// `SystemTime::duration_since` gives the time elapsed since `earlier`, or an
/// error when `earlier` is the later of the two. Nothing is claimed of which.
pub assume_specification[ SystemTime::duration_since ](
    time: &SystemTime,
    earlier: SystemTime,
) -> (elapsed: Result<Duration, SystemTimeError>)
;

/// `Duration::as_millis` gives the whole milliseconds in a duration. Nothing
/// is claimed of the number.
pub assume_specification[ Duration::as_millis ](duration: &Duration) -> (millis: u128)
;

/// The timestamp recorded for a clock reading: the reading itself, and zero
/// when there is none.
pub open spec fn timestamp_or_default(reading: Option<u128>) -> u128 {
    match reading {
        Some(millis) => millis,
        None => 0,
    }
}

/// Reads the host clock as milliseconds since the Unix epoch. Gives `None`
/// when the clock stands before the epoch.
pub fn read_millis() -> (reading: Option<u128>) {
    let now = SystemTime::now();
    match now.duration_since(unix_epoch()) {
        Ok(elapsed) => Some(elapsed.as_millis()),
        Err(_) => None,
    }
}

/// Turns a clock reading into the timestamp to record. A failed reading never
/// stops a measurement from being recorded: it is recorded at zero.
pub fn timestamp_from(reading: Option<u128>) -> (millis: u128)
    ensures
        millis == timestamp_or_default(reading),
{
    match reading {
        Some(millis) => millis,
        None => 0,
    }
}

} // verus!
