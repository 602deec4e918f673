//! Wall-clock time, by which readings are stamped.

use std::time::{Duration, SystemTime, SystemTimeError, UNIX_EPOCH};
use vstd::prelude::*;

verus! {

/// A point in time as the system clock gives it.
#[verifier::external_type_specification]
#[verifier::external_body]
pub struct ExSystemTime(std::time::SystemTime);

/// The error of asking for the time since a later point.
#[verifier::external_type_specification]
#[verifier::external_body]
pub struct ExSystemTimeError(std::time::SystemTimeError);

/// `SystemTime::now` reads the system clock. Nothing is known of what it
/// returns.
pub assume_specification[ SystemTime::now ]() -> (now: SystemTime)
;

/// `SystemTime::duration_since` gives the time that passed between `earlier`
/// and `time`, or an error if `earlier` is the later of the two. Nothing is
/// claimed of the result, since neither point can be looked into.
pub assume_specification[ SystemTime::duration_since ](
    time: &SystemTime,
    earlier: SystemTime,
) -> (passed: Result<Duration, SystemTimeError>)
;

/// `Duration::as_millis` gives the whole milliseconds of a span.
pub assume_specification[ Duration::as_millis ](span: &Duration) -> (millis: u128)
;

/// Hands out the constant `std::time::UNIX_EPOCH`, the point from which
/// timestamps count.
#[verifier::external_body]
fn unix_epoch() -> (epoch: SystemTime) {
    UNIX_EPOCH
}

/// The clock could not be read as a time since the Unix epoch.
#[derive(Clone, Copy, Debug, PartialEq, Eq, Structural)]
pub enum ClockError {
    /// The system clock stands before the Unix epoch.
    BeforeEpoch,
}

/// What the clock's answer means for a timestamp: the milliseconds of the span
/// since the epoch, or the error that the clock stands before it.
pub open spec fn stamp_of(millis: Option<u128>) -> Result<u128, ClockError> {
    match millis {
        Some(m) => Ok(m),
        None => Err(ClockError::BeforeEpoch),
    }
}

/// Turns the clock's answer into a timestamp.
pub fn stamp(millis: Option<u128>) -> (r: Result<u128, ClockError>)
    ensures
        r == stamp_of(millis),
{
    match millis {
        Some(m) => Ok(m),
        None => Err(ClockError::BeforeEpoch),
    }
}

/// The wall-clock time in milliseconds since the Unix epoch. What comes back
/// depends on the clock alone; it is an error exactly when the clock stands
/// before the epoch. No clause speaks of the time itself: no two readings of
/// the clock need agree, so there is nothing that the result could be held to.
pub fn timestamp_m() -> (r: Result<u128, ClockError>)
    ensures
        exists|millis: Option<u128>| r == stamp_of(millis),
{
    let start = SystemTime::now();
    let millis = match start.duration_since(unix_epoch()) {
        Ok(since_the_epoch) => Some(since_the_epoch.as_millis()),
        Err(_) => None,
    };
    let r = stamp(millis);
    assert(r == stamp_of(millis));
    r
}

} // verus!
