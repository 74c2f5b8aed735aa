//! The system clock, read as time since the Unix epoch.

use vstd::prelude::*;
use std::time::{Duration, SystemTime, SystemTimeError};

verus! {

/// `std::time::SystemTime`, carried through as an opaque instant.
#[verifier::external_type_specification]
#[verifier::external_body]
pub struct ExSystemTime(SystemTime);

/// `std::time::SystemTimeError`, the opaque error of a clock that shows an
/// instant before the one it is compared with.
#[verifier::external_type_specification]
#[verifier::external_body]
pub struct ExSystemTimeError(SystemTimeError);

/// Calls `SystemTime::now`. Nothing is claimed of the instant it returns.
#[verifier::external_body]
fn system_now() -> SystemTime {
    SystemTime::now()
}

/// Calls `SystemTime::duration_since` with `UNIX_EPOCH` as the earlier
/// instant. Nothing is claimed of the outcome.
#[verifier::external_body]
fn since_epoch(instant: &SystemTime) -> Result<Duration, SystemTimeError> {
    instant.duration_since(std::time::UNIX_EPOCH)
}

/// Calls `Duration::as_millis`. Nothing is claimed of the count.
#[verifier::external_body]
fn whole_millis(span: &Duration) -> u128 {
    span.as_millis()
}

/// Calls `Duration::as_secs`. Nothing is claimed of the count.
#[verifier::external_body]
fn whole_secs(span: &Duration) -> u64 {
    span.as_secs()
}

/// Why the clock could not be used.
#[derive(Clone, Copy, Debug, PartialEq, Eq, Structural)]
pub enum ClockError {
    /// The clock shows an instant before the Unix epoch.
    BeforeEpoch,
    /// The seconds since the epoch do not fit a signed 64-bit timestamp.
    OutOfRange,
    /// The clock shows an instant before one that was read earlier.
    WentBackwards,
}

/// One reading of the clock.
#[derive(Clone, Copy, Debug, PartialEq, Eq, Structural)]
pub struct ClockReading {
    /// Milliseconds since the Unix epoch.
    pub millis: u128,
    /// Whole seconds since the Unix epoch.
    pub timestamp: i64,
}

/// What a reading is made of, given the outcome of measuring the time since
/// the epoch: `None` stands for a clock before the epoch.
pub open spec fn reading_of(measured: Option<(u128, u64)>) -> Result<ClockReading, ClockError> {
    match measured {
        None => Err(ClockError::BeforeEpoch),
        Some((millis, secs)) => if secs <= i64::MAX as u64 {
            Ok(ClockReading { millis, timestamp: secs as i64 })
        } else {
            Err(ClockError::OutOfRange)
        },
    }
}

/// Builds a reading from the milliseconds and seconds that were measured.
pub fn make_reading(measured: Option<(u128, u64)>) -> (r: Result<ClockReading, ClockError>)
    ensures
        r == reading_of(measured),
{
    match measured {
        None => Err(ClockError::BeforeEpoch),
        Some((millis, secs)) => if secs <= i64::MAX as u64 {
            Ok(ClockReading { millis, timestamp: secs as i64 })
        } else {
            Err(ClockError::OutOfRange)
        },
    }
}

/// Reads the clock. Whatever the clock shows, the outcome is `reading_of`
/// some measurement.
pub fn read_clock() -> (r: Result<ClockReading, ClockError>)
    ensures
        exists|measured: Option<(u128, u64)>| r == reading_of(measured),
{
    let now = system_now();
    let measured = match since_epoch(&now) {
        Ok(span) => Some((whole_millis(&span), whole_secs(&span))),
        Err(_) => None,
    };
    make_reading(measured)
}

} // verus!
