//! Reading the wall clock as whole seconds since the Unix epoch.

use std::time::{Duration, SystemTime, SystemTimeError, UNIX_EPOCH};
use vstd::prelude::*;

verus! {

/// `std::time::SystemTime`, carried through as an opaque value.
#[verifier::external_type_specification]
#[verifier::external_body]
pub struct ExSystemTime(std::time::SystemTime);

/// `std::time::SystemTimeError`, carried through as an opaque value.
#[verifier::external_type_specification]
#[verifier::external_body]
pub struct ExSystemTimeError(std::time::SystemTimeError);

/// Why the clock could not be read as a time since the epoch.
#[derive(Clone, Copy, Debug, PartialEq, Eq)]
pub enum ClockError {
    /// The system clock is set to a moment before the Unix epoch.
    BeforeEpoch,
}

/// Calls `SystemTime::now`. Nothing is claimed of the moment returned.
#[verifier::external_body]
fn system_now() -> (now: SystemTime) {
    SystemTime::now()
}

/// Calls `SystemTime::duration_since` with the Unix epoch as the earlier
/// moment. Nothing is claimed of the outcome: it is an error when `moment`
/// lies before the epoch.
#[verifier::external_body]
fn since_unix_epoch(moment: &SystemTime) -> (elapsed: Result<Duration, SystemTimeError>) {
    moment.duration_since(UNIX_EPOCH)
}

/// The number of whole seconds in `span`. The function itself is not
/// defined in this crate: it stands for what `Duration::as_secs` returns.
pub uninterp spec fn span_seconds(span: Duration) -> u64;

/// Calls `Duration::as_secs`.
///
/// Taken on trust: the number returned is a function of the span alone,
/// its whole seconds.
#[verifier::external_body]
fn whole_seconds(span: &Duration) -> (seconds: u64)
    ensures
        seconds == span_seconds(*span),
{
    span.as_secs()
}

/// Turns the measured time since the Unix epoch into whole seconds. A
/// failed measurement means that the clock stood before the epoch.
pub fn seconds_since_epoch(
    elapsed: Result<Duration, SystemTimeError>,
) -> (seconds: Result<u64, ClockError>)
    ensures
        elapsed matches Ok(span) ==> seconds == Ok::<u64, ClockError>(span_seconds(span)),
        elapsed is Err ==> seconds == Err::<u64, ClockError>(ClockError::BeforeEpoch),
{
    match elapsed {
        Ok(span) => Ok(whole_seconds(&span)),
        Err(_) => Err(ClockError::BeforeEpoch),
    }
}

/// The current time in whole seconds since the Unix epoch, or the reason
/// why it cannot be told. Both are up to the system clock.
pub(crate) fn unix_seconds() -> (now: Result<u64, ClockError>) {
    let moment = system_now();
    seconds_since_epoch(since_unix_epoch(&moment))
}

} // verus!
