//! Wall-clock timestamps in milliseconds since the Unix epoch.

use std::time::{Duration, SystemTime, SystemTimeError, UNIX_EPOCH};
use vstd::prelude::*;

verus! {

/// `std::time::SystemTime`, a reading of the system clock. Nothing inside it
/// is visible to the proofs.
#[verifier::external_type_specification]
#[verifier::external_body]
pub struct ExSystemTime(std::time::SystemTime);

/// `std::time::SystemTimeError`, what `SystemTime::duration_since` fails
/// with. Nothing inside it is visible to the proofs.
#[verifier::external_type_specification]
#[verifier::external_body]
pub struct ExSystemTimeError(std::time::SystemTimeError);

/// Why no timestamp could be given.
#[derive(Clone, Copy, Debug, PartialEq, Eq, Structural)]
pub enum ClockError {
    /// The system clock stands before the Unix epoch.
    BeforeEpoch,
    /// The time since the epoch, in milliseconds, does not fit an `i64`.
    OutOfRange,
}

/// Milliseconds that `secs` whole seconds plus `nanos` nanoseconds amount to,
/// rounded down.
pub open spec fn millis_of(secs: int, nanos: int) -> int {
    secs * 1000 + nanos / 1_000_000
}

/// Calls `SystemTime::now`. The reading depends on the machine's clock, so
/// nothing is claimed of it.
#[verifier::external_body]
fn system_now() -> SystemTime {
    SystemTime::now()
}

/// Calls `SystemTime::duration_since` with `UNIX_EPOCH` as the earlier time.
/// Whether it succeeds depends on the reading, so nothing is claimed of the
/// result.
#[verifier::external_body]
fn since_unix_epoch(now: &SystemTime) -> Result<Duration, SystemTimeError> {
    now.duration_since(UNIX_EPOCH)
}

/// Calls `Duration::as_secs`: the whole seconds of the duration. Nothing is
/// claimed of their number.
#[verifier::external_body]
fn whole_seconds(elapsed: &Duration) -> u64 {
    elapsed.as_secs()
}

/// Calls `Duration::subsec_nanos`: the part of the duration below one second,
/// in nanoseconds. As std documents, it is less than one billion.
#[verifier::external_body]
fn subsec_nanos(elapsed: &Duration) -> (nanos: u32)
    ensures
        nanos < 1_000_000_000,
{
    elapsed.subsec_nanos()
}

/// Converts a duration given as whole seconds and sub-second nanoseconds to
/// milliseconds, or `None` when the result does not fit an `i64`.
pub fn millis_from_parts(secs: u64, nanos: u32) -> (ms: Option<i64>)
    ensures
        ms is Some <==> millis_of(secs as int, nanos as int) <= i64::MAX,
        ms matches Some(v) ==> v == millis_of(secs as int, nanos as int),
{
    if secs > 9_223_372_036_854_775u64 {
        return None;
    }
    let whole: u64 = secs * 1000;
    let part: u64 = (nanos / 1_000_000) as u64;
    if part > 9_223_372_036_854_775_807u64 - whole {
        return None;
    }
    let total: u64 = whole + part;
    Some(total as i64)
}

/// What is made of one reading of the clock: its distance from the epoch in
/// milliseconds, where it stands at or after the epoch and that number fits.
pub open spec fn timestamp_of(elapsed: Option<(u64, u32)>) -> Result<i64, ClockError> {
    match elapsed {
        None => Err(ClockError::BeforeEpoch),
        Some((secs, nanos)) => if millis_of(secs as int, nanos as int) <= i64::MAX {
            Ok(millis_of(secs as int, nanos as int) as i64)
        } else {
            Err(ClockError::OutOfRange)
        },
    }
}

/// Turns one reading of the clock into a timestamp. `elapsed` is the time
/// since the epoch as whole seconds and nanoseconds, or `None` for a clock
/// that stands before the epoch.
pub fn timestamp_from(elapsed: Option<(u64, u32)>) -> (stamp: Result<i64, ClockError>)
    ensures
        stamp == timestamp_of(elapsed),
{
    match elapsed {
        None => Err(ClockError::BeforeEpoch),
        Some((secs, nanos)) => match millis_from_parts(secs, nanos) {
            Some(ms) => Ok(ms),
            None => Err(ClockError::OutOfRange),
        },
    }
}

/// The present time in milliseconds since the Unix epoch.
///
/// The clock decides the value. Whatever it reads, a timestamp that is given
/// is not negative.
pub fn current_ms() -> (stamp: Result<i64, ClockError>)
    ensures
        stamp matches Ok(ms) ==> ms >= 0,
{
    let now = system_now();
    let elapsed = match since_unix_epoch(&now) {
        Ok(duration) => Some((whole_seconds(&duration), subsec_nanos(&duration))),
        Err(_) => None,
    };
    timestamp_from(elapsed)
}

} // verus!
