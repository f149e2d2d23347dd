//! The wall clock, read from the system through `std::time`.
use std::time::{Duration, SystemTime, SystemTimeError};
use vstd::prelude::*;

verus! {

/// `std::time::SystemTime`, a reading of the system clock.
#[verifier::external_type_specification]
#[verifier::external_body]
pub struct ExSystemTime(SystemTime);

/// `std::time::SystemTimeError`, which holds how far a time lies before another.
#[verifier::external_type_specification]
#[verifier::external_body]
pub struct ExSystemTimeError(SystemTimeError);

/// `SystemTime::now()`: the current reading of the system clock. Nothing is stated
/// of it: it is the time of the call.
#[verifier::external_body]
fn system_now() -> (r: SystemTime) {
    SystemTime::now()
}

/// `SystemTime::duration_since(UNIX_EPOCH)`: how long after the Unix epoch `t` lies,
/// or an error when it lies before it. Nothing is stated of which comes: the values
/// are opaque here.
#[verifier::external_body]
fn since_unix_epoch(t: &SystemTime) -> (r: Result<Duration, SystemTimeError>) {
    t.duration_since(SystemTime::UNIX_EPOCH)
}

/// `SystemTimeError::duration`: how far the time lay before the epoch.
#[verifier::external_body]
fn error_duration(e: &SystemTimeError) -> (r: Duration) {
    e.duration()
}

/// `Duration::as_millis`: the whole milliseconds of a duration.
#[verifier::external_body]
fn whole_millis(d: &Duration) -> (r: u128) {
    d.as_millis()
}

/// `Duration::as_nanos`: the whole nanoseconds of a duration.
#[verifier::external_body]
fn whole_nanos(d: &Duration) -> (r: u128) {
    d.as_nanos()
}

/// Nanoseconds since the Unix epoch by the system clock, or none for a clock set
/// before the epoch. Which time it is, no contract can know; reading it never fails.
pub fn utc_now_nanos() -> (r: Option<u128>) {
    let now = system_now();
    match since_unix_epoch(&now) {
        Ok(d) => Some(whole_nanos(&d)),
        Err(_) => None,
    }
}

/// A clock reading `ms` milliseconds from the Unix epoch, after it or before it,
/// as signed milliseconds, saturated at the bounds of `i64`.
pub open spec fn signed_millis_spec(before_epoch: bool, ms: u128) -> i64 {
    if !before_epoch {
        if ms > i64::MAX { i64::MAX } else { ms as i64 }
    } else {
        if ms > i64::MAX { i64::MIN } else { (-(ms as int)) as i64 }
    }
}

/// A reading `ms` milliseconds from the epoch as signed milliseconds (see
/// `signed_millis_spec`).
pub fn signed_millis(before_epoch: bool, ms: u128) -> (r: i64)
    ensures
        r == signed_millis_spec(before_epoch, ms),
{
    if !before_epoch {
        if ms > 9_223_372_036_854_775_807u128 { i64::MAX } else { ms as i64 }
    } else {
        if ms > 9_223_372_036_854_775_807u128 { i64::MIN } else { -(ms as i64) }
    }
}

/// Milliseconds since the Unix epoch by the system clock: negative for a clock set
/// before the epoch, and saturated at the bounds of `i64` (see `signed_millis`).
/// Which time it is, no contract can know; reading it never fails.
pub fn utc_now_millis() -> (r: i64)
    ensures
        exists|before_epoch: bool, ms: u128| r == #[trigger] signed_millis_spec(before_epoch, ms),
{
    let now = system_now();
    let r = match since_unix_epoch(&now) {
        Ok(d) => signed_millis(false, whole_millis(&d)),
        Err(e) => signed_millis(true, whole_millis(&error_duration(&e))),
    };
    r
}

} // verus!
