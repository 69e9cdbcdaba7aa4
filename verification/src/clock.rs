//! The monotonic clock. Verified code never asks what time it is: it is told,
//! in nanoseconds since an origin that the caller keeps.
use std::time::{Duration, Instant, SystemTime, SystemTimeError, UNIX_EPOCH};
use vstd::prelude::*;

verus! {

/// `std::time::Instant`, carried but not looked into.
#[verifier::external_type_specification]
#[verifier::external_body]
pub struct ExInstant(std::time::Instant);

/// `Instant::now`: the present. Nothing is promised of it.
#[verifier::external_body]
pub(crate) fn now() -> Instant {
    Instant::now()
}

/// `std::time::SystemTime`, carried but not looked into.
#[verifier::external_type_specification]
#[verifier::external_body]
pub struct ExSystemTime(std::time::SystemTime);

/// `std::time::SystemTimeError`, carried but not looked into.
#[verifier::external_type_specification]
#[verifier::external_body]
pub struct ExSystemTimeError(std::time::SystemTimeError);

/// `Instant::elapsed`: the time since `origin`. It depends on the clock, so nothing
/// is promised of it.
#[verifier::external_body]
fn elapsed(origin: &Instant) -> Duration {
    origin.elapsed()
}

/// `Duration::as_nanos`: the length of a span of time. A span is opaque, so nothing
/// is said of it.
#[verifier::external_body]
fn in_nanos(span: &Duration) -> u128 {
    span.as_nanos()
}

/// `Duration::as_secs`: the whole seconds in a span of time. A span is opaque, so
/// nothing is said of them.
#[verifier::external_body]
fn in_seconds(span: &Duration) -> u64 {
    span.as_secs()
}

/// `SystemTime::now`: the date. Nothing is promised of it.
#[verifier::external_body]
fn date() -> SystemTime {
    SystemTime::now()
}

/// `SystemTime::duration_since` for the Unix epoch: the time since then, or an error
/// for a date before it. A date is opaque, so nothing is said of which it is.
#[verifier::external_body]
fn since_epoch(date: SystemTime) -> Result<Duration, SystemTimeError> {
    date.duration_since(UNIX_EPOCH)
}

/// The time since `origin`, in nanoseconds. It depends on the clock alone.
pub(crate) fn nanos_since(origin: &Instant) -> u128 {
    in_nanos(&elapsed(origin))
}

/// The date in whole seconds since the Unix epoch, and zero on a clock that is set
/// before it. It depends on the clock alone.
pub(crate) fn unix_seconds() -> u64 {
    match since_epoch(date()) {
        Ok(span) => in_seconds(&span),
        Err(_) => 0,
    }
}

/// `now + span`, or the end of time where that lies beyond it.
pub open spec fn later(now: u128, span: u128) -> u128 {
    if now + span <= u128::MAX {
        (now + span) as u128
    } else {
        u128::MAX
    }
}

pub fn after(now: u128, span: u128) -> (r: u128)
    ensures
        r == later(now, span),
{
    if now <= u128::MAX - span {
        now + span
    } else {
        u128::MAX
    }
}

} // verus!
