//! Readings of the process clocks.
//!
//! Every time source the crate uses is gathered here. Each reading depends on
//! the moment it is taken, so the wrappers promise nothing about the values
//! beyond their sign; the verified code is written to hold for every reading.

use vstd::prelude::*;
use std::time::Instant;
use std::time::SystemTime;
use std::time::UNIX_EPOCH;

verus! {

/// A monotonic reference point of the process clock, opaque to verification.
#[verifier::external_type_specification]
#[verifier::external_body]
pub struct ExInstant(Instant);

/// Relies on `std::time::Instant::now`: a reference point on the monotonic
/// process clock. Nothing is assumed of the value itself.
#[verifier::external_body]
pub fn instant_now() -> Instant {
    Instant::now()
}

/// Relies on `Instant::now` and `Instant::duration_since` (which saturates to
/// zero when `earlier` lies in the future): the microseconds elapsed since
/// `earlier`, clamped into `u64`.
#[verifier::external_body]
pub fn micros_since(earlier: &Instant) -> u64 {
    let elapsed = Instant::now().duration_since(*earlier);
    u64::try_from(elapsed.as_micros()).unwrap_or(u64::MAX)
}

/// Relies on `Instant::now` and `Instant::duration_since`: the nanoseconds
/// elapsed since `earlier`, clamped into `i64`. A duration is never negative,
/// so neither is the reading.
#[verifier::external_body]
pub fn nanos_since(earlier: &Instant) -> (r: i64)
    ensures
        0 <= r,
{
    let elapsed = Instant::now().duration_since(*earlier);
    i64::try_from(elapsed.as_nanos()).unwrap_or(i64::MAX)
}

/// Relies on `SystemTime::now` and `duration_since(UNIX_EPOCH)`: the
/// nanoseconds since the epoch, clamped into `i64`, or 0 when the system
/// clock stands before the epoch.
#[verifier::external_body]
pub fn epoch_nanos_now() -> (r: i64)
    ensures
        0 <= r,
{
    match SystemTime::now().duration_since(UNIX_EPOCH) {
        Ok(elapsed) => i64::try_from(elapsed.as_nanos()).unwrap_or(i64::MAX),
        Err(_) => 0,
    }
}

/// Relies on chrono's `Utc::now().timestamp_millis()`: the wall-clock time in
/// milliseconds since the epoch. Nothing is assumed of the value.
#[verifier::external_body]
pub fn utc_now_millis() -> i64 {
    chrono::Utc::now().timestamp_millis()
}

} // verus!
