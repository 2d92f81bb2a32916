//! Readings of the system clock, counted from the Unix epoch.

use std::time::Duration;
use std::time::SystemTimeError;
use std::time::UNIX_EPOCH;
use vstd::prelude::*;

verus! {

#[verifier::external_type_specification]
#[verifier::external_body]
pub struct ExSystemTimeError(SystemTimeError);

/// `Duration::as_nanos`. Nothing is claimed of the number.
pub assume_specification[ Duration::as_nanos ](d: &Duration) -> (n: u128);

/// `Duration::as_millis`. Nothing is claimed of the number.
pub assume_specification[ Duration::as_millis ](d: &Duration) -> (n: u128);

/// `Duration::as_secs`. Nothing is claimed of the number.
pub assume_specification[ Duration::as_secs ](d: &Duration) -> (n: u64);

/// `SystemTime::elapsed` on `UNIX_EPOCH`: the time since the epoch, or an
/// error when the clock is set before it. Nothing is claimed of either.
#[verifier::external_body]
fn since_epoch() -> Result<Duration, SystemTimeError> {
    UNIX_EPOCH.elapsed()
}

/// Nanoseconds since the epoch. A clock set before the epoch reads as the
/// epoch itself.
pub fn now_nanos() -> u128 {
    match since_epoch() {
        Ok(d) => d.as_nanos(),
        Err(_) => 0,
    }
}

/// Milliseconds since the epoch, cut to 64 bits. A clock set before the
/// epoch reads as the epoch itself.
pub fn now_millis() -> u64 {
    match since_epoch() {
        Ok(d) => {
            let m: u128 = d.as_millis();
            #[verifier::truncate]
            (m as u64)
        },
        Err(_) => 0,
    }
}

/// Whole seconds since the epoch. A clock set before the epoch reads as
/// the epoch itself.
pub fn now_secs() -> u64 {
    match since_epoch() {
        Ok(d) => d.as_secs(),
        Err(_) => 0,
    }
}

} // verus!
