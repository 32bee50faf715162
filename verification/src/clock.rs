//! The wall clock, as a source of readings in nanoseconds.

use std::time::Duration;
use std::time::Instant;
use vstd::prelude::*;

verus! {

/// std's `Instant`, taken as an opaque value.
#[verifier::external_type_specification]
#[verifier::external_body]
pub struct ExInstant(std::time::Instant);

/// `Instant::now` reads the monotonic clock. Nothing is claimed of the
/// reading.
pub assume_specification[ Instant::now ]() -> (instant: Instant);

/// `Instant::elapsed` is the time from the instant to the present, zero if
/// the instant is not in the past. Nothing is claimed of the amount.
pub assume_specification[ Instant::elapsed ](instant: &Instant) -> (since: Duration);

/// `Duration::as_nanos` is the duration in whole nanoseconds. Nothing is
/// claimed of the number, as a `Duration` is opaque here.
pub assume_specification[ Duration::as_nanos ](duration: &Duration) -> (nanos: u128);

/// A clock that counts nanoseconds from the moment it was started.
pub struct Clock {
    origin: Instant,
}

impl Clock {
    /// Starts a clock at the present moment.
    pub fn start() -> (clock: Clock) {
        Clock { origin: Instant::now() }
    }

    /// The present moment, in nanoseconds since the clock was started.
    pub fn now(&self) -> (reading: u128) {
        let since = self.origin.elapsed();
        since.as_nanos()
    }
}

} // verus!
