//! The monotonic clock that stamps frames.

use vstd::prelude::*;

verus! {

/// `std::time::Instant`: a reading of the monotonic clock.
#[verifier::external_type_specification]
#[verifier::external_body]
pub struct ExInstant(std::time::Instant);

/// `Instant::now` reads the monotonic clock. Nothing is claimed of the
/// reading.
pub assume_specification[ std::time::Instant::now ]() -> (reading: std::time::Instant);

/// `Instant::elapsed` is the time that has passed since the reading was
/// taken. Nothing is claimed of it.
pub assume_specification[ std::time::Instant::elapsed ](since: &std::time::Instant) -> (age:
    std::time::Duration);

/// `Duration::as_nanos` is the duration in whole nanoseconds. Nothing is
/// claimed of the number.
pub assume_specification[ std::time::Duration::as_nanos ](duration: &std::time::Duration) -> (nanos:
    u128);

/// A clock that counts nanoseconds from the moment it was made. Its readings
/// are the instants that the state machine is fed.
pub struct Clock {
    origin: std::time::Instant,
}

impl Clock {
    /// A clock that starts now.
    pub fn new() -> (clock: Self) {
        Clock { origin: std::time::Instant::now() }
    }

    /// Nanoseconds since the clock was made.
    pub fn now(&self) -> (nanos: u128) {
        self.origin.elapsed().as_nanos()
    }
}

} // verus!
