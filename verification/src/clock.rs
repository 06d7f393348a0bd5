//! The clock that workers are timed by: tokio's monotonic clock, read as
//! nanoseconds since the instant at which the clock was started.

use vstd::prelude::*;
use crate::time::Timestamp;

verus! {

/// `tokio::time::Instant`: a reading of tokio's monotonic clock, of which
/// nothing is visible here.
#[verifier::external_type_specification]
#[verifier::external_body]
pub struct ExInstant(tokio::time::Instant);

/// Calls `tokio::time::Instant::now`. What it returns depends on when it is
/// called, so nothing is claimed of it.
#[verifier::external_body]
fn instant_now() -> (now: tokio::time::Instant) {
    tokio::time::Instant::now()
}

/// Calls `tokio::time::Instant::elapsed` on `origin` and hands on the
/// nanoseconds of the `Duration` that came back. What it returns depends on
/// when it is called, so nothing is claimed of it.
#[verifier::external_body]
fn nanos_since(origin: &tokio::time::Instant) -> (nanos: u128) {
    origin.elapsed().as_nanos()
}

/// A clock that counts from the instant at which it was started.
#[derive(Clone, Copy, Debug)]
pub struct Clock {
    origin: tokio::time::Instant,
}

impl Clock {
    /// The instant from which the clock counts.
    pub closed spec fn epoch(&self) -> tokio::time::Instant {
        self.origin
    }

    /// A clock that counts from `origin`.
    pub fn starting_at(origin: tokio::time::Instant) -> (clock: Clock)
        ensures
            clock.epoch() == origin,
    {
        Clock { origin }
    }

    /// A clock that starts counting now: its epoch is the instant that
    /// tokio's clock shows at the call, whichever that is.
    pub fn start() -> (clock: Clock) {
        Clock::starting_at(instant_now())
    }

    /// The instant from which the clock counts.
    pub fn origin(&self) -> (origin: tokio::time::Instant)
        ensures
            origin == self.epoch(),
    {
        self.origin
    }

    /// The time that has passed since the clock was started, whatever
    /// tokio's clock measures it at, as `Timestamp::saturating_from_nanos`
    /// gives it.
    pub fn now(&self) -> (now: Timestamp) {
        let nanos: u128 = nanos_since(&self.origin);
        Timestamp::saturating_from_nanos(nanos)
    }
}

} // verus!
