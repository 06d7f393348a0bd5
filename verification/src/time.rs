//! Spans of time and points in time, both in whole nanoseconds.

use vstd::prelude::*;

verus! {

/// Nanoseconds in one millisecond.
pub const NANOS_PER_MILLI: u64 = 1_000_000;

/// Nanoseconds in one second.
pub const NANOS_PER_SEC: u64 = 1_000_000_000;

/// A length of time.
#[derive(Clone, Copy, Debug, PartialEq, Eq, PartialOrd, Ord, Hash, Structural)]
pub struct Span {
    pub nanos: u64,
}

/// A point in time, counted from an epoch that the clock in use chose.
#[derive(Clone, Copy, Debug, PartialEq, Eq, PartialOrd, Ord, Hash, Structural)]
pub struct Timestamp {
    pub nanos: u64,
}

/// The time that passes from `earlier` to `later`; nothing where `later`
/// does not come after `earlier`.
pub open spec fn span_between(earlier: Timestamp, later: Timestamp) -> nat {
    if later.nanos >= earlier.nanos {
        (later.nanos - earlier.nanos) as nat
    } else {
        0
    }
}

impl Span {
    pub fn from_nanos(nanos: u64) -> (span: Span)
        ensures
            span.nanos == nanos,
    {
        Span { nanos }
    }

    /// `millis` milliseconds, or `None` where that many nanoseconds do not
    /// fit in 64 bits.
    pub fn from_millis(millis: u64) -> (span: Option<Span>)
        ensures
            millis * NANOS_PER_MILLI <= u64::MAX ==> span == Some(
                Span { nanos: (millis * NANOS_PER_MILLI) as u64 },
            ),
            millis * NANOS_PER_MILLI > u64::MAX ==> span.is_none(),
    {
        match millis.checked_mul(NANOS_PER_MILLI) {
            Some(nanos) => Some(Span { nanos }),
            None => None,
        }
    }

    /// `secs` seconds, or `None` where that many nanoseconds do not fit in
    /// 64 bits.
    pub fn from_secs(secs: u64) -> (span: Option<Span>)
        ensures
            secs * NANOS_PER_SEC <= u64::MAX ==> span == Some(
                Span { nanos: (secs * NANOS_PER_SEC) as u64 },
            ),
            secs * NANOS_PER_SEC > u64::MAX ==> span.is_none(),
    {
        match secs.checked_mul(NANOS_PER_SEC) {
            Some(nanos) => Some(Span { nanos }),
            None => None,
        }
    }

    /// The two spans one after the other, or `None` where the sum does not
    /// fit in 64 bits.
    pub fn checked_add(&self, other: Span) -> (sum: Option<Span>)
        ensures
            self.nanos + other.nanos <= u64::MAX ==> sum == Some(
                Span { nanos: (self.nanos + other.nanos) as u64 },
            ),
            self.nanos + other.nanos > u64::MAX ==> sum.is_none(),
    {
        match self.nanos.checked_add(other.nanos) {
            Some(nanos) => Some(Span { nanos }),
            None => None,
        }
    }
}

impl Timestamp {
    pub fn from_nanos(nanos: u64) -> (at: Timestamp)
        ensures
            at.nanos == nanos,
    {
        Timestamp { nanos }
    }

    /// The point `nanos` nanoseconds after the epoch. A count that 64 bits
    /// cannot hold, after some 584 years, is given as the largest that they
    /// can.
    pub fn saturating_from_nanos(nanos: u128) -> (at: Timestamp)
        ensures
            nanos <= u64::MAX ==> at.nanos == nanos,
            nanos > u64::MAX ==> at.nanos == u64::MAX,
    {
        if nanos > u64::MAX as u128 {
            Timestamp { nanos: u64::MAX }
        } else {
            Timestamp { nanos: nanos as u64 }
        }
    }

    /// The time that has passed since `earlier`. A clock that went
    /// backwards measures as no time at all.
    pub fn span_since(&self, earlier: Timestamp) -> (span: Span)
        ensures
            span.nanos == span_between(earlier, *self),
    {
        if self.nanos >= earlier.nanos {
            Span { nanos: self.nanos - earlier.nanos }
        } else {
            Span { nanos: 0 }
        }
    }
}

} // verus!
