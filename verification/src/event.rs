//! The event that a virtual user raises when a cycle overruns its interval.

use vstd::prelude::*;
use crate::time::{Span, Timestamp};

verus! {

/// One deadline violation: the cycle of `vu_id` that ended at `timestamp`
/// took `actual_duration`, more than the `scheduled_interval`.
#[derive(Clone, Copy, Debug, PartialEq, Eq, Structural)]
pub struct VuEvent {
    pub vu_id: usize,
    pub scheduled_interval: Span,
    pub actual_duration: Span,
    pub timestamp: Timestamp,
}

impl VuEvent {
    /// An event reports a violation: the cycle took longer than scheduled.
    pub open spec fn is_violation(&self) -> bool {
        self.actual_duration.nanos > self.scheduled_interval.nanos
    }
}

} // verus!
