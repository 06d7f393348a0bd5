//! The running statistics of one virtual user.

use vstd::prelude::*;
use crate::time::Span;

verus! {

/// Hundredths of an execution per second in one execution per nanosecond.
pub const CENTIHERTZ_PER_GIGAHERTZ: u128 = 100_000_000_000;

/// What one virtual user has done so far: how many cycles it has run and
/// how long they took together. A worker owns one accumulator and sends
/// copies of it; the copies are plain values.
#[derive(Clone, Copy, Debug, PartialEq, Eq, Structural)]
pub struct VuStats {
    pub vu_id: usize,
    pub execution_count: usize,
    pub total_duration: Span,
}

/// The executions per second of `execution_count` cycles that took
/// `total_nanos` together, in hundredths and rounded down.
pub open spec fn centihertz(execution_count: nat, total_nanos: nat) -> nat
    recommends
        total_nanos > 0,
{
    (execution_count * CENTIHERTZ_PER_GIGAHERTZ as nat) / total_nanos
}

impl VuStats {
    /// The accumulator of a worker that has not run yet.
    pub fn new(vu_id: usize) -> (stats: VuStats)
        ensures
            stats == (VuStats { vu_id, execution_count: 0, total_duration: Span { nanos: 0 } }),
    {
        VuStats { vu_id, execution_count: 0, total_duration: Span { nanos: 0 } }
    }

    /// Whether one more cycle of length `duration` can be recorded without
    /// leaving the range of the counters.
    pub open spec fn has_room_for(&self, duration: Span) -> bool {
        &&& self.execution_count < usize::MAX
        &&& self.total_duration.nanos + duration.nanos <= u64::MAX
    }

    /// Whether one more cycle of length `duration` can be recorded.
    pub fn can_take(&self, duration: Span) -> (room: bool)
        ensures
            room == self.has_room_for(duration),
    {
        self.execution_count < usize::MAX && self.total_duration.checked_add(duration).is_some()
    }

    /// Records one more cycle, which took `duration`.
    pub fn update(&mut self, duration: Span)
        requires
            old(self).has_room_for(duration),
        ensures
            *final(self) == (VuStats {
                vu_id: old(self).vu_id,
                execution_count: (old(self).execution_count + 1) as usize,
                total_duration: Span {
                    nanos: (old(self).total_duration.nanos + duration.nanos) as u64,
                },
            }),
    {
        self.execution_count = self.execution_count + 1;
        self.total_duration = Span { nanos: self.total_duration.nanos + duration.nanos };
    }

    /// The executions per second so far, in hundredths and rounded down.
    /// There is none before any time has been recorded.
    pub fn frequency(&self) -> (frequency: Option<u128>)
        ensures
            frequency.is_some() <==> self.total_duration.nanos > 0,
            frequency matches Some(f) ==> f == centihertz(
                self.execution_count as nat,
                self.total_duration.nanos as nat,
            ),
    {
        if self.total_duration.nanos == 0 {
            None
        } else {
            let scaled: u128 = (self.execution_count as u128) * CENTIHERTZ_PER_GIGAHERTZ;
            Some(scaled / (self.total_duration.nanos as u128))
        }
    }
}

} // verus!
