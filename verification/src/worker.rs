//! One virtual user as a state machine.
//!
//! A worker waits for its tick, works, and reports; whoever drives it does
//! the waiting and tells the worker at which instants the tick came and the
//! work ended. The worker decides everything else: how long to work, what
//! the cycle measured, whether the deadline was missed, and whether to go
//! on.

use vstd::prelude::*;
use crate::clock::Clock;
use crate::event::VuEvent;
use crate::stats::VuStats;
use crate::ticker::{next_deadline, Ticker};
use crate::time::{span_between, Span, Timestamp};

verus! {

/// Where a worker stands in its cycle.
#[derive(Clone, Copy, Debug, PartialEq, Eq, Structural)]
pub enum Phase {
    /// Waiting for the next tick.
    AwaitingTick,
    /// Working since `started`, the instant measured right after the tick.
    Working { started: Timestamp },
    /// Left the loop after a cancellation.
    Stopped,
    /// Left the loop after a fault.
    Failed,
}

/// Why a worker could not take a step.
#[derive(Clone, Copy, Debug, PartialEq, Eq, Structural)]
pub enum WorkerFault {
    /// The step does not fit the phase that the worker is in.
    OutOfTurn,
    /// The next deadline lies beyond what the clock can count.
    ClockExhausted,
    /// The statistics cannot take another cycle: the execution counter or
    /// the total duration would leave its range.
    AccumulatorFull,
}

/// What a worker hands out at the end of a cycle: the event, if the cycle
/// overran the interval, then a copy of the statistics, and whether the
/// worker leaves the loop.
#[derive(Clone, Copy, Debug, PartialEq, Eq, Structural)]
pub struct CycleReport {
    pub event: Option<VuEvent>,
    pub stats: VuStats,
    pub exit: bool,
}

/// The state of a worker, as contracts see it.
pub struct WorkerState {
    pub interval: Span,
    pub work_duration: Span,
    pub stats: VuStats,
    pub deadline: Timestamp,
    pub phase: Phase,
}

impl WorkerState {
    /// What the cycle that began at `started` and ended at `now` measured.
    pub open spec fn elapsed(started: Timestamp, now: Timestamp) -> Span {
        Span { nanos: span_between(started, now) as u64 }
    }

    /// How a tick at `now` takes a worker from `self` to `post`, with
    /// `result` handed out: the work phase begins at `now` and the deadline
    /// moves on, and the span to work for is returned.
    pub open spec fn ticked(
        self,
        now: Timestamp,
        post: WorkerState,
        result: Result<Span, WorkerFault>,
    ) -> bool {
        let next = next_deadline(
            self.deadline.nanos as nat,
            self.interval.nanos as nat,
            now.nanos as nat,
        );
        if self.phase != Phase::AwaitingTick {
            result == Err::<Span, WorkerFault>(WorkerFault::OutOfTurn) && post == self
        } else if next > u64::MAX {
            result == Err::<Span, WorkerFault>(WorkerFault::ClockExhausted) && post == (WorkerState {
                phase: Phase::Failed,
                ..self
            })
        } else {
            result == Ok::<Span, WorkerFault>(self.work_duration) && post == (WorkerState {
                phase: Phase::Working { started: now },
                deadline: Timestamp { nanos: next as u64 },
                ..self
            })
        }
    }

    /// How the end of the work at `now` takes a worker from `self` to
    /// `post`, with `result` handed out. The cycle is measured from the
    /// start of the work phase, counted, and compared with the interval;
    /// `cancelled` says whether the cancellation signal was set by then.
    pub open spec fn cycle_ended(
        self,
        now: Timestamp,
        cancelled: bool,
        post: WorkerState,
        result: Result<CycleReport, WorkerFault>,
    ) -> bool {
        match self.phase {
            Phase::Working { started } => {
                let elapsed = Self::elapsed(started, now);
                if !self.stats.has_room_for(elapsed) {
                    &&& result == Err::<CycleReport, WorkerFault>(WorkerFault::AccumulatorFull)
                    &&& post == (WorkerState { phase: Phase::Failed, ..self })
                } else {
                    let stats = VuStats {
                        vu_id: self.stats.vu_id,
                        execution_count: (self.stats.execution_count + 1) as usize,
                        total_duration: Span {
                            nanos: (self.stats.total_duration.nanos + elapsed.nanos) as u64,
                        },
                    };
                    let event = if elapsed.nanos > self.interval.nanos {
                        Some(
                            VuEvent {
                                vu_id: self.stats.vu_id,
                                scheduled_interval: self.interval,
                                actual_duration: elapsed,
                                timestamp: now,
                            },
                        )
                    } else {
                        None
                    };
                    &&& result == Ok::<CycleReport, WorkerFault>(
                        CycleReport { event, stats, exit: cancelled },
                    )
                    &&& post == (WorkerState {
                        stats,
                        phase: if cancelled {
                            Phase::Stopped
                        } else {
                            Phase::AwaitingTick
                        },
                        ..self
                    })
                }
            },
            _ => result == Err::<CycleReport, WorkerFault>(WorkerFault::OutOfTurn) && post == self,
        }
    }
}

/// One virtual user: its settings, its statistics, its ticker and the phase
/// it is in.
#[derive(Clone, Copy, Debug)]
pub struct Worker {
    work_duration: Span,
    stats: VuStats,
    ticker: Ticker,
    phase: Phase,
}

impl View for Worker {
    type V = WorkerState;

    closed spec fn view(&self) -> WorkerState {
        WorkerState {
            interval: self.ticker@.period,
            work_duration: self.work_duration,
            stats: self.stats,
            deadline: self.ticker@.deadline,
            phase: self.phase,
        }
    }
}

impl Worker {
    /// A worker ticks at a positive interval.
    pub open spec fn wf(&self) -> bool {
        self@.interval.nanos > 0
    }

    /// The worker `vu_id`, created at `now`: nothing counted yet, and its
    /// first tick due at once.
    pub fn new(vu_id: usize, interval: Span, work_duration: Span, now: Timestamp) -> (worker:
        Worker)
        requires
            interval.nanos > 0,
        ensures
            worker.wf(),
            worker@ == (WorkerState {
                interval,
                work_duration,
                stats: VuStats { vu_id, execution_count: 0, total_duration: Span { nanos: 0 } },
                deadline: now,
                phase: Phase::AwaitingTick,
            }),
    {
        Worker {
            work_duration,
            stats: VuStats::new(vu_id),
            ticker: Ticker::new(interval, now),
            phase: Phase::AwaitingTick,
        }
    }

    /// The instant at which the next tick is due.
    pub fn deadline(&self) -> (deadline: Timestamp)
        ensures
            deadline == self@.deadline,
    {
        self.ticker.deadline()
    }

    /// The phase that the worker is in.
    pub fn phase(&self) -> (phase: Phase)
        ensures
            phase == self@.phase,
    {
        self.phase
    }

    /// A copy of the statistics as they stand.
    pub fn stats(&self) -> (stats: VuStats)
        ensures
            stats == self@.stats,
    {
        self.stats
    }

    /// The tick has come, and `now` was measured right after it: the work
    /// phase begins. Returns the span to work for.
    pub fn on_tick(&mut self, now: Timestamp) -> (result: Result<Span, WorkerFault>)
        requires
            old(self).wf(),
        ensures
            final(self).wf(),
            old(self)@.ticked(now, final(self)@, result),
    {
        match self.phase {
            Phase::AwaitingTick => {},
            _ => {
                return Err(WorkerFault::OutOfTurn);
            },
        }
        match self.ticker.fire(now) {
            Some(_) => {
                self.phase = Phase::Working { started: now };
                Ok(self.work_duration)
            },
            None => {
                self.phase = Phase::Failed;
                Err(WorkerFault::ClockExhausted)
            },
        }
    }

    /// The work has ended, and `now` was measured right after it;
    /// `cancelled` is the cancellation signal as it stood then. Closes the
    /// cycle and returns what is to be sent.
    pub fn on_work_done(&mut self, now: Timestamp, cancelled: bool) -> (result: Result<
        CycleReport,
        WorkerFault,
    >)
        requires
            old(self).wf(),
        ensures
            final(self).wf(),
            old(self)@.cycle_ended(now, cancelled, final(self)@, result),
    {
        let started = match self.phase {
            Phase::Working { started } => started,
            _ => {
                return Err(WorkerFault::OutOfTurn);
            },
        };
        let elapsed = now.span_since(started);
        if !self.stats.can_take(elapsed) {
            self.phase = Phase::Failed;
            return Err(WorkerFault::AccumulatorFull);
        }
        self.stats.update(elapsed);
        let event = if elapsed.nanos > self.ticker.period().nanos {
            Some(
                VuEvent {
                    vu_id: self.stats.vu_id,
                    scheduled_interval: self.ticker.period(),
                    actual_duration: elapsed,
                    timestamp: now,
                },
            )
        } else {
            None
        };
        self.phase = if cancelled {
            Phase::Stopped
        } else {
            Phase::AwaitingTick
        };
        Ok(CycleReport { event, stats: self.stats, exit: cancelled })
    }

    /// As `on_tick`, at the instant that `clock` shows now. Returns that
    /// instant too.
    pub fn begin_work(&mut self, clock: &Clock) -> (out: (Timestamp, Result<Span, WorkerFault>))
        requires
            old(self).wf(),
        ensures
            final(self).wf(),
            old(self)@.ticked(out.0, final(self)@, out.1),
    {
        let now = clock.now();
        let result = self.on_tick(now);
        (now, result)
    }

    /// As `on_work_done`, at the instant that `clock` shows now. Returns
    /// that instant too.
    pub fn finish_cycle(&mut self, clock: &Clock, cancelled: bool) -> (out: (
        Timestamp,
        Result<CycleReport, WorkerFault>,
    ))
        requires
            old(self).wf(),
        ensures
            final(self).wf(),
            old(self)@.cycle_ended(out.0, cancelled, final(self)@, out.1),
    {
        let now = clock.now();
        let result = self.on_work_done(now, cancelled);
        (now, result)
    }

    /// The cancellation signal was seen while the worker waited for its
    /// tick: the worker leaves the loop. A worker that is at work takes no
    /// notice: it learns of the signal when its cycle ends. Returns whether
    /// the worker stopped.
    pub fn on_cancel(&mut self) -> (stopped: bool)
        requires
            old(self).wf(),
        ensures
            final(self).wf(),
            stopped == (old(self)@.phase == Phase::AwaitingTick),
            final(self)@ == (WorkerState {
                phase: if stopped {
                    Phase::Stopped
                } else {
                    old(self)@.phase
                },
                ..old(self)@
            }),
    {
        match self.phase {
            Phase::AwaitingTick => {
                self.phase = Phase::Stopped;
                true
            },
            _ => false,
        }
    }
}

/// A cycle raises an event exactly if it is measured at more than the
/// interval, and the event then says whose cycle it was, what was scheduled,
/// what was measured and when.
pub proof fn lemma_event_tells_of_overrun(
    pre: WorkerState,
    now: Timestamp,
    cancelled: bool,
    post: WorkerState,
    report: CycleReport,
)
    requires
        pre.cycle_ended(now, cancelled, post, Ok(report)),
    ensures
        pre.phase matches Phase::Working { started } && {
            &&& report.event.is_some() <==> span_between(started, now) > pre.interval.nanos
            &&& report.event matches Some(event) ==> event.is_violation() && event == (VuEvent {
                vu_id: pre.stats.vu_id,
                scheduled_interval: pre.interval,
                actual_duration: Span { nanos: span_between(started, now) as u64 },
                timestamp: now,
            })
        },
{
}

/// A cycle that is measured at no more than the interval raises no event:
/// statistics are all that it sends.
pub proof fn lemma_cycle_within_interval_is_silent(
    pre: WorkerState,
    now: Timestamp,
    cancelled: bool,
    post: WorkerState,
    report: CycleReport,
)
    requires
        pre.cycle_ended(now, cancelled, post, Ok(report)),
        pre.phase matches Phase::Working { started } && span_between(started, now)
            <= pre.interval.nanos,
    ensures
        report.event.is_none(),
{
}

/// Where the work is set to take longer than the interval, and the pause
/// took at least as long as it was set to, the cycle raises an event: a
/// violation by this worker, of this interval, that took no less than the
/// work was set to.
pub proof fn lemma_cycle_beyond_interval_raises_event(
    pre: WorkerState,
    now: Timestamp,
    cancelled: bool,
    post: WorkerState,
    report: CycleReport,
)
    requires
        pre.cycle_ended(now, cancelled, post, Ok(report)),
        pre.work_duration.nanos > pre.interval.nanos,
        pre.phase matches Phase::Working { started } && span_between(started, now)
            >= pre.work_duration.nanos,
    ensures
        report.event matches Some(event) && event.is_violation() && event.vu_id
            == pre.stats.vu_id && event.scheduled_interval == pre.interval
            && event.actual_duration.nanos >= pre.work_duration.nanos,
{
}

/// A worker that learns of the cancellation leaves its loop: at once where
/// it waits for its tick, and where it works, when its cycle has ended and
/// what the cycle gave has been handed out. A worker that has left takes no
/// further step.
pub proof fn lemma_cancelled_worker_leaves(
    pre: WorkerState,
    now: Timestamp,
    cancelled: bool,
    post: WorkerState,
    report: CycleReport,
    later: WorkerState,
    ticked: Result<Span, WorkerFault>,
    ended: Result<CycleReport, WorkerFault>,
)
    requires
        pre.cycle_ended(now, cancelled, post, Ok(report)),
    ensures
        report.exit == cancelled,
        cancelled <==> post.phase == Phase::Stopped,
        !cancelled <==> post.phase == Phase::AwaitingTick,
        post.phase == Phase::Stopped && post.ticked(now, later, ticked) ==> ticked.is_err()
            && later == post,
        post.phase == Phase::Stopped && post.cycle_ended(now, cancelled, later, ended)
            ==> ended.is_err() && later == post,
{
}

/// The statistics of a worker only grow: a cycle that ends well counts one
/// execution more and no less time than before, and what is sent is the
/// accumulator as it then stands. Nothing else changes the statistics.
pub proof fn lemma_statistics_only_grow(
    pre: WorkerState,
    now: Timestamp,
    cancelled: bool,
    post: WorkerState,
    ended: Result<CycleReport, WorkerFault>,
    ticked: Result<Span, WorkerFault>,
)
    ensures
        pre.cycle_ended(now, cancelled, post, ended) && ended.is_err() ==> post.stats == pre.stats,
        pre.cycle_ended(now, cancelled, post, ended) && ended.is_ok() ==> {
            &&& post.stats.vu_id == pre.stats.vu_id
            &&& post.stats.execution_count == pre.stats.execution_count + 1
            &&& post.stats.total_duration.nanos >= pre.stats.total_duration.nanos
            &&& ended.unwrap().stats == post.stats
        },
        pre.ticked(now, post, ticked) ==> post.stats == pre.stats,
{
}

} // verus!
