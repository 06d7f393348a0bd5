//! A worker on an ideal clock.
//!
//! On an ideal clock nothing takes time but waiting and working: a tick
//! is taken at the instant at which it is due, or at once where it is
//! overdue, and the work takes exactly the configured duration. A run of
//! a given length is then fully determined, and `simulate_worker` says what
//! it is: cycle `k` begins at `k` times the longer of interval and work.

use vstd::prelude::*;
use vstd::arithmetic::div_mod::{lemma_fundamental_div_mod, lemma_mod_bound};
use vstd::arithmetic::mul::{lemma_mul_inequality, lemma_mul_is_commutative};
use crate::driver::{Config, ConfigError};
use crate::event::VuEvent;
use crate::stats::VuStats;
use crate::ticker::{lemma_next_deadline_is_first_on_grid, next_deadline};
use crate::time::{Span, Timestamp};
use crate::worker::{Phase, Worker, WorkerState};

verus! {

/// What one worker sent during a run, in order, and when it left its loop.
#[derive(Debug)]
pub struct WorkerTrace {
    pub stats: Vec<VuStats>,
    pub events: Vec<VuEvent>,
    pub stopped_at: Timestamp,
}

/// A trace, as contracts see it.
pub struct TraceView {
    pub stats: Seq<VuStats>,
    pub events: Seq<VuEvent>,
    pub stopped_at: Timestamp,
}

impl View for WorkerTrace {
    type V = TraceView;

    open spec fn view(&self) -> TraceView {
        TraceView { stats: self.stats@, events: self.events@, stopped_at: self.stopped_at }
    }
}

/// The time from the start of one cycle to the start of the next: the
/// interval, or the work where that takes longer.
pub open spec fn cadence(interval: Span, work: Span) -> nat {
    if work.nanos > interval.nanos {
        work.nanos as nat
    } else {
        interval.nanos as nat
    }
}

/// The number of cycles that begin before a run of length `run_for` is
/// cancelled. Each of them is completed.
pub open spec fn cycles_within(interval: Span, work: Span, run_for: Span) -> nat {
    if run_for.nanos == 0 {
        0
    } else {
        ((run_for.nanos - 1) / cadence(interval, work) as int) as nat + 1
    }
}

/// The instant at which cycle `k` ends, counting cycles from zero.
pub open spec fn cycle_end(interval: Span, work: Span, k: nat) -> nat {
    (k * cadence(interval, work) + work.nanos) as nat
}

/// The statistics of worker `vu_id` after `cycles` cycles.
pub open spec fn stats_after(vu_id: usize, work: Span, cycles: nat) -> VuStats {
    VuStats {
        vu_id,
        execution_count: cycles as usize,
        total_duration: Span { nanos: (cycles * work.nanos) as u64 },
    }
}

/// The event that cycle `k` of worker `vu_id` raises where the work takes
/// longer than the interval.
pub open spec fn violation_in(vu_id: usize, interval: Span, work: Span, k: nat) -> VuEvent {
    VuEvent {
        vu_id,
        scheduled_interval: interval,
        actual_duration: work,
        timestamp: Timestamp { nanos: cycle_end(interval, work, k) as u64 },
    }
}

/// The statistics that worker `vu_id` sends in its first `cycles` cycles.
pub open spec fn stats_sent(vu_id: usize, work: Span, cycles: nat) -> Seq<VuStats> {
    Seq::new(cycles, |k: int| stats_after(vu_id, work, (k + 1) as nat))
}

/// The events that worker `vu_id` sends in its first `cycles` cycles: one
/// for each cycle where the work takes longer than the interval, and none
/// else.
pub open spec fn events_sent(vu_id: usize, interval: Span, work: Span, cycles: nat) -> Seq<
    VuEvent,
> {
    if work.nanos > interval.nanos {
        Seq::new(cycles, |k: int| violation_in(vu_id, interval, work, k as nat))
    } else {
        Seq::empty()
    }
}

/// The instant at which the worker leaves its loop in a run that is
/// cancelled at `run_for`: at the end of the cycle that it is in by then,
/// or at once where it waits for a tick.
pub open spec fn stopped_at(interval: Span, work: Span, run_for: Span) -> nat {
    let cycles = cycles_within(interval, work, run_for);
    if cycles > 0 && cycle_end(interval, work, (cycles - 1) as nat) >= run_for.nanos {
        cycle_end(interval, work, (cycles - 1) as nat)
    } else {
        run_for.nanos as nat
    }
}

/// What worker `vu_id` sends on an ideal clock in a run that is cancelled
/// at `run_for`, and when it leaves.
pub open spec fn ideal_trace(vu_id: usize, interval: Span, work: Span, run_for: Span) -> TraceView {
    let cycles = cycles_within(interval, work, run_for);
    TraceView {
        stats: stats_sent(vu_id, work, cycles),
        events: events_sent(vu_id, interval, work, cycles),
        stopped_at: Timestamp { nanos: stopped_at(interval, work, run_for) as u64 },
    }
}

/// A run that is cancelled at `run_for` fits the machine: the clock can
/// count to the end of its last cycle and to the deadline after it, and
/// the execution counter can count its cycles.
pub open spec fn fits(interval: Span, work: Span, run_for: Span) -> bool {
    &&& run_for.nanos + interval.nanos <= u64::MAX
    &&& run_for.nanos + work.nanos <= u64::MAX
    &&& cycles_within(interval, work, run_for) <= usize::MAX
}

/// Whether a run with these settings can be simulated: the interval is
/// positive and the run fits the machine.
pub fn can_simulate(interval: Span, work: Span, run_for: Span) -> (can: bool)
    ensures
        can == (interval.nanos > 0 && fits(interval, work, run_for)),
{
    if interval.nanos == 0 || run_for.checked_add(interval).is_none() || run_for.checked_add(
        work,
    ).is_none() {
        return false;
    }
    if run_for.nanos == 0 {
        return true;
    }
    let step: u64 = if work.nanos > interval.nanos {
        work.nanos
    } else {
        interval.nanos
    };
    let full: u64 = (run_for.nanos - 1) / step;
    proof {
        lemma_fundamental_div_mod(run_for.nanos - 1, step as int);
        lemma_mod_bound(run_for.nanos - 1, step as int);
        assert(full <= run_for.nanos - 1) by (nonlinear_arith)
            requires
                step >= 1,
                full >= 0,
                run_for.nanos - 1 == step * full + (run_for.nanos - 1) % (step as int),
                0 <= (run_for.nanos - 1) % (step as int),
        ;
    }
    full < usize::MAX as u64
}

/// Runs worker `vu_id` on an ideal clock, from instant zero until it
/// leaves its loop after the cancellation at `run_for`.
pub fn simulate_worker(vu_id: usize, interval: Span, work: Span, run_for: Span) -> (trace:
    WorkerTrace)
    requires
        interval.nanos > 0,
        fits(interval, work, run_for),
    ensures
        trace@ == ideal_trace(vu_id, interval, work, run_for),
{
    let origin = Timestamp { nanos: 0 };
    let cancel_at = Timestamp { nanos: run_for.nanos };
    let mut worker = Worker::new(vu_id, interval, work, origin);
    let mut stats: Vec<VuStats> = Vec::new();
    let mut events: Vec<VuEvent> = Vec::new();
    let mut now = origin;
    let ghost cycles = cycles_within(interval, work, run_for);
    let ghost step = cadence(interval, work);
    proof {
        assert(0 * step == 0) by (nonlinear_arith);
        assert(0 * work.nanos == 0) by (nonlinear_arith);
        assert(0 * interval.nanos == 0) by (nonlinear_arith);
    }
    loop
        invariant
            interval.nanos > 0,
            run_for.nanos + interval.nanos <= u64::MAX,
            run_for.nanos + work.nanos <= u64::MAX,
            cycles == cycles_within(interval, work, run_for),
            cycles <= usize::MAX,
            step == cadence(interval, work),
            cancel_at.nanos == run_for.nanos,
            worker.wf(),
            stats@.len() <= cycles,
            worker@ == (WorkerState {
                interval,
                work_duration: work,
                stats: stats_after(vu_id, work, stats@.len()),
                deadline: worker@.deadline,
                phase: Phase::AwaitingTick,
            }),
            worker@.deadline.nanos <= stats@.len() * step,
            work.nanos < interval.nanos ==> worker@.deadline.nanos == stats@.len() * step,
            work.nanos >= interval.nanos ==> now.nanos == stats@.len() * step,
            now.nanos <= stats@.len() * step,
            stats@.len() > 0 ==> now.nanos < run_for.nanos && now.nanos == cycle_end(
                interval,
                work,
                (stats@.len() - 1) as nat,
            ),
            stats@.len() * work.nanos <= stats@.len() * step,
            stats@ =~= stats_sent(vu_id, work, stats@.len()),
            events@ =~= events_sent(vu_id, interval, work, stats@.len()),
        decreases cycles - stats@.len(),
    {
        let ghost done = stats@.len();
        let due = worker.deadline();
        let tick_at = if due.nanos > now.nanos {
            due
        } else {
            now
        };
        assert(tick_at.nanos == done * step);
        proof {
            lemma_cycle_counts_if_it_begins_in_time(interval, work, run_for, done);
        }
        if tick_at.nanos >= cancel_at.nanos {
            // Cancelled while it waits for the tick.
            worker.on_cancel();
            return WorkerTrace { stats, events, stopped_at: cancel_at };
        }
        proof {
            lemma_next_deadline_is_first_on_grid(
                due.nanos as nat,
                interval.nanos as nat,
                tick_at.nanos as nat,
            );
            if work.nanos < interval.nanos {
                assert(next_deadline(due.nanos as nat, interval.nanos as nat, tick_at.nanos as nat)
                    == due.nanos + interval.nanos) by (nonlinear_arith)
                    requires
                        due.nanos == tick_at.nanos,
                        interval.nanos > 0,
                        next_deadline(due.nanos as nat, interval.nanos as nat, tick_at.nanos as nat)
                            == due.nanos + interval.nanos * ((tick_at.nanos - due.nanos) as nat
                            / interval.nanos as nat + 1),
                ;
            }
            assert((done + 1) * step == done * step + step) by (nonlinear_arith);
            assert((done + 1) * work.nanos == done * work.nanos + work.nanos) by (nonlinear_arith);
        }
        // Within the limits that are asked of the run the worker does not
        // fail, neither here nor at the end of the cycle.
        let pause = match worker.on_tick(tick_at) {
            Ok(pause) => pause,
            Err(_) => {
                return WorkerTrace { stats, events, stopped_at: now };
            },
        };
        now = Timestamp { nanos: tick_at.nanos + pause.nanos };
        let cancelled = now.nanos >= cancel_at.nanos;
        let report = match worker.on_work_done(now, cancelled) {
            Ok(report) => report,
            Err(_) => {
                return WorkerTrace { stats, events, stopped_at: now };
            },
        };
        match report.event {
            Some(event) => {
                events.push(event);
            },
            None => {},
        }
        stats.push(report.stats);
        if report.exit {
            proof {
                lemma_cycle_counts_if_it_begins_in_time(interval, work, run_for, done + 1);
                assert(stats@ =~= stats_sent(vu_id, work, cycles));
                assert(events@ =~= events_sent(vu_id, interval, work, cycles));
            }
            return WorkerTrace { stats, events, stopped_at: now };
        }
    }
}

/// Runs the fleet of `config` on an ideal clock until every worker has
/// left its loop after the cancellation at `run_for`. Returns the trace of
/// each worker, that of worker `i` in place `i`; a configuration that is
/// not valid is refused, and nothing runs.
pub fn simulate_fleet(config: &Config, run_for: Span) -> (outcome: Result<
    Vec<WorkerTrace>,
    ConfigError,
>)
    requires
        fits(config.interval_duration, config.simulated_work_duration, run_for),
    ensures
        outcome.is_ok() <==> config.valid(),
        outcome matches Err(error) ==> config.verdict() == Err::<(), ConfigError>(error),
        outcome matches Ok(traces) ==> {
            &&& traces@.len() == config.number_of_vus
            &&& forall|i: int|
                0 <= i < traces@.len() ==> (#[trigger] traces@[i])@ == ideal_trace(
                    i as usize,
                    config.interval_duration,
                    config.simulated_work_duration,
                    run_for,
                )
        },
{
    match config.validate() {
        Ok(_) => {},
        Err(error) => {
            return Err(error);
        },
    }
    let mut traces: Vec<WorkerTrace> = Vec::new();
    let mut vu_id: usize = 0;
    while vu_id < config.number_of_vus
        invariant
            config.valid(),
            fits(config.interval_duration, config.simulated_work_duration, run_for),
            vu_id <= config.number_of_vus,
            traces@.len() == vu_id,
            forall|i: int|
                0 <= i < traces@.len() ==> (#[trigger] traces@[i])@ == ideal_trace(
                    i as usize,
                    config.interval_duration,
                    config.simulated_work_duration,
                    run_for,
                ),
        decreases config.number_of_vus - vu_id,
    {
        let trace = simulate_worker(
            vu_id,
            config.interval_duration,
            config.simulated_work_duration,
            run_for,
        );
        traces.push(trace);
        vu_id = vu_id + 1;
    }
    Ok(traces)
}

/// Where the work takes no longer than the interval, a worker on an ideal
/// clock raises no event, however long the run.
pub proof fn lemma_work_within_interval_raises_no_event(
    vu_id: usize,
    interval: Span,
    work: Span,
    run_for: Span,
)
    requires
        work.nanos <= interval.nanos,
    ensures
        ideal_trace(vu_id, interval, work, run_for).events.len() == 0,
{
}

/// Where the work takes longer than the interval, every cycle of a worker
/// on an ideal clock raises one event: there are as many events as
/// statistics, the event in place `k` is that of cycle `k`, and it reports
/// a violation that took as long as the work.
pub proof fn lemma_work_beyond_interval_raises_one_event_per_cycle(
    vu_id: usize,
    interval: Span,
    work: Span,
    run_for: Span,
)
    requires
        work.nanos > interval.nanos,
    ensures
        ({
            let trace = ideal_trace(vu_id, interval, work, run_for);
            &&& trace.events.len() == trace.stats.len()
            &&& trace.stats.len() == cycles_within(interval, work, run_for)
            &&& forall|k: int|
                0 <= k < trace.events.len() ==> {
                    &&& (#[trigger] trace.events[k]).vu_id == vu_id
                    &&& trace.events[k].is_violation()
                    &&& trace.events[k].scheduled_interval == interval
                    &&& trace.events[k].actual_duration.nanos >= work.nanos
                }
        }),
{
}

/// After the cancellation a worker on an ideal clock leaves its loop at
/// once where it waits for a tick, and at the end of its cycle where it
/// works: in less time than the work takes. Where the work takes no longer
/// than the interval, that is within one interval.
pub proof fn lemma_worker_leaves_soon_after_cancellation(
    interval: Span,
    work: Span,
    run_for: Span,
)
    requires
        interval.nanos > 0,
    ensures
        run_for.nanos <= stopped_at(interval, work, run_for),
        stopped_at(interval, work, run_for) == run_for.nanos || stopped_at(interval, work, run_for)
            < run_for.nanos + work.nanos,
        work.nanos <= interval.nanos ==> stopped_at(interval, work, run_for) <= run_for.nanos
            + interval.nanos,
{
    let cycles = cycles_within(interval, work, run_for);
    if cycles > 0 {
        lemma_cycle_counts_if_it_begins_in_time(interval, work, run_for, (cycles - 1) as nat);
    }
}

/// Cycle `k` is among the cycles of a run exactly if it begins before the
/// run is cancelled.
pub proof fn lemma_cycle_counts_if_it_begins_in_time(
    interval: Span,
    work: Span,
    run_for: Span,
    k: nat,
)
    requires
        interval.nanos > 0,
    ensures
        k < cycles_within(interval, work, run_for) <==> k * cadence(interval, work)
            < run_for.nanos,
{
    let p: int = cadence(interval, work) as int;
    let ki: int = k as int;
    assert(ki * p >= 0) by (nonlinear_arith)
        requires
            ki >= 0,
            p > 0,
    ;
    if run_for.nanos > 0 {
        let d: int = run_for.nanos - 1;
        let q: int = d / p;
        lemma_fundamental_div_mod(d, p);
        lemma_mod_bound(d, p);
        lemma_mul_is_commutative(p, q);
        if ki <= q {
            lemma_mul_inequality(ki, q, p);
        } else {
            lemma_mul_inequality(q + 1, ki, p);
            assert((q + 1) * p == q * p + p) by (nonlinear_arith);
        }
    }
}

} // verus!
