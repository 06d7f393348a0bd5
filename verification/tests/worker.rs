use vu_fleet::event::VuEvent;
use vu_fleet::stats::VuStats;
use vu_fleet::time::{Span, Timestamp};
use vu_fleet::worker::{CycleReport, Phase, Worker, WorkerFault};

fn ms(millis: u64) -> Span {
    Span::from_millis(millis).unwrap()
}

fn at(millis: u64) -> Timestamp {
    Timestamp::from_nanos(millis * 1_000_000)
}

#[test]
fn new_worker_waits_for_its_first_tick() {
    let worker = Worker::new(5, ms(100), ms(50), at(3));
    assert_eq!(worker.phase(), Phase::AwaitingTick);
    assert_eq!(worker.deadline(), at(3));
    assert_eq!(worker.stats(), VuStats::new(5));
}

#[test]
fn tick_starts_the_work_phase() {
    let mut worker = Worker::new(5, ms(100), ms(50), at(0));
    assert_eq!(worker.on_tick(at(1)), Ok(ms(50)));
    assert_eq!(worker.phase(), Phase::Working { started: at(1) });
    assert_eq!(worker.deadline(), at(100));
    assert_eq!(worker.stats(), VuStats::new(5));
}

#[test]
fn cycle_within_the_interval_sends_statistics_only() {
    let mut worker = Worker::new(7, ms(100), ms(50), at(0));
    assert_eq!(worker.on_tick(at(0)), Ok(ms(50)));
    assert_eq!(
        worker.on_work_done(at(50), false),
        Ok(CycleReport {
            event: None,
            stats: VuStats { vu_id: 7, execution_count: 1, total_duration: ms(50) },
            exit: false,
        })
    );
    assert_eq!(worker.phase(), Phase::AwaitingTick);
}

#[test]
fn cycle_as_long_as_the_interval_is_no_violation() {
    let mut worker = Worker::new(7, ms(100), ms(100), at(0));
    assert_eq!(worker.on_tick(at(0)), Ok(ms(100)));
    let report = worker.on_work_done(at(100), false).unwrap();
    assert_eq!(report.event, None);
    assert_eq!(report.stats.total_duration, ms(100));
}

#[test]
fn cycle_one_nanosecond_beyond_the_interval_is_a_violation() {
    let mut worker = Worker::new(7, ms(100), ms(100), at(0));
    assert_eq!(worker.on_tick(at(0)), Ok(ms(100)));
    let end = Timestamp::from_nanos(100_000_001);
    let report = worker.on_work_done(end, false).unwrap();
    assert_eq!(
        report.event,
        Some(VuEvent {
            vu_id: 7,
            scheduled_interval: ms(100),
            actual_duration: Span::from_nanos(100_000_001),
            timestamp: end,
        })
    );
}

#[test]
fn cycle_beyond_the_interval_raises_an_event() {
    let mut worker = Worker::new(3, ms(100), ms(150), at(0));
    assert_eq!(worker.on_tick(at(0)), Ok(ms(150)));
    assert_eq!(
        worker.on_work_done(at(151), false),
        Ok(CycleReport {
            event: Some(VuEvent {
                vu_id: 3,
                scheduled_interval: ms(100),
                actual_duration: ms(151),
                timestamp: at(151),
            }),
            stats: VuStats { vu_id: 3, execution_count: 1, total_duration: ms(151) },
            exit: false,
        })
    );
}

#[test]
fn only_the_work_phase_is_measured() {
    // The worker waited 40 ms for its tick; the cycle measures 50 ms.
    let mut worker = Worker::new(1, ms(100), ms(50), at(60));
    assert_eq!(worker.on_tick(at(100)), Ok(ms(50)));
    let report = worker.on_work_done(at(150), false).unwrap();
    assert_eq!(report.stats.total_duration, ms(50));
    assert_eq!(report.event, None);
}

#[test]
fn statistics_accumulate_over_cycles() {
    let mut worker = Worker::new(2, ms(100), ms(30), at(0));
    let mut expected_total = 0;
    for cycle in 0..6u64 {
        let tick = worker.deadline();
        assert_eq!(tick, at(cycle * 100));
        assert_eq!(worker.on_tick(tick), Ok(ms(30)));
        let report = worker.on_work_done(at(cycle * 100 + 30 + cycle), false).unwrap();
        expected_total += 30 + cycle;
        assert_eq!(
            report.stats,
            VuStats {
                vu_id: 2,
                execution_count: (cycle + 1) as usize,
                total_duration: ms(expected_total),
            }
        );
        assert_eq!(report.stats, worker.stats());
        assert_eq!(report.event, None);
    }
}

#[test]
fn overrun_is_followed_by_an_immediate_tick_and_no_burst() {
    let mut worker = Worker::new(1, ms(100), ms(250), at(0));
    assert_eq!(worker.on_tick(at(0)), Ok(ms(250)));
    assert!(worker.on_work_done(at(250), false).is_ok());
    // The ticks of 100 and 200 were missed: the next one is overdue.
    assert_eq!(worker.deadline(), at(100));
    assert_eq!(worker.on_tick(at(250)), Ok(ms(250)));
    // They counted as one: the tick after it is due at 300.
    assert_eq!(worker.deadline(), at(300));
}

#[test]
fn cancellation_seen_at_the_end_of_a_cycle_stops_the_worker() {
    let mut worker = Worker::new(1, ms(100), ms(50), at(0));
    assert_eq!(worker.on_tick(at(0)), Ok(ms(50)));
    let report = worker.on_work_done(at(50), true).unwrap();
    assert!(report.exit);
    assert_eq!(report.stats.execution_count, 1);
    assert_eq!(worker.phase(), Phase::Stopped);
    assert_eq!(worker.on_tick(at(100)), Err(WorkerFault::OutOfTurn));
}

#[test]
fn cancellation_seen_while_waiting_stops_the_worker() {
    let mut worker = Worker::new(1, ms(100), ms(50), at(0));
    assert!(worker.on_cancel());
    assert_eq!(worker.phase(), Phase::Stopped);
    assert_eq!(worker.stats(), VuStats::new(1));
}

#[test]
fn cancellation_does_not_interrupt_the_work() {
    let mut worker = Worker::new(1, ms(100), ms(50), at(0));
    assert_eq!(worker.on_tick(at(0)), Ok(ms(50)));
    assert!(!worker.on_cancel());
    assert_eq!(worker.phase(), Phase::Working { started: at(0) });
    let report = worker.on_work_done(at(50), true).unwrap();
    assert!(report.exit);
    assert_eq!(report.stats.execution_count, 1);
}

#[test]
fn steps_out_of_turn_are_refused_and_change_nothing() {
    let mut worker = Worker::new(1, ms(100), ms(50), at(0));
    assert_eq!(worker.on_work_done(at(10), false), Err(WorkerFault::OutOfTurn));
    assert_eq!(worker.phase(), Phase::AwaitingTick);
    assert_eq!(worker.on_tick(at(0)), Ok(ms(50)));
    assert_eq!(worker.on_tick(at(1)), Err(WorkerFault::OutOfTurn));
    assert_eq!(worker.phase(), Phase::Working { started: at(0) });
    assert_eq!(worker.deadline(), at(100));
}

#[test]
fn clock_that_went_backwards_measures_nothing() {
    let mut worker = Worker::new(1, ms(100), ms(50), at(0));
    assert_eq!(worker.on_tick(at(80)), Ok(ms(50)));
    let report = worker.on_work_done(at(20), false).unwrap();
    assert_eq!(report.stats, VuStats { vu_id: 1, execution_count: 1, total_duration: ms(0) });
    assert_eq!(report.event, None);
}

#[test]
fn deadline_beyond_the_clock_fails_the_worker() {
    let mut worker = Worker::new(1, ms(100), ms(50), at(0));
    assert_eq!(worker.on_tick(Timestamp::from_nanos(u64::MAX)), Err(WorkerFault::ClockExhausted));
    assert_eq!(worker.phase(), Phase::Failed);
    assert_eq!(worker.on_tick(at(0)), Err(WorkerFault::OutOfTurn));
    assert!(!worker.on_cancel());
}

#[test]
fn full_accumulator_fails_the_worker() {
    let half = 1u64 << 63;
    let mut worker = Worker::new(1, ms(100), ms(50), at(0));
    assert_eq!(worker.on_tick(at(0)), Ok(ms(50)));
    let first = worker.on_work_done(Timestamp::from_nanos(half), false).unwrap();
    assert_eq!(first.stats.total_duration, Span::from_nanos(half));
    assert_eq!(worker.on_tick(at(0)), Ok(ms(50)));
    assert_eq!(
        worker.on_work_done(Timestamp::from_nanos(half), false),
        Err(WorkerFault::AccumulatorFull)
    );
    assert_eq!(worker.phase(), Phase::Failed);
    assert_eq!(worker.stats(), first.stats);
}
