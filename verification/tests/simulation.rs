use vu_fleet::driver::{Config, ConfigError};
use vu_fleet::event::VuEvent;
use vu_fleet::simulation::{can_simulate, simulate_fleet, simulate_worker};
use vu_fleet::stats::VuStats;
use vu_fleet::supervisor::{drain, Notice};
use vu_fleet::time::{Span, Timestamp};

fn ms(millis: u64) -> Span {
    Span::from_millis(millis).unwrap()
}

fn at(millis: u64) -> Timestamp {
    Timestamp::from_nanos(millis * 1_000_000)
}

#[test]
fn scenario_work_within_interval() {
    // 3 workers, interval 100 ms, work 50 ms, run 500 ms.
    let traces = simulate_fleet(&Config::new(3, ms(100), ms(50)), ms(500)).unwrap();
    assert_eq!(traces.len(), 3);
    let mut events_in_all = 0;
    for (vu_id, trace) in traces.iter().enumerate() {
        assert_eq!(trace.stats.len(), 5);
        for (k, stats) in trace.stats.iter().enumerate() {
            assert_eq!(
                *stats,
                VuStats { vu_id, execution_count: k + 1, total_duration: ms(50 * (k as u64 + 1)) }
            );
        }
        events_in_all += trace.events.len();
        assert_eq!(trace.stopped_at, at(500));
    }
    assert_eq!(events_in_all, 0);
}

#[test]
fn scenario_work_beyond_interval() {
    // 3 workers, interval 100 ms, work 150 ms, run 500 ms: cycles begin
    // at 0, 150, 300 and 450 ms, and the last one ends at 600 ms.
    let traces = simulate_fleet(&Config::new(3, ms(100), ms(150)), ms(500)).unwrap();
    assert_eq!(traces.len(), 3);
    for (vu_id, trace) in traces.iter().enumerate() {
        assert_eq!(trace.stats.len(), 4);
        assert_eq!(trace.events.len(), 4);
        for (k, event) in trace.events.iter().enumerate() {
            assert!(event.actual_duration >= ms(150));
            assert_eq!(
                *event,
                VuEvent {
                    vu_id,
                    scheduled_interval: ms(100),
                    actual_duration: ms(150),
                    timestamp: at(150 * (k as u64 + 1)),
                }
            );
        }
        assert_eq!(
            trace.stats[3],
            VuStats { vu_id, execution_count: 4, total_duration: ms(600) }
        );
        assert_eq!(trace.stopped_at, at(600));
    }
}

#[test]
fn fleet_with_an_invalid_configuration_does_not_run() {
    assert_eq!(
        simulate_fleet(&Config::new(0, ms(100), ms(50)), ms(500)).err(),
        Some(ConfigError::NoVirtualUsers)
    );
    assert_eq!(
        simulate_fleet(&Config::new(3, ms(0), ms(50)), ms(500)).err(),
        Some(ConfigError::ZeroInterval)
    );
    let config = Config { channel_capacity: 0, ..Config::new(3, ms(100), ms(50)) };
    assert_eq!(simulate_fleet(&config, ms(500)).err(), Some(ConfigError::ZeroCapacity));
}

#[test]
fn run_of_no_length_has_no_cycle() {
    let trace = simulate_worker(0, ms(100), ms(50), ms(0));
    assert!(trace.stats.is_empty());
    assert!(trace.events.is_empty());
    assert_eq!(trace.stopped_at, at(0));
}

#[test]
fn cycle_that_begins_before_the_cancellation_is_completed() {
    let trace = simulate_worker(0, ms(100), ms(50), Span::from_nanos(1));
    assert_eq!(trace.stats, vec![VuStats { vu_id: 0, execution_count: 1, total_duration: ms(50) }]);
    assert_eq!(trace.stopped_at, at(50));
}

#[test]
fn tick_at_the_instant_of_the_cancellation_begins_no_cycle() {
    let trace = simulate_worker(0, ms(100), ms(50), ms(200));
    assert_eq!(trace.stats.len(), 2);
    assert_eq!(trace.stopped_at, at(200));
    let trace = simulate_worker(0, ms(100), ms(50), Span::from_nanos(200_000_001));
    assert_eq!(trace.stats.len(), 3);
    assert_eq!(trace.stopped_at, at(250));
}

#[test]
fn work_as_long_as_the_interval_raises_no_event() {
    let trace = simulate_worker(4, ms(100), ms(100), ms(1000));
    assert_eq!(trace.stats.len(), 10);
    assert!(trace.events.is_empty());
    assert_eq!(
        trace.stats[9],
        VuStats { vu_id: 4, execution_count: 10, total_duration: ms(1000) }
    );
    assert_eq!(trace.stopped_at, at(1000));
}

#[test]
fn work_that_takes_no_time_is_counted_and_never_late() {
    let trace = simulate_worker(4, ms(100), ms(0), ms(350));
    assert_eq!(trace.stats.len(), 4);
    assert!(trace.events.is_empty());
    assert_eq!(trace.stats[3], VuStats { vu_id: 4, execution_count: 4, total_duration: ms(0) });
    assert_eq!(trace.stopped_at, at(350));
}

#[test]
fn work_within_interval_raises_no_event_however_long_the_run() {
    for run_millis in [1u64, 99, 100, 101, 499, 500, 501, 12_345] {
        for (interval, work) in [(100u64, 1u64), (100, 50), (100, 99), (7, 3), (1000, 800)] {
            let trace = simulate_worker(0, ms(interval), ms(work), ms(run_millis));
            assert!(trace.events.is_empty());
            assert_eq!(trace.stats.len() as u64, (run_millis + interval - 1) / interval);
        }
    }
}

#[test]
fn work_beyond_interval_raises_one_event_for_every_cycle() {
    for run_millis in [1u64, 149, 150, 151, 500, 12_345] {
        for (interval, work) in [(100u64, 101u64), (100, 150), (100, 1000), (7, 30)] {
            let trace = simulate_worker(9, ms(interval), ms(work), ms(run_millis));
            assert_eq!(trace.events.len(), trace.stats.len());
            assert_eq!(trace.stats.len() as u64, (run_millis + work - 1) / work);
            for (k, event) in trace.events.iter().enumerate() {
                assert_eq!(event.vu_id, 9);
                assert!(event.actual_duration >= ms(work));
                assert!(event.actual_duration > event.scheduled_interval);
                assert_eq!(trace.stats[k].execution_count, k + 1);
            }
        }
    }
}

#[test]
fn worker_leaves_within_one_interval_of_the_cancellation() {
    for run_millis in [0u64, 1, 49, 50, 51, 100, 449, 450, 451, 500] {
        let trace = simulate_worker(0, ms(100), ms(50), ms(run_millis));
        assert!(trace.stopped_at.nanos >= ms(run_millis).nanos);
        assert!(trace.stopped_at.nanos - ms(run_millis).nanos <= ms(100).nanos);
    }
    let trace = simulate_worker(0, ms(100), ms(50), ms(420));
    assert_eq!(trace.stopped_at, at(450));
    let trace = simulate_worker(0, ms(100), ms(50), ms(470));
    assert_eq!(trace.stopped_at, at(470));
}

#[test]
fn worker_at_long_work_leaves_when_its_cycle_ends() {
    // Work of a second against an interval of 100 ms, cancelled after
    // 1 ms: the worker is at work and leaves 999 ms later.
    let trace = simulate_worker(0, ms(100), ms(1000), ms(1));
    assert_eq!(trace.stats.len(), 1);
    assert_eq!(trace.events.len(), 1);
    assert_eq!(trace.stopped_at, at(1000));
}

#[test]
fn supervisor_reports_what_the_fleet_sent() {
    let traces = simulate_fleet(&Config::new(3, ms(100), ms(150)), ms(500)).unwrap();
    for trace in traces.iter() {
        let notices = drain(&trace.events, &trace.stats);
        assert_eq!(notices.len(), 8);
        for (place, notice) in notices.iter().enumerate() {
            match notice {
                Notice::Alert(event) => {
                    assert_eq!(place % 2, 0);
                    assert_eq!(*event, trace.events[place / 2]);
                }
                Notice::Frequency(report) => {
                    assert_eq!(place % 2, 1);
                    assert_eq!(report.stats, trace.stats[place / 2]);
                    // One execution every 150 ms: 6.66 per second.
                    assert_eq!(report.centihertz, 666);
                }
            }
        }
    }
}

#[test]
fn run_that_fits_the_machine_can_be_simulated() {
    assert!(can_simulate(ms(100), ms(50), ms(500)));
    assert!(can_simulate(ms(100), ms(150), ms(0)));
    assert!(can_simulate(Span::from_nanos(1), ms(0), ms(1)));
    assert!(can_simulate(ms(1), ms(1), Span::from_nanos(u64::MAX - 1_000_000)));
}

#[test]
fn run_that_does_not_fit_the_machine_cannot_be_simulated() {
    // No interval.
    assert!(!can_simulate(ms(0), ms(50), ms(500)));
    // The deadline after the last tick is beyond the clock.
    assert!(!can_simulate(ms(1), ms(0), Span::from_nanos(u64::MAX - 999_999)));
    // The end of the last cycle is beyond the clock.
    assert!(!can_simulate(Span::from_nanos(1), ms(1), Span::from_nanos(u64::MAX - 999_999)));
}
