use tokio::sync::mpsc;
use vu_fleet::driver::{Config, DEFAULT_CHANNEL_CAPACITY};
use vu_fleet::event::VuEvent;
use vu_fleet::stats::VuStats;
use vu_fleet::supervisor::{FrequencyReport, Notice, Source, Supervisor};
use vu_fleet::time::{Span, Timestamp};
use vu_fleet::worker::Worker;

fn ms(millis: u64) -> Span {
    Span::from_millis(millis).unwrap()
}

fn at(millis: u64) -> Timestamp {
    Timestamp::from_nanos(millis * 1_000_000)
}

#[test]
fn statistics_cross_the_channel_unchanged() {
    let (stats_tx, mut stats_rx) = mpsc::channel::<VuStats>(DEFAULT_CHANNEL_CAPACITY);
    let mut worker = Worker::new(21, ms(100), ms(40), at(0));
    worker.on_tick(at(0)).unwrap();
    let report = worker.on_work_done(at(40), false).unwrap();
    stats_tx.try_send(report.stats).unwrap();
    let received = stats_rx.try_recv().unwrap();
    assert_eq!(received.vu_id, 21);
    assert_eq!(received.execution_count, 1);
    assert_eq!(received.total_duration, ms(40));
    assert_eq!(received, worker.stats());
    let mut supervisor = Supervisor::new();
    assert_eq!(
        supervisor.on_stats(received),
        Some(Notice::Frequency(FrequencyReport { stats: report.stats, centihertz: 2500 }))
    );
}

#[test]
fn events_cross_the_channel_unchanged() {
    let (event_tx, mut event_rx) = mpsc::channel::<VuEvent>(DEFAULT_CHANNEL_CAPACITY);
    let mut worker = Worker::new(22, ms(100), ms(140), at(0));
    worker.on_tick(at(0)).unwrap();
    let report = worker.on_work_done(at(140), false).unwrap();
    let sent = report.event.unwrap();
    event_tx.try_send(sent).unwrap();
    let received = event_rx.try_recv().unwrap();
    assert_eq!(received, sent);
    let mut supervisor = Supervisor::new();
    assert_eq!(supervisor.on_event(received), Notice::Alert(sent));
}

#[test]
fn supervisor_is_done_once_the_senders_are_gone_and_the_channels_empty() {
    let config = Config::new(2, ms(100), ms(150));
    let (event_tx, mut event_rx) = mpsc::channel::<VuEvent>(config.channel_capacity);
    let (stats_tx, mut stats_rx) = mpsc::channel::<VuStats>(config.channel_capacity);
    for vu_id in 0..config.number_of_vus {
        let mut worker =
            Worker::new(vu_id, config.interval_duration, config.simulated_work_duration, at(0));
        worker.on_tick(at(0)).unwrap();
        let report = worker.on_work_done(at(150), true).unwrap();
        event_tx.try_send(report.event.unwrap()).unwrap();
        stats_tx.try_send(report.stats).unwrap();
    }
    drop(event_tx);
    drop(stats_tx);
    let mut supervisor = Supervisor::new();
    let mut notices = Vec::new();
    let mut rounds = 0;
    while !supervisor.is_done() {
        rounds += 1;
        assert!(rounds <= 6);
        let source = if supervisor.is_open(supervisor.turn()) {
            supervisor.turn()
        } else {
            supervisor.turn().other()
        };
        match source {
            Source::Events => match event_rx.try_recv() {
                Ok(event) => notices.push(supervisor.on_event(event)),
                Err(_) => supervisor.on_closed(Source::Events),
            },
            Source::Stats => match stats_rx.try_recv() {
                Ok(stats) => notices.extend(supervisor.on_stats(stats)),
                Err(_) => supervisor.on_closed(Source::Stats),
            },
        }
    }
    assert_eq!(rounds, 6);
    assert_eq!(notices.len(), 4);
    assert!(matches!(notices[0], Notice::Alert(event) if event.vu_id == 0));
    assert!(matches!(notices[1], Notice::Frequency(report) if report.stats.vu_id == 0));
    assert!(matches!(notices[2], Notice::Alert(event) if event.vu_id == 1));
    assert!(matches!(notices[3], Notice::Frequency(report) if report.stats.vu_id == 1));
}
