//! The supervisor: the one consumer of the event channel and the
//! statistics channel.
//!
//! Whoever drives the supervisor waits on the channels and hands over what
//! arrives. The supervisor decides which channel is looked at first, what
//! is emitted for a message, and when its work is done. The channels take
//! turns: the channel that was serviced last yields to the other one.

use vstd::prelude::*;
use vstd::arithmetic::div_mod::{lemma_fundamental_div_mod, lemma_mod_bound};
use crate::event::VuEvent;
use crate::stats::{centihertz, VuStats, CENTIHERTZ_PER_GIGAHERTZ};

verus! {

/// One of the two channels that the supervisor drains.
#[derive(Clone, Copy, Debug, PartialEq, Eq, Structural)]
pub enum Source {
    /// The channel of deadline violations.
    Events,
    /// The channel of statistics.
    Stats,
}

impl Source {
    pub open spec fn spec_other(self) -> Source {
        match self {
            Source::Events => Source::Stats,
            Source::Stats => Source::Events,
        }
    }

    /// The other channel.
    #[verifier::when_used_as_spec(spec_other)]
    pub fn other(self) -> (other: Source)
        ensures
            other == self.spec_other(),
    {
        match self {
            Source::Events => Source::Stats,
            Source::Stats => Source::Events,
        }
    }
}

/// A frequency report: the statistics as they were received, and the
/// executions per second that follow from them, in hundredths and rounded
/// down.
#[derive(Clone, Copy, Debug, PartialEq, Eq, Structural)]
pub struct FrequencyReport {
    pub stats: VuStats,
    pub centihertz: u128,
}

/// What the supervisor emits for one message.
#[derive(Clone, Copy, Debug, PartialEq, Eq, Structural)]
pub enum Notice {
    /// A deadline violation, with all that the event said.
    Alert(VuEvent),
    /// The running frequency of one worker.
    Frequency(FrequencyReport),
}

/// The report that is due for `stats`: none while no time has been
/// recorded, so that no frequency is ever derived from a zero duration.
pub open spec fn report_for(stats: VuStats) -> Option<Notice> {
    if stats.total_duration.nanos == 0 {
        None
    } else {
        Some(
            Notice::Frequency(
                FrequencyReport {
                    stats,
                    centihertz: centihertz(
                        stats.execution_count as nat,
                        stats.total_duration.nanos as nat,
                    ) as u128,
                },
            ),
        )
    }
}

/// The state of a supervisor, as contracts see it: which channels are
/// still open, and whose turn it is.
pub struct SupervisorState {
    pub events_open: bool,
    pub stats_open: bool,
    pub turn: Source,
}

impl SupervisorState {
    pub open spec fn is_open(self, source: Source) -> bool {
        match source {
            Source::Events => self.events_open,
            Source::Stats => self.stats_open,
        }
    }

    /// Whether `source` can be serviced, where `events_ready` and
    /// `stats_ready` say which channels hold a message: it is open and
    /// holds one.
    pub open spec fn eligible(self, source: Source, events_ready: bool, stats_ready: bool) -> bool {
        match source {
            Source::Events => self.events_open && events_ready,
            Source::Stats => self.stats_open && stats_ready,
        }
    }

    /// The channel that is serviced next: the channel whose turn it is,
    /// where it can be serviced, else the other one, where that can be;
    /// none where neither can.
    pub open spec fn choice(self, events_ready: bool, stats_ready: bool) -> Option<Source> {
        if self.eligible(self.turn, events_ready, stats_ready) {
            Some(self.turn)
        } else if self.eligible(self.turn.other(), events_ready, stats_ready) {
            Some(self.turn.other())
        } else {
            None
        }
    }

    /// The supervisor's work is over: both channels are closed.
    pub open spec fn done(self) -> bool {
        !self.events_open && !self.stats_open
    }

    /// The state after a message from `source` was serviced: the turn
    /// passes to the other channel.
    pub open spec fn served(self, source: Source) -> SupervisorState {
        SupervisorState { turn: source.other(), ..self }
    }

    /// The state after `source` was found closed and empty.
    pub open spec fn closed(self, source: Source) -> SupervisorState {
        match source {
            Source::Events => SupervisorState { events_open: false, ..self },
            Source::Stats => SupervisorState { stats_open: false, ..self },
        }
    }
}

/// The consumer of both channels.
#[derive(Clone, Copy, Debug)]
pub struct Supervisor {
    events_open: bool,
    stats_open: bool,
    turn: Source,
}

impl View for Supervisor {
    type V = SupervisorState;

    closed spec fn view(&self) -> SupervisorState {
        SupervisorState {
            events_open: self.events_open,
            stats_open: self.stats_open,
            turn: self.turn,
        }
    }
}

impl Supervisor {
    /// A supervisor with both channels open. The event channel comes
    /// first.
    pub fn new() -> (supervisor: Supervisor)
        ensures
            supervisor@ == (SupervisorState {
                events_open: true,
                stats_open: true,
                turn: Source::Events,
            }),
    {
        Supervisor { events_open: true, stats_open: true, turn: Source::Events }
    }

    /// The channel whose turn it is: the one to look at first.
    pub fn turn(&self) -> (turn: Source)
        ensures
            turn == self@.turn,
    {
        self.turn
    }

    /// Whether `source` may still deliver.
    pub fn is_open(&self, source: Source) -> (open: bool)
        ensures
            open == self@.is_open(source),
    {
        match source {
            Source::Events => self.events_open,
            Source::Stats => self.stats_open,
        }
    }

    /// Whether the supervisor's work is over: both channels are closed and
    /// drained.
    pub fn is_done(&self) -> (done: bool)
        ensures
            done == self@.done(),
    {
        !self.events_open && !self.stats_open
    }

    /// The channel to service next, given which channels hold a message;
    /// `None` where there is nothing to service and the supervisor has to
    /// wait.
    pub fn select(&self, events_ready: bool, stats_ready: bool) -> (choice: Option<Source>)
        ensures
            choice == self@.choice(events_ready, stats_ready),
    {
        let events = self.events_open && events_ready;
        let stats = self.stats_open && stats_ready;
        if events && stats {
            Some(self.turn)
        } else if events {
            Some(Source::Events)
        } else if stats {
            Some(Source::Stats)
        } else {
            None
        }
    }

    /// An event has arrived. Returns the alert to emit, which says all that
    /// the event said.
    pub fn on_event(&mut self, event: VuEvent) -> (notice: Notice)
        ensures
            notice == Notice::Alert(event),
            final(self)@ == old(self)@.served(Source::Events),
    {
        self.turn = Source::Stats;
        Notice::Alert(event)
    }

    /// Statistics have arrived. Returns the frequency report to emit, or
    /// `None` where no time has been recorded yet and there is no
    /// frequency to report.
    pub fn on_stats(&mut self, stats: VuStats) -> (notice: Option<Notice>)
        ensures
            notice == report_for(stats),
            final(self)@ == old(self)@.served(Source::Stats),
    {
        self.turn = Source::Events;
        match stats.frequency() {
            Some(centihertz) => Some(Notice::Frequency(FrequencyReport { stats, centihertz })),
            None => None,
        }
    }

    /// `source` was found closed and empty: all its senders are gone, and
    /// nothing more will come from it.
    pub fn on_closed(&mut self, source: Source)
        ensures
            final(self)@ == old(self)@.closed(source),
    {
        match source {
            Source::Events => {
                self.events_open = false;
            },
            Source::Stats => {
                self.stats_open = false;
            },
        }
    }
}

/// A frequency is reported exactly where some time has been recorded, and
/// the report then carries the statistics as they were received, field for
/// field, beside the frequency that follows from them.
pub proof fn lemma_report_needs_recorded_time(stats: VuStats)
    ensures
        report_for(stats).is_some() <==> stats.total_duration.nanos > 0,
        report_for(stats) matches Some(notice) ==> notice matches Notice::Frequency(report)
            && report.stats == stats && report.centihertz == centihertz(
            stats.execution_count as nat,
            stats.total_duration.nanos as nat,
        ),
{
    if stats.total_duration.nanos > 0 {
        lemma_centihertz_fits(stats);
    }
}

/// The frequency of statistics with some time recorded fits in 128 bits.
pub proof fn lemma_centihertz_fits(stats: VuStats)
    requires
        stats.total_duration.nanos > 0,
    ensures
        centihertz(stats.execution_count as nat, stats.total_duration.nanos as nat) <= u128::MAX,
{
    let scaled: int = stats.execution_count * CENTIHERTZ_PER_GIGAHERTZ;
    let nanos: int = stats.total_duration.nanos as int;
    assert(0 <= scaled <= u128::MAX) by (nonlinear_arith)
        requires
            0 <= stats.execution_count <= u64::MAX,
            scaled == stats.execution_count * 100_000_000_000,
    ;
    lemma_fundamental_div_mod(scaled, nanos);
    lemma_mod_bound(scaled, nanos);
    let q: int = scaled / nanos;
    assert(q <= scaled) by (nonlinear_arith)
        requires
            nanos >= 1,
            scaled == nanos * q + scaled % nanos,
            0 <= scaled % nanos,
            0 <= scaled,
    ;
}

/// Neither channel is starved: a channel that is open and holds a message
/// in two rounds that follow each other is serviced in at least one of
/// them, whatever the other channel holds.
pub proof fn lemma_ready_channel_waits_at_most_one_round(
    state: SupervisorState,
    source: Source,
    ready_first: (bool, bool),
    ready_second: (bool, bool),
)
    requires
        state.is_open(source),
        source == Source::Events ==> ready_first.0 && ready_second.0,
        source == Source::Stats ==> ready_first.1 && ready_second.1,
    ensures
        ({
            let first = state.choice(ready_first.0, ready_first.1);
            let second = state.served(first.unwrap()).choice(ready_second.0, ready_second.1);
            first.is_some() && second.is_some() && (first == Some(source) || second == Some(source))
        }),
{
}

/// While both channels are open and hold messages, they are serviced in
/// turn: no two rounds that follow each other service the same channel.
pub proof fn lemma_busy_channels_alternate(state: SupervisorState)
    requires
        state.events_open,
        state.stats_open,
    ensures
        ({
            let first = state.choice(true, true);
            let second = state.served(first.unwrap()).choice(true, true);
            first.is_some() && second.is_some() && first != second
        }),
{
}

/// The supervisor ends once both channels are closed, in whichever order
/// they close, and not before: servicing a message closes nothing, a
/// closed channel stays closed, and a supervisor that is done services
/// nothing more.
pub proof fn lemma_supervisor_ends_when_both_channels_are_closed(
    state: SupervisorState,
    source: Source,
)
    ensures
        state.closed(source).closed(source.other()).done(),
        state.closed(source).done() <==> !state.is_open(source.other()),
        state.served(source).done() <==> state.done(),
        !state.is_open(source) ==> !state.served(source).is_open(source) && !state.closed(
            source.other(),
        ).is_open(source),
        state.done() ==> state.choice(true, true).is_none(),
{
}

/// What a supervisor emits for two channels that hold `events` and
/// `stats` and whose senders are gone, where `turn` says which channel
/// comes first: the channels are serviced in turn while both hold
/// messages, and then the one that still does.
pub open spec fn emitted(turn: Source, events: Seq<VuEvent>, stats: Seq<VuStats>) -> Seq<Notice>
    decreases events.len() + stats.len(),
{
    if events.len() > 0 && (turn == Source::Events || stats.len() == 0) {
        seq![Notice::Alert(events[0])] + emitted(Source::Stats, events.skip(1), stats)
    } else if stats.len() > 0 {
        let rest = emitted(Source::Events, events, stats.skip(1));
        match report_for(stats[0]) {
            Some(notice) => seq![notice] + rest,
            None => rest,
        }
    } else {
        Seq::empty()
    }
}

/// Runs a supervisor on two channels that hold `events` and `stats` and
/// whose senders are gone, until it is done. Returns what it emits, in
/// order.
pub fn drain(events: &Vec<VuEvent>, stats: &Vec<VuStats>) -> (notices: Vec<Notice>)
    ensures
        notices@ == emitted(Source::Events, events@, stats@),
{
    let mut supervisor = Supervisor::new();
    let mut notices: Vec<Notice> = Vec::new();
    let mut e: usize = 0;
    let mut s: usize = 0;
    assert(events@.skip(0) =~= events@ && stats@.skip(0) =~= stats@);
    while !supervisor.is_done()
        invariant
            e <= events@.len(),
            s <= stats@.len(),
            supervisor@.events_open || e == events@.len(),
            supervisor@.stats_open || s == stats@.len(),
            notices@ + emitted(supervisor@.turn, events@.skip(e as int), stats@.skip(s as int))
                == emitted(Source::Events, events@, stats@),
        decreases
                (events@.len() - e) + (stats@.len() - s) + (if supervisor@.events_open {
                    1nat
                } else {
                    0nat
                }) + (if supervisor@.stats_open {
                    1nat
                } else {
                    0nat
                }),
    {
        let ghost before = notices@;
        let ghost pending_events = events@.skip(e as int);
        let ghost pending_stats = stats@.skip(s as int);
        match supervisor.select(e < events.len(), s < stats.len()) {
            Some(Source::Events) => {
                let notice = supervisor.on_event(events[e]);
                notices.push(notice);
                e = e + 1;
                proof {
                    assert(pending_events.skip(1) =~= events@.skip(e as int));
                    let rest = emitted(Source::Stats, events@.skip(e as int), pending_stats);
                    assert(notices@ + rest =~= before + (seq![notice] + rest));
                }
            },
            Some(Source::Stats) => {
                let report = supervisor.on_stats(stats[s]);
                match report {
                    Some(notice) => {
                        notices.push(notice);
                    },
                    None => {},
                }
                s = s + 1;
                proof {
                    assert(pending_stats.skip(1) =~= stats@.skip(s as int));
                    let rest = emitted(Source::Events, pending_events, stats@.skip(s as int));
                    if let Some(notice) = report {
                        assert(notices@ + rest =~= before + (seq![notice] + rest));
                    }
                }
            },
            None => {
                // Neither channel holds a message: what is still open is
                // found closed.
                if supervisor.is_open(Source::Events) {
                    supervisor.on_closed(Source::Events);
                } else {
                    supervisor.on_closed(Source::Stats);
                }
            },
        }
    }
    proof {
        assert(notices@ + Seq::<Notice>::empty() =~= notices@);
    }
    notices
}

/// The events of the alerts among `notices`, in order.
pub open spec fn alerts_in(notices: Seq<Notice>) -> Seq<VuEvent>
    decreases notices.len(),
{
    if notices.len() == 0 {
        Seq::empty()
    } else {
        let rest = alerts_in(notices.skip(1));
        match notices[0] {
            Notice::Alert(event) => seq![event] + rest,
            Notice::Frequency(_) => rest,
        }
    }
}

/// The statistics of the frequency reports among `notices`, in order.
pub open spec fn statistics_in(notices: Seq<Notice>) -> Seq<VuStats>
    decreases notices.len(),
{
    if notices.len() == 0 {
        Seq::empty()
    } else {
        let rest = statistics_in(notices.skip(1));
        match notices[0] {
            Notice::Alert(_) => rest,
            Notice::Frequency(report) => seq![report.stats] + rest,
        }
    }
}

/// Those of `stats` that have some time recorded, in order.
pub open spec fn with_time(stats: Seq<VuStats>) -> Seq<VuStats>
    decreases stats.len(),
{
    if stats.len() == 0 {
        Seq::empty()
    } else {
        let rest = with_time(stats.skip(1));
        if stats[0].total_duration.nanos > 0 {
            seq![stats[0]] + rest
        } else {
            rest
        }
    }
}

/// What was sent arrives as it was sent: the alerts that a supervisor
/// emits say, in order, exactly what the events on the channel said, and
/// its frequency reports carry, in order, exactly the statistics on the
/// channel that have some time recorded.
pub proof fn lemma_nothing_is_lost_or_changed(
    turn: Source,
    events: Seq<VuEvent>,
    stats: Seq<VuStats>,
)
    ensures
        alerts_in(emitted(turn, events, stats)) == events,
        statistics_in(emitted(turn, events, stats)) == with_time(stats),
    decreases events.len() + stats.len(),
{
    let out = emitted(turn, events, stats);
    if events.len() > 0 && (turn == Source::Events || stats.len() == 0) {
        let rest = emitted(Source::Stats, events.skip(1), stats);
        lemma_nothing_is_lost_or_changed(Source::Stats, events.skip(1), stats);
        assert(out.skip(1) =~= rest);
        assert(seq![events[0]] + events.skip(1) =~= events);
    } else if stats.len() > 0 {
        let rest = emitted(Source::Events, events, stats.skip(1));
        lemma_nothing_is_lost_or_changed(Source::Events, events, stats.skip(1));
        lemma_report_needs_recorded_time(stats[0]);
        if report_for(stats[0]).is_some() {
            assert(out.skip(1) =~= rest);
        }
    } else {
        assert(events =~= Seq::<VuEvent>::empty());
    }
}

/// No frequency is ever reported for statistics without recorded time:
/// every frequency report that a supervisor emits is that of statistics
/// with a positive total duration.
pub proof fn lemma_every_report_has_recorded_time(
    turn: Source,
    events: Seq<VuEvent>,
    stats: Seq<VuStats>,
)
    ensures
        forall|i: int|
            0 <= i < emitted(turn, events, stats).len() ==> (#[trigger] emitted(
                turn,
                events,
                stats,
            )[i] matches Notice::Frequency(report) ==> report.stats.total_duration.nanos > 0
                && report_for(report.stats) == Some(Notice::Frequency(report))),
    decreases events.len() + stats.len(),
{
    if events.len() > 0 && (turn == Source::Events || stats.len() == 0) {
        lemma_every_report_has_recorded_time(Source::Stats, events.skip(1), stats);
    } else if stats.len() > 0 {
        lemma_every_report_has_recorded_time(Source::Events, events, stats.skip(1));
        lemma_report_needs_recorded_time(stats[0]);
    }
}

} // verus!
