//! The driver: configuration, and the life of a fleet from start to exit.
//!
//! Whoever runs the fleet spawns tasks, sets the cancellation signal, drops
//! channel handles and joins; the driver says when. It is told what
//! happened (a shutdown was asked for, a worker left or failed, the
//! supervisor finished) and answers with the commands to carry out.

use vstd::prelude::*;
use crate::supervisor::Source;
use crate::time::Span;
use crate::worker::WorkerFault;

verus! {

/// The capacity of a channel where none is asked for.
pub const DEFAULT_CHANNEL_CAPACITY: usize = 100;

/// The exit status after a graceful shutdown.
pub const EXIT_SUCCESS: u8 = 0;

/// The exit status after a configuration was refused.
pub const EXIT_CONFIG_INVALID: u8 = 2;

/// What the driver does about a worker that failed.
#[derive(Clone, Copy, Debug, PartialEq, Eq, Structural)]
pub enum Supervision {
    /// Start it again, with a fresh accumulator.
    Restart,
    /// Leave it out for good, and go on with the rest of the fleet.
    MarkFailed,
}

/// The settings of a fleet.
#[derive(Clone, Copy, Debug, PartialEq, Eq, Structural)]
pub struct Config {
    pub number_of_vus: usize,
    pub interval_duration: Span,
    pub simulated_work_duration: Span,
    pub channel_capacity: usize,
    pub supervision: Supervision,
}

/// Why a configuration was refused.
#[derive(Clone, Copy, Debug, PartialEq, Eq, Structural)]
pub enum ConfigError {
    /// There is no virtual user to run.
    NoVirtualUsers,
    /// The interval is empty.
    ZeroInterval,
    /// The channels could not hold a single message.
    ZeroCapacity,
}

/// What can go wrong in a fleet.
#[derive(Clone, Copy, Debug, PartialEq, Eq, Structural)]
pub enum Failure {
    /// The configuration was refused, before anything was spawned.
    ConfigInvalid(ConfigError),
    /// The receiving end of a channel is gone: what is sent there is
    /// dropped.
    ChannelClosed(Source),
    /// One worker failed. The others and the supervisor go on.
    WorkerFailure { vu_id: usize, fault: WorkerFault },
}

impl Failure {
    /// Whether the failure ends the process. Only a refused configuration
    /// does; the others are contained where they arise.
    pub fn is_fatal(&self) -> (fatal: bool)
        ensures
            fatal == (*self is ConfigInvalid),
    {
        match self {
            Failure::ConfigInvalid(_) => true,
            _ => false,
        }
    }
}

impl Config {
    /// A configuration that a fleet can be run with.
    pub open spec fn valid(&self) -> bool {
        &&& self.number_of_vus > 0
        &&& self.interval_duration.nanos > 0
        &&& self.channel_capacity > 0
    }

    /// The configuration with channels of the default capacity, and with
    /// failed workers restarted.
    pub fn new(number_of_vus: usize, interval_duration: Span, simulated_work_duration: Span) -> (config:
        Config)
        ensures
            config == (Config {
                number_of_vus,
                interval_duration,
                simulated_work_duration,
                channel_capacity: DEFAULT_CHANNEL_CAPACITY,
                supervision: Supervision::Restart,
            }),
    {
        Config {
            number_of_vus,
            interval_duration,
            simulated_work_duration,
            channel_capacity: DEFAULT_CHANNEL_CAPACITY,
            supervision: Supervision::Restart,
        }
    }

    /// What checking the configuration comes to. The first of these that
    /// holds is the error: no virtual users, an empty interval, channels
    /// without capacity.
    pub open spec fn verdict(&self) -> Result<(), ConfigError> {
        if self.number_of_vus == 0 {
            Err(ConfigError::NoVirtualUsers)
        } else if self.interval_duration.nanos == 0 {
            Err(ConfigError::ZeroInterval)
        } else if self.channel_capacity == 0 {
            Err(ConfigError::ZeroCapacity)
        } else {
            Ok(())
        }
    }

    /// Checks the configuration: it passes exactly if it is valid, and
    /// each error says what is wrong with it.
    pub fn validate(&self) -> (checked: Result<(), ConfigError>)
        ensures
            checked == self.verdict(),
            checked.is_ok() <==> self.valid(),
            checked matches Err(ConfigError::NoVirtualUsers) ==> self.number_of_vus == 0,
            checked matches Err(ConfigError::ZeroInterval) ==> self.interval_duration.nanos == 0,
            checked matches Err(ConfigError::ZeroCapacity) ==> self.channel_capacity == 0,
    {
        if self.number_of_vus == 0 {
            Err(ConfigError::NoVirtualUsers)
        } else if self.interval_duration.nanos == 0 {
            Err(ConfigError::ZeroInterval)
        } else if self.channel_capacity == 0 {
            Err(ConfigError::ZeroCapacity)
        } else {
            Ok(())
        }
    }
}

/// The exit status of a run that ended as `outcome` says: success after a
/// graceful shutdown, and another status only after a refused
/// configuration.
pub fn exit_status(outcome: Result<(), ConfigError>) -> (status: u8)
    ensures
        status == (if outcome.is_ok() {
            EXIT_SUCCESS
        } else {
            EXIT_CONFIG_INVALID
        }),
{
    match outcome {
        Ok(_) => EXIT_SUCCESS,
        Err(_) => EXIT_CONFIG_INVALID,
    }
}

/// How far the fleet has come.
#[derive(Clone, Copy, Debug, PartialEq, Eq, Structural)]
pub enum Stage {
    /// The workers run; no shutdown was asked for.
    Running,
    /// The cancellation signal is set; workers are leaving.
    Cancelling,
    /// All workers are gone and the channels are closed; the supervisor
    /// drains what is left.
    Draining,
    /// The supervisor has finished.
    Finished,
}

/// What became of one worker.
#[derive(Clone, Copy, Debug, PartialEq, Eq, Structural)]
pub enum Slot {
    /// It runs.
    Running,
    /// It left its loop after the cancellation.
    Exited,
    /// It failed and was not started again.
    Failed,
}

/// What the driver asks for.
#[derive(Clone, Copy, Debug, PartialEq, Eq, Structural)]
pub enum Command {
    /// Create the event channel and the statistics channel, each with this
    /// capacity.
    OpenChannels(usize),
    /// Spawn the supervisor on the receiving ends of the channels.
    SpawnSupervisor,
    /// Spawn this worker, with a fresh accumulator, a sender handle of
    /// each channel and the cancellation signal.
    SpawnWorker(usize),
    /// Set the cancellation signal.
    Cancel,
    /// Drop every sender handle, so that the channels close once they are
    /// empty.
    CloseChannels,
    /// Leave the process with this status.
    Exit(u8),
}

/// The state of a driver, as contracts see it.
pub struct DriverState {
    pub config: Config,
    pub stage: Stage,
    pub slots: Seq<Slot>,
}

/// The commands that begin the run of `config`: the channels are created,
/// then the supervisor is spawned, then every worker, in the order of
/// their numbers.
pub open spec fn startup(config: Config) -> Seq<Command> {
    seq![Command::OpenChannels(config.channel_capacity), Command::SpawnSupervisor] + Seq::new(
        config.number_of_vus as nat,
        |i: int| Command::SpawnWorker(i as usize),
    )
}

impl DriverState {
    /// What holds of a driver at every moment: the configuration is valid
    /// and every worker has its slot; while the cancellation is under way
    /// some worker still runs; and the channels are closed only once no
    /// worker runs.
    pub open spec fn inv(self) -> bool {
        &&& self.config.valid()
        &&& self.slots.len() == self.config.number_of_vus
        &&& self.stage == Stage::Cancelling ==> !self.none_running()
        &&& self.stage == Stage::Draining || self.stage == Stage::Finished ==> self.none_running()
    }

    /// No worker runs any more.
    pub open spec fn none_running(self) -> bool {
        forall|i: int| 0 <= i < self.slots.len() ==> self.slots[i] != Slot::Running
    }

    /// The worker `vu_id` exists and runs.
    pub open spec fn runs(self, vu_id: usize) -> bool {
        vu_id < self.slots.len() && self.slots[vu_id as int] == Slot::Running
    }

    /// The state and the commands after the worker `vu_id` has left for
    /// good, its slot now `slot`: once the cancellation is under way and
    /// the last worker is gone, the channels are closed.
    pub open spec fn without(self, vu_id: usize, slot: Slot) -> (DriverState, Seq<Command>) {
        let left = DriverState { slots: self.slots.update(vu_id as int, slot), ..self };
        if self.stage == Stage::Cancelling && left.none_running() {
            (DriverState { stage: Stage::Draining, ..left }, seq![Command::CloseChannels])
        } else {
            (left, Seq::<Command>::empty())
        }
    }

    /// The state and the commands after a shutdown was asked for: the
    /// cancellation signal is set, and where no worker is left to wait
    /// for, the channels are closed at once. A second request changes
    /// nothing.
    pub open spec fn shutdown(self) -> (DriverState, Seq<Command>) {
        if self.stage != Stage::Running {
            (self, Seq::<Command>::empty())
        } else if self.none_running() {
            (
                DriverState { stage: Stage::Draining, ..self },
                seq![Command::Cancel, Command::CloseChannels],
            )
        } else {
            (DriverState { stage: Stage::Cancelling, ..self }, seq![Command::Cancel])
        }
    }

    /// The state and the commands after the worker `vu_id` has left its
    /// loop. Word of a worker that does not run is ignored.
    pub open spec fn worker_exited(self, vu_id: usize) -> (DriverState, Seq<Command>) {
        if self.runs(vu_id) {
            self.without(vu_id, Slot::Exited)
        } else {
            (self, Seq::<Command>::empty())
        }
    }

    /// The state and the commands after the worker `vu_id` has failed.
    /// While the fleet runs and failed workers are to be restarted, it is
    /// started again; else it is left out, and the others go on.
    pub open spec fn worker_failed(self, vu_id: usize) -> (DriverState, Seq<Command>) {
        if !self.runs(vu_id) {
            (self, Seq::<Command>::empty())
        } else if self.stage == Stage::Running && self.config.supervision == Supervision::Restart {
            (self, seq![Command::SpawnWorker(vu_id)])
        } else {
            self.without(vu_id, Slot::Failed)
        }
    }

    /// The state and the commands after the supervisor has finished: once
    /// the channels were closed, the run is over, with success.
    pub open spec fn supervisor_finished(self) -> (DriverState, Seq<Command>) {
        if self.stage == Stage::Draining {
            (DriverState { stage: Stage::Finished, ..self }, seq![Command::Exit(EXIT_SUCCESS)])
        } else {
            (self, Seq::<Command>::empty())
        }
    }

    /// The state after the workers `leaving` have left their loops, one
    /// after the other.
    pub open spec fn workers_exited(self, leaving: Seq<usize>) -> DriverState
        decreases leaving.len(),
    {
        if leaving.len() == 0 {
            self
        } else {
            self.worker_exited(leaving[0]).0.workers_exited(leaving.skip(1))
        }
    }
}

/// Whatever the driver is told, its invariant goes on to hold.
pub proof fn lemma_invariant_is_kept(state: DriverState, vu_id: usize)
    requires
        state.inv(),
    ensures
        state.shutdown().0.inv(),
        state.worker_exited(vu_id).0.inv(),
        state.worker_failed(vu_id).0.inv(),
        state.supervisor_finished().0.inv(),
{
    if state.runs(vu_id) {
        assert(state.stage == Stage::Draining || state.stage == Stage::Finished ==> !state.runs(
            vu_id,
        ));
    }
}

/// A shutdown runs its course: once it was asked for and every worker that
/// ran has left, in whatever order, the channels have been closed and no
/// worker runs; when the supervisor has then finished, the run ends with
/// the status of success.
pub proof fn lemma_shutdown_ends_in_success(state: DriverState, leaving: Seq<usize>)
    requires
        state.inv(),
        state.stage == Stage::Running,
        forall|vu_id: usize| state.runs(vu_id) ==> leaving.contains(vu_id),
    ensures
        state.shutdown().1.len() > 0 && state.shutdown().1[0] == Command::Cancel,
        ({
            let drained = state.shutdown().0.workers_exited(leaving);
            &&& drained.inv()
            &&& drained.stage == Stage::Draining
            &&& drained.supervisor_finished().0.stage == Stage::Finished
            &&& drained.supervisor_finished().1 == seq![Command::Exit(EXIT_SUCCESS)]
        }),
{
    lemma_invariant_is_kept(state, 0);
    lemma_leaving_workers_drain(state.shutdown().0, leaving);
}

/// Once the cancellation is under way or over and every worker that still
/// runs has left, the driver drains.
proof fn lemma_leaving_workers_drain(state: DriverState, leaving: Seq<usize>)
    requires
        state.inv(),
        state.stage == Stage::Cancelling || state.stage == Stage::Draining,
        forall|vu_id: usize| state.runs(vu_id) ==> leaving.contains(vu_id),
    ensures
        state.workers_exited(leaving).inv(),
        state.workers_exited(leaving).stage == Stage::Draining,
    decreases leaving.len(),
{
    if leaving.len() == 0 {
        if state.stage == Stage::Cancelling {
            let i = choose|i: int| 0 <= i < state.slots.len() && state.slots[i] == Slot::Running;
            assert(state.runs(i as usize));
            assert(leaving.contains(i as usize));
        }
    } else {
        let next = state.worker_exited(leaving[0]).0;
        lemma_invariant_is_kept(state, leaving[0]);
        assert forall|vu_id: usize| next.runs(vu_id) implies leaving.skip(1).contains(vu_id) by {
            assert(state.runs(vu_id));
            assert(vu_id != leaving[0]);
            let i = choose|i: int| 0 <= i < leaving.len() && leaving[i] == vu_id;
            assert(leaving.skip(1)[i - 1] == vu_id);
        }
        lemma_leaving_workers_drain(next, leaving.skip(1));
    }
}

/// The driver of one fleet.
#[derive(Debug)]
pub struct Driver {
    config: Config,
    stage: Stage,
    slots: Vec<Slot>,
}

impl View for Driver {
    type V = DriverState;

    closed spec fn view(&self) -> DriverState {
        DriverState { config: self.config, stage: self.stage, slots: self.slots@ }
    }
}

impl Driver {
    /// A driver is in a state that its invariant admits.
    pub open spec fn wf(&self) -> bool {
        self@.inv()
    }

    /// Checks the configuration and, where it is valid, begins the run.
    /// Returns the driver and the commands to carry out, in order; a
    /// configuration that is not valid is refused, and nothing is to be
    /// spawned.
    pub fn start(config: Config) -> (started: Result<(Driver, Vec<Command>), ConfigError>)
        ensures
            started.is_ok() <==> config.valid(),
            started matches Ok((driver, commands)) ==> {
                &&& driver.wf()
                &&& driver@ == (DriverState {
                    config,
                    stage: Stage::Running,
                    slots: Seq::new(config.number_of_vus as nat, |i: int| Slot::Running),
                })
                &&& commands@ == startup(config)
            },
            started matches Err(error) ==> config.verdict() == Err::<(), ConfigError>(error),
    {
        match config.validate() {
            Ok(_) => {},
            Err(error) => {
                return Err(error);
            },
        }
        let mut slots: Vec<Slot> = Vec::new();
        let mut commands: Vec<Command> = Vec::new();
        commands.push(Command::OpenChannels(config.channel_capacity));
        commands.push(Command::SpawnSupervisor);
        let mut vu_id: usize = 0;
        while vu_id < config.number_of_vus
            invariant
                vu_id <= config.number_of_vus,
                slots@.len() == vu_id,
                commands@.len() == vu_id + 2,
                commands@[0] == Command::OpenChannels(config.channel_capacity),
                commands@[1] == Command::SpawnSupervisor,
                forall|i: int| 0 <= i < vu_id ==> slots@[i] == Slot::Running,
                forall|j: int|
                    2 <= j < vu_id + 2 ==> commands@[j] == Command::SpawnWorker((j - 2) as usize),
            decreases config.number_of_vus - vu_id,
        {
            slots.push(Slot::Running);
            commands.push(Command::SpawnWorker(vu_id));
            vu_id = vu_id + 1;
        }
        let driver = Driver { config, stage: Stage::Running, slots };
        assert(driver@.slots =~= Seq::new(config.number_of_vus as nat, |i: int| Slot::Running));
        assert(commands@ =~= startup(config));
        Ok((driver, commands))
    }

    /// The configuration of the fleet.
    pub fn config(&self) -> (config: Config)
        ensures
            config == self@.config,
    {
        self.config
    }

    /// How far the fleet has come.
    pub fn stage(&self) -> (stage: Stage)
        ensures
            stage == self@.stage,
    {
        self.stage
    }

    /// What became of the worker `vu_id`; `None` where there is no such
    /// worker.
    pub fn slot(&self, vu_id: usize) -> (slot: Option<Slot>)
        ensures
            slot == (if vu_id < self@.slots.len() {
                Some(self@.slots[vu_id as int])
            } else {
                None
            }),
    {
        if vu_id < self.slots.len() {
            Some(self.slots[vu_id])
        } else {
            None
        }
    }

    fn none_running(&self) -> (none: bool)
        ensures
            none == self@.none_running(),
    {
        let mut i: usize = 0;
        while i < self.slots.len()
            invariant
                i <= self.slots.len(),
                forall|j: int| 0 <= j < i ==> self.slots[j] != Slot::Running,
            decreases self.slots.len() - i,
        {
            match self.slots[i] {
                Slot::Running => {
                    return false;
                },
                _ => {},
            }
            i = i + 1;
        }
        true
    }

    fn runs(&self, vu_id: usize) -> (runs: bool)
        ensures
            runs == self@.runs(vu_id),
    {
        if vu_id < self.slots.len() {
            match self.slots[vu_id] {
                Slot::Running => true,
                _ => false,
            }
        } else {
            false
        }
    }

    fn without(&mut self, vu_id: usize, slot: Slot) -> (commands: Vec<Command>)
        requires
            old(self).wf(),
            old(self)@.runs(vu_id),
            slot != Slot::Running,
        ensures
            final(self).wf(),
            (final(self)@, commands@) == old(self)@.without(vu_id, slot),
    {
        self.slots[vu_id] = slot;
        let mut commands: Vec<Command> = Vec::new();
        let cancelling = match self.stage {
            Stage::Cancelling => true,
            _ => false,
        };
        if cancelling && self.none_running() {
            self.stage = Stage::Draining;
            commands.push(Command::CloseChannels);
            assert(commands@ =~= seq![Command::CloseChannels]);
        }
        commands
    }

    /// A shutdown was asked for. Returns the commands to carry out, in
    /// order.
    pub fn on_shutdown(&mut self) -> (commands: Vec<Command>)
        requires
            old(self).wf(),
        ensures
            final(self).wf(),
            (final(self)@, commands@) == old(self)@.shutdown(),
    {
        let mut commands: Vec<Command> = Vec::new();
        match self.stage {
            Stage::Running => {},
            _ => {
                return commands;
            },
        }
        commands.push(Command::Cancel);
        if self.none_running() {
            self.stage = Stage::Draining;
            commands.push(Command::CloseChannels);
            assert(commands@ =~= seq![Command::Cancel, Command::CloseChannels]);
        } else {
            self.stage = Stage::Cancelling;
            assert(commands@ =~= seq![Command::Cancel]);
        }
        commands
    }

    /// The worker `vu_id` has left its loop. Returns the commands to
    /// carry out.
    pub fn on_worker_exit(&mut self, vu_id: usize) -> (commands: Vec<Command>)
        requires
            old(self).wf(),
        ensures
            final(self).wf(),
            (final(self)@, commands@) == old(self)@.worker_exited(vu_id),
    {
        if self.runs(vu_id) {
            self.without(vu_id, Slot::Exited)
        } else {
            Vec::new()
        }
    }

    /// The worker `vu_id` has failed. Returns the commands to carry out.
    pub fn on_worker_failure(&mut self, vu_id: usize) -> (commands: Vec<Command>)
        requires
            old(self).wf(),
        ensures
            final(self).wf(),
            (final(self)@, commands@) == old(self)@.worker_failed(vu_id),
    {
        if !self.runs(vu_id) {
            return Vec::new();
        }
        let restart = match (self.stage, self.config.supervision) {
            (Stage::Running, Supervision::Restart) => true,
            _ => false,
        };
        if restart {
            let mut commands: Vec<Command> = Vec::new();
            commands.push(Command::SpawnWorker(vu_id));
            assert(commands@ =~= seq![Command::SpawnWorker(vu_id)]);
            commands
        } else {
            self.without(vu_id, Slot::Failed)
        }
    }

    /// The supervisor has finished. Returns the commands to carry out.
    pub fn on_supervisor_done(&mut self) -> (commands: Vec<Command>)
        requires
            old(self).wf(),
        ensures
            final(self).wf(),
            (final(self)@, commands@) == old(self)@.supervisor_finished(),
    {
        let mut commands: Vec<Command> = Vec::new();
        match self.stage {
            Stage::Draining => {
                self.stage = Stage::Finished;
                commands.push(Command::Exit(EXIT_SUCCESS));
                assert(commands@ =~= seq![Command::Exit(EXIT_SUCCESS)]);
            },
            _ => {},
        }
        commands
    }
}

} // verus!
