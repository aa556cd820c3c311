//! The run orchestrator's decision core: two small state machines that
//! sequence a run start and a run stop. The caller performs each
//! phase's action — submitting commands, running scripts, polling the
//! aggregator — and reports what happened; the machine decides what
//! comes next. The asymmetric ordering rules live here: CoBos start
//! before the master and the master stops before the CoBos.

use vstd::prelude::*;
use crate::command::CommandStatus;
use crate::constants::NUMBER_OF_MODULES;

verus! {

/// Where a run start stands.
#[derive(Debug, Clone, Copy, PartialEq, Eq, Structural)]
pub enum StartPhase {
    /// Checking that the run number has not been used yet.
    CheckingRun,
    /// Clearing the rate graphs.
    ResettingGraphs,
    /// Submitting `Start` to CoBo `next`.
    StartingCobos { next: usize },
    /// Waiting until every CoBo reports `Running`.
    AwaitingCobos,
    /// Submitting `Start` to the master.
    StartingMutant,
    Done,
    Aborted,
}

/// What happened during one start phase.
#[derive(Debug, Clone, Copy, PartialEq, Eq, Structural)]
pub enum StartEvent {
    /// The run-exists check finished with this status.
    CheckResult(CommandStatus),
    GraphsReset,
    CoboStarted,
    /// The aggregator was polled; true when every CoBo reports
    /// `Running`.
    CobosObserved(bool),
    MutantStarted,
}

/// What the caller must do in a start phase.
#[derive(Debug, Clone, Copy, PartialEq, Eq, Structural)]
pub enum StartAction {
    RunCheckScript,
    ResetGraphs,
    SubmitStart { id: usize },
    PollCobosRunning,
    SubmitStartToMutant,
    Finished,
}

/// The start step table. A check that succeeds aborts the start: the
/// run number is already on disk. A check that could not run aborts
/// too. Only a failing check — no extant run — lets the start proceed.
/// Events that do not belong to the current phase change nothing.
pub open spec fn spec_start_step(phase: StartPhase, event: StartEvent) -> StartPhase {
    match (phase, event) {
        (StartPhase::CheckingRun, StartEvent::CheckResult(status)) => {
            if status == CommandStatus::Failure {
                StartPhase::ResettingGraphs
            } else {
                StartPhase::Aborted
            }
        },
        (StartPhase::ResettingGraphs, StartEvent::GraphsReset) => {
            StartPhase::StartingCobos { next: 0 }
        },
        (StartPhase::StartingCobos { next }, StartEvent::CoboStarted) => {
            if next + 1 < NUMBER_OF_MODULES - 1 {
                StartPhase::StartingCobos { next: (next + 1) as usize }
            } else {
                StartPhase::AwaitingCobos
            }
        },
        (StartPhase::AwaitingCobos, StartEvent::CobosObserved(all_running)) => {
            if all_running {
                StartPhase::StartingMutant
            } else {
                StartPhase::AwaitingCobos
            }
        },
        (StartPhase::StartingMutant, StartEvent::MutantStarted) => StartPhase::Done,
        _ => phase,
    }
}

/// The action each start phase asks of the caller.
pub open spec fn spec_start_action(phase: StartPhase) -> StartAction {
    match phase {
        StartPhase::CheckingRun => StartAction::RunCheckScript,
        StartPhase::ResettingGraphs => StartAction::ResetGraphs,
        StartPhase::StartingCobos { next } => StartAction::SubmitStart { id: next },
        StartPhase::AwaitingCobos => StartAction::PollCobosRunning,
        StartPhase::StartingMutant => StartAction::SubmitStartToMutant,
        StartPhase::Done => StartAction::Finished,
        StartPhase::Aborted => StartAction::Finished,
    }
}

/// A phase the start machine can actually be in: the CoBo cursor
/// never leaves the CoBo range.
pub open spec fn spec_start_phase_wf(phase: StartPhase) -> bool {
    phase matches StartPhase::StartingCobos { next } ==> next < NUMBER_OF_MODULES - 1
}

/// Stepping preserves the phase's well-formedness.
pub proof fn lemma_start_step_wf(phase: StartPhase, event: StartEvent)
    requires
        spec_start_phase_wf(phase),
    ensures
        spec_start_phase_wf(spec_start_step(phase, event)),
{
}

/// A start in progress.
#[derive(Debug)]
pub struct StartSequence {
    pub phase: StartPhase,
}

impl StartSequence {
    /// A start begins by checking the run number.
    pub fn new() -> (sequence: StartSequence)
        ensures
            sequence.phase == StartPhase::CheckingRun,
    {
        StartSequence { phase: StartPhase::CheckingRun }
    }

    /// Advance by one observed event, following the step table.
    pub fn step(&mut self, event: StartEvent)
        ensures
            final(self).phase == spec_start_step(old(self).phase, event),
    {
        let next = match (self.phase, event) {
            (StartPhase::CheckingRun, StartEvent::CheckResult(status)) => {
                if status == CommandStatus::Failure {
                    StartPhase::ResettingGraphs
                } else {
                    StartPhase::Aborted
                }
            },
            (StartPhase::ResettingGraphs, StartEvent::GraphsReset) => {
                StartPhase::StartingCobos { next: 0 }
            },
            (StartPhase::StartingCobos { next }, StartEvent::CoboStarted) => {
                if next < NUMBER_OF_MODULES - 2 {
                    StartPhase::StartingCobos { next: next + 1 }
                } else {
                    StartPhase::AwaitingCobos
                }
            },
            (StartPhase::AwaitingCobos, StartEvent::CobosObserved(all_running)) => {
                if all_running {
                    StartPhase::StartingMutant
                } else {
                    StartPhase::AwaitingCobos
                }
            },
            (StartPhase::StartingMutant, StartEvent::MutantStarted) => StartPhase::Done,
            (phase, _) => phase,
        };
        self.phase = next;
    }

    /// What the caller must do now.
    pub fn current_action(&self) -> (action: StartAction)
        ensures
            action == spec_start_action(self.phase),
    {
        match self.phase {
            StartPhase::CheckingRun => StartAction::RunCheckScript,
            StartPhase::ResettingGraphs => StartAction::ResetGraphs,
            StartPhase::StartingCobos { next } => StartAction::SubmitStart { id: next },
            StartPhase::AwaitingCobos => StartAction::PollCobosRunning,
            StartPhase::StartingMutant => StartAction::SubmitStartToMutant,
            StartPhase::Done => StartAction::Finished,
            StartPhase::Aborted => StartAction::Finished,
        }
    }
}

/// The only step into `StartingMutant` — the phase that submits
/// `Start` to the master — is a positive all-CoBos-running
/// observation made while awaiting the CoBos: the master is never
/// started before every CoBo has been observed `Running`.
pub proof fn lemma_mutant_started_after_cobos(phase: StartPhase, event: StartEvent)
    requires
        phase != StartPhase::StartingMutant,
        spec_start_step(phase, event) == StartPhase::StartingMutant,
    ensures
        phase == StartPhase::AwaitingCobos,
        event == StartEvent::CobosObserved(true),
{
}

/// CoBos are started one after another in id order: the phase that
/// starts CoBo `n + 1` is entered only from the phase that started
/// CoBo `n`, and the awaiting phase only from the last CoBo's.
pub proof fn lemma_cobo_start_order(phase: StartPhase, event: StartEvent, n: usize)
    requires
        spec_start_phase_wf(phase),
    ensures
        spec_start_step(phase, event) == (StartPhase::StartingCobos { next: n }) && phase != (
        StartPhase::StartingCobos { next: n }) ==> (n == 0 && phase == StartPhase::ResettingGraphs)
            || (n >= 1 && phase == (StartPhase::StartingCobos { next: (n - 1) as usize })),
        spec_start_step(phase, event) == StartPhase::AwaitingCobos && phase
            != StartPhase::AwaitingCobos ==> phase == (StartPhase::StartingCobos {
            next: (NUMBER_OF_MODULES - 2) as usize,
        }),
{
}

/// The phase a fresh start reaches after a whole trace of events.
pub open spec fn spec_start_trace(events: Seq<StartEvent>) -> StartPhase
    decreases events.len(),
{
    if events.len() == 0 {
        StartPhase::CheckingRun
    } else {
        spec_start_step(spec_start_trace(events.drop_last()), events.last())
    }
}

/// Over any whole event trace from a fresh start: if the machine has
/// reached the phase that starts the master, or finished, then some
/// event of the trace was a positive all-CoBos-running observation —
/// the master is never started without one.
pub proof fn lemma_start_trace_observes_cobos(events: Seq<StartEvent>)
    requires
        spec_start_trace(events) == StartPhase::StartingMutant || spec_start_trace(events)
            == StartPhase::Done,
    ensures
        exists|j: int|
            0 <= j < events.len() && events[j] == StartEvent::CobosObserved(true),
    decreases events.len(),
{
    if events.len() > 0 {
        let prev = spec_start_trace(events.drop_last());
        if prev == StartPhase::StartingMutant || prev == StartPhase::Done {
            lemma_start_trace_observes_cobos(events.drop_last());
            let j = choose|j: int|
                0 <= j < events.drop_last().len() && events.drop_last()[j]
                    == StartEvent::CobosObserved(true);
            assert(events[j] == StartEvent::CobosObserved(true));
        } else {
            assert(events[events.len() - 1] == StartEvent::CobosObserved(true));
        }
    }
}

/// A start that was aborted stays aborted, and a finished start stays
/// finished: no event restarts the protocol.
pub proof fn lemma_start_absorbing(phase: StartPhase, event: StartEvent)
    requires
        phase == StartPhase::Aborted || phase == StartPhase::Done,
    ensures
        spec_start_step(phase, event) == phase,
{
}

/// Where a run stop stands.
#[derive(Debug, Clone, Copy, PartialEq, Eq, Structural)]
pub enum StopPhase {
    /// Submitting `Stop` to the master.
    StoppingMutant,
    /// Waiting until the master no longer reports `Running`.
    AwaitingMutantStop,
    /// Submitting `Stop` to CoBo `next`.
    StoppingCobos { next: usize },
    /// Running the file-move script, once per Surveyor.
    MovingFiles,
    /// Running the configuration-backup script.
    BackingUp,
    /// Advancing the configured run number.
    IncrementingRun,
    Done,
}

/// What happened during one stop phase.
#[derive(Debug, Clone, Copy, PartialEq, Eq, Structural)]
pub enum StopEvent {
    MutantStopSubmitted,
    /// The aggregator was polled; true when the master no longer
    /// reports `Running`.
    MutantObserved(bool),
    CoboStopped,
    /// The file moves finished with this combined status. A failure is
    /// reported but does not undo the stop.
    FilesMoved(CommandStatus),
    /// The backup finished with this status; likewise only reported.
    ConfigBackedUp(CommandStatus),
    RunIncremented,
}

/// What the caller must do in a stop phase.
#[derive(Debug, Clone, Copy, PartialEq, Eq, Structural)]
pub enum StopAction {
    SubmitStopToMutant,
    PollMutantStopped,
    SubmitStop { id: usize },
    RunMoveGrawScript,
    RunBackupScript,
    IncrementRunNumber,
    Finished,
}

/// The stop step table: master first, then — only once the master is
/// observed stopped — every CoBo, then the file moves, the backup,
/// and the run-number increment. Script failures are reported through
/// their events but never roll the stop back. Events that do not
/// belong to the current phase change nothing.
pub open spec fn spec_stop_step(phase: StopPhase, event: StopEvent) -> StopPhase {
    match (phase, event) {
        (StopPhase::StoppingMutant, StopEvent::MutantStopSubmitted) => StopPhase::AwaitingMutantStop,
        (StopPhase::AwaitingMutantStop, StopEvent::MutantObserved(stopped)) => {
            if stopped {
                StopPhase::StoppingCobos { next: 0 }
            } else {
                StopPhase::AwaitingMutantStop
            }
        },
        (StopPhase::StoppingCobos { next }, StopEvent::CoboStopped) => {
            if next + 1 < NUMBER_OF_MODULES - 1 {
                StopPhase::StoppingCobos { next: (next + 1) as usize }
            } else {
                StopPhase::MovingFiles
            }
        },
        (StopPhase::MovingFiles, StopEvent::FilesMoved(_)) => StopPhase::BackingUp,
        (StopPhase::BackingUp, StopEvent::ConfigBackedUp(_)) => StopPhase::IncrementingRun,
        (StopPhase::IncrementingRun, StopEvent::RunIncremented) => StopPhase::Done,
        _ => phase,
    }
}

/// The action each stop phase asks of the caller.
pub open spec fn spec_stop_action(phase: StopPhase) -> StopAction {
    match phase {
        StopPhase::StoppingMutant => StopAction::SubmitStopToMutant,
        StopPhase::AwaitingMutantStop => StopAction::PollMutantStopped,
        StopPhase::StoppingCobos { next } => StopAction::SubmitStop { id: next },
        StopPhase::MovingFiles => StopAction::RunMoveGrawScript,
        StopPhase::BackingUp => StopAction::RunBackupScript,
        StopPhase::IncrementingRun => StopAction::IncrementRunNumber,
        StopPhase::Done => StopAction::Finished,
    }
}

/// A phase the stop machine can actually be in: the CoBo cursor never
/// leaves the CoBo range.
pub open spec fn spec_stop_phase_wf(phase: StopPhase) -> bool {
    phase matches StopPhase::StoppingCobos { next } ==> next < NUMBER_OF_MODULES - 1
}

/// Stepping preserves the phase's well-formedness.
pub proof fn lemma_stop_step_wf(phase: StopPhase, event: StopEvent)
    requires
        spec_stop_phase_wf(phase),
    ensures
        spec_stop_phase_wf(spec_stop_step(phase, event)),
{
}

/// A stop in progress.
#[derive(Debug)]
pub struct StopSequence {
    pub phase: StopPhase,
}

impl StopSequence {
    /// A stop begins with the master.
    pub fn new() -> (sequence: StopSequence)
        ensures
            sequence.phase == StopPhase::StoppingMutant,
    {
        StopSequence { phase: StopPhase::StoppingMutant }
    }

    /// Advance by one observed event, following the step table.
    pub fn step(&mut self, event: StopEvent)
        ensures
            final(self).phase == spec_stop_step(old(self).phase, event),
    {
        let next = match (self.phase, event) {
            (StopPhase::StoppingMutant, StopEvent::MutantStopSubmitted) => {
                StopPhase::AwaitingMutantStop
            },
            (StopPhase::AwaitingMutantStop, StopEvent::MutantObserved(stopped)) => {
                if stopped {
                    StopPhase::StoppingCobos { next: 0 }
                } else {
                    StopPhase::AwaitingMutantStop
                }
            },
            (StopPhase::StoppingCobos { next }, StopEvent::CoboStopped) => {
                if next < NUMBER_OF_MODULES - 2 {
                    StopPhase::StoppingCobos { next: next + 1 }
                } else {
                    StopPhase::MovingFiles
                }
            },
            (StopPhase::MovingFiles, StopEvent::FilesMoved(_)) => StopPhase::BackingUp,
            (StopPhase::BackingUp, StopEvent::ConfigBackedUp(_)) => StopPhase::IncrementingRun,
            (StopPhase::IncrementingRun, StopEvent::RunIncremented) => StopPhase::Done,
            (phase, _) => phase,
        };
        self.phase = next;
    }

    /// What the caller must do now.
    pub fn current_action(&self) -> (action: StopAction)
        ensures
            action == spec_stop_action(self.phase),
    {
        match self.phase {
            StopPhase::StoppingMutant => StopAction::SubmitStopToMutant,
            StopPhase::AwaitingMutantStop => StopAction::PollMutantStopped,
            StopPhase::StoppingCobos { next } => StopAction::SubmitStop { id: next },
            StopPhase::MovingFiles => StopAction::RunMoveGrawScript,
            StopPhase::BackingUp => StopAction::RunBackupScript,
            StopPhase::IncrementingRun => StopAction::IncrementRunNumber,
            StopPhase::Done => StopAction::Finished,
        }
    }
}

/// The only step into stopping the first CoBo is a positive
/// master-stopped observation: no CoBo is told to stop before the
/// master has been observed out of `Running`.
pub proof fn lemma_cobos_stopped_after_mutant(phase: StopPhase, event: StopEvent)
    requires
        phase != (StopPhase::StoppingCobos { next: 0usize }),
        spec_stop_step(phase, event) == (StopPhase::StoppingCobos { next: 0usize }),
    ensures
        phase == StopPhase::AwaitingMutantStop,
        event == StopEvent::MutantObserved(true),
{
}

/// The phase a fresh stop reaches after a whole trace of events.
pub open spec fn spec_stop_trace(events: Seq<StopEvent>) -> StopPhase
    decreases events.len(),
{
    if events.len() == 0 {
        StopPhase::StoppingMutant
    } else {
        spec_stop_step(spec_stop_trace(events.drop_last()), events.last())
    }
}

/// Over any whole event trace from a fresh stop: once the machine has
/// moved past waiting on the master, some event of the trace observed
/// the master out of `Running` — no CoBo is stopped, no file moved and
/// no backup taken before that.
pub proof fn lemma_stop_trace_observes_mutant(events: Seq<StopEvent>)
    requires
        spec_stop_trace(events) != StopPhase::StoppingMutant,
        spec_stop_trace(events) != StopPhase::AwaitingMutantStop,
    ensures
        exists|j: int| 0 <= j < events.len() && events[j] == StopEvent::MutantObserved(true),
    decreases events.len(),
{
    if events.len() > 0 {
        let prev = spec_stop_trace(events.drop_last());
        if prev == StopPhase::StoppingMutant || prev == StopPhase::AwaitingMutantStop {
            assert(events[events.len() - 1] == StopEvent::MutantObserved(true));
        } else {
            lemma_stop_trace_observes_mutant(events.drop_last());
            let j = choose|j: int|
                0 <= j < events.drop_last().len() && events.drop_last()[j]
                    == StopEvent::MutantObserved(true);
            assert(events[j] == StopEvent::MutantObserved(true));
        }
    }
}

/// The file moves and the backup come only after every CoBo's stop:
/// the moving phase is entered only from the last CoBo's stop, and the
/// backup only from the moving phase.
pub proof fn lemma_stop_postlude_order(phase: StopPhase, event: StopEvent)
    requires
        spec_stop_phase_wf(phase),
    ensures
        spec_stop_step(phase, event) == StopPhase::MovingFiles && phase != StopPhase::MovingFiles
            ==> phase == (StopPhase::StoppingCobos { next: (NUMBER_OF_MODULES - 2) as usize }),
        spec_stop_step(phase, event) == StopPhase::BackingUp && phase != StopPhase::BackingUp
            ==> phase == StopPhase::MovingFiles,
{
}

} // verus!
