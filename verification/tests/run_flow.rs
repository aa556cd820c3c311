//! The run start and stop sequencers: the master starts last and
//! stops first, and the shell hand-offs follow the CoBo stops.

use attpc_envoy::command::CommandStatus;
use attpc_envoy::run_control::{
    StartAction, StartEvent, StartSequence, StopAction, StopEvent, StopSequence,
};

#[test]
fn start_sequence_orders_cobos_before_mutant() {
    let mut seq = StartSequence::new();
    assert_eq!(seq.current_action(), StartAction::RunCheckScript);

    // No extant run: the check "fails", so the start proceeds.
    seq.step(StartEvent::CheckResult(CommandStatus::Failure));
    assert_eq!(seq.current_action(), StartAction::ResetGraphs);
    seq.step(StartEvent::GraphsReset);

    let mut started: Vec<usize> = Vec::new();
    loop {
        match seq.current_action() {
            StartAction::SubmitStart { id } => {
                started.push(id);
                seq.step(StartEvent::CoboStarted);
            },
            other => {
                assert_eq!(other, StartAction::PollCobosRunning);
                break;
            },
        }
    }
    assert_eq!(started, (0..11).collect::<Vec<usize>>());

    // The master is only reached after a positive observation.
    seq.step(StartEvent::CobosObserved(false));
    assert_eq!(seq.current_action(), StartAction::PollCobosRunning);
    seq.step(StartEvent::CobosObserved(true));
    assert_eq!(seq.current_action(), StartAction::SubmitStartToMutant);
    seq.step(StartEvent::MutantStarted);
    assert_eq!(seq.current_action(), StartAction::Finished);
}

#[test]
fn start_aborts_when_run_already_exists() {
    let mut seq = StartSequence::new();
    seq.step(StartEvent::CheckResult(CommandStatus::Success));
    assert_eq!(seq.current_action(), StartAction::Finished);
    // Nothing restarts an aborted start.
    seq.step(StartEvent::GraphsReset);
    assert_eq!(seq.current_action(), StartAction::Finished);
}

#[test]
fn start_aborts_when_check_could_not_run() {
    let mut seq = StartSequence::new();
    seq.step(StartEvent::CheckResult(CommandStatus::CouldNotExecute));
    assert_eq!(seq.current_action(), StartAction::Finished);
}

#[test]
fn start_ignores_events_out_of_phase() {
    let mut seq = StartSequence::new();
    seq.step(StartEvent::MutantStarted);
    assert_eq!(seq.current_action(), StartAction::RunCheckScript);
    seq.step(StartEvent::CobosObserved(true));
    assert_eq!(seq.current_action(), StartAction::RunCheckScript);
}

#[test]
fn stop_sequence_orders_mutant_before_cobos() {
    let mut seq = StopSequence::new();
    assert_eq!(seq.current_action(), StopAction::SubmitStopToMutant);
    seq.step(StopEvent::MutantStopSubmitted);

    // CoBos wait for the master to be observed stopped.
    assert_eq!(seq.current_action(), StopAction::PollMutantStopped);
    seq.step(StopEvent::MutantObserved(false));
    assert_eq!(seq.current_action(), StopAction::PollMutantStopped);
    seq.step(StopEvent::MutantObserved(true));

    let mut stopped: Vec<usize> = Vec::new();
    loop {
        match seq.current_action() {
            StopAction::SubmitStop { id } => {
                stopped.push(id);
                seq.step(StopEvent::CoboStopped);
            },
            other => {
                assert_eq!(other, StopAction::RunMoveGrawScript);
                break;
            },
        }
    }
    assert_eq!(stopped, (0..11).collect::<Vec<usize>>());

    // The file moves and the backup come once each, in order, and a
    // failure is reported but does not undo the stop.
    seq.step(StopEvent::FilesMoved(CommandStatus::Failure));
    assert_eq!(seq.current_action(), StopAction::RunBackupScript);
    seq.step(StopEvent::ConfigBackedUp(CommandStatus::Success));
    assert_eq!(seq.current_action(), StopAction::IncrementRunNumber);
    seq.step(StopEvent::RunIncremented);
    assert_eq!(seq.current_action(), StopAction::Finished);
}

#[test]
fn stop_ignores_events_out_of_phase() {
    let mut seq = StopSequence::new();
    seq.step(StopEvent::CoboStopped);
    assert_eq!(seq.current_action(), StopAction::SubmitStopToMutant);
    seq.step(StopEvent::RunIncremented);
    assert_eq!(seq.current_action(), StopAction::SubmitStopToMutant);
}
