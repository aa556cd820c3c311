//! The hub over real tokio channels: command fan-out, response
//! draining, and the broadcast cancel.

use attpc_envoy::command::CommandStatus;
use attpc_envoy::ecc_envoy::ECCStatusResponse;
use attpc_envoy::ecc_operation::ECCOperation;
use attpc_envoy::embassy::Embassy;
use attpc_envoy::error::EmbassyError;
use attpc_envoy::message::{EmbassyMessage, MessageKind};
use attpc_envoy::run_control::{StartAction, StartEvent, StartSequence};
use attpc_envoy::status_manager::StatusManager;
use tokio::sync::broadcast;
use tokio::sync::mpsc;

fn build_hub() -> (
    Embassy,
    mpsc::Sender<EmbassyMessage>,
    Vec<mpsc::Receiver<EmbassyMessage>>,
    broadcast::Receiver<EmbassyMessage>,
) {
    let (response_tx, response_rx) = mpsc::channel(33);
    let (cancel_tx, cancel_rx) = broadcast::channel(10);
    let mut senders = Vec::new();
    let mut receivers = Vec::new();
    for _ in 0..12 {
        let (tx, rx) = mpsc::channel(10);
        senders.push(tx);
        receivers.push(rx);
    }
    (Embassy::new(response_rx, senders, cancel_tx), response_tx, receivers, cancel_rx)
}

#[test]
fn submit_routes_commands_to_the_module_channel() {
    let (mut embassy, _response_tx, mut receivers, _cancel_rx) = build_hub();
    embassy.submit_message(EmbassyMessage::compose_ecc_op(String::from("Start"), 3)).unwrap();
    let got = receivers[3].try_recv().unwrap();
    assert_eq!(got.kind, MessageKind::ECCOperation);
    assert_eq!(got.id, 3);
    assert_eq!(got.operation, "Start");
    assert!(receivers[2].try_recv().is_err());
}

#[test]
fn submit_keeps_per_module_order() {
    let (mut embassy, _response_tx, mut receivers, _cancel_rx) = build_hub();
    embassy.submit_message(EmbassyMessage::compose_ecc_op(String::from("Describe"), 0)).unwrap();
    embassy.submit_message(EmbassyMessage::compose_ecc_op(String::from("Prepare"), 0)).unwrap();
    assert_eq!(receivers[0].try_recv().unwrap().operation, "Describe");
    assert_eq!(receivers[0].try_recv().unwrap().operation, "Prepare");
}

#[test]
fn submit_drops_other_kinds_and_unknown_ids() {
    let (mut embassy, _response_tx, mut receivers, _cancel_rx) = build_hub();
    embassy.submit_message(EmbassyMessage::compose_cancel()).unwrap();
    embassy.submit_message(EmbassyMessage::compose_ecc_op(String::from("Start"), 40)).unwrap();
    embassy.submit_message(EmbassyMessage::compose_ecc_op(String::from("Start"), -1)).unwrap();
    for rx in receivers.iter_mut() {
        assert!(rx.try_recv().is_err());
    }
}

#[test]
fn submit_reports_a_dead_module_channel() {
    let (mut embassy, _response_tx, mut receivers, _cancel_rx) = build_hub();
    receivers.remove(5);
    let r = embassy.submit_message(EmbassyMessage::compose_ecc_op(String::from("Start"), 5));
    assert!(matches!(r, Err(EmbassyError::MessageSendError(_))));
}

#[test]
fn poll_drains_queued_responses_and_stops_at_empty() {
    let (mut embassy, response_tx, _receivers, _cancel_rx) = build_hub();
    response_tx.blocking_send(EmbassyMessage::compose_ecc_op(String::from("None"), 1)).unwrap();
    response_tx.blocking_send(EmbassyMessage::compose_ecc_op(String::from("None"), 2)).unwrap();
    let messages = embassy.poll_messages().unwrap();
    assert_eq!(messages.len(), 2);
    assert_eq!(messages[0].id, 1);
    assert_eq!(messages[1].id, 2);
    assert_eq!(embassy.poll_messages().unwrap().len(), 0);
}

#[test]
fn poll_reports_disconnection() {
    let (mut embassy, response_tx, _receivers, _cancel_rx) = build_hub();
    drop(response_tx);
    let r = embassy.poll_messages();
    assert!(matches!(r, Err(EmbassyError::MessageRecieveError)));
}

#[test]
fn start_run_reaches_master_only_after_cobos_run() {
    let (mut embassy, response_tx, mut receivers, _cancel_rx) = build_hub();
    let mut manager = StatusManager::new();
    let mut sequence = StartSequence::new();
    let mut master_saw_start_early = false;

    loop {
        match sequence.current_action() {
            StartAction::RunCheckScript => {
                // No extant run on disk.
                sequence.step(StartEvent::CheckResult(CommandStatus::Failure));
            }
            StartAction::ResetGraphs => sequence.step(StartEvent::GraphsReset),
            StartAction::SubmitStart { id } => {
                embassy
                    .submit_message(EmbassyMessage::compose_ecc_op(
                        ECCOperation::Start.to_label(),
                        id as i32,
                    ))
                    .unwrap();
                sequence.step(StartEvent::CoboStarted);
            }
            StartAction::PollCobosRunning => {
                // The master must not have been commanded yet.
                master_saw_start_early |= receivers[11].try_recv().is_ok();
                // Simulate the status drivers answering `Running`.
                for id in 0..11 {
                    let resp = ECCStatusResponse {
                        error_code: 0,
                        error_message: String::new(),
                        state: 5,
                        transition: 0,
                    };
                    response_tx
                        .blocking_send(EmbassyMessage::compose_ecc_status(resp, id))
                        .unwrap();
                }
                manager.handle_messages(&embassy.poll_messages().unwrap()).unwrap();
                sequence.step(StartEvent::CobosObserved(manager.is_all_but_mutant_running()));
            }
            StartAction::SubmitStartToMutant => {
                embassy
                    .submit_message(EmbassyMessage::compose_ecc_op(
                        ECCOperation::Start.to_label(),
                        11,
                    ))
                    .unwrap();
                sequence.step(StartEvent::MutantStarted);
            }
            StartAction::Finished => break,
        }
    }

    assert!(!master_saw_start_early);
    for id in 0..11 {
        let got = receivers[id].try_recv().unwrap();
        assert_eq!(got.operation, "Start");
        assert!(receivers[id].try_recv().is_err());
    }
    let master = receivers[11].try_recv().unwrap();
    assert_eq!(master.operation, "Start");
    assert!(receivers[11].try_recv().is_err());
}

#[test]
fn shutdown_broadcasts_one_cancel() {
    let (mut embassy, _response_tx, _receivers, mut cancel_rx) = build_hub();
    embassy.shutdown();
    let got = cancel_rx.try_recv().unwrap();
    assert_eq!(got.kind, MessageKind::Other);
    assert!(cancel_rx.try_recv().is_err());
}

#[test]
fn shutdown_with_no_subscribers_is_clean() {
    let (mut embassy, _response_tx, _receivers, cancel_rx) = build_hub();
    drop(cancel_rx);
    embassy.shutdown();
}
