//! The status aggregator: busy holds, fleet aggregation, and the
//! forward-gating predicate.

use attpc_envoy::ecc_envoy::{ECCOperationResponse, ECCStatusResponse};
use attpc_envoy::ecc_operation::ECCStatus;
use attpc_envoy::error::EmbassyError;
use attpc_envoy::message::{EmbassyMessage, MessageKind, MessagePayload};
use attpc_envoy::status_manager::StatusManager;
use attpc_envoy::surveyor_envoy::SurveyorResponse;
use attpc_envoy::surveyor_state::SurveyorState;

fn status_message(id: i32, state: i32) -> EmbassyMessage {
    let resp = ECCStatusResponse {
        error_code: 0,
        error_message: String::new(),
        state,
        transition: 0,
    };
    EmbassyMessage::compose_ecc_status(resp, id)
}

fn operation_message(id: i32, error_code: i32) -> EmbassyMessage {
    let resp = ECCOperationResponse {
        error_code,
        error_message: String::new(),
        text: String::new(),
    };
    EmbassyMessage::compose_ecc_response(resp, id)
}

fn surveyor_message(id: i32, state: i32) -> EmbassyMessage {
    let resp = SurveyorResponse { state, ..SurveyorResponse::default() };
    EmbassyMessage::compose_surveyor_response(resp, id)
}

fn all_ecc_at(manager: &mut StatusManager, state: i32) {
    let messages: Vec<EmbassyMessage> = (0..12).map(|id| status_message(id, state)).collect();
    manager.handle_messages(&messages).unwrap();
}

#[test]
fn fresh_manager_reports_offline() {
    let manager = StatusManager::new();
    assert_eq!(manager.get_ecc_status(0), ECCStatus::Offline);
    assert_eq!(manager.get_system_ecc_status(), ECCStatus::Offline);
    assert_eq!(manager.get_surveyor_system_status(), SurveyorState::Offline);
}

#[test]
fn status_effective_mapping() {
    let mut manager = StatusManager::new();
    manager.handle_messages(&[status_message(1, 4)]).unwrap();
    assert_eq!(manager.get_ecc_status(1), ECCStatus::Ready);

    let in_transition = EmbassyMessage::compose_ecc_status(
        ECCStatusResponse { error_code: 0, error_message: String::new(), state: 4, transition: 1 },
        1,
    );
    manager.handle_messages(&[in_transition]).unwrap();
    assert_eq!(manager.get_ecc_status(1), ECCStatus::Transition);

    let errored = EmbassyMessage::compose_ecc_status(
        ECCStatusResponse { error_code: 2, error_message: String::new(), state: 4, transition: 0 },
        1,
    );
    manager.handle_messages(&[errored]).unwrap();
    assert_eq!(manager.get_ecc_status(1), ECCStatus::ErrorStat);
}

#[test]
fn busy_hold_drops_status_until_operation_response() {
    let mut manager = StatusManager::new();
    manager.set_ecc_busy(3);
    assert_eq!(manager.get_ecc_status(3), ECCStatus::Busy);
    manager.handle_messages(&[status_message(3, 2)]).unwrap();
    assert_eq!(manager.get_ecc_status(3), ECCStatus::Busy);
    manager.handle_messages(&[operation_message(3, 0)]).unwrap();
    manager.handle_messages(&[status_message(3, 3)]).unwrap();
    assert_eq!(manager.get_ecc_status(3), ECCStatus::Prepared);
}

#[test]
fn busy_hold_scenario_in_one_batch() {
    let mut manager = StatusManager::new();
    manager.set_ecc_busy(3);
    let batch = vec![status_message(3, 2), operation_message(3, 0), status_message(3, 3)];
    manager.handle_messages(&batch).unwrap();
    assert_eq!(manager.get_ecc_status(3), ECCStatus::Prepared);
}

#[test]
fn hold_does_not_touch_other_modules() {
    let mut manager = StatusManager::new();
    manager.set_ecc_busy(3);
    manager.handle_messages(&[status_message(4, 5)]).unwrap();
    assert_eq!(manager.get_ecc_status(4), ECCStatus::Running);
    assert_eq!(manager.get_ecc_status(3), ECCStatus::Busy);
}

#[test]
fn system_status_agrees_when_all_agree() {
    let mut manager = StatusManager::new();
    all_ecc_at(&mut manager, 4);
    assert_eq!(manager.get_system_ecc_status(), ECCStatus::Ready);
    assert!(manager.is_system_ready());
    assert!(!manager.is_system_running());
}

#[test]
fn system_status_inconsistent_when_one_differs() {
    let mut manager = StatusManager::new();
    all_ecc_at(&mut manager, 4);
    manager.handle_messages(&[status_message(7, 5)]).unwrap();
    assert_eq!(manager.get_system_ecc_status(), ECCStatus::Inconsistent);
    assert!(!manager.is_system_ready());
}

#[test]
fn surveyor_system_status_aggregates() {
    let mut manager = StatusManager::new();
    let online: Vec<EmbassyMessage> = (0..11).map(|id| surveyor_message(id, 1)).collect();
    manager.handle_messages(&online).unwrap();
    assert_eq!(manager.get_surveyor_system_status(), SurveyorState::Online);
    assert_eq!(manager.get_surveyor_status(4), SurveyorState::Online);
    manager.handle_messages(&[surveyor_message(9, 0)]).unwrap();
    assert_eq!(manager.get_surveyor_system_status(), SurveyorState::Inconsistent);
}

#[test]
fn all_but_mutant_predicates_ignore_the_master() {
    let mut manager = StatusManager::new();
    let cobos_running: Vec<EmbassyMessage> = (0..11).map(|id| status_message(id, 5)).collect();
    manager.handle_messages(&cobos_running).unwrap();
    assert!(manager.is_all_but_mutant_running());
    assert!(!manager.is_system_running());
    assert!(manager.is_mutant_stopped());
    manager.handle_messages(&[status_message(11, 5)]).unwrap();
    assert!(manager.is_system_running());
    assert!(!manager.is_mutant_stopped());
}

#[test]
fn mutant_predicates() {
    let mut manager = StatusManager::new();
    manager.handle_messages(&[status_message(11, 3)]).unwrap();
    assert!(manager.is_mutant_prepared());
    assert!(!manager.is_mutant_ready());
    manager.handle_messages(&[status_message(11, 4)]).unwrap();
    assert!(manager.is_mutant_ready());
    assert!(!manager.is_mutant_prepared());
}

#[test]
fn gating_cobo_described_needs_master_prepared_or_ready() {
    let mut manager = StatusManager::new();
    manager.handle_messages(&[status_message(2, 2)]).unwrap();
    assert!(!manager.can_ecc_go_forward(2));
    manager.handle_messages(&[status_message(11, 3)]).unwrap();
    assert!(manager.can_ecc_go_forward(2));
    manager.handle_messages(&[status_message(11, 4)]).unwrap();
    assert!(manager.can_ecc_go_forward(2));
    manager.handle_messages(&[status_message(11, 5)]).unwrap();
    assert!(!manager.can_ecc_go_forward(2));
}

#[test]
fn gating_master_prepared_needs_all_cobos_ready() {
    let mut manager = StatusManager::new();
    manager.handle_messages(&[status_message(11, 3)]).unwrap();
    assert!(!manager.can_ecc_go_forward(11));
    let cobos_ready: Vec<EmbassyMessage> = (0..11).map(|id| status_message(id, 4)).collect();
    manager.handle_messages(&cobos_ready).unwrap();
    assert!(manager.can_ecc_go_forward(11));
    manager.handle_messages(&[status_message(6, 2)]).unwrap();
    assert!(!manager.can_ecc_go_forward(11));
}

#[test]
fn gating_defers_to_state_elsewhere() {
    let mut manager = StatusManager::new();
    manager.handle_messages(&[status_message(0, 1)]).unwrap();
    assert!(manager.can_ecc_go_forward(0));
    manager.handle_messages(&[status_message(0, 4)]).unwrap();
    assert!(!manager.can_ecc_go_forward(0));
    // The master-specific coupling only guards Prepared; a master in
    // Described answers with the state's own predicate.
    manager.handle_messages(&[status_message(11, 2)]).unwrap();
    assert!(manager.can_ecc_go_forward(11));
    manager.handle_messages(&[status_message(11, 5)]).unwrap();
    assert!(!manager.can_ecc_go_forward(11));
}

#[test]
fn kind_mismatch_is_reported() {
    let mut manager = StatusManager::new();
    let malformed = EmbassyMessage {
        kind: MessageKind::ECCStatus,
        id: 0,
        operation: String::from("None"),
        payload: MessagePayload::Empty,
    };
    let r = manager.handle_messages(&[malformed]);
    assert!(matches!(
        r,
        Err(EmbassyError::MessageKindError(MessageKind::ECCStatus, MessageKind::ECCStatus))
    ));
}

#[test]
fn cancel_and_other_kinds_are_ignored() {
    let mut manager = StatusManager::new();
    manager.handle_messages(&[EmbassyMessage::compose_cancel()]).unwrap();
    assert_eq!(manager.get_system_ecc_status(), ECCStatus::Offline);
}

#[test]
fn out_of_range_ids_are_ignored() {
    let mut manager = StatusManager::new();
    manager.handle_messages(&[status_message(40, 4), status_message(-1, 4)]).unwrap();
    assert_eq!(manager.get_system_ecc_status(), ECCStatus::Offline);
}

#[test]
fn reset_restores_defaults() {
    let mut manager = StatusManager::new();
    all_ecc_at(&mut manager, 5);
    manager.set_ecc_busy(2);
    manager.reset();
    assert_eq!(manager.get_system_ecc_status(), ECCStatus::Offline);
    manager.handle_messages(&[status_message(2, 4)]).unwrap();
    assert_eq!(manager.get_ecc_status(2), ECCStatus::Ready);
}

#[test]
fn set_ecc_busy_ignores_out_of_range_id() {
    let mut manager = StatusManager::new();
    manager.set_ecc_busy(25);
    assert_eq!(manager.get_system_ecc_status(), ECCStatus::Offline);
}

#[test]
fn status_responses_are_exposed() {
    let mut manager = StatusManager::new();
    manager.handle_messages(&[status_message(1, 4)]).unwrap();
    let eccs = manager.get_ecc_status_response();
    assert_eq!(eccs.len(), 12);
    assert_eq!(eccs[1].state, 4);
    let survs = manager.get_surveyor_status_response();
    assert_eq!(survs.len(), 11);
}
