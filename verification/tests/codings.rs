//! The integer and text codings of the lifecycle enums.

use attpc_envoy::command::CommandName;
use attpc_envoy::ecc_operation::{ECCOperation, ECCStatus};
use attpc_envoy::surveyor_state::{SurveyorDiskStatus, SurveyorState};

#[test]
fn ecc_status_from_int_decodes_wire_codes() {
    assert_eq!(ECCStatus::from_int(0), ECCStatus::Offline);
    assert_eq!(ECCStatus::from_int(1), ECCStatus::Idle);
    assert_eq!(ECCStatus::from_int(2), ECCStatus::Described);
    assert_eq!(ECCStatus::from_int(3), ECCStatus::Prepared);
    assert_eq!(ECCStatus::from_int(4), ECCStatus::Ready);
    assert_eq!(ECCStatus::from_int(5), ECCStatus::Running);
    assert_eq!(ECCStatus::from_int(-1), ECCStatus::ErrorStat);
    assert_eq!(ECCStatus::from_int(42), ECCStatus::ErrorStat);
}

#[test]
fn ecc_status_int_roundtrip() {
    let all = [
        ECCStatus::Offline,
        ECCStatus::Transition,
        ECCStatus::Idle,
        ECCStatus::Prepared,
        ECCStatus::Described,
        ECCStatus::Ready,
        ECCStatus::Running,
        ECCStatus::ErrorStat,
        ECCStatus::Inconsistent,
        ECCStatus::Busy,
    ];
    for status in all {
        assert_eq!(ECCStatus::from_int(status.to_int()), status);
    }
}

#[test]
fn ecc_status_label_roundtrip() {
    let all = [
        ECCStatus::Offline,
        ECCStatus::Transition,
        ECCStatus::Idle,
        ECCStatus::Prepared,
        ECCStatus::Described,
        ECCStatus::Ready,
        ECCStatus::Running,
        ECCStatus::ErrorStat,
        ECCStatus::Inconsistent,
        ECCStatus::Busy,
    ];
    for status in all {
        let label = status.to_label();
        assert_eq!(ECCStatus::from_label(label).unwrap(), status);
    }
    assert_eq!(ECCStatus::Ready.to_label(), "Ready");
    assert_eq!(ECCStatus::ErrorStat.to_label(), "Error");
}

#[test]
fn ecc_status_bad_label_is_refused() {
    let r = ECCStatus::from_label(String::from("NotAState"));
    assert!(r.is_err());
}

#[test]
fn ecc_operation_label_roundtrip() {
    let all = [
        ECCOperation::Describe,
        ECCOperation::Prepare,
        ECCOperation::Configure,
        ECCOperation::Start,
        ECCOperation::Undo,
        ECCOperation::Breakup,
        ECCOperation::Stop,
        ECCOperation::Invalid,
    ];
    for op in all {
        let label = op.to_label();
        assert_eq!(ECCOperation::from_label(label).unwrap(), op);
    }
    assert!(ECCOperation::from_label(String::from("Reboot")).is_err());
}

#[test]
fn forward_operations_follow_the_chain() {
    assert_eq!(ECCStatus::Idle.get_forward_operation(), ECCOperation::Describe);
    assert_eq!(ECCStatus::Described.get_forward_operation(), ECCOperation::Prepare);
    assert_eq!(ECCStatus::Prepared.get_forward_operation(), ECCOperation::Configure);
    assert_eq!(ECCStatus::Ready.get_forward_operation(), ECCOperation::Start);
    assert_eq!(ECCStatus::Offline.get_forward_operation(), ECCOperation::Invalid);
    assert_eq!(ECCStatus::Running.get_forward_operation(), ECCOperation::Invalid);
}

#[test]
fn backward_operations_are_undo() {
    assert_eq!(ECCStatus::Described.get_backward_operation(), ECCOperation::Undo);
    assert_eq!(ECCStatus::Prepared.get_backward_operation(), ECCOperation::Undo);
    assert_eq!(ECCStatus::Ready.get_backward_operation(), ECCOperation::Undo);
    assert_eq!(ECCStatus::Idle.get_backward_operation(), ECCOperation::Invalid);
    assert_eq!(ECCStatus::Running.get_backward_operation(), ECCOperation::Invalid);
}

#[test]
fn gating_predicates_per_state() {
    assert!(ECCStatus::Idle.can_go_forward());
    assert!(ECCStatus::Described.can_go_forward());
    assert!(ECCStatus::Prepared.can_go_forward());
    assert!(!ECCStatus::Ready.can_go_forward());
    assert!(!ECCStatus::Running.can_go_forward());
    assert!(ECCStatus::Described.can_go_backward());
    assert!(ECCStatus::Prepared.can_go_backward());
    assert!(ECCStatus::Ready.can_go_backward());
    assert!(!ECCStatus::Idle.can_go_backward());
    assert!(!ECCStatus::Running.can_go_backward());
}

#[test]
fn surveyor_state_codings() {
    assert_eq!(SurveyorState::from_int(0), SurveyorState::Offline);
    assert_eq!(SurveyorState::from_int(1), SurveyorState::Online);
    assert_eq!(SurveyorState::from_int(7), SurveyorState::Invalid);
    assert_eq!(SurveyorState::Online.to_label(), "Online");
    assert_eq!(SurveyorState::Inconsistent.to_label(), "Invalid");
}

#[test]
fn surveyor_disk_status_codings() {
    assert_eq!(SurveyorDiskStatus::from_label("Filled"), SurveyorDiskStatus::Filled);
    assert_eq!(SurveyorDiskStatus::from_label("Empty"), SurveyorDiskStatus::Empty);
    assert_eq!(SurveyorDiskStatus::from_label("whatever"), SurveyorDiskStatus::NA);
    assert_eq!(SurveyorDiskStatus::Filled.to_label(), "Filled");
    assert_eq!(SurveyorDiskStatus::NA.to_label(), "N/A");
}

#[test]
fn command_name_labels() {
    assert_eq!(CommandName::MoveGrawFiles.to_label(), "MoveGrawFiles");
    assert_eq!(CommandName::BackupConfig.to_label(), "BackupConfig");
    assert_eq!(CommandName::CheckRunExists.to_label(), "CheckRunExists");
}
