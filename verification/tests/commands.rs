//! The shell runner's tables: argument vectors, exit mapping, and the
//! combined status of the per-Surveyor file moves.

use attpc_envoy::command::{
    backup_config_args, check_run_exists_args, combined_status, move_graw_args, status_of,
    CommandStatus,
};

#[test]
fn exit_mapping_is_tri_valued() {
    assert_eq!(status_of(Some(true)), CommandStatus::Success);
    assert_eq!(status_of(Some(false)), CommandStatus::Failure);
    assert_eq!(status_of(None), CommandStatus::CouldNotExecute);
}

#[test]
fn move_graw_argv() {
    let args = move_graw_args("192.168.41.60", "/mnt/data", "e20009", 42);
    assert_eq!(
        args,
        vec![
            String::from("/usr/local/daq/scripts/move_graw.sh"),
            String::from("192.168.41.60"),
            String::from("/mnt/data"),
            String::from("e20009"),
            String::from("42"),
        ]
    );
}

#[test]
fn backup_config_argv() {
    let args = backup_config_args("e20009", 7);
    assert_eq!(
        args,
        vec![
            String::from("/usr/local/daq/scripts/backup_configs.sh"),
            String::from("/usr/local/daq/configs"),
            String::from("/usr/local/daq/backup_configs"),
            String::from("e20009"),
            String::from("7"),
        ]
    );
}

#[test]
fn check_run_exists_argv() {
    let args = check_run_exists_args("192.168.41.61", "/mnt/data", "e20009", -3);
    assert_eq!(
        args,
        vec![
            String::from("/usr/local/daq/scripts/test_graw.sh"),
            String::from("192.168.41.61"),
            String::from("/mnt/data"),
            String::from("e20009"),
            String::from("-3"),
        ]
    );
}

#[test]
fn combined_status_success_failure_and_spawn_errors() {
    assert_eq!(combined_status(&vec![Some(true), Some(true)]), CommandStatus::Success);
    assert_eq!(combined_status(&vec![Some(true), Some(false)]), CommandStatus::Failure);
    assert_eq!(
        combined_status(&vec![Some(false), None, Some(true)]),
        CommandStatus::CouldNotExecute
    );
    assert_eq!(combined_status(&vec![]), CommandStatus::Success);
}
