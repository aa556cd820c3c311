//! The shell runner's decision core: which script each named command
//! invokes and with which argument vector, how a subprocess outcome
//! maps to the tri-valued status, and how the per-Surveyor outcomes of
//! the file-move command combine. Spawning the subprocesses happens
//! outside the library.

use vstd::prelude::*;
use vstd::string::*;
use crate::constants::{BACKUP_CONFIG_DIR, CONFIG_DIR, SCRIPT_DIR};
use crate::textutil::{spec_i32_chars, i32_to_string};

verus! {

/// Outcome of one shell command.
#[derive(Debug, Clone, Copy, PartialEq, Eq, Structural)]
pub enum CommandStatus {
    Success,
    Failure,
    CouldNotExecute,
}

/// The named shell operations the run lifecycle invokes.
#[derive(Debug, Clone, Copy, PartialEq, Eq, Structural)]
pub enum CommandName {
    MoveGrawFiles,
    BackupConfig,
    CheckRunExists,
}

impl CommandName {
    pub open spec fn spec_label(self) -> Seq<char> {
        match self {
            CommandName::MoveGrawFiles => "MoveGrawFiles"@,
            CommandName::BackupConfig => "BackupConfig"@,
            CommandName::CheckRunExists => "CheckRunExists"@,
        }
    }

    pub fn to_label(&self) -> (label: String)
        ensures
            label@ == self.spec_label(),
    {
        match self {
            CommandName::MoveGrawFiles => String::from_str("MoveGrawFiles"),
            CommandName::BackupConfig => String::from_str("BackupConfig"),
            CommandName::CheckRunExists => String::from_str("CheckRunExists"),
        }
    }
}

/// Status of one subprocess: `None` when it could not be spawned,
/// otherwise whether it exited successfully.
pub open spec fn spec_status_of(outcome: Option<bool>) -> CommandStatus {
    match outcome {
        None => CommandStatus::CouldNotExecute,
        Some(true) => CommandStatus::Success,
        Some(false) => CommandStatus::Failure,
    }
}

/// Map one subprocess outcome to its status.
pub fn status_of(outcome: Option<bool>) -> (status: CommandStatus)
    ensures
        status == spec_status_of(outcome),
{
    match outcome {
        None => CommandStatus::CouldNotExecute,
        Some(true) => CommandStatus::Success,
        Some(false) => CommandStatus::Failure,
    }
}

/// Combined status of the per-Surveyor file-move invocations: if any
/// could not be spawned the whole command could not execute; else it
/// failed if any invocation failed; else it succeeded.
pub open spec fn spec_combined_status(outcomes: Seq<Option<bool>>) -> CommandStatus {
    if exists|i: int| 0 <= i < outcomes.len() && (#[trigger] outcomes[i]) is None {
        CommandStatus::CouldNotExecute
    } else if exists|i: int| 0 <= i < outcomes.len() && (#[trigger] outcomes[i]) == Some(false) {
        CommandStatus::Failure
    } else {
        CommandStatus::Success
    }
}

/// Combine the outcomes of the per-Surveyor invocations of one
/// command.
pub fn combined_status(outcomes: &Vec<Option<bool>>) -> (status: CommandStatus)
    ensures
        status == spec_combined_status(outcomes@),
{
    let mut any_failure = false;
    let mut i: usize = 0;
    while i < outcomes.len()
        invariant
            i <= outcomes@.len(),
            forall|k: int| 0 <= k < i ==> (#[trigger] outcomes@[k]) is Some,
            any_failure == exists|k: int| 0 <= k < i && (#[trigger] outcomes@[k]) == Some(false),
        decreases outcomes@.len() - i,
    {
        match outcomes[i] {
            None => {
                proof {
                    assert(outcomes@[i as int] is None);
                }
                return CommandStatus::CouldNotExecute;
            },
            Some(false) => {
                proof {
                    assert(outcomes@[i as int] == Some(false));
                }
                any_failure = true;
            },
            Some(true) => {},
        }
        i += 1;
    }
    if any_failure {
        CommandStatus::Failure
    } else {
        CommandStatus::Success
    }
}

/// The path of the script a command runs: the script directory
/// followed by the script's file name.
pub open spec fn spec_script_path(name: CommandName) -> Seq<char> {
    match name {
        CommandName::MoveGrawFiles => SCRIPT_DIR@ + "move_graw.sh"@,
        CommandName::BackupConfig => SCRIPT_DIR@ + "backup_configs.sh"@,
        CommandName::CheckRunExists => SCRIPT_DIR@ + "test_graw.sh"@,
    }
}

/// Arguments of one per-Surveyor invocation of the file-move script:
/// the script path, the Surveyor's address and mount location, the
/// experiment, and the run number.
pub fn move_graw_args(address: &str, location: &str, experiment: &str, run_number: i32) -> (args:
    Vec<String>)
    ensures
        args@.len() == 5,
        args@[0]@ == spec_script_path(CommandName::MoveGrawFiles),
        args@[1]@ == address@,
        args@[2]@ == location@,
        args@[3]@ == experiment@,
        args@[4]@ == spec_i32_chars(run_number as int),
{
    let mut script = String::from_str(SCRIPT_DIR);
    script.append("move_graw.sh");
    let mut args: Vec<String> = Vec::new();
    args.push(script);
    args.push(address.to_owned());
    args.push(location.to_owned());
    args.push(experiment.to_owned());
    args.push(i32_to_string(run_number));
    args
}

/// Arguments of the configuration-backup script: the script path, the
/// live and backup configuration directories, the experiment, and the
/// run number.
pub fn backup_config_args(experiment: &str, run_number: i32) -> (args: Vec<String>)
    ensures
        args@.len() == 5,
        args@[0]@ == spec_script_path(CommandName::BackupConfig),
        args@[1]@ == CONFIG_DIR@,
        args@[2]@ == BACKUP_CONFIG_DIR@,
        args@[3]@ == experiment@,
        args@[4]@ == spec_i32_chars(run_number as int),
{
    let mut script = String::from_str(SCRIPT_DIR);
    script.append("backup_configs.sh");
    let mut args: Vec<String> = Vec::new();
    args.push(script);
    args.push(String::from_str(CONFIG_DIR));
    args.push(String::from_str(BACKUP_CONFIG_DIR));
    args.push(experiment.to_owned());
    args.push(i32_to_string(run_number));
    args
}

/// Arguments of the run-exists check: the script path, the first
/// Surveyor's address and mount location, the experiment, and the run
/// number.
pub fn check_run_exists_args(address: &str, location: &str, experiment: &str, run_number: i32) -> (
    args: Vec<String>)
    ensures
        args@.len() == 5,
        args@[0]@ == spec_script_path(CommandName::CheckRunExists),
        args@[1]@ == address@,
        args@[2]@ == location@,
        args@[3]@ == experiment@,
        args@[4]@ == spec_i32_chars(run_number as int),
{
    let mut script = String::from_str(SCRIPT_DIR);
    script.append("test_graw.sh");
    let mut args: Vec<String> = Vec::new();
    args.push(script);
    args.push(address.to_owned());
    args.push(location.to_owned());
    args.push(experiment.to_owned());
    args.push(i32_to_string(run_number));
    args
}

} // verus!
