//! Fleet-wide compile-time constants: module count, the master's id,
//! network addressing, and the directories used by the shell scripts.

use vstd::prelude::*;

verus! {

/// Number of hardware modules in the fleet (CoBo boards plus the MuTaNT).
pub const NUMBER_OF_MODULES: usize = 12;

/// Module id of the MuTaNT master trigger/clock unit; all smaller ids
/// are CoBos. The master is by convention the last module.
pub const MUTANT_ID: usize = 11;

/// TCP port of the per-module ECC control server.
pub const ECC_URL_PORT: u32 = 8083;

/// TCP port of the per-CoBo Surveyor (data-router status) server.
pub const SURVEYOR_URL_PORT: u32 = 8081;

/// TCP port the on-module data router listens on; referenced in the
/// DataLink block of ECC configuration payloads.
pub const LISTENER_PORT: u32 = 46005;

/// Transport protocol named in the DataLink block.
pub const PROTOCOL: &'static str = "TCP";

/// First three octets of the /24 network the modules live on. The
/// master resolves to `.1`; CoBo `i` resolves to `.(60+i)`.
pub const ADDRESS_START: &'static str = "192.168.41";

/// Directory holding the shell scripts run at run boundaries.
pub const SCRIPT_DIR: &'static str = "/usr/local/daq/scripts/";

/// Directory holding the live ECC configuration files.
pub const CONFIG_DIR: &'static str = "/usr/local/daq/configs";

/// Directory configuration files are copied to when a run stops.
pub const BACKUP_CONFIG_DIR: &'static str = "/usr/local/daq/backup_configs";

} // verus!
