//! Supervisory controller core for a fixed fleet of data-acquisition
//! modules: a set of CoBo readout boards plus one MuTaNT master
//! trigger/clock unit. Each module is driven through an ECC control
//! server and observed through a Surveyor data-router endpoint.
//!
//! This crate holds the verified core: the lifecycle state machine and
//! its codings, the wire-format composers and parsers, the message
//! envelope, the hub bridging async driver tasks to the synchronous
//! front end, the status aggregator with its busy holds, the rate-graph
//! ring buffers, the shell-command tables, and the run start/stop
//! sequencers. Network, subprocess, and UI plumbing live outside the
//! library and exchange plain values with it.

pub mod command;
pub mod constants;
pub mod ecc_envoy;
pub mod ecc_operation;
pub mod embassy;
pub mod error;
pub mod graph_manager;
pub mod message;
pub mod rate_graph;
pub mod run_control;
pub mod status_manager;
pub mod surveyor_envoy;
pub mod surveyor_state;
pub mod textutil;
