//! Orchestration of interactive terminal sessions: the decisions of each
//! session's actor, the session registry, preview port allocation, and the
//! supervision of tunnel subprocesses with the scan for their public address.

pub mod config;
pub mod error;
pub mod ports;
pub mod session;
pub mod text;
pub mod tunnel;
pub mod types;
pub mod url_scan;
