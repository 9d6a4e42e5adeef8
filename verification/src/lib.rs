//! Diagnostic probes for a locally installed service agent.
//!
//! The library decides, for a given operating-system family, which command
//! discovers the agent binary and which command finds its process, interprets
//! the outcome of running such a command, interprets an HTTP liveness
//! response, and assembles the results into a single report. Actually
//! spawning subprocesses and issuing the HTTP request is left to the caller,
//! which feeds the outcomes back in as plain values.

pub mod liveness;
pub mod platform;
pub mod probe;
pub mod report;

pub use liveness::{HttpOutcome, api_alive, api_endpoint};
pub use platform::Platform;
pub use probe::{CommandOutcome, Interpreter, ProbeCommand};
pub use probe::{install_probe_command, probe_succeeded, process_probe_command};
pub use report::{SystemInfo, build_report};
