//! Assembly of the probe results into a single report.

use vstd::prelude::*;
use crate::probe::{CommandOutcome, probe_verdict};

verus! {

/// The immutable report handed to the caller: the operating-system family
/// and CPU architecture as the runtime reported them, and the two probe
/// verdicts. The two booleans are computed independently; the report states
/// no relationship between them.
#[derive(Debug)]
pub struct SystemInfo {
    pub os: String,
    pub arch: String,
    pub ollama_installed: bool,
    pub ollama_running: bool,
}

/// Assemble the report from the platform identifiers and the outcomes of the
/// two probe commands (`None` where no command was run). Every field is
/// always populated: the identifiers pass through unmodified, and each
/// verdict is `true` exactly when its command ran and exited with status
/// zero — even when every underlying probe failed, a complete report with
/// two `false` verdicts comes back.
pub fn build_report(
    os: String,
    arch: String,
    install_outcome: Option<CommandOutcome>,
    process_outcome: Option<CommandOutcome>,
) -> (r: SystemInfo)
    ensures
        r.os@ == os@,
        r.arch@ == arch@,
        r.ollama_installed == probe_verdict(install_outcome),
        r.ollama_running == probe_verdict(process_outcome),
{
    let ollama_installed = crate::probe::probe_succeeded(&install_outcome);
    let ollama_running = crate::probe::probe_succeeded(&process_outcome);
    SystemInfo { os, arch, ollama_installed, ollama_running }
}

} // verus!
