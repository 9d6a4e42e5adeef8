//! Selection of the platform-specific probe commands and interpretation of
//! their outcomes.
//!
//! Two probes share one mechanism: pick a command line for the current
//! platform (or none, when the platform is unrecognized), have the caller
//! run it, and read success off the outcome. A spawn failure, a non-zero
//! exit status and an unrecognized platform all yield `false`: the probes
//! never surface an error.

use vstd::prelude::*;
use crate::platform::{Platform, platform_of};

verus! {

/// How a probe command line is to be executed.
#[derive(Clone, Copy, Debug, PartialEq, Eq, Structural)]
pub enum Interpreter {
    /// A POSIX shell (`sh -c <line>`).
    Shell,
    /// The Windows command interpreter (`cmd /C <line>`).
    CommandInterpreter,
}

/// A command for the caller to execute: the interpreter to hand the line to,
/// and the line itself.
#[derive(Debug)]
pub struct ProbeCommand {
    pub interpreter: Interpreter,
    pub command_line: String,
}

/// What became of an attempt to execute a probe command.
#[derive(Clone, Copy, Debug, PartialEq, Eq, Structural)]
pub enum CommandOutcome {
    /// The command ran to completion and exited with this status code.
    Exited(i32),
    /// The command could not be spawned at all (interpreter missing,
    /// permission denied, and the like).
    SpawnFailed,
}

/// The command that discovers whether the agent binary is on the executable
/// search path, per platform; `None` where no probing is attempted.
pub open spec fn install_command_plan(p: Platform) -> Option<(Interpreter, Seq<char>)> {
    match p {
        Platform::Linux => Some((Interpreter::Shell, "which ollama"@)),
        Platform::MacOS => Some((Interpreter::Shell, "which ollama"@)),
        Platform::Windows => Some((Interpreter::CommandInterpreter, "where ollama"@)),
        Platform::Other => None,
    }
}

/// The command that discovers whether a process of the agent's name is
/// running, per platform; `None` where no probing is attempted. On Linux and
/// macOS the `-x` flag asks `pgrep` for exact-name matches only.
pub open spec fn process_command_plan(p: Platform) -> Option<(Interpreter, Seq<char>)> {
    match p {
        Platform::Linux => Some((Interpreter::Shell, "pgrep -x ollama"@)),
        Platform::MacOS => Some((Interpreter::Shell, "pgrep -x ollama"@)),
        Platform::Windows => Some((Interpreter::CommandInterpreter, "tasklist | findstr ollama"@)),
        Platform::Other => None,
    }
}

/// Whether a returned command matches a planned one: present exactly when
/// the plan is, and then with the planned interpreter and command line.
pub open spec fn plan_matches(r: Option<ProbeCommand>, m: Option<(Interpreter, Seq<char>)>) -> bool {
    match m {
        Some(planned) => (r matches Some(c) && c.interpreter == planned.0
            && c.command_line@ == planned.1),
        None => r is None,
    }
}

/// The command for the installation probe on the given platform, or `None`
/// when the platform is unrecognized and nothing is to be run.
pub fn install_probe_command(p: Platform) -> (r: Option<ProbeCommand>)
    ensures
        plan_matches(r, install_command_plan(p)),
{
    match p {
        Platform::Linux | Platform::MacOS => Some(ProbeCommand {
            interpreter: Interpreter::Shell,
            command_line: String::from_str("which ollama"),
        }),
        Platform::Windows => Some(ProbeCommand {
            interpreter: Interpreter::CommandInterpreter,
            command_line: String::from_str("where ollama"),
        }),
        Platform::Other => None,
    }
}

/// The command for the process probe on the given platform, or `None` when
/// the platform is unrecognized and nothing is to be run.
pub fn process_probe_command(p: Platform) -> (r: Option<ProbeCommand>)
    ensures
        plan_matches(r, process_command_plan(p)),
{
    match p {
        Platform::Linux | Platform::MacOS => Some(ProbeCommand {
            interpreter: Interpreter::Shell,
            command_line: String::from_str("pgrep -x ollama"),
        }),
        Platform::Windows => Some(ProbeCommand {
            interpreter: Interpreter::CommandInterpreter,
            command_line: String::from_str("tasklist | findstr ollama"),
        }),
        Platform::Other => None,
    }
}

/// A completed execution counts as a success exactly when it exited with
/// status zero.
pub open spec fn outcome_succeeded(o: CommandOutcome) -> bool {
    o == CommandOutcome::Exited(0i32)
}

/// The verdict of a probe: `None` stands for "no command was run" (the
/// platform was unrecognized), and only a spawned command that exited with
/// status zero yields `true`.
pub open spec fn probe_verdict(o: Option<CommandOutcome>) -> bool {
    o matches Some(oc) && outcome_succeeded(oc)
}

/// Read a probe's boolean verdict off the outcome of running its command
/// (`None` when no command was run). Spawn failures, non-zero exits and
/// absent commands all yield `false`: the probe never surfaces an error.
pub fn probe_succeeded(outcome: &Option<CommandOutcome>) -> (r: bool)
    ensures
        r == probe_verdict(*outcome),
{
    match outcome {
        Some(CommandOutcome::Exited(code)) => *code == 0,
        Some(CommandOutcome::SpawnFailed) => false,
        None => false,
    }
}

/// For every unrecognized operating-system identifier, neither probe plans a
/// command — so no subprocess is ever invoked — and the verdict with no
/// command run is `false`.
pub proof fn lemma_unrecognized_platform_probes_nothing(os: Seq<char>)
    requires
        os != "linux"@,
        os != "macos"@,
        os != "windows"@,
    ensures
        !platform_of(os).is_recognized(),
        install_command_plan(platform_of(os)) is None,
        process_command_plan(platform_of(os)) is None,
        !probe_verdict(None::<CommandOutcome>),
{
}

/// Whatever command a probe planned, a spawn failure makes its verdict
/// `false` rather than an error.
pub proof fn lemma_spawn_failure_probes_false()
    ensures
        !probe_verdict(Some(CommandOutcome::SpawnFailed)),
{
}

/// On Linux and macOS the installation probe plans exactly `which ollama`
/// under a POSIX shell, and its verdict is `true` if and only if that
/// command exits with status zero.
pub proof fn lemma_unix_install_probe(p: Platform, outcome: CommandOutcome)
    requires
        p is Linux || p is MacOS,
    ensures
        install_command_plan(p) matches Some(c) && c.0 is Shell && c.1 == "which ollama"@,
        probe_verdict(Some(outcome)) <==> outcome == CommandOutcome::Exited(0i32),
{
}

/// On Windows the installation probe plans exactly `where ollama` under the
/// command interpreter, not under a shell.
pub proof fn lemma_windows_install_probe()
    ensures
        install_command_plan(Platform::Windows) matches Some(c) && c.0 is CommandInterpreter
            && c.0 !is Shell && c.1 == "where ollama"@,
{
}

/// On Linux and macOS the process probe plans exactly `pgrep -x ollama`
/// under a POSIX shell — the `-x` flag restricts `pgrep` to exact-name
/// matches — and its verdict is `true` if and only if that command exits
/// with status zero.
pub proof fn lemma_unix_process_probe(p: Platform, outcome: CommandOutcome)
    requires
        p is Linux || p is MacOS,
    ensures
        process_command_plan(p) matches Some(c) && c.0 is Shell && c.1 == "pgrep -x ollama"@,
        probe_verdict(Some(outcome)) <==> outcome == CommandOutcome::Exited(0i32),
{
}

} // verus!
