use ollama_probe::liveness::{HttpOutcome, api_alive};
use ollama_probe::platform::Platform;
use ollama_probe::probe::{
    CommandOutcome, Interpreter, ProbeCommand, install_probe_command, process_probe_command,
};
use ollama_probe::report::build_report;

/// A mock executor: records every command line it is handed and answers from
/// a fixed table, spawn-failing on anything unknown.
fn mock_execute(
    invoked: &mut Vec<String>,
    table: &[(&str, i32)],
    cmd: &ProbeCommand,
) -> CommandOutcome {
    invoked.push(cmd.command_line.clone());
    for (line, code) in table {
        if cmd.command_line == *line {
            return CommandOutcome::Exited(*code);
        }
    }
    CommandOutcome::SpawnFailed
}

#[test]
fn report_always_complete() {
    let r = build_report("freebsd".to_string(), "riscv64".to_string(), None, None);
    assert_eq!(r.os, "freebsd");
    assert_eq!(r.arch, "riscv64");
    assert!(!r.ollama_installed);
    assert!(!r.ollama_running);

    let r = build_report(
        "linux".to_string(),
        "x86_64".to_string(),
        Some(CommandOutcome::SpawnFailed),
        Some(CommandOutcome::SpawnFailed),
    );
    assert_eq!(r.os, "linux");
    assert_eq!(r.arch, "x86_64");
    assert!(!r.ollama_installed);
    assert!(!r.ollama_running);
}

#[test]
fn end_to_end_linux_installed_not_running() {
    let os = "linux";
    let arch = "x86_64";
    let table = [("which ollama", 0), ("pgrep -x ollama", 1)];
    let mut invoked: Vec<String> = Vec::new();

    let platform = Platform::from_os_str(os);
    let install_outcome = install_probe_command(platform).map(|cmd| {
        assert_eq!(cmd.interpreter, Interpreter::Shell);
        mock_execute(&mut invoked, &table, &cmd)
    });
    let process_outcome = process_probe_command(platform).map(|cmd| {
        assert_eq!(cmd.interpreter, Interpreter::Shell);
        mock_execute(&mut invoked, &table, &cmd)
    });
    let report = build_report(os.to_string(), arch.to_string(), install_outcome, process_outcome);

    assert_eq!(invoked, vec!["which ollama".to_string(), "pgrep -x ollama".to_string()]);
    assert_eq!(report.os, "linux");
    assert_eq!(report.arch, "x86_64");
    assert!(report.ollama_installed);
    assert!(!report.ollama_running);
    assert!(api_alive(&HttpOutcome::Status(200)));
}

#[test]
fn end_to_end_windows_not_installed() {
    let table = [("where ollama", 1)];
    let mut invoked: Vec<String> = Vec::new();

    let platform = Platform::from_os_str("windows");
    let install_outcome = install_probe_command(platform).map(|cmd| {
        assert_eq!(cmd.interpreter, Interpreter::CommandInterpreter);
        mock_execute(&mut invoked, &table, &cmd)
    });
    let report =
        build_report("windows".to_string(), "x86_64".to_string(), install_outcome, None);

    assert_eq!(invoked, vec!["where ollama".to_string()]);
    assert!(!report.ollama_installed);
}

#[test]
fn end_to_end_unrecognized_platform() {
    let mut invoked: Vec<String> = Vec::new();
    let table = [("which ollama", 0), ("pgrep -x ollama", 0)];

    let platform = Platform::from_os_str("freebsd");
    let install_outcome =
        install_probe_command(platform).map(|cmd| mock_execute(&mut invoked, &table, &cmd));
    let process_outcome =
        process_probe_command(platform).map(|cmd| mock_execute(&mut invoked, &table, &cmd));
    let report =
        build_report("freebsd".to_string(), "aarch64".to_string(), install_outcome, process_outcome);

    assert!(invoked.is_empty());
    assert!(!report.ollama_installed);
    assert!(!report.ollama_running);
    assert_eq!(report.os, "freebsd");
    assert_eq!(report.arch, "aarch64");
}
