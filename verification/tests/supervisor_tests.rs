use mcp_manager::config::{Config, MCPServerConfig};
use mcp_manager::output::OutputStore;
use mcp_manager::registry::ProcessStore;
use mcp_manager::status::CommandStatus;
use mcp_manager::supervisor::{
    force_kill_command, get_command_info, get_command_output, log_probe_line, monitor_finish,
    record_stderr_line, record_stdout_line, start_command, start_finish_ok, stop_command,
    StartStep, SupervisorError, WaitOutcome,
};

fn config_with(id: &str, command: &str, args: &[&str], port: Option<u16>) -> Config {
    let mut config = Config::default();
    let cfg = MCPServerConfig::new(
        command.to_string(),
        args.iter().map(|a| a.to_string()).collect(),
        port,
    );
    config.add_server(id.to_string(), cfg);
    config
}

#[test]
fn start_spawns_and_composes_command_line() {
    let mut processes = ProcessStore::new();
    let mut outputs = OutputStore::new();
    let config = config_with("srv", "sleep", &["5"], None);
    let id = "srv".to_string();

    match start_command(&id, &mut processes, &config, &mut outputs).unwrap() {
        StartStep::Spawn(req) => {
            assert_eq!(req.command_line, "sleep 5");
            assert!(req.env.is_empty());
        },
        StartStep::AlreadyActive(_) => panic!("fresh id must spawn"),
    }
    let info = get_command_info(&id, &processes);
    assert_eq!(info.status, CommandStatus::Starting);
    assert!(info.is_running);
    assert_eq!(info.process_id, None);
}

#[test]
fn start_is_idempotent_while_starting() {
    let mut processes = ProcessStore::new();
    let mut outputs = OutputStore::new();
    let config = config_with("srv", "sleep", &["5"], None);
    let id = "srv".to_string();

    let first = start_command(&id, &mut processes, &config, &mut outputs).unwrap();
    assert!(matches!(first, StartStep::Spawn(_)));
    // second call while the first is still `Starting`: no second spawn request
    match start_command(&id, &mut processes, &config, &mut outputs).unwrap() {
        StartStep::AlreadyActive(info) => {
            assert_eq!(info.status, CommandStatus::Starting);
            assert_eq!(info.id, "srv");
        },
        StartStep::Spawn(_) => panic!("second start must not spawn again"),
    }
}

#[test]
fn start_is_idempotent_while_running() {
    let mut processes = ProcessStore::new();
    let mut outputs = OutputStore::new();
    let config = config_with("srv", "sleep", &["5"], None);
    let id = "srv".to_string();

    start_command(&id, &mut processes, &config, &mut outputs).unwrap();
    let running = start_finish_ok(&id, 4242, &mut processes);
    assert_eq!(running.status, CommandStatus::Running);
    assert_eq!(running.process_id, Some(4242));

    match start_command(&id, &mut processes, &config, &mut outputs).unwrap() {
        StartStep::AlreadyActive(info) => {
            assert_eq!(info.status, CommandStatus::Running);
            assert_eq!(info.process_id, Some(4242));
        },
        StartStep::Spawn(_) => panic!("second start must not spawn again"),
    }
}

#[test]
fn start_without_config_is_config_not_found() {
    let mut processes = ProcessStore::new();
    let mut outputs = OutputStore::new();
    let config = Config::default();
    let id = "ghost".to_string();
    let r = start_command(&id, &mut processes, &config, &mut outputs);
    assert_eq!(r.unwrap_err(), SupervisorError::ConfigNotFound);
    // the failed call left no entry behind
    let info = get_command_info(&id, &processes);
    assert_eq!(info.status, CommandStatus::Idle);
}

#[test]
fn get_status_of_never_started_id_is_idle() {
    let processes = ProcessStore::new();
    let id = "never-started".to_string();
    let info = get_command_info(&id, &processes);
    assert_eq!(info.status, CommandStatus::Idle);
    assert_eq!(info.id, "never-started");
    assert!(!info.is_running);
    assert!(!info.has_error);
    assert_eq!(info.process_id, None);
    assert_eq!(info.port, None);
}

#[test]
fn stdout_lines_kept_in_order_and_zero_exit_finishes() {
    let mut processes = ProcessStore::new();
    let mut outputs = OutputStore::new();
    let config = config_with("srv", "printer", &[], None);
    let id = "srv".to_string();

    start_command(&id, &mut processes, &config, &mut outputs).unwrap();
    start_finish_ok(&id, 77, &mut processes);
    record_stdout_line(&id, "one".to_string(), &mut outputs);
    record_stdout_line(&id, "two".to_string(), &mut outputs);
    assert_eq!(get_command_output(&id, &outputs), vec!["one".to_string(), "two".to_string()]);

    monitor_finish(
        &id,
        WaitOutcome::Exited { code: Some(0), success: true },
        &mut processes,
        &mut outputs,
    );
    let info = get_command_info(&id, &processes);
    assert_eq!(info.status, CommandStatus::Finished { code: Some(0), success: true });
    assert!(!info.is_running);
    assert!(!info.has_error);
    let out = get_command_output(&id, &outputs);
    assert_eq!(out.len(), 3);
    assert_eq!(out[0], "one");
    assert_eq!(out[1], "two");
    assert_eq!(out[2], "Process exited with status: Some(0) (Success: true)");
}

#[test]
fn nonzero_exit_code_reported_as_failure() {
    let mut processes = ProcessStore::new();
    let mut outputs = OutputStore::new();
    let config = config_with("srv", "failer", &[], None);
    let id = "srv".to_string();

    start_command(&id, &mut processes, &config, &mut outputs).unwrap();
    start_finish_ok(&id, 78, &mut processes);
    monitor_finish(
        &id,
        WaitOutcome::Exited { code: Some(3), success: false },
        &mut processes,
        &mut outputs,
    );
    let info = get_command_info(&id, &processes);
    assert_eq!(info.status, CommandStatus::Finished { code: Some(3), success: false });
    assert!(info.has_error);
    assert!(info.status.is_terminal());
    assert!(!info.status.is_active());
}

#[test]
fn successful_exit_without_code_normalizes_to_zero() {
    let mut processes = ProcessStore::new();
    let mut outputs = OutputStore::new();
    let config = config_with("srv", "quiet", &[], None);
    let id = "srv".to_string();

    start_command(&id, &mut processes, &config, &mut outputs).unwrap();
    start_finish_ok(&id, 79, &mut processes);
    monitor_finish(
        &id,
        WaitOutcome::Exited { code: None, success: true },
        &mut processes,
        &mut outputs,
    );
    let info = get_command_info(&id, &processes);
    assert_eq!(info.status, CommandStatus::Finished { code: Some(0), success: true });
}

#[test]
fn wait_error_finalizes_as_unsuccessful_finish() {
    let mut processes = ProcessStore::new();
    let mut outputs = OutputStore::new();
    let config = config_with("srv", "waiter", &[], None);
    let id = "srv".to_string();

    start_command(&id, &mut processes, &config, &mut outputs).unwrap();
    start_finish_ok(&id, 80, &mut processes);
    monitor_finish(
        &id,
        WaitOutcome::WaitError { message: "boom".to_string() },
        &mut processes,
        &mut outputs,
    );
    let info = get_command_info(&id, &processes);
    assert_eq!(info.status, CommandStatus::Finished { code: None, success: false });
    assert!(info.has_error);
    let out = get_command_output(&id, &outputs);
    assert_eq!(out.last().unwrap(), "Error waiting for process exit: boom");
}

#[test]
fn stop_on_finished_entry_is_idempotent() {
    let mut processes = ProcessStore::new();
    let mut outputs = OutputStore::new();
    let config = config_with("srv", "quit", &[], None);
    let id = "srv".to_string();

    start_command(&id, &mut processes, &config, &mut outputs).unwrap();
    start_finish_ok(&id, 81, &mut processes);
    monitor_finish(
        &id,
        WaitOutcome::Exited { code: Some(0), success: true },
        &mut processes,
        &mut outputs,
    );
    let before = get_command_info(&id, &processes);
    let returned = stop_command(&id, &mut processes).unwrap();
    assert_eq!(returned.status, CommandStatus::Finished { code: Some(0), success: true });
    let after = get_command_info(&id, &processes);
    assert_eq!(after.status, before.status);
    // and again: still the same
    let returned2 = stop_command(&id, &mut processes).unwrap();
    assert_eq!(returned2.status, CommandStatus::Finished { code: Some(0), success: true });
}

#[test]
fn stop_unknown_id_is_not_found() {
    let mut processes = ProcessStore::new();
    let id = "ghost".to_string();
    assert_eq!(stop_command(&id, &mut processes).unwrap_err(), SupervisorError::NotFound);
    assert_eq!(force_kill_command(&id, &mut processes).unwrap_err(), SupervisorError::NotFound);
}

#[test]
fn stop_without_handle_is_a_successful_manual_stop() {
    let mut processes = ProcessStore::new();
    let mut outputs = OutputStore::new();
    let config = config_with("srv", "sleep", &["5"], None);
    let id = "srv".to_string();

    start_command(&id, &mut processes, &config, &mut outputs).unwrap();
    start_finish_ok(&id, 82, &mut processes);
    // the monitor took the handle; the process is already reaped
    assert!(processes.take_handle(&id).is_some());
    let returned = stop_command(&id, &mut processes).unwrap();
    assert_eq!(returned.status, CommandStatus::Stopping);
    let info = get_command_info(&id, &processes);
    assert_eq!(info.status, CommandStatus::Finished { code: Some(0), success: true });
    assert!(!info.is_running);
}

#[test]
fn force_kill_after_handle_taken_finalizes_unsuccessful() {
    let mut processes = ProcessStore::new();
    let mut outputs = OutputStore::new();
    let config = config_with("srv", "sleep", &["5"], None);
    let id = "srv".to_string();

    start_command(&id, &mut processes, &config, &mut outputs).unwrap();
    start_finish_ok(&id, 83, &mut processes);
    assert!(processes.take_handle(&id).is_some());
    // a second taker observes nothing: the handle moves exactly once
    assert!(processes.take_handle(&id).is_none());
    let returned = force_kill_command(&id, &mut processes).unwrap();
    assert_eq!(returned.status, CommandStatus::Killing);
    let info = get_command_info(&id, &processes);
    assert_eq!(info.status, CommandStatus::Finished { code: Some(1), success: false });
    assert!(!info.is_running);
}

#[test]
fn stop_with_unreachable_pid_reports_error_status() {
    let mut processes = ProcessStore::new();
    let mut outputs = OutputStore::new();
    let config = config_with("srv", "sleep", &["5"], None);
    let id = "srv".to_string();

    start_command(&id, &mut processes, &config, &mut outputs).unwrap();
    // far above any real pid: signal delivery is attempted and fails
    start_finish_ok(&id, 0x7fff_f000, &mut processes);
    let returned = stop_command(&id, &mut processes).unwrap();
    assert_eq!(returned.status, CommandStatus::Stopping);
    let info = get_command_info(&id, &processes);
    assert!(matches!(info.status, CommandStatus::Error { .. }));
}

#[test]
fn force_kill_with_unreachable_pid_reports_error_status() {
    let mut processes = ProcessStore::new();
    let mut outputs = OutputStore::new();
    let config = config_with("srv", "sleep", &["5"], None);
    let id = "srv".to_string();

    start_command(&id, &mut processes, &config, &mut outputs).unwrap();
    start_finish_ok(&id, 0x7fff_f001, &mut processes);
    let returned = force_kill_command(&id, &mut processes).unwrap();
    assert_eq!(returned.status, CommandStatus::Killing);
    let info = get_command_info(&id, &processes);
    assert!(matches!(info.status, CommandStatus::Error { .. }));
}

#[test]
fn stderr_flag_flips_exactly_once() {
    let mut processes = ProcessStore::new();
    let mut outputs = OutputStore::new();
    let config = config_with("srv", "noisy", &[], None);
    let id = "srv".to_string();

    start_command(&id, &mut processes, &config, &mut outputs).unwrap();
    start_finish_ok(&id, 84, &mut processes);
    let first = record_stderr_line(&id, "warning A".to_string(), &mut processes, &mut outputs);
    assert!(first);
    let second = record_stderr_line(&id, "warning B".to_string(), &mut processes, &mut outputs);
    assert!(!second);
    let third = record_stderr_line(&id, "warning C".to_string(), &mut processes, &mut outputs);
    assert!(!third);
    let info = get_command_info(&id, &processes);
    assert!(info.has_error);
    assert_eq!(info.status, CommandStatus::Running);
    let out = get_command_output(&id, &outputs);
    assert_eq!(
        out,
        vec![
            "ERROR: warning A".to_string(),
            "ERROR: warning B".to_string(),
            "ERROR: warning C".to_string(),
        ]
    );
}

#[test]
fn log_probe_detects_port_and_first_writer_wins() {
    let mut processes = ProcessStore::new();
    let mut outputs = OutputStore::new();
    let config = config_with("srv", "server", &[], None);
    let id = "srv".to_string();

    start_command(&id, &mut processes, &config, &mut outputs).unwrap();
    start_finish_ok(&id, 85, &mut processes);
    assert_eq!(get_command_info(&id, &processes).port, None);

    let line = "listening on 0.0.0.0:4821";
    record_stdout_line(&id, line.to_string(), &mut outputs);
    assert_eq!(log_probe_line(&id, line, &mut processes), Some(4821));
    assert_eq!(get_command_info(&id, &processes).port, Some(4821));

    // a later detection does not overwrite the recorded port
    assert_eq!(log_probe_line(&id, "listening on 0.0.0.0:9999", &mut processes), Some(9999));
    assert_eq!(get_command_info(&id, &processes).port, Some(4821));
}

#[test]
fn declared_port_survives_start_and_restart_resets_output() {
    let mut processes = ProcessStore::new();
    let mut outputs = OutputStore::new();
    let config = config_with("srv", "server", &[], Some(9100));
    let id = "srv".to_string();

    start_command(&id, &mut processes, &config, &mut outputs).unwrap();
    let running = start_finish_ok(&id, 86, &mut processes);
    assert_eq!(running.port, Some(9100));
    record_stdout_line(&id, "old line".to_string(), &mut outputs);
    monitor_finish(
        &id,
        WaitOutcome::Exited { code: Some(0), success: true },
        &mut processes,
        &mut outputs,
    );

    // a restart replaces the entry and clears the captured output
    match start_command(&id, &mut processes, &config, &mut outputs).unwrap() {
        StartStep::Spawn(_) => {},
        StartStep::AlreadyActive(_) => panic!("terminal entry must be restartable"),
    }
    assert_eq!(get_command_output(&id, &outputs), Vec::<String>::new());
    assert_eq!(get_command_info(&id, &processes).status, CommandStatus::Starting);
}

#[test]
fn echo_srv_end_to_end_scenario() {
    let mut processes = ProcessStore::new();
    let mut outputs = OutputStore::new();
    let config = config_with("echo-srv", "sh", &["-c", "echo hi && sleep 0 && exit 0"], None);
    let id = "echo-srv".to_string();

    match start_command(&id, &mut processes, &config, &mut outputs).unwrap() {
        StartStep::Spawn(req) => {
            assert_eq!(req.command_line, "sh -c echo hi && sleep 0 && exit 0");
        },
        StartStep::AlreadyActive(_) => panic!("fresh id must spawn"),
    }
    start_finish_ok(&id, 87, &mut processes);
    assert_eq!(get_command_info(&id, &processes).status, CommandStatus::Running);

    record_stdout_line(&id, "hi".to_string(), &mut outputs);
    assert_eq!(get_command_output(&id, &outputs), vec!["hi".to_string()]);

    monitor_finish(
        &id,
        WaitOutcome::Exited { code: Some(0), success: true },
        &mut processes,
        &mut outputs,
    );
    let info = get_command_info(&id, &processes);
    assert_eq!(info.status, CommandStatus::Finished { code: Some(0), success: true });
    let out = get_command_output(&id, &outputs);
    assert_eq!(out[0], "hi");
}
