use mcproc::daemon::{
    next_signal_step, SignalStep,
    basic_status_report, command_identifies_mcproc_daemon, daemon_pids_in_listing,
    existing_daemons_warning, file_name, format_uptime, is_daemon_running,
    is_daemon_running_with_details, needs_log_separator, pid_from_file, pid_is_mcproc_daemon,
    plan_daemon_command, refusal_message, stat_is_zombie, status_report, DaemonProbe,
    DaemonState, DaemonSubcommand, ProcessIdentity, StartCheck, StartWait, StopCheck, StopWait,
};

#[test]
fn command_identity_requires_mcproc() {
    assert!(command_identifies_mcproc_daemon(
        "mcproc",
        &["mcproc".into(), "--daemon".into()]
    ));
    assert!(command_identifies_mcproc_daemon(
        "other",
        &["/usr/local/bin/mcproc".into(), "--daemon".into()]
    ));
    assert!(!command_identifies_mcproc_daemon(
        "mcproc",
        &["mcproc".into(), "start".into(), "x".into()]
    ));
    assert!(!command_identifies_mcproc_daemon(
        "vim",
        &["vim".into(), "mcproc/notes.md".into()]
    ));
    assert!(!command_identifies_mcproc_daemon(
        "sleep",
        &["sleep".into(), "5".into()]
    ));
}

#[test]
fn file_name_follows_path_components() {
    assert_eq!(file_name("/usr/local/bin/mcproc").as_deref(), Some("mcproc"));
    assert_eq!(file_name("mcproc").as_deref(), Some("mcproc"));
    assert_eq!(file_name("bin/mcproc/").as_deref(), Some("mcproc"));
    assert_eq!(file_name("bin/mcproc/.").as_deref(), Some("mcproc"));
    assert_eq!(file_name("./mcproc").as_deref(), Some("mcproc"));
    assert_eq!(file_name("bin/.."), None);
    assert_eq!(file_name(".."), None);
    assert_eq!(file_name("."), None);
    assert_eq!(file_name("/"), None);
    assert_eq!(file_name(""), None);
}

#[test]
fn format_uptime_drops_leading_zero_units() {
    assert_eq!(format_uptime(0), "0s");
    assert_eq!(format_uptime(59), "59s");
    assert_eq!(format_uptime(60), "1m 0s");
    assert_eq!(format_uptime(3600), "1h 0m 0s");
    assert_eq!(format_uptime(3661), "1h 1m 1s");
    assert_eq!(format_uptime(90061), "1d 1h 1m 1s");
    assert_eq!(format_uptime(86400), "1d 0h 0m 0s");
}

#[test]
fn pid_file_text_is_trimmed_and_parsed() {
    assert_eq!(pid_from_file("1234\n"), Some(1234));
    assert_eq!(pid_from_file("  -7 "), Some(-7));
    assert_eq!(pid_from_file("+12"), Some(12));
    assert_eq!(pid_from_file("abc"), None);
    assert_eq!(pid_from_file(""), None);
    assert_eq!(pid_from_file("2147483647"), Some(i32::MAX));
    assert_eq!(pid_from_file("2147483648"), None);
    assert_eq!(pid_from_file("-2147483648"), Some(i32::MIN));
    assert_eq!(pid_from_file("12 34"), None);
}

#[test]
fn zombie_state_is_read_after_the_command_name() {
    assert!(stat_is_zombie("42 (mcproc) Z 1 42 42"));
    assert!(!stat_is_zombie("42 (mcproc) S 1 42 42"));
    assert!(!stat_is_zombie("42 (a) Z) S 1"));
    assert!(stat_is_zombie("42 (a) b) Z 1"));
    assert!(!stat_is_zombie("no parenthesis Z"));
    assert!(!stat_is_zombie("42 (x)"));
}

fn identity(name: &str, command: &[&str]) -> ProcessIdentity {
    ProcessIdentity {
        name: name.to_string(),
        command: command.iter().map(|s| s.to_string()).collect(),
    }
}

#[test]
fn daemon_pid_needs_a_live_positive_daemon_process() {
    let daemon = identity("mcproc", &["mcproc", "--daemon"]);
    let sleeper = identity("sleep", &["sleep", "5"]);
    assert!(pid_is_mcproc_daemon(10, true, Some(&daemon)));
    assert!(!pid_is_mcproc_daemon(10, true, Some(&sleeper)));
    assert!(!pid_is_mcproc_daemon(10, false, Some(&daemon)));
    assert!(!pid_is_mcproc_daemon(0, true, Some(&daemon)));
    assert!(!pid_is_mcproc_daemon(-3, true, None));
    assert!(pid_is_mcproc_daemon(10, true, None));
}

fn probe(socket: bool, pid_file: Option<&str>, alive: bool, stat: Option<&str>, daemon: bool) -> DaemonProbe {
    DaemonProbe {
        socket_connectable: socket,
        pid_file: pid_file.map(|s| s.to_string()),
        process_alive: alive,
        proc_stat: stat.map(|s| s.to_string()),
        process_is_daemon: daemon,
    }
}

#[test]
fn connectable_socket_means_running() {
    let st = is_daemon_running_with_details(&probe(true, Some("77\n"), false, None, false));
    assert!(st.running);
    assert_eq!(st.pid, Some(77));
    assert!(st.warning.is_none());

    let st = is_daemon_running_with_details(&probe(true, Some("junk"), false, None, false));
    assert!(st.running);
    assert_eq!(st.pid, None);
    assert_eq!(st.warning.as_deref(), Some("Warning: Socket exists but PID file is invalid"));
}

#[test]
fn without_socket_the_pid_file_decides() {
    assert!(!is_daemon_running(&probe(false, None, true, None, true)));
    let st = is_daemon_running_with_details(&probe(false, Some("5"), false, None, true));
    assert!(!st.running);
    assert_eq!(st.pid, Some(5));
    let st = is_daemon_running_with_details(&probe(false, Some("5"), true, Some("5 (mcproc) Z 1"), true));
    assert!(!st.running);
    let st = is_daemon_running_with_details(&probe(false, Some("5"), true, None, false));
    assert!(!st.running);
    let st = is_daemon_running_with_details(&probe(false, Some("5"), true, Some("5 (mcproc) S 1"), true));
    assert!(st.running);
    assert_eq!(st.pid, Some(5));
    assert_eq!(
        st.warning.as_deref(),
        Some("Warning: Process 5 exists but socket is not accessible")
    );
}

#[test]
fn listing_yields_daemon_pids_in_order() {
    let listing = "USER PID %CPU\n\
                   me 100 0.0 /usr/bin/mcproc --daemon\n\
                   me 101 0.0 vim notes\n\
                   me 102 0.0 grep mcproc --daemon\n\
                   me abc 0.0 mcproc --daemon\n\
                   me 103 0.0 mcproc --daemon\r\n";
    assert_eq!(daemon_pids_in_listing(listing), vec![100, 103]);
    assert_eq!(daemon_pids_in_listing(""), Vec::<i32>::new());
}

fn state(running: bool, pid: Option<i32>) -> DaemonState {
    DaemonState { running, pid, warning: None }
}

#[test]
fn daemon_start_plan_cleans_stale_files() {
    let plan = plan_daemon_command(&DaemonSubcommand::Start, &state(true, Some(1)), true);
    assert_eq!(plan.say.as_deref(), Some("mcprocd daemon is already running"));
    assert!(!plan.proceed);

    let plan = plan_daemon_command(&DaemonSubcommand::Start, &state(false, Some(9)), true);
    assert!(plan.proceed);
    assert!(plan.remove_pid_file && plan.remove_socket);
    assert_eq!(
        plan.notes,
        vec![
            "Cleaning up stale PID file for process 9".to_string(),
            "Cleaning up stale socket file".to_string()
        ]
    );

    let plan = plan_daemon_command(&DaemonSubcommand::Start, &state(false, None), false);
    assert!(plan.proceed && plan.notes.is_empty() && !plan.remove_pid_file && !plan.remove_socket);
}

#[test]
fn daemon_stop_restart_and_status_plans() {
    let plan = plan_daemon_command(&DaemonSubcommand::Stop, &state(false, Some(3)), false);
    assert_eq!(plan.say.as_deref(), Some("mcprocd daemon is not running"));
    assert!(plan.remove_pid_file && !plan.remove_socket && !plan.proceed);
    let plan = plan_daemon_command(&DaemonSubcommand::Stop, &state(true, Some(3)), true);
    assert!(plan.proceed && plan.say.is_none());

    let plan = plan_daemon_command(&DaemonSubcommand::Restart, &state(true, Some(3)), true);
    assert_eq!(plan.say.as_deref(), Some("Stopping mcprocd daemon..."));
    assert!(plan.proceed);
    let plan = plan_daemon_command(&DaemonSubcommand::Restart, &state(false, None), true);
    assert!(plan.say.is_none() && plan.proceed);

    let plan = plan_daemon_command(&DaemonSubcommand::Status, &state(false, Some(3)), true);
    assert_eq!(plan.say.as_deref(), Some("mcprocd daemon is not running (stale PID file)"));
    assert!(plan.remove_pid_file && plan.remove_socket && !plan.proceed);
    let plan = plan_daemon_command(&DaemonSubcommand::Status, &state(false, None), true);
    assert_eq!(plan.say.as_deref(), Some("mcprocd daemon is not running"));
    assert!(!plan.remove_socket);
    let plan = plan_daemon_command(&DaemonSubcommand::Status, &state(true, None), false);
    assert!(plan.proceed);
}

#[test]
fn stop_wait_reports_every_five_seconds_and_gives_up() {
    let mut w = StopWait::new(10000, 2500);
    let mut lines = Vec::new();
    let mut checks = 0;
    while w.may_wait() {
        checks += 1;
        match w.record(true) {
            StopCheck::StillRunning(Some(l)) => lines.push(l),
            StopCheck::StillRunning(None) => {}
            StopCheck::Stopped => panic!("daemon reported stopped"),
        }
    }
    assert_eq!(checks, 4);
    assert_eq!(
        lines,
        vec![
            "Waiting for daemon to stop gracefully... (5/10s)".to_string(),
            "Waiting for daemon to stop gracefully... (10/10s)".to_string()
        ]
    );
    let mut w = StopWait::new(10000, 3000);
    assert!(matches!(w.record(false), StopCheck::Stopped));
}

#[test]
fn start_wait_says_it_waits_halfway() {
    let mut w = StartWait::new(1000, 100);
    let mut said = Vec::new();
    while w.may_wait() {
        if let StartCheck::NotYet(Some(l)) = w.record(false) {
            said.push(l);
        }
    }
    assert_eq!(said, vec!["Waiting for daemon to start...".to_string()]);
    let mut w = StartWait::new(1000, 100);
    assert!(matches!(w.record(true), StartCheck::Ready));
}

#[test]
fn daemon_messages() {
    assert_eq!(
        refusal_message(42),
        "Refusing to signal PID 42: process is not an mcproc daemon"
    );
    assert!(existing_daemons_warning(&vec![]).is_empty());
    assert_eq!(
        existing_daemons_warning(&vec![12, 34]),
        vec![
            "Warning: Found 2 existing mcproc daemon process(es): [12, 34]".to_string(),
            "Consider running 'mcproc daemon stop' first to clean up".to_string()
        ]
    );
    assert!(needs_log_separator(Some(b'x')));
    assert!(!needs_log_separator(Some(b'\n')));
    assert!(!needs_log_separator(None));
    assert_eq!(
        status_report("0.1.0", 77, "/data", 3661, 2),
        vec![
            "mcprocd daemon is running".to_string(),
            "  Version:   0.1.0".to_string(),
            "  PID:       77".to_string(),
            "  Data:      /data".to_string(),
            "  Uptime:    1h 1m 1s".to_string(),
            "  Processes: 2".to_string()
        ]
    );
    assert_eq!(
        basic_status_report(77, "/data", Some("boom"))[3],
        "  (Could not get detailed status: boom)"
    );
    assert_eq!(
        basic_status_report(77, "/data", None)[3],
        "  (Could not connect to daemon for detailed status)"
    );
}

#[test]
fn signal_steps_refuse_terminate_wait_and_escalate() {
    match next_signal_step(77, false, false, false, false) {
        SignalStep::Refuse(m) => {
            assert_eq!(m, "Refusing to signal PID 77: process is not an mcproc daemon")
        }
        other => panic!("expected a refusal, got {other:?}"),
    }
    assert!(matches!(next_signal_step(77, true, false, false, false), SignalStep::Terminate));
    assert!(matches!(next_signal_step(77, true, true, false, false), SignalStep::Wait));
    assert!(matches!(next_signal_step(77, true, true, false, true), SignalStep::Escalate));
    assert!(matches!(next_signal_step(77, false, true, false, true), SignalStep::Refuse(_)));
    assert!(matches!(next_signal_step(77, false, true, true, true), SignalStep::Done));
}
