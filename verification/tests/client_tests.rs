use mcproc::client::{
    autostart_notes, pid_file_indicates_running, restart_failure, socket_missing_warning,
    version_mismatch_notes, ConnectRetry, DaemonRestartedForUpgrade, RetryStep,
};

#[test]
fn missing_pid_file_does_not_indicate_running() {
    assert!(!pid_file_indicates_running(None, true));
}

#[test]
fn invalid_pid_file_does_not_indicate_running() {
    assert!(!pid_file_indicates_running(Some("abc"), true));
}

#[test]
fn dead_process_pid_file_does_not_indicate_running() {
    assert!(!pid_file_indicates_running(Some("12345"), false));
}

#[test]
fn live_process_pid_file_indicates_running() {
    assert!(pid_file_indicates_running(Some("12345\n"), true));
}

#[test]
fn connect_retry_waits_then_gives_up() {
    let mut r = ConnectRetry::new(3);
    assert!(matches!(r.record(false, None), RetryStep::Wait));
    assert!(matches!(r.record(true, Some("refused".to_string())), RetryStep::Wait));
    match r.record(true, Some("refused".to_string())) {
        RetryStep::GiveUp(m) => assert_eq!(m, "Failed to connect to daemon after 3 attempts: refused"),
        _ => panic!("expected to give up"),
    }
    assert!(!r.may_try());
    assert_eq!(r.exhausted(), "Failed to connect to daemon: socket not available");
    let mut ok = ConnectRetry::new(2);
    assert!(matches!(ok.record(true, None), RetryStep::Connected));
}

#[test]
fn daemon_start_and_upgrade_messages() {
    assert_eq!(
        autostart_notes("/tmp/d.log"),
        vec![
            "mcprocd daemon is not running. Starting it automatically...".to_string(),
            "Started mcprocd daemon".to_string(),
            "Daemon logs: /tmp/d.log".to_string()
        ]
    );
    assert_eq!(socket_missing_warning(10), "Warning: Daemon socket not found after 10 attempts");
    assert!(version_mismatch_notes("0.1.0", "0.1.0").is_none());
    assert_eq!(
        version_mismatch_notes("0.1.0", "0.2.0").unwrap(),
        vec![
            "Daemon version mismatch: daemon=0.1.0, client=0.2.0".to_string(),
            "Restarting daemon to update version...".to_string()
        ]
    );
    assert_eq!(restart_failure("no"), "Failed to restart daemon: no");
    assert_eq!(DaemonRestartedForUpgrade.message(), "daemon restarted for upgrade");
}
