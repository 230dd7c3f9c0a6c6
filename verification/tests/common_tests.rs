use mcproc::config::Config;
use mcproc::exit_code::{format_exit_reason, get_signal_number, is_signal_termination};
use mcproc::paths::{join, McprocPaths};
use mcproc::process_key::ProcessKey;
use mcproc::status::{
    format_status, format_status_colored, format_status_enum, parse_status, status_word_of_code,
    ProcessStatus, StatusStyle,
};
use mcproc::xdg::{get_config_dir, get_data_dir, get_runtime_dir, get_state_dir, XdgEnv};

#[test]
fn exit_reasons() {
    assert_eq!(format_exit_reason(0), "Process exited normally");
    assert_eq!(format_exit_reason(1), "General error");
    assert_eq!(format_exit_reason(2), "Misuse of shell builtin");
    assert_eq!(format_exit_reason(126), "Command cannot execute");
    assert_eq!(format_exit_reason(127), "Command not found");
    assert_eq!(format_exit_reason(137), "Terminated by signal 9");
    assert_eq!(format_exit_reason(128), "Unknown error");
    assert_eq!(format_exit_reason(-1), "Unknown error");
    assert!(is_signal_termination(143));
    assert!(!is_signal_termination(128));
    assert_eq!(get_signal_number(143), Some(15));
    assert_eq!(get_signal_number(1), None);
}

#[test]
fn process_keys_round_trip() {
    let k = ProcessKey::new("proj", "web");
    assert_eq!(k.as_str(), "proj/web");
    assert_eq!(k.log_handle_key(), "proj/web");
    let p = ProcessKey::parse("proj/web").unwrap();
    assert_eq!(p, k);
    assert!(ProcessKey::parse("noslash").is_none());
    assert!(ProcessKey::parse("a/b/c").is_none());
    let empty = ProcessKey::parse("/").unwrap();
    assert_eq!(empty.project, "");
    assert_eq!(empty.name, "");
    let odd = ProcessKey { project: "p".to_string(), name: "a/b".to_string() };
    assert_eq!(odd.sanitized_name(), "a_b");
}

#[test]
fn paths_under_home() {
    let p = McprocPaths::new(Some("/home/u"));
    assert_eq!(p.data_dir, "/home/u/.mcproc");
    assert_eq!(p.log_dir, "/home/u/.mcproc/log");
    assert_eq!(p.pid_file, "/home/u/.mcproc/mcprocd.pid");
    assert_eq!(p.socket_path, "/home/u/.mcproc/mcprocd.sock");
    assert_eq!(p.process_log_file("a/b"), "/home/u/.mcproc/log/a_b.log");
    assert_eq!(McprocPaths::new(None).data_dir, "/tmp/.mcproc");
    assert_eq!(join("/a/", "b"), "/a/b");
    assert_eq!(join("/a", "/b"), "/b");
    assert_eq!(join("", "b"), "b");
}

#[test]
fn test_config_dir_with_xdg() {
    assert_eq!(get_config_dir(Some("/custom/config"), Some("/home/u")), "/custom/config/mcproc");
}

#[test]
fn test_data_dir_with_xdg() {
    assert_eq!(get_data_dir(Some("/custom/data"), Some("/home/u")), "/custom/data/mcproc");
}

#[test]
fn test_state_dir_with_xdg() {
    assert_eq!(get_state_dir(Some("/custom/state"), Some("/home/u")), "/custom/state/mcproc");
}

#[test]
fn test_runtime_dir_with_xdg() {
    assert_eq!(get_runtime_dir(Some("/run/user/1000"), 1000), "/run/user/1000/mcproc");
}

#[test]
fn test_runtime_dir_fallback() {
    assert_eq!(get_runtime_dir(None, 1000), "/tmp/mcproc-1000");
}

#[test]
fn xdg_defaults_under_home() {
    assert_eq!(get_config_dir(None, Some("/h")), "/h/.config/mcproc");
    assert_eq!(get_data_dir(None, Some("/h")), "/h/.local/share/mcproc");
    assert_eq!(get_state_dir(None, Some("/h")), "/h/.local/state/mcproc");
    assert_eq!(get_config_dir(None, None), ".config/mcproc");
}

#[test]
fn client_config_paths() {
    let env = XdgEnv {
        config_home: None,
        data_home: Some("/d".to_string()),
        state_home: Some("/s".to_string()),
        runtime_dir: None,
        home: Some("/h".to_string()),
        uid: 7,
    };
    let c = Config::for_client(&env);
    assert_eq!(c.paths.data_dir, "/d/mcproc");
    assert_eq!(c.paths.log_dir, "/s/mcproc/log");
    assert_eq!(c.paths.pid_file, "/tmp/mcproc-7/mcprocd.pid");
    assert_eq!(c.paths.socket_path, "/tmp/mcproc-7/mcprocd.sock");
    assert_eq!(c.daemon_log_file(), "/s/mcproc/log/mcprocd.log");
    assert_eq!(Config::get_config_file_path(&env), "/h/.config/mcproc/config.toml");
}

#[test]
fn status_names_and_styles() {
    assert_eq!(format_status(2), "Running");
    assert_eq!(format_status(42), "Unknown");
    assert_eq!(format_status_enum(ProcessStatus::Failed), "Failed");
    assert_eq!(format_status_colored(5), ("Failed".to_string(), StatusStyle::RedBold));
    assert_eq!(format_status_colored(1).1, StatusStyle::Yellow);
    assert_eq!(status_word_of_code(4), "stopped");
    assert_eq!(status_word_of_code(9), "unknown");
    for code in 0..6 {
        assert_eq!(parse_status(&format_status(code)), Ok(code));
    }
    assert_eq!(parse_status("sleeping"), Err("Invalid process status: sleeping".to_string()));
}
