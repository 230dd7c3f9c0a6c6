use mcproc::clock::Timestamp;
use mcproc::mcp::error::Error;
use mcproc::mcp::json::Json;
use mcproc::rpc::{require_params, GrepMatch, LogEntry, ProcessInfo, RpcStatus};
use mcproc::tools::logs::{
    format_log_line, grep_failure, grep_response, logs_receive_failure, logs_response,
    prepare_grep, prepare_logs, stop_request, stop_response, GrepParams, LogsParams,
};
use mcproc::tools::ps::ps_response;
use mcproc::tools::restart::{prepare_restart, restart_response, RestartParams};
use mcproc::tools::start::{
    prepare_start, start_failure, start_log_progress, start_response, start_timeout_secs,
    start_wait_notes, StartParams,
};
use mcproc::tools::status::{
    format_elapsed, prepare_named, status_failure, status_response, status_uptime, status_uptime_at,
    LogPreview,
    NameParams,
};

fn get<'a>(j: &'a Json, key: &str) -> Option<&'a Json> {
    match j {
        Json::Object(ms) => ms.iter().find(|(k, _)| k == key).map(|(_, v)| v),
        _ => None,
    }
}

fn text(j: Option<&Json>) -> &str {
    match j {
        Some(Json::Str(s)) => s,
        other => panic!("expected string, got {other:?}"),
    }
}

fn number(j: Option<&Json>) -> &str {
    match j {
        Some(Json::Number(s)) => s,
        other => panic!("expected number, got {other:?}"),
    }
}

fn invalid(e: Error) -> String {
    match e {
        Error::InvalidParams(m) => m,
        other => panic!("expected invalid params, got {other:?}"),
    }
}

fn internal(e: Error) -> String {
    match e {
        Error::Internal(m) => m,
        other => panic!("expected internal, got {other:?}"),
    }
}

fn params(name: &str) -> StartParams {
    StartParams {
        name: name.to_string(),
        cmd: None,
        args: None,
        cwd: None,
        project: Some("proj".to_string()),
        env: None,
        wait_for_log: None,
        wait_timeout: None,
        force_restart: None,
        toolchain: None,
    }
}

fn process(status: i32) -> ProcessInfo {
    ProcessInfo {
        id: "id-1".to_string(),
        project: "proj".to_string(),
        name: "web".to_string(),
        pid: Some(42),
        status,
        cmd: "npm run dev".to_string(),
        cwd: "/src".to_string(),
        log_file: "/logs/web.log".to_string(),
        start_time: Some(Timestamp { seconds: 0, nanos: 0 }),
        ports: vec![3000, 3001],
        exit_code: None,
        exit_reason: None,
        stderr_tail: None,
        wait_timeout_occurred: None,
        log_context: vec![],
        matched_line: None,
    }
}

#[test]
fn parameters_must_be_present_and_well_formed() {
    let r: Result<u8, Error> = require_params(None);
    assert_eq!(invalid(r.unwrap_err()), "Missing parameters");
    let r: Result<u8, Error> = require_params(Some(Err("missing field `name`".to_string())));
    assert_eq!(invalid(r.unwrap_err()), "missing field `name`");
    let r: Result<u8, Error> = require_params(Some(Ok(7)));
    assert_eq!(r.unwrap(), 7);
}

#[test]
fn start_requires_exactly_one_command() {
    let p = params("web");
    assert_eq!(
        invalid(prepare_start(Some(Ok(p)), None, None).unwrap_err()),
        "Must specify either 'cmd' or 'args'"
    );
    let mut p = params("web");
    p.args = Some(vec![]);
    assert_eq!(
        invalid(prepare_start(Some(Ok(p)), None, None).unwrap_err()),
        "Must specify either 'cmd' or 'args'"
    );
    let mut p = params("web");
    p.cmd = Some("ls".to_string());
    p.args = Some(vec!["ls".to_string()]);
    assert_eq!(
        invalid(prepare_start(Some(Ok(p)), None, None).unwrap_err()),
        "Cannot specify both 'cmd' and 'args'"
    );
    let mut p = params("web");
    p.cmd = Some("ls".to_string());
    p.args = Some(vec![]);
    let req = prepare_start(Some(Ok(p)), None, None).unwrap();
    assert_eq!(req.cmd.as_deref(), Some("ls"));
    assert!(req.args.is_empty());
    assert_eq!(req.project, "proj");
}

#[test]
fn start_checks_name_then_command_then_project() {
    let mut p = params("bad/name");
    p.cmd = None;
    assert_eq!(
        invalid(prepare_start(Some(Ok(p)), None, None).unwrap_err()),
        "Invalid process name: Process name cannot contain path separators (/ or \\)"
    );
    let mut p = params("web");
    p.cmd = Some("ls".to_string());
    p.project = None;
    assert_eq!(
        invalid(prepare_start(Some(Ok(p)), None, Some("CON".to_string())).unwrap_err()),
        "Invalid project name from current directory 'CON': 'CON' is a reserved name on Windows"
    );
    let mut p = params("web");
    p.args = Some(vec!["npm".to_string(), "start".to_string()]);
    p.env = Some(vec![("A".to_string(), "1".to_string())]);
    p.wait_timeout = Some(9);
    let req = prepare_start(Some(Ok(p)), None, None).unwrap();
    assert_eq!(req.args, vec!["npm".to_string(), "start".to_string()]);
    assert_eq!(req.env, vec![("A".to_string(), "1".to_string())]);
    assert_eq!(req.wait_timeout, Some(9));
}

#[test]
fn start_timing_and_progress() {
    assert_eq!(start_timeout_secs(None), 35);
    assert_eq!(start_timeout_secs(Some(10)), 15);
    let (a, b) = start_wait_notes("web");
    assert_eq!(a, "Starting process 'web' and waiting for log pattern...");
    assert_eq!(b, "Starting process...");
    assert_eq!(start_log_progress(1), (10, "Received 1 log lines...".to_string()));
    assert_eq!(start_log_progress(9).0, 90);
    assert_eq!(start_log_progress(500).0, 90);
}

#[test]
fn start_failure_names_an_existing_process() {
    let exists = RpcStatus { code: 6, message: "exists".to_string(), display: "d".to_string() };
    assert_eq!(invalid(start_failure("web", &exists)), "Process 'web' is already running");
    let other = RpcStatus { code: 13, message: "boom".to_string(), display: "d".to_string() };
    assert_eq!(internal(start_failure("web", &other)), "boom");
}

#[test]
fn start_response_describes_the_process() {
    let mut p = process(2);
    p.matched_line = Some("\x1b[32mready\x1b[0m".to_string());
    p.log_context = vec!["\x1b[1mbooting\x1b[0m".to_string()];
    p.wait_timeout_occurred = Some(false);
    let r = start_response(&p, true);
    assert_eq!(text(get(&r, "id")), "id-1");
    assert_eq!(text(get(&r, "status")), "Running");
    assert_eq!(number(get(&r, "pid")), "42");
    assert_eq!(text(get(&r, "start_time")), "1970-01-01T00:00:00+00:00");
    assert_eq!(text(get(&r, "matched_line")), "ready");
    match get(&r, "log_context") {
        Some(Json::Array(v)) => assert!(matches!(&v[0], Json::Str(s) if s == "booting")),
        other => panic!("expected context, got {other:?}"),
    }
    assert!(matches!(get(&r, "pattern_matched"), Some(Json::Bool(true))));
    assert_eq!(text(get(&r, "message")), "Process started successfully. Pattern matched in logs.");
    assert!(get(&r, "exit_code").is_none());
}

#[test]
fn start_response_reports_failure_and_timeout() {
    let mut p = process(5);
    p.exit_code = Some(127);
    p.exit_reason = Some("Command not found".to_string());
    p.wait_timeout_occurred = Some(true);
    p.start_time = None;
    p.pid = None;
    let r = start_response(&p, true);
    assert_eq!(number(get(&r, "exit_code")), "127");
    assert_eq!(text(get(&r, "exit_reason")), "Command not found");
    assert!(get(&r, "stderr_tail").is_none());
    assert!(matches!(get(&r, "start_time"), Some(Json::Null)));
    assert!(matches!(get(&r, "pid"), Some(Json::Null)));
    assert!(matches!(get(&r, "wait_timeout_occurred"), Some(Json::Bool(true))));
    assert!(get(&r, "pattern_matched").is_none());
}

#[test]
fn status_tool_parts() {
    let r = prepare_named(
        Some(Ok(NameParams { name: "web".to_string(), project: None })),
        Some("envp".to_string()),
        None,
    )
    .unwrap();
    assert_eq!(r, ("web".to_string(), "envp".to_string()));
    assert_eq!(format_elapsed(3661), "1h 1m 1s");
    assert_eq!(format_elapsed(-61), "-1s");
    assert_eq!(format_elapsed(-60), "0s");
    assert!(status_uptime(&process(4)).is_none());
    let mut p = process(2);
    p.start_time = None;
    assert!(status_uptime(&p).is_none());
    assert!(status_uptime(&process(2)).is_some());
    assert_eq!(status_uptime_at(&process(2), 3661, 500), Some("1h 1m 1s".to_string()));
    assert_eq!(status_uptime_at(&process(4), 3661, 0), None);
    let mut late = process(2);
    late.start_time = Some(Timestamp { seconds: 100, nanos: 0 });
    assert_eq!(status_uptime_at(&late, 39, 0), Some("-1s".to_string()));

    let mut preview = LogPreview::new();
    assert!(preview.take(Some("a".to_string())));
    assert!(preview.take(None));
    assert_eq!(preview.lines, vec!["a".to_string()]);
    for _ in 0..97 {
        assert!(preview.take(None));
    }
    assert!(!preview.take(None));

    let r = status_response(&process(2), Some("5s".to_string()), vec!["l1".to_string()]);
    assert_eq!(text(get(&r, "command")), "npm run dev");
    assert_eq!(text(get(&r, "working_directory")), "/src");
    assert_eq!(text(get(&r, "uptime")), "5s");
    match get(&r, "ports") {
        Some(Json::Array(v)) => assert_eq!(v.len(), 2),
        other => panic!("expected ports, got {other:?}"),
    }
}

#[test]
fn status_not_found_lists_the_project() {
    let nf = RpcStatus { code: 5, message: "nf".to_string(), display: "d".to_string() };
    assert_eq!(
        invalid(status_failure("web", "proj", &nf, &vec![])),
        "Process 'web' not found in project 'proj'. No processes are currently running in this project."
    );
    assert_eq!(
        invalid(status_failure(
            "web",
            "proj",
            &nf,
            &vec![("api".to_string(), 2), ("db".to_string(), 4)]
        )),
        "Process 'web' not found in project 'proj'. Available processes in this project: api (Running), db (Stopped)"
    );
    let other = RpcStatus { code: 14, message: "down".to_string(), display: "d".to_string() };
    assert_eq!(internal(status_failure("web", "proj", &other, &vec![])), "down");
}

#[test]
fn restart_report_fields() {
    let mut p = process(5);
    p.exit_code = Some(1);
    p.stderr_tail = Some("oops".to_string());
    p.log_context = vec!["\x1b[31mx\x1b[0m".to_string()];
    p.wait_timeout_occurred = Some(true);
    let r = restart_response(&p);
    assert_eq!(text(get(&r, "name")), "web");
    assert_eq!(text(get(&r, "status")), "Failed");
    assert_eq!(number(get(&r, "pid")), "42");
    assert_eq!(text(get(&r, "start_time")), "1970-01-01T00:00:00+00:00");
    assert_eq!(number(get(&r, "exit_code")), "1");
    assert_eq!(text(get(&r, "stderr_tail")), "oops");
    assert!(matches!(get(&r, "log_context"), Some(Json::Array(v)) if v.len() == 1 && text(Some(&v[0])) == "x"));
    assert!(matches!(get(&r, "wait_timeout_occurred"), Some(Json::Bool(true))));
    assert_eq!(
        text(get(&r, "message")),
        "Process restarted but wait_for_log pattern was not found within timeout"
    );
    let mut q = process(2);
    q.wait_timeout_occurred = Some(false);
    let r = restart_response(&q);
    assert!(matches!(get(&r, "pattern_matched"), Some(Json::Bool(true))));
    assert!(get(&r, "exit_code").is_none());
    let req = prepare_restart(
        Some(Ok(RestartParams {
            name: "web".to_string(),
            project: Some("p".to_string()),
            wait_for_log: None,
            wait_timeout: Some(3),
        })),
        None,
        None,
    )
    .unwrap();
    assert_eq!(req.project, "p");
    assert_eq!(req.wait_timeout, Some(3));
}

fn processes(r: &Json) -> &Vec<Json> {
    match get(r, "processes") {
        Some(Json::Array(v)) => v,
        other => panic!("expected processes, got {other:?}"),
    }
}

#[test]
fn ps_listing_fields() {
    assert!(processes(&ps_response(&vec![])).is_empty());
    let mut a = process(2);
    a.start_time = None;
    a.ports = vec![];
    let mut b = process(4);
    b.name = "api".to_string();
    b.pid = None;
    b.start_time = None;
    let r = ps_response(&vec![a, b]);
    let ps = processes(&r);
    assert_eq!(ps.len(), 2);
    assert_eq!(text(get(&ps[0], "name")), "web");
    assert_eq!(text(get(&ps[0], "project")), "proj");
    assert_eq!(text(get(&ps[0], "status")), "Running");
    assert_eq!(text(get(&ps[0], "cmd")), "npm run dev");
    assert_eq!(text(get(&ps[1], "name")), "api");
    assert!(matches!(get(&ps[1], "pid"), Some(Json::Null)));
    assert!(matches!(get(&ps[1], "ports"), Some(Json::Array(v)) if v.len() == 2));
}

fn entry(level: i32, ts: Option<Timestamp>) -> LogEntry {
    LogEntry {
        line_number: 7,
        content: "hello".to_string(),
        timestamp: ts,
        level,
        process_name: None,
    }
}

#[test]
fn log_tool_lines_and_errors() {
    assert_eq!(format_log_line(&entry(2, None)), "E hello");
    assert_eq!(format_log_line(&entry(1, None)), "I hello");
    assert_eq!(
        format_log_line(&entry(1, Some(Timestamp { seconds: 86400, nanos: 0 }))),
        "1970-01-02 00:00:00 I hello"
    );
    let mut red = entry(1, None);
    red.content = "\x1b[31mneedle-red\x1b[0m".to_string();
    assert_eq!(format_log_line(&red), "I needle-red");
    let r = logs_response(vec!["a".to_string()]);
    assert!(matches!(get(&r, "logs"), Some(Json::Array(v)) if v.len() == 1));
    let s = RpcStatus { code: 2, message: "m".to_string(), display: "status: x".to_string() };
    assert_eq!(internal(logs_receive_failure(&s)), "Error receiving logs: status: x");
    let req = prepare_logs(
        Some(Ok(LogsParams { name: "web".to_string(), tail: Some(5), project: None })),
        None,
        Some("cwdp".to_string()),
    )
    .unwrap();
    assert_eq!(req.project, "cwdp");
    assert_eq!(req.follow, Some(false));
}

#[test]
fn stop_tool_parts() {
    let r = stop_request("web".to_string(), "p".to_string());
    assert!(r.force.is_none());
    let j = stop_response(false, None);
    assert!(matches!(get(&j, "success"), Some(Json::Bool(false))));
    assert!(matches!(get(&j, "message"), Some(Json::Null)));
}

#[test]
fn grep_tool_parts() {
    let p = GrepParams {
        pattern: "err".to_string(),
        name: "web".to_string(),
        project: None,
        context: Some(2),
        before: None,
        after: None,
        since: None,
        until: None,
        last: None,
    };
    let q = prepare_grep(Some(Ok(p)), None, None).unwrap();
    assert_eq!(q.project, "default");
    assert_eq!(q.context, Some(2));
    let m = GrepMatch {
        matched_line: Some(entry(2, None)),
        context_before: vec![entry(1, None)],
        context_after: vec![],
    };
    let r = grep_response("err", "web", &vec![m]);
    assert_eq!(text(get(&r, "pattern")), "err");
    assert_eq!(number(get(&r, "total_matches")), "1");
    let matches = match get(&r, "matches") {
        Some(Json::Array(v)) => v,
        other => panic!("expected matches, got {other:?}"),
    };
    let hit = get(&matches[0], "matched_line");
    assert_eq!(text(get(hit.unwrap(), "level")), "error");
    assert!(get(&matches[0], "context_after").is_none());
    assert!(matches!(get(&matches[0], "context_before"), Some(Json::Array(v)) if v.len() == 1));
    let mut red = entry(1, None);
    red.content = "\x1b[31mneedle-red\x1b[0m".to_string();
    let hit = GrepMatch { matched_line: Some(red), context_before: vec![], context_after: vec![] };
    let r = grep_response("needle-red", "web", &vec![hit]);
    let matches = match get(&r, "matches") {
        Some(Json::Array(v)) => v,
        other => panic!("expected matches, got {other:?}"),
    };
    assert_eq!(text(get(get(&matches[0], "matched_line").unwrap(), "content")), "needle-red");
    let nf = RpcStatus { code: 5, message: "nf".to_string(), display: "d".to_string() };
    assert_eq!(invalid(grep_failure("web", &nf)), "Log file for process \"web\" not found");
}
