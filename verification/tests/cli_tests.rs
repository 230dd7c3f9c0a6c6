use mcproc::clean::{CleanCommand, CleanResponse, ProjectCleanResult};
use mcproc::clock::Timestamp;
use mcproc::commands::{
    McpCommand, McpSubcommand, MpcCommand, PsCommand, RestartCommand, StartCommand, StopCommand,
    VersionCommand,
};
use mcproc::grep_cli::{format_line_number, hit_lines, GrepCommand};
use mcproc::rpc::{GrepMatch, LogEntry, ProcessInfo, RpcStatus};
use mcproc::style::{Color, Span};

fn texts(line: &[Span]) -> String {
    line.iter().map(|s| s.text.as_str()).collect()
}

fn all(lines: &[Vec<Span>]) -> Vec<String> {
    lines.iter().map(|l| texts(l)).collect()
}

fn process(status: i32) -> ProcessInfo {
    ProcessInfo {
        id: "id-9".to_string(),
        project: "proj".to_string(),
        name: "web".to_string(),
        pid: None,
        status,
        cmd: "a very long command line that goes on and on and on".to_string(),
        cwd: "/".to_string(),
        log_file: "/l".to_string(),
        start_time: Some(Timestamp { seconds: 0, nanos: 0 }),
        ports: vec![],
        exit_code: None,
        exit_reason: None,
        stderr_tail: None,
        wait_timeout_occurred: None,
        log_context: vec![],
        matched_line: None,
    }
}

#[test]
fn clean_reports_every_project_with_totals() {
    let cmd = CleanCommand { all_projects: true, project: None, verbose: true };
    let req = cmd.request(None).unwrap();
    assert!(req.all_projects && req.project.is_none());
    let resp = CleanResponse {
        processes_stopped: 0,
        logs_deleted: 0,
        stopped_process_names: vec![],
        deleted_log_files: vec![],
        project_results: vec![
            ProjectCleanResult {
                project: "a".to_string(),
                processes_stopped: 2,
                logs_deleted: 1,
                stopped_process_names: vec!["web".to_string()],
                deleted_log_files: vec![],
            },
            ProjectCleanResult {
                project: "b".to_string(),
                processes_stopped: 0,
                logs_deleted: 3,
                stopped_process_names: vec![],
                deleted_log_files: vec!["x.log".to_string()],
            },
        ],
    };
    let lines = cmd.report("", &resp);
    assert_eq!(
        all(&lines),
        vec![
            "Cleaning all projects:",
            "  • a: 2 processes stopped, 1 logs deleted",
            "      Stopped processes:",
            "        - web",
            "  • b: 0 processes stopped, 3 logs deleted",
            "      Deleted logs:",
            "        - x.log",
            "",
            "Summary:",
            "  Total: 2 processes stopped, 4 logs deleted",
        ]
    );
    assert_eq!(lines[1][1].style.color, Color::Cyan);
    assert!(lines[8][0].style.bold);
}

#[test]
fn clean_reports_one_project() {
    let cmd = CleanCommand { all_projects: false, project: None, verbose: false };
    assert_eq!(
        cmd.request(None).unwrap_err(),
        "Unable to determine project name from current directory"
    );
    let req = cmd.request(Some("here".to_string())).unwrap();
    assert_eq!(req.project.as_deref(), Some("here"));
    let empty = CleanResponse {
        processes_stopped: 0,
        logs_deleted: 0,
        stopped_process_names: vec!["ignored".to_string()],
        deleted_log_files: vec![],
        project_results: vec![],
    };
    assert_eq!(all(&cmd.report("here", &empty)), vec!["No processes or logs found for project: here"]);
    let some = CleanResponse { processes_stopped: 1, ..empty };
    assert_eq!(
        all(&cmd.report("here", &some)),
        vec!["Cleaned project here: 1 processes stopped, 0 logs deleted"]
    );
    let all_empty = CleanCommand { all_projects: true, project: None, verbose: false };
    let none = CleanResponse {
        processes_stopped: 0,
        logs_deleted: 0,
        stopped_process_names: vec![],
        deleted_log_files: vec![],
        project_results: vec![],
    };
    assert_eq!(all(&all_empty.report("", &none)), vec!["No projects to clean"]);
}

#[test]
fn restart_command_reports() {
    let cmd = RestartCommand { name: "web".to_string(), project: Some("p".to_string()) };
    assert_eq!(cmd.announcement(), "Restarting process 'web'...");
    assert_eq!(cmd.timeout_secs(), 35);
    let req = cmd.request(None).unwrap();
    assert_eq!(req.project, "p");
    let (lines, outcome) = cmd.report(None);
    assert_eq!(all(&lines), vec!["✗ Failed to restart process"]);
    assert_eq!(
        outcome.unwrap_err(),
        "No process info received - process may have failed to restart"
    );
    let mut failed = process(5);
    failed.exit_code = Some(2);
    failed.exit_reason = Some("Misuse of shell builtin".to_string());
    failed.stderr_tail = Some("line one\nline two\n".to_string());
    let (lines, outcome) = cmd.report(Some(&failed));
    assert_eq!(
        all(&lines),
        vec![
            "✗ Process 'web' failed to restart",
            "  Exit code: 2",
            "  Reason: Misuse of shell builtin",
            "  Recent logs:",
            "    line one",
            "    line two",
        ]
    );
    assert_eq!(outcome.unwrap_err(), "Process failed with exit code: 2");
    let mut unknown_exit = process(5);
    unknown_exit.exit_code = None;
    assert_eq!(
        cmd.report(Some(&unknown_exit)).1.unwrap_err(),
        "Process failed with exit code: -1"
    );
    let (lines, outcome) = cmd.report(Some(&process(2)));
    assert!(outcome.is_ok());
    assert_eq!(
        all(&lines),
        vec!["✓ Process restarted successfully", "  Name: web", "  ID: id-9", "  PID: N/A"]
    );
    let st = RpcStatus { code: 14, message: "m".to_string(), display: "status: down".to_string() };
    let (line, err) = cmd.failure(&st);
    assert_eq!(texts(&line), "✗ Failed to restart process: status: down");
    assert_eq!(err, "status: down");
}

#[test]
fn start_command_parts() {
    let cmd = StartCommand {
        name: "web".to_string(),
        cmd: None,
        args: Some(vec!["npm".to_string(), "start".to_string()]),
        cwd: None,
        project: None,
        env: vec!["A=1".to_string(), "NOEQ".to_string(), "B=x=y".to_string()],
        wait_for_log: Some("ready".to_string()),
        wait_timeout: 30,
    };
    assert_eq!(
        cmd.env_pairs(),
        vec![("A".to_string(), "1".to_string()), ("B".to_string(), "x=y".to_string())]
    );
    let req = cmd.request(Some("dir".to_string())).unwrap();
    assert_eq!(req.project, "dir");
    assert_eq!(req.args, vec!["npm".to_string(), "start".to_string()]);
    assert_eq!(req.wait_for_log, Some("ready".to_string()));
    assert_eq!(req.cwd, None);
    assert_eq!(req.wait_timeout, Some(30));
    let repeated = StartCommand {
        name: "w".to_string(),
        cmd: Some("run".to_string()),
        args: None,
        cwd: Some("/src".to_string()),
        project: Some("p".to_string()),
        env: vec!["A=1".to_string(), "B=2".to_string(), "A=3".to_string()],
        wait_for_log: None,
        wait_timeout: 5,
    };
    assert_eq!(
        repeated.env_pairs(),
        vec![("A".to_string(), "3".to_string()), ("B".to_string(), "2".to_string())]
    );
    let rq = repeated.request(None).unwrap();
    assert!(rq.args.is_empty());
    assert_eq!(rq.cwd, Some("/src".to_string()));
    assert_eq!(rq.cmd, Some("run".to_string()));
    assert_eq!(cmd.timeout_secs(), 35);
    assert_eq!(texts(&cmd.log_line("booting").unwrap()), "  booting");
    let lines = cmd.success_lines("dir", &process(2));
    assert_eq!(
        all(&lines),
        vec![
            "✓ Process started successfully",
            "  Project: dir",
            "  Name: web",
            "  ID: id-9",
            "  PID: N/A",
            "  Status: Running",
            "  Log file: /l",
            "  ✓ Process is ready (log pattern matched)",
        ]
    );
    assert_eq!(lines[5][1].style.color, Color::Green);
    let exists = RpcStatus { code: 6, message: "m".to_string(), display: "disp".to_string() };
    let (lines, err) = cmd.failure(&exists);
    assert_eq!(
        all(&lines),
        vec![
            "! Process 'web' is already running",
            "  Use 'mcproc ps' to see the running process",
            "  Use 'mcproc restart web' to restart it",
        ]
    );
    assert_eq!(err, "disp");
    let no_cmd = StartCommand { args: None, ..cmd };
    assert_eq!(no_cmd.request(None).unwrap_err(), "Must provide either --cmd or --args");
    assert!(no_cmd.log_line("x").is_some());
}

#[test]
fn stop_ps_version_and_mcp_commands() {
    let stop = StopCommand { name: "web".to_string(), project: Some("p".to_string()), force: true };
    let req = stop.request(None).unwrap();
    assert_eq!(req.force, Some(true));
    assert_eq!(texts(&stop.outcome(true, None)), "✓ Process 'web' stopped successfully");
    assert_eq!(texts(&stop.outcome(false, None)), "✗ Failed to stop process 'web': Unknown error");
    assert_eq!(
        texts(&stop.outcome(false, Some("busy".to_string()))),
        "✗ Failed to stop process 'web': busy"
    );

    let ps = PsCommand { status: Some("RUNNING".to_string()) };
    assert_eq!(ps.status_filter(), Ok(Some(2)));
    let bad = PsCommand { status: Some("sleepy".to_string()) };
    assert_eq!(bad.status_filter(), Err("Invalid process status: sleepy".to_string()));
    assert_eq!(PsCommand { status: None }.status_filter(), Ok(None));
    assert_eq!(PsCommand::empty_note(), "No processes running");
    let rows = PsCommand::rows(&vec![process(4)]);
    assert_eq!(rows[0].pid, "-");
    assert_eq!(rows[0].status, "Stopped");
    assert_eq!(rows[0].ports, "-");
    assert_eq!(rows[0].cmd, "a very long command line that goes on...");
    let table = PsCommand::table(&vec![process(4)]);
    let lines: Vec<&str> = table.lines().collect();
    assert_eq!(lines.len(), 5);
    assert!(lines[1].contains("PROJECT") && lines[1].contains("COMMAND"));
    assert!(lines[3].contains("Stopped") && lines[3].contains("a very long command line that goes on..."));

    assert_eq!(VersionCommand {}.line("0.1.0"), "mcproc 0.1.0");
    let serve = McpCommand { command: McpSubcommand::Serve { project: Some("ok".to_string()) } };
    assert_eq!(serve.default_project(), Ok(Some("ok".to_string())));
    let bad = McpCommand { command: McpSubcommand::Serve { project: Some("a:b".to_string()) } };
    assert_eq!(bad.default_project(), Err("Project name cannot contain ':'".to_string()));
    assert_eq!(MpcCommand::new().name, "mcproc");
}

#[test]
fn grep_command_lines() {
    let cmd = GrepCommand {
        name: "web".to_string(),
        pattern: "err".to_string(),
        project: None,
        context: 3,
        before: None,
        after: Some(1),
        since: None,
        until: None,
        last: None,
    };
    let req = cmd.request(Some("dir".to_string())).unwrap();
    assert_eq!(req.project, "dir");
    assert_eq!(req.context, Some(3));
    assert_eq!(req.after, Some(1));
    assert_eq!(texts(&cmd.summary(0)), "! No matches found for pattern: err");
    assert_eq!(texts(&cmd.summary(2)), "✓ Found 2 matches for pattern: err");
    assert_eq!(texts(&GrepCommand::separator()), "--");
    assert_eq!(format_line_number(42), "    42");
    assert_eq!(format_line_number(1234567), "1234567");
    let entry = |n: u32, level: i32| LogEntry {
        line_number: n,
        content: format!("line {n}"),
        timestamp: None,
        level,
        process_name: None,
    };
    let hit = GrepMatch {
        matched_line: Some(entry(5, 2)),
        context_before: vec![entry(4, 1)],
        context_after: vec![entry(6, 1)],
    };
    let lines = hit_lines(&hit);
    assert_eq!(
        all(&lines),
        vec!["     4  I line 4", "     5  E line 5", "     6  I line 6"]
    );
    assert!(lines[1][6].style.highlighted);
    assert_eq!(lines[1][0].style.color, Color::BrightYellow);
    let st = RpcStatus { code: 13, message: "bad".to_string(), display: "status: bad".to_string() };
    let (l, e) = GrepCommand::failure(&st);
    assert_eq!(texts(&l), "✗ Failed to grep logs: bad");
    assert_eq!(e, "status: bad");
}
