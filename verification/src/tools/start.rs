//! Starting a process.

use vstd::prelude::*;
use vstd::string::*;
use crate::ansi::{strip_ansi_escapes_str, without_escapes};
use crate::mcp::error::Error;
use crate::mcp::json::{ArrayBuilder, Json, JsonV, ObjectBuilder};
use crate::project::{mcp_project_outcome, resolve_mcp_project_name};
use crate::rpc::{
    opt_number, opt_number_json, opt_string, opt_string_json, params_outcome, ports_json,
    ports_to_json, require_params, stamp_reads, stamp_text, status_string, status_text,
    texts_json, ProcessInfo, RpcStatus, CODE_ALREADY_EXISTS, STATUS_FAILED, STATUS_RUNNING,
};
use crate::text::{decimal, push_decimal};
use crate::validation::{process_name_error, validate_process_name};

verus! {

/// The parameters of the start tool.
#[derive(Debug)]
pub struct StartParams {
    pub name: String,
    pub cmd: Option<String>,
    pub args: Option<Vec<String>>,
    pub cwd: Option<String>,
    pub project: Option<String>,
    pub env: Option<Vec<(String, String)>>,
    pub wait_for_log: Option<String>,
    pub wait_timeout: Option<u32>,
    pub force_restart: Option<bool>,
    pub toolchain: Option<String>,
}

/// What the start tool asks the daemon.
#[derive(Debug)]
pub struct StartRequest {
    pub name: String,
    pub cmd: Option<String>,
    pub args: Vec<String>,
    pub cwd: Option<String>,
    pub project: String,
    pub env: Vec<(String, String)>,
    pub wait_for_log: Option<String>,
    pub wait_timeout: Option<u32>,
    pub force_restart: Option<bool>,
    pub toolchain: Option<String>,
}

/// What is wrong with the command of the parameters: both a command line
/// and a non-empty argument list, or neither (an empty list counts as
/// none).
pub open spec fn command_error(cmd: Option<String>, args: Option<Vec<String>>) -> Option<Seq<char>> {
    match (cmd, args) {
        (Some(_), Some(a)) => if a@.len() > 0 {
            Some("Cannot specify both 'cmd' and 'args'"@)
        } else {
            None
        },
        (None, None) => Some("Must specify either 'cmd' or 'args'"@),
        (None, Some(a)) => if a@.len() == 0 {
            Some("Must specify either 'cmd' or 'args'"@)
        } else {
            None
        },
        (Some(_), None) => None,
    }
}

/// Why the start parameters are refused, checked in order: missing or
/// malformed parameters, an invalid process name, a wrong command, an
/// unusable project; none when they are accepted.
pub open spec fn start_refusal(
    params: Option<Result<StartParams, String>>,
    env_project: Option<String>,
    cwd_project: Option<String>,
) -> Option<Seq<char>> {
    match params_outcome(params) {
        Err(m) => Some(m),
        Ok(p) => match process_name_error(p.name@) {
            Some(e) => Some("Invalid process name: "@ + e),
            None => match command_error(p.cmd, p.args) {
                Some(e) => Some(e),
                None => match mcp_project_outcome(p.project, env_project, cwd_project) {
                    Err(e) => Some(e),
                    Ok(_) => None,
                },
            },
        },
    }
}

/// The request is the accepted parameters, with the chosen project, and an
/// absent argument list or environment taken as empty.
pub open spec fn request_from(p: StartParams, project: Seq<char>, req: StartRequest) -> bool {
    &&& req.name == p.name
    &&& req.cmd == p.cmd
    &&& req.args@ == (match p.args {
        Some(a) => a@,
        None => Seq::empty(),
    })
    &&& req.cwd == p.cwd
    &&& req.project@ == project
    &&& req.env@ == (match p.env {
        Some(e) => e@,
        None => Seq::empty(),
    })
    &&& req.wait_for_log == p.wait_for_log
    &&& req.wait_timeout == p.wait_timeout
    &&& req.force_restart == p.force_restart
    &&& req.toolchain == p.toolchain
}

/// Checks the start tool's parameters (see [`start_refusal`]) and builds
/// its request; a refusal is an invalid-parameters error.
pub fn prepare_start(
    params: Option<Result<StartParams, String>>,
    env_project: Option<String>,
    cwd_project: Option<String>,
) -> (r: Result<StartRequest, Error>)
    ensures
        match start_refusal(params, env_project, cwd_project) {
            Some(m) => r matches Err(Error::InvalidParams(e)) && e@ == m,
            None => match params {
                Some(Ok(p)) => match mcp_project_outcome(p.project, env_project, cwd_project) {
                    Ok(project) => r is Ok && request_from(p, project, r->Ok_0),
                    Err(_) => false,
                },
                _ => false,
            },
        },
{
    let p = match require_params(params) {
        Ok(p) => p,
        Err(e) => {
            return Err(e);
        },
    };
    match validate_process_name(p.name.as_str()) {
        Ok(()) => {},
        Err(e) => {
            let mut m = String::from_str("Invalid process name: ");
            m.append(e.as_str());
            return Err(Error::InvalidParams(m));
        },
    }
    let has_args = match &p.args {
        Some(a) => a.len() > 0,
        None => false,
    };
    if p.cmd.is_some() && has_args {
        return Err(Error::InvalidParams(String::from_str("Cannot specify both 'cmd' and 'args'")));
    }
    if p.cmd.is_none() && !has_args {
        return Err(Error::InvalidParams(String::from_str("Must specify either 'cmd' or 'args'")));
    }
    let project = match resolve_mcp_project_name(p.project, env_project, cwd_project) {
        Ok(project) => project,
        Err(e) => {
            return Err(e);
        },
    };
    let args = match p.args {
        Some(a) => a,
        None => Vec::new(),
    };
    let env = match p.env {
        Some(e) => e,
        None => Vec::new(),
    };
    Ok(
        StartRequest {
            name: p.name,
            cmd: p.cmd,
            args,
            cwd: p.cwd,
            project,
            env,
            wait_for_log: p.wait_for_log,
            wait_timeout: p.wait_timeout,
            force_restart: p.force_restart,
            toolchain: p.toolchain,
        },
    )
}

/// How long the start request may take, in seconds: the log wait (30
/// seconds when none is given) and five more.
pub fn start_timeout_secs(wait_timeout: Option<u32>) -> (r: u64)
    requires
        match wait_timeout {
            Some(w) => w <= u32::MAX - 5,
            None => true,
        },
    ensures
        r == (match wait_timeout {
            Some(w) => w as int,
            None => 30,
        }) + 5,
{
    let w: u32 = match wait_timeout {
        Some(w) => w,
        None => 30,
    };
    (w + 5) as u64
}

/// The notes sent before waiting for a log pattern: the log message and the
/// progress message.
pub fn start_wait_notes(name: &str) -> (r: (String, String))
    ensures
        r.0@ == "Starting process '"@ + name@ + "' and waiting for log pattern..."@,
        r.1@ == "Starting process..."@,
{
    let mut m = String::from_str("Starting process '");
    m.append(name);
    m.append("' and waiting for log pattern...");
    (m, String::from_str("Starting process..."))
}

/// The progress reported after `log_count` log lines: ten per line, at most
/// ninety, with the message `Received <n> log lines...`.
pub fn start_log_progress(log_count: u64) -> (r: (u64, String))
    ensures
        r.0 == (if log_count * 10 < 90 {
            log_count * 10
        } else {
            90
        }),
        r.1@ == "Received "@ + decimal(log_count as nat) + " log lines..."@,
{
    let p: u64 = if log_count >= 9 {
        90
    } else {
        log_count * 10
    };
    let mut m = String::from_str("Received ");
    push_decimal(&mut m, log_count);
    m.append(" log lines...");
    (p, m)
}

/// The progress message sent when the process is reported.
pub fn start_done_note() -> (r: String)
    ensures
        r@ == "Process started successfully"@,
{
    String::from_str("Process started successfully")
}

/// The error for a failed start request: a process of that name already
/// runs, or the failure's message.
pub fn start_failure(name: &str, status: &RpcStatus) -> (r: Error)
    ensures
        status.code == CODE_ALREADY_EXISTS ==> (r matches Error::InvalidParams(m) && m@
            == "Process '"@ + name@ + "' is already running"@),
        status.code != CODE_ALREADY_EXISTS ==> (r matches Error::Internal(m) && m@
            == status.message@),
{
    if status.code == CODE_ALREADY_EXISTS {
        let mut m = String::from_str("Process '");
        m.append(name);
        m.append("' is already running");
        Error::InvalidParams(m)
    } else {
        Error::Internal(status.message.clone())
    }
}

/// The members describing a process that every start answer has.
pub open spec fn start_base(p: ProcessInfo, start: Option<Seq<char>>) -> Seq<(Seq<char>, JsonV)> {
    seq![
        ("id"@, JsonV::Str(p.id@)),
        ("project"@, JsonV::Str(p.project@)),
        ("name"@, JsonV::Str(p.name@)),
        ("pid"@, opt_number(p.pid)),
        ("status"@, JsonV::Str(status_text(p.status))),
        ("log_file"@, JsonV::Str(p.log_file@)),
        ("start_time"@, opt_string(start)),
        ("ports"@, ports_json(p.ports@)),
    ]
}

/// The exit members of a failed process: its code, reason and last error
/// lines, those it has.
pub open spec fn failure_members(p: ProcessInfo) -> Seq<(Seq<char>, JsonV)> {
    if p.status == STATUS_FAILED {
        (match p.exit_code {
            Some(c) => seq![("exit_code"@, JsonV::Number(crate::text::signed_decimal(c as int)))],
            None => Seq::empty(),
        }) + (match p.exit_reason {
            Some(s) => seq![("exit_reason"@, JsonV::Str(s@))],
            None => Seq::empty(),
        }) + (match p.stderr_tail {
            Some(s) => seq![("stderr_tail"@, JsonV::Str(s@))],
            None => Seq::empty(),
        })
    } else {
        Seq::empty()
    }
}

/// The lines of the process's log context, without escape sequences.
pub open spec fn clean_lines(lines: Seq<String>) -> Seq<Seq<char>> {
    lines.map_values(|l: String| without_escapes(l@))
}

/// Whether the log pattern was seen: it was waited for, the process runs,
/// the wait did not time out and a line matched.
pub open spec fn pattern_seen(p: ProcessInfo, wait_for_log: bool) -> bool {
    wait_for_log && p.status == STATUS_RUNNING && !(p.wait_timeout_occurred == Some(true))
        && p.matched_line is Some
}

/// The note members of a timed-out log wait.
pub open spec fn timeout_members(p: ProcessInfo) -> Seq<(Seq<char>, JsonV)> {
    if p.wait_timeout_occurred == Some(true) {
        seq![
            ("wait_timeout_occurred"@, JsonV::Bool(true)),
            (
                "message"@,
                JsonV::Str("Process started but wait_for_log pattern was not found within timeout"@),
            ),
        ]
    } else {
        Seq::empty()
    }
}

/// The log context member, when there is context.
pub open spec fn context_members(p: ProcessInfo) -> Seq<(Seq<char>, JsonV)> {
    if p.log_context@.len() > 0 {
        seq![("log_context"@, texts_json(clean_lines(p.log_context@)))]
    } else {
        Seq::empty()
    }
}

/// The matched line member, when a line matched.
pub open spec fn matched_members(p: ProcessInfo) -> Seq<(Seq<char>, JsonV)> {
    match p.matched_line {
        Some(l) => seq![("matched_line"@, JsonV::Str(without_escapes(l@)))],
        None => Seq::empty(),
    }
}

/// The note members of a seen log pattern.
pub open spec fn pattern_members(p: ProcessInfo, wait_for_log: bool) -> Seq<(Seq<char>, JsonV)> {
    if pattern_seen(p, wait_for_log) {
        seq![
            ("pattern_matched"@, JsonV::Bool(true)),
            ("message"@, JsonV::Str("Process started successfully. Pattern matched in logs."@)),
        ]
    } else {
        Seq::empty()
    }
}

/// The answer of the start tool for the reported process: the process's
/// description, its exit details when it failed, a note when the log wait
/// timed out, its log context and matched line (without escape sequences),
/// and a note when the log pattern was seen.
pub open spec fn start_json(p: ProcessInfo, wait_for_log: bool, start: Option<Seq<char>>) -> JsonV {
    JsonV::Object(
        start_base(p, start) + failure_members(p) + timeout_members(p) + context_members(p)
            + matched_members(p) + pattern_members(p, wait_for_log),
    )
}

/// Appends the members of [`start_base`] for `p`, with `start` as its start
/// time.
pub(crate) fn put_base(b: &mut ObjectBuilder, p: &ProcessInfo, start: Option<String>)
    ensures
        final(b).value() == old(b).value() + start_base(*p, crate::mcp::protocol::opt_text(start)),
{
    let ghost before = b.value();
    let ghost start_v = crate::mcp::protocol::opt_text(start);
    b.put("id", Json::Str(p.id.clone()));
    b.put("project", Json::Str(p.project.clone()));
    b.put("name", Json::Str(p.name.clone()));
    b.put("pid", opt_number_json(p.pid));
    b.put("status", Json::Str(status_string(p.status)));
    b.put("log_file", Json::Str(p.log_file.clone()));
    b.put("start_time", opt_string_json(start));
    b.put("ports", ports_to_json(&p.ports));
    assert(b.value() =~= before + start_base(*p, start_v));
}

/// Appends the members of [`failure_members`] for `p`.
pub(crate) fn put_failure(b: &mut ObjectBuilder, p: &ProcessInfo)
    ensures
        final(b).value() == old(b).value() + failure_members(*p),
{
    let ghost before = b.value();
    if p.status == STATUS_FAILED {
        match p.exit_code {
            Some(c) => b.put("exit_code", Json::signed(c as i64)),
            None => {},
        }
        match &p.exit_reason {
            Some(s) => b.put("exit_reason", Json::Str(s.clone())),
            None => {},
        }
        match &p.stderr_tail {
            Some(s) => b.put("stderr_tail", Json::Str(s.clone())),
            None => {},
        }
    }
    assert(b.value() =~= before + failure_members(*p));
}

fn put_notes(b: &mut ObjectBuilder, p: &ProcessInfo, wait_for_log: bool)
    ensures
        final(b).value() == old(b).value() + timeout_members(*p) + context_members(*p)
            + matched_members(*p) + pattern_members(*p, wait_for_log),
{
    let ghost before = b.value();
    let timed_out = match p.wait_timeout_occurred {
        Some(t) => t,
        None => false,
    };
    if timed_out {
        b.put("wait_timeout_occurred", Json::Bool(true));
        b.put(
            "message",
            Json::text("Process started but wait_for_log pattern was not found within timeout"),
        );
    }
    assert(b.value() =~= before + timeout_members(*p));
    put_context_and_match(b, p);
    let ghost t3 = b.value();
    if wait_for_log && p.status == STATUS_RUNNING && !timed_out && p.matched_line.is_some() {
        b.put("pattern_matched", Json::Bool(true));
        b.put("message", Json::text("Process started successfully. Pattern matched in logs."));
    }
    assert(b.value() =~= t3 + pattern_members(*p, wait_for_log));
}

/// Appends the members of [`context_members`] and [`matched_members`] for
/// `p`.
pub(crate) fn put_context_and_match(b: &mut ObjectBuilder, p: &ProcessInfo)
    ensures
        final(b).value() == old(b).value() + context_members(*p) + matched_members(*p),
{
    let ghost t1 = b.value();
    if p.log_context.len() > 0 {
        b.put("log_context", clean_lines_json(&p.log_context));
    }
    assert(b.value() =~= t1 + context_members(*p));
    let ghost t2 = b.value();
    match &p.matched_line {
        Some(l) => b.put("matched_line", Json::Str(strip_ansi_escapes_str(l.as_str()))),
        None => {},
    }
    assert(b.value() =~= t2 + matched_members(*p));
}

/// The lines without escape sequences, as a JSON array.
fn clean_lines_json(lines: &Vec<String>) -> (r: Json)
    ensures
        r@ == texts_json(clean_lines(lines@)),
{
    let mut b = ArrayBuilder::new();
    let mut i: usize = 0;
    while i < lines.len()
        invariant
            i <= lines.len(),
            b.value() =~= clean_lines(lines@.take(i as int)).map_values(|t: Seq<char>| JsonV::Str(t)),
        decreases lines.len() - i,
    {
        let c = strip_ansi_escapes_str(lines[i].as_str());
        b.push(Json::Str(c));
        assert(lines@.take(i + 1) =~= lines@.take(i as int).push(lines@[i as int]));
        assert(clean_lines(lines@.take(i + 1)) =~= clean_lines(lines@.take(i as int)).push(
            without_escapes(lines@[i as int]@),
        ));
        i = i + 1;
    }
    assert(lines@.take(lines.len() as int) =~= lines@);
    b.build()
}

/// The answer of the start tool for the reported process (see
/// [`start_json`]), its start time in RFC 3339.
pub fn start_response(p: &ProcessInfo, wait_for_log: bool) -> (r: Json)
    ensures
        exists|start: Option<Seq<char>>|
            stamp_reads(p.start_time, start) && r@ == start_json(*p, wait_for_log, start),
{
    let start = stamp_text(&p.start_time);
    let ghost start_v = crate::mcp::protocol::opt_text(start);
    let mut b = ObjectBuilder::new();
    put_base(&mut b, p, start);
    assert(b.value() =~= start_base(*p, start_v));
    put_failure(&mut b, p);
    put_notes(&mut b, p, wait_for_log);
    let r = b.build();
    assert(r@ == start_json(*p, wait_for_log, start_v)) by {
        assert(b.value() =~= start_json(*p, wait_for_log, start_v)->Object_0);
    }
    r
}


/// The JSON object `v` has the member `key: value`.
pub open spec fn has_member(v: JsonV, key: Seq<char>, value: JsonV) -> bool {
    v matches JsonV::Object(ms) && exists|i: int| 0 <= i < ms.len() && #[trigger] ms[i] == (key, value)
}

/// `v` describes the process `p` by its own fields: its id, project, name
/// and log file, its PID (null without one) and its state's name.
pub open spec fn describes_process(v: JsonV, p: ProcessInfo) -> bool {
    &&& has_member(v, "id"@, JsonV::Str(p.id@))
    &&& has_member(v, "project"@, JsonV::Str(p.project@))
    &&& has_member(v, "name"@, JsonV::Str(p.name@))
    &&& has_member(v, "log_file"@, JsonV::Str(p.log_file@))
    &&& has_member(
        v,
        "pid"@,
        match p.pid {
            Some(x) => JsonV::Number(crate::text::decimal(x as nat)),
            None => JsonV::Null,
        },
    )
    &&& has_member(v, "status"@, JsonV::Str(status_text(p.status)))
}

proof fn lemma_base_describes(p: ProcessInfo, start: Option<Seq<char>>, rest: Seq<(Seq<char>, JsonV)>)
    ensures
        describes_process(JsonV::Object(start_base(p, start) + rest), p),
{
    let ms = start_base(p, start) + rest;
    let v = JsonV::Object(ms);
    assert(v->Object_0 == ms);
    assert(ms[0] == ("id"@, JsonV::Str(p.id@)));
    assert(ms[1] == ("project"@, JsonV::Str(p.project@)));
    assert(ms[2] == ("name"@, JsonV::Str(p.name@)));
    assert(ms[3] == (
        "pid"@,
        match p.pid {
            Some(x) => JsonV::Number(crate::text::decimal(x as nat)),
            None => JsonV::Null,
        },
    ));
    assert(ms[4] == ("status"@, JsonV::Str(status_text(p.status))));
    assert(ms[5] == ("log_file"@, JsonV::Str(p.log_file@)));
}

/// Law: the start, restart and listing answers describe a process by its
/// own fields: `id`, `project`, `name` and `log_file` are the process's,
/// `pid` its PID (null without one) and `status` its state's name; a listed
/// process's `cmd` is its command.
pub proof fn answers_describe_the_process(p: ProcessInfo, wait_for_log: bool, start: Option<Seq<char>>)
    ensures
        describes_process(start_json(p, wait_for_log, start), p),
        describes_process(crate::tools::restart::restart_json(p, start), p),
        describes_process(crate::tools::ps::listed_json(p, start), p),
        has_member(crate::tools::ps::listed_json(p, start), "cmd"@, JsonV::Str(p.cmd@)),
{
    lemma_base_describes(
        p,
        start,
        failure_members(p) + timeout_members(p) + context_members(p) + matched_members(p)
            + pattern_members(p, wait_for_log),
    );
    assert(start_base(p, start) + failure_members(p) + timeout_members(p) + context_members(p)
        + matched_members(p) + pattern_members(p, wait_for_log) =~= start_base(p, start) + (
    failure_members(p) + timeout_members(p) + context_members(p) + matched_members(p)
        + pattern_members(p, wait_for_log)));
    lemma_base_describes(
        p,
        start,
        failure_members(p) + context_members(p) + matched_members(p)
            + crate::tools::restart::restart_wait_members(p),
    );
    assert(start_base(p, start) + failure_members(p) + context_members(p) + matched_members(p)
        + crate::tools::restart::restart_wait_members(p) =~= start_base(p, start) + (
    failure_members(p) + context_members(p) + matched_members(p)
        + crate::tools::restart::restart_wait_members(p)));
    lemma_base_describes(p, start, seq![("cmd"@, JsonV::Str(p.cmd@))]);
    let lm = start_base(p, start) + seq![("cmd"@, JsonV::Str(p.cmd@))];
    assert(lm[8] == ("cmd"@, JsonV::Str(p.cmd@)));
}

/// Accepted start parameters name exactly one way to run the process: a
/// command line, or a non-empty argument list.
pub proof fn accepted_start_has_one_command(
    p: StartParams,
    env_project: Option<String>,
    cwd_project: Option<String>,
)
    requires
        start_refusal(Some(Ok(p)), env_project, cwd_project) is None,
    ensures
        p.cmd is Some <==> !(p.args matches Some(a) && a@.len() > 0),
{
}

} // verus!
