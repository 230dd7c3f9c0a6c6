//! Describing one process.

use vstd::prelude::*;
use vstd::string::*;
use crate::clock::{elapsed_or_zero, now_instant, seconds_between};
use crate::daemon::{format_uptime, uptime_text};
use crate::mcp::error::Error;
use crate::mcp::json::{Json, JsonV, ObjectBuilder};
use crate::mcp::protocol::opt_text;
use crate::project::{mcp_project_outcome, resolve_mcp_project_name};
use crate::rpc::{
    opt_number, opt_number_json, opt_string, opt_string_json, params_outcome, ports_json,
    ports_to_json, require_params, stamp_reads, stamp_text, status_string, status_text,
    texts_json, texts_to_json, ProcessInfo, RpcStatus, CODE_NOT_FOUND, STATUS_RUNNING,
};
use crate::text::{decimal, push_decimal, signed_decimal};

verus! {

/// Parameters naming one process, and optionally its project.
#[derive(Debug)]
pub struct NameParams {
    pub name: String,
    pub project: Option<String>,
}

/// The outcome of reading parameters that name a process: the name and the
/// chosen project, or why they are refused.
pub open spec fn named_outcome(
    params: Option<Result<NameParams, String>>,
    env_project: Option<String>,
    cwd_project: Option<String>,
) -> Result<(Seq<char>, Seq<char>), Seq<char>> {
    match params_outcome(params) {
        Err(m) => Err(m),
        Ok(p) => match mcp_project_outcome(p.project, env_project, cwd_project) {
            Err(m) => Err(m),
            Ok(project) => Ok((p.name@, project)),
        },
    }
}

/// Reads parameters that name a process (see [`named_outcome`]); a refusal
/// is an invalid-parameters error.
pub fn prepare_named(
    params: Option<Result<NameParams, String>>,
    env_project: Option<String>,
    cwd_project: Option<String>,
) -> (r: Result<(String, String), Error>)
    ensures
        match named_outcome(params, env_project, cwd_project) {
            Ok((name, project)) => r matches Ok((n, j)) && n@ == name && j@ == project,
            Err(m) => r matches Err(Error::InvalidParams(e)) && e@ == m,
        },
{
    let p = match require_params(params) {
        Ok(p) => p,
        Err(e) => {
            return Err(e);
        },
    };
    match resolve_mcp_project_name(p.project, env_project, cwd_project) {
        Ok(project) => Ok((p.name, project)),
        Err(e) => Err(e),
    }
}

/// The text of an elapsed time in whole seconds: as the uptime reads when
/// it is not negative; else only the (negative) seconds part.
pub open spec fn elapsed_text(e: int) -> Seq<char> {
    if e >= 0 {
        uptime_text(e as nat)
    } else {
        signed_decimal(-((-e) % 60)) + "s"@
    }
}

/// Formats an elapsed time in whole seconds (see [`elapsed_text`]).
pub fn format_elapsed(e: i64) -> (r: String)
    ensures
        r@ == elapsed_text(e as int),
{
    if e >= 0 {
        format_uptime(e as u64)
    } else {
        let m: u64 = if e == i64::MIN {
            9223372036854775808u64
        } else {
            (-e) as u64
        };
        assert(m as int == -(e as int));
        let secs = m % 60;
        proof {
            reveal_strlit("-");
            assert("-"@ =~= seq!['-']);
        }
        let mut s = String::new();
        if secs > 0 {
            s.append("-");
        }
        push_decimal(&mut s, secs);
        s.append("s");
        assert(s@ =~= elapsed_text(e as int));
        s
    }
}

/// The uptime shown for a process when the current instant is
/// `now_seconds`, `now_nanos`: only for a running process with a start
/// time, the time elapsed from its start to then.
pub open spec fn uptime_at(p: ProcessInfo, now_seconds: i64, now_nanos: u32) -> Option<Seq<char>> {
    if p.status == STATUS_RUNNING {
        match p.start_time {
            Some(ts) => Some(elapsed_text(elapsed_or_zero(ts, now_seconds, now_nanos) as int)),
            None => None,
        }
    } else {
        None
    }
}

/// The uptime shown for a process at the given current instant (see
/// [`uptime_at`]).
pub fn status_uptime_at(p: &ProcessInfo, now_seconds: i64, now_nanos: u32) -> (r: Option<String>)
    ensures
        opt_text(r) == uptime_at(*p, now_seconds, now_nanos),
{
    if p.status == STATUS_RUNNING {
        match &p.start_time {
            Some(ts) => {
                let e = seconds_between(ts, now_seconds, now_nanos);
                Some(format_elapsed(e))
            },
            None => None,
        }
    } else {
        None
    }
}

/// The uptime shown for a process now (see [`uptime_at`]; the current
/// instant is read from the clock).
pub fn status_uptime(p: &ProcessInfo) -> (r: Option<String>)
    ensures
        exists|now_seconds: i64, now_nanos: u32| opt_text(r) == #[trigger] uptime_at(*p, now_seconds, now_nanos),
{
    let now = now_instant();
    status_uptime_at(p, now.0, now.1)
}

/// Collects the preview of recent log lines: the content of each answer
/// that carries a log line, reading at most a hundred answers.
#[derive(Debug)]
pub struct LogPreview {
    pub lines: Vec<String>,
    pub read: u32,
}

impl LogPreview {
    /// Nothing read yet.
    pub fn new() -> (r: Self)
        ensures
            r.lines@.len() == 0,
            r.read == 0,
    {
        LogPreview { lines: Vec::new(), read: 0 }
    }

    /// Takes one answer (`line` is its log line, none for other answers) and
    /// tells whether to read another.
    pub fn take(&mut self, line: Option<String>) -> (more: bool)
        requires
            old(self).read < 100,
        ensures
            final(self).read == old(self).read + 1,
            final(self).lines@ == (match line {
                Some(l) => old(self).lines@.push(l),
                None => old(self).lines@,
            }),
            more == (final(self).read < 100),
    {
        match line {
            Some(l) => self.lines.push(l),
            None => {},
        }
        self.read = self.read + 1;
        self.read < 100
    }
}

/// The answer of the status tool for a process.
pub open spec fn status_json(
    p: ProcessInfo,
    start: Option<Seq<char>>,
    uptime: Option<Seq<char>>,
    logs: Seq<Seq<char>>,
) -> JsonV {
    JsonV::Object(
        seq![
            ("id"@, JsonV::Str(p.id@)),
            ("project"@, JsonV::Str(p.project@)),
            ("name"@, JsonV::Str(p.name@)),
            ("status"@, JsonV::Str(status_text(p.status))),
            ("pid"@, opt_number(p.pid)),
            ("command"@, JsonV::Str(p.cmd@)),
            ("working_directory"@, JsonV::Str(p.cwd@)),
            ("log_file"@, JsonV::Str(p.log_file@)),
            ("start_time"@, opt_string(start)),
            ("uptime"@, opt_string(uptime)),
            ("ports"@, ports_json(p.ports@)),
            ("recent_logs"@, texts_json(logs)),
        ],
    )
}

/// The answer of the status tool for a process, with its uptime and recent
/// log lines (see [`status_json`]).
pub fn status_response(p: &ProcessInfo, uptime: Option<String>, recent_logs: Vec<String>) -> (r: Json)
    ensures
        exists|start: Option<Seq<char>>|
            stamp_reads(p.start_time, start) && r@ == status_json(
                *p,
                start,
                opt_text(uptime),
                recent_logs@.map_values(|l: String| l@),
            ),
{
    let start = stamp_text(&p.start_time);
    let ghost start_v = opt_text(start);
    let ghost up_v = opt_text(uptime);
    let ghost logs_v = recent_logs@.map_values(|l: String| l@);
    let mut b = ObjectBuilder::new();
    b.put("id", Json::Str(p.id.clone()));
    b.put("project", Json::Str(p.project.clone()));
    b.put("name", Json::Str(p.name.clone()));
    b.put("status", Json::Str(status_string(p.status)));
    b.put("pid", opt_number_json(p.pid));
    b.put("command", Json::Str(p.cmd.clone()));
    b.put("working_directory", Json::Str(p.cwd.clone()));
    b.put("log_file", Json::Str(p.log_file.clone()));
    b.put("start_time", opt_string_json(start));
    b.put("uptime", opt_string_json(uptime));
    b.put("ports", ports_to_json(&p.ports));
    b.put("recent_logs", texts_to_json(recent_logs));
    let r = b.build();
    assert(r@ == status_json(*p, start_v, up_v, logs_v)) by {
        assert(b.value() =~= status_json(*p, start_v, up_v, logs_v)->Object_0);
    }
    r
}

/// The processes of the project, each as `name (Status)`, separated by `, `.
pub open spec fn available_list(existing: Seq<(String, i32)>) -> Seq<char>
    decreases existing.len(),
{
    if existing.len() == 0 {
        Seq::empty()
    } else {
        let last = existing.last();
        let item = last.0@ + " ("@ + status_text(last.1) + ")"@;
        if existing.len() == 1 {
            item
        } else {
            available_list(existing.drop_last()) + ", "@ + item
        }
    }
}

/// The message for a process that is not found, naming the project's
/// processes (with their status) when it has any.
pub open spec fn not_found_message(name: Seq<char>, project: Seq<char>, existing: Seq<(String, i32)>) -> Seq<char> {
    if existing.len() == 0 {
        "Process '"@ + name + "' not found in project '"@ + project
            + "'. No processes are currently running in this project."@
    } else {
        "Process '"@ + name + "' not found in project '"@ + project
            + "'. Available processes in this project: "@ + available_list(existing)
    }
}

/// The error for a failed status request: for a process that is not found,
/// an invalid-parameters error naming the project's processes (`existing`,
/// by name and status); else the failure's message.
pub fn status_failure(name: &str, project: &str, status: &RpcStatus, existing: &Vec<(String, i32)>) -> (r: Error)
    ensures
        status.code == CODE_NOT_FOUND ==> (r matches Error::InvalidParams(m) && m@
            == not_found_message(name@, project@, existing@)),
        status.code != CODE_NOT_FOUND ==> (r matches Error::Internal(m) && m@
            == status.message@),
{
    if status.code != CODE_NOT_FOUND {
        return Error::Internal(status.message.clone());
    }
    let mut m = String::from_str("Process '");
    m.append(name);
    m.append("' not found in project '");
    m.append(project);
    if existing.len() == 0 {
        m.append("'. No processes are currently running in this project.");
        return Error::InvalidParams(m);
    }
    m.append("'. Available processes in this project: ");
    let ghost head = m@;
    let mut i: usize = 0;
    while i < existing.len()
        invariant
            i <= existing.len(),
            m@ == head + available_list(existing@.take(i as int)),
        decreases existing.len() - i,
    {
        if i > 0 {
            m.append(", ");
        }
        m.append(existing[i].0.as_str());
        m.append(" (");
        let st = status_string(existing[i].1);
        m.append(st.as_str());
        m.append(")");
        proof {
            let t = existing@.take(i + 1);
            assert(t.drop_last() =~= existing@.take(i as int));
            if i == 0 {
                assert(available_list(existing@.take(0)) =~= Seq::<char>::empty());
            }
            assert(m@ =~= head + available_list(t));
        }
        i = i + 1;
    }
    assert(existing@.take(existing.len() as int) =~= existing@);
    Error::InvalidParams(m)
}

} // verus!
