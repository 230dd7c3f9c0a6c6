//! Reading a process's log, stopping a process, and searching a log.

use vstd::prelude::*;
use vstd::string::*;
use crate::ansi::{strip_ansi_escapes_str, without_escapes};
use crate::clock::{date_time_reads, date_time_text};
use crate::mcp::error::Error;
use crate::mcp::json::{ArrayBuilder, Json, JsonV, ObjectBuilder};
use crate::mcp::protocol::opt_text;
use crate::project::{mcp_project_outcome, resolve_mcp_project_name};
use crate::rpc::{
    opt_string, opt_string_json, params_outcome, require_params, stamp_reads, stamp_text,
    texts_json, texts_to_json, GrepMatch, LogEntry, RpcStatus, CODE_NOT_FOUND, LEVEL_ERROR,
};
use crate::text::decimal;

verus! {

/// The parameters of the log tool.
#[derive(Debug)]
pub struct LogsParams {
    pub name: String,
    pub tail: Option<u32>,
    pub project: Option<String>,
}

/// What the log tool asks the daemon: the lines of one process, without
/// following.
#[derive(Debug)]
pub struct LogsRequest {
    pub name: String,
    pub tail: Option<u32>,
    pub follow: Option<bool>,
    pub project: String,
}

/// Reads the log tool's parameters and builds its request; missing or
/// malformed parameters and an unusable project are invalid-parameters
/// errors.
pub fn prepare_logs(
    params: Option<Result<LogsParams, String>>,
    env_project: Option<String>,
    cwd_project: Option<String>,
) -> (r: Result<LogsRequest, Error>)
    ensures
        match params_outcome(params) {
            Err(m) => r matches Err(Error::InvalidParams(e)) && e@ == m,
            Ok(p) => match mcp_project_outcome(p.project, env_project, cwd_project) {
                Err(m) => r matches Err(Error::InvalidParams(e)) && e@ == m,
                Ok(project) => r matches Ok(q) && q.name == p.name && q.tail == p.tail
                    && q.follow == Some(false) && q.project@ == project,
            },
        },
{
    let p = match require_params(params) {
        Ok(p) => p,
        Err(e) => {
            return Err(e);
        },
    };
    match resolve_mcp_project_name(p.project, env_project, cwd_project) {
        Ok(project) => Ok(LogsRequest { name: p.name, tail: p.tail, follow: Some(false), project }),
        Err(e) => Err(e),
    }
}

/// The level letter of a log entry: `E` for standard error, `I` otherwise.
pub open spec fn level_letter(level: i32) -> Seq<char> {
    if level == LEVEL_ERROR {
        "E"@
    } else {
        "I"@
    }
}

/// A log line as the log tool shows it: its time (when it has a time
/// whose text is not empty), its level letter and its content without
/// escape sequences, separated by spaces.
pub open spec fn log_line_text(e: LogEntry, time: Option<Seq<char>>) -> Seq<char> {
    match time {
        Some(t) => if t.len() > 0 {
            t + " "@ + level_letter(e.level) + " "@ + without_escapes(e.content@)
        } else {
            level_letter(e.level) + " "@ + without_escapes(e.content@)
        },
        None => level_letter(e.level) + " "@ + without_escapes(e.content@),
    }
}

/// `time` is how the entry's time reads as `%Y-%m-%d %H:%M:%S`.
pub open spec fn entry_time_reads(e: LogEntry, time: Option<Seq<char>>) -> bool {
    match e.timestamp {
        Some(ts) => time is Some && date_time_reads(ts, time->0),
        None => time is None,
    }
}

/// Formats a log line as the log tool shows it (see [`log_line_text`]).
pub fn format_log_line(e: &LogEntry) -> (r: String)
    ensures
        exists|time: Option<Seq<char>>| entry_time_reads(*e, time) && r@ == log_line_text(*e, time),
{
    let level = if e.level == LEVEL_ERROR {
        "E"
    } else {
        "I"
    };
    let mut s = String::new();
    let ghost time: Option<Seq<char>> = None;
    match &e.timestamp {
        Some(ts) => {
            let t = date_time_text(ts);
            proof {
                time = Some(t@);
            }
            if !t.as_str().is_empty() {
                s.append(t.as_str());
                s.append(" ");
            }
        },
        None => {},
    }
    s.append(level);
    s.append(" ");
    let content = strip_ansi_escapes_str(e.content.as_str());
    s.append(content.as_str());
    assert(s@ =~= log_line_text(*e, time));
    s
}

/// The answer of the log tool: the lines, as an array under `logs`.
pub fn logs_response(lines: Vec<String>) -> (r: Json)
    ensures
        r@ == JsonV::Object(seq![("logs"@, texts_json(lines@.map_values(|l: String| l@)))]),
{
    let ghost lv = lines@.map_values(|l: String| l@);
    let mut b = ObjectBuilder::new();
    b.put("logs", texts_to_json(lines));
    let r = b.build();
    assert(b.value() =~= seq![("logs"@, texts_json(lv))]);
    r
}

/// The error for a failure while receiving log lines.
pub fn logs_receive_failure(status: &RpcStatus) -> (r: Error)
    ensures
        r matches Error::Internal(m) && m@ == "Error receiving logs: "@ + status.display@,
{
    let mut m = String::from_str("Error receiving logs: ");
    m.append(status.display.as_str());
    Error::Internal(m)
}

/// What the stop tool asks the daemon.
#[derive(Debug)]
pub struct StopRequest {
    pub name: String,
    pub force: Option<bool>,
    pub project: String,
}

/// The stop request for a process of a project: never forced.
pub fn stop_request(name: String, project: String) -> (r: StopRequest)
    ensures
        r.name == name,
        r.project == project,
        r.force is None,
{
    StopRequest { name, force: None, project }
}

/// The answer of the stop tool: whether the process stopped, and the
/// daemon's message.
pub fn stop_response(success: bool, message: Option<String>) -> (r: Json)
    ensures
        r@ == JsonV::Object(
            seq![("success"@, JsonV::Bool(success)), ("message"@, opt_string(opt_text(message)))],
        ),
{
    let ghost mv = opt_text(message);
    let mut b = ObjectBuilder::new();
    b.put("success", Json::Bool(success));
    b.put("message", opt_string_json(message));
    let r = b.build();
    assert(b.value() =~= seq![("success"@, JsonV::Bool(success)), ("message"@, opt_string(mv))]);
    r
}

/// The parameters of the log search tool.
#[derive(Debug)]
pub struct GrepParams {
    pub pattern: String,
    pub name: String,
    pub project: Option<String>,
    pub context: Option<u32>,
    pub before: Option<u32>,
    pub after: Option<u32>,
    pub since: Option<String>,
    pub until: Option<String>,
    pub last: Option<String>,
}

/// What the log search tool asks the daemon.
#[derive(Debug)]
pub struct GrepRequest {
    pub name: String,
    pub pattern: String,
    pub project: String,
    pub context: Option<u32>,
    pub before: Option<u32>,
    pub after: Option<u32>,
    pub since: Option<String>,
    pub until: Option<String>,
    pub last: Option<String>,
}

/// The project searched: the one given, else the server's default, else
/// the current directory's, else `default`.
pub open spec fn grep_project(
    project: Option<String>,
    default_project: Option<String>,
    cwd_project: Option<String>,
) -> Seq<char> {
    match project {
        Some(p) => p@,
        None => match default_project {
            Some(p) => p@,
            None => match cwd_project {
                Some(p) => p@,
                None => "default"@,
            },
        },
    }
}

/// Reads the log search tool's parameters and builds its request; only
/// missing or malformed parameters are refused.
pub fn prepare_grep(
    params: Option<Result<GrepParams, String>>,
    default_project: Option<String>,
    cwd_project: Option<String>,
) -> (r: Result<GrepRequest, Error>)
    ensures
        match params_outcome(params) {
            Err(m) => r matches Err(Error::InvalidParams(e)) && e@ == m,
            Ok(p) => r matches Ok(q) && q.name == p.name && q.pattern == p.pattern && q.project@
                == grep_project(p.project, default_project, cwd_project) && q.context == p.context
                && q.before == p.before && q.after == p.after && q.since == p.since && q.until
                == p.until && q.last == p.last,
        },
{
    let p = match require_params(params) {
        Ok(p) => p,
        Err(e) => {
            return Err(e);
        },
    };
    let project = match p.project {
        Some(j) => j,
        None => match default_project {
            Some(j) => j,
            None => match cwd_project {
                Some(j) => j,
                None => String::from_str("default"),
            },
        },
    };
    Ok(
        GrepRequest {
            name: p.name,
            pattern: p.pattern,
            project,
            context: p.context,
            before: p.before,
            after: p.after,
            since: p.since,
            until: p.until,
            last: p.last,
        },
    )
}

/// The level name of a log entry: `error` for standard error, `info`
/// otherwise.
pub open spec fn level_name(level: i32) -> Seq<char> {
    if level == LEVEL_ERROR {
        "error"@
    } else {
        "info"@
    }
}

/// A log line in a search answer: its number, content (without escape
/// sequences), time and level.
pub open spec fn entry_json(e: LogEntry, time: Option<Seq<char>>) -> JsonV {
    JsonV::Object(
        seq![
            ("line_number"@, JsonV::Number(decimal(e.line_number as nat))),
            ("content"@, JsonV::Str(without_escapes(e.content@))),
            ("timestamp"@, opt_string(time)),
            ("level"@, JsonV::Str(level_name(e.level))),
        ],
    )
}

/// `v` is the search-answer JSON of `e`, with its time in RFC 3339.
pub open spec fn entry_shown(e: LogEntry, v: JsonV) -> bool {
    exists|time: Option<Seq<char>>| stamp_reads(e.timestamp, time) && v == entry_json(e, time)
}

/// `vs` shows the entries `es`, one for one.
pub open spec fn entries_shown(es: Seq<LogEntry>, vs: Seq<JsonV>) -> bool {
    vs.len() == es.len() && forall|i: int| 0 <= i < es.len() ==> entry_shown(#[trigger] es[i], vs[i])
}

/// Law: the search-answer JSON of a log entry carries the entry's time
/// under `timestamp`: a text that reads as the entry's instant in RFC 3339
/// when it has one, and null only when it has none.
pub proof fn search_entry_time_reads_as_rfc3339(e: LogEntry, v: JsonV)
    requires
        entry_shown(e, v),
    ensures
        v matches JsonV::Object(ms) && exists|i: int|
            0 <= i < ms.len() && (#[trigger] ms[i]).0 == "timestamp"@ && match e.timestamp {
                Some(ts) => ms[i].1 matches JsonV::Str(t) && crate::clock::rfc3339_reads(ts, t),
                None => ms[i].1 == JsonV::Null,
            },
{
    let time = choose|time: Option<Seq<char>>| stamp_reads(e.timestamp, time) && v == entry_json(e, time);
    let ms = v->Object_0;
    assert(ms[2].0 == "timestamp"@);
}

/// The search-answer JSON of a log line.
pub fn entry_to_json(e: &LogEntry) -> (r: Json)
    ensures
        entry_shown(*e, r@),
{
    let time = stamp_text(&e.timestamp);
    let ghost tv = opt_text(time);
    let mut b = ObjectBuilder::new();
    b.put("line_number", Json::unsigned(e.line_number as u64));
    b.put("content", Json::Str(strip_ansi_escapes_str(e.content.as_str())));
    b.put("timestamp", opt_string_json(time));
    b.put("level", Json::text(if e.level == LEVEL_ERROR { "error" } else { "info" }));
    let r = b.build();
    assert(r@ == entry_json(*e, tv)) by {
        assert(b.value() =~= entry_json(*e, tv)->Object_0);
    }
    r
}

/// The search-answer JSON of several log lines.
pub fn entries_to_json(es: &Vec<LogEntry>) -> (r: Json)
    ensures
        r@ matches JsonV::Array(vs) && entries_shown(es@, vs),
{
    let mut b = ArrayBuilder::new();
    let mut i: usize = 0;
    while i < es.len()
        invariant
            i <= es.len(),
            entries_shown(es@.take(i as int), b.value()),
        decreases es.len() - i,
    {
        let j = entry_to_json(&es[i]);
        let ghost before = b.value();
        b.push(j);
        proof {
            let t = es@.take(i + 1);
            assert forall|k: int| 0 <= k < t.len() implies entry_shown(#[trigger] t[k], b.value()[k]) by {
                if k < i {
                    assert(t[k] == es@.take(i as int)[k]);
                }
            }
        }
        i = i + 1;
    }
    assert(es@.take(es.len() as int) =~= es@);
    b.build()
}

/// `v` shows the search hit `m`: its matched line, and its lines before and
/// after when there are any.
pub open spec fn match_shown(m: GrepMatch, v: JsonV) -> bool {
    &&& v is Object
    &&& exists|line: Seq<(Seq<char>, JsonV)>, before: Seq<(Seq<char>, JsonV)>, after: Seq<(Seq<char>, JsonV)>|
        {
            &&& v->Object_0 == line + before + after
            &&& match m.matched_line {
                Some(e) => line.len() == 1 && line[0].0 == "matched_line"@ && entry_shown(e, line[0].1),
                None => line.len() == 0,
            }
            &&& if m.context_before@.len() > 0 {
                before.len() == 1 && before[0].0 == "context_before"@ && (before[0].1 matches JsonV::Array(vs)
                    && entries_shown(m.context_before@, vs))
            } else {
                before.len() == 0
            }
            &&& if m.context_after@.len() > 0 {
                after.len() == 1 && after[0].0 == "context_after"@ && (after[0].1 matches JsonV::Array(vs)
                    && entries_shown(m.context_after@, vs))
            } else {
                after.len() == 0
            }
        }
}

/// The search-answer JSON of a search hit.
pub fn match_to_json(m: &GrepMatch) -> (r: Json)
    ensures
        match_shown(*m, r@),
{
    let mut b = ObjectBuilder::new();
    match &m.matched_line {
        Some(e) => b.put("matched_line", entry_to_json(e)),
        None => {},
    }
    let ghost line = b.value();
    if m.context_before.len() > 0 {
        b.put("context_before", entries_to_json(&m.context_before));
    }
    let ghost before = b.value().skip(line.len() as int);
    assert(b.value() =~= line + before);
    let ghost mid = b.value();
    if m.context_after.len() > 0 {
        b.put("context_after", entries_to_json(&m.context_after));
    }
    let ghost after = b.value().skip(mid.len() as int);
    assert(b.value() =~= line + before + after);
    b.build()
}

/// The answer of the log search tool: the pattern, the process, the number
/// of hits and the hits.
pub open spec fn grep_shown(pattern: Seq<char>, name: Seq<char>, matches: Seq<GrepMatch>, v: JsonV) -> bool {
    exists|vs: Seq<JsonV>|
        {
            &&& vs.len() == matches.len()
            &&& forall|i: int| 0 <= i < matches.len() ==> match_shown(#[trigger] matches[i], vs[i])
            &&& v == JsonV::Object(
                seq![
                    ("pattern"@, JsonV::Str(pattern)),
                    ("process"@, JsonV::Str(name)),
                    ("total_matches"@, JsonV::Number(decimal(matches.len()))),
                    ("matches"@, JsonV::Array(vs)),
                ],
            )
        }
}

/// The answer of the log search tool (see [`grep_shown`]).
pub fn grep_response(pattern: &str, name: &str, matches: &Vec<GrepMatch>) -> (r: Json)
    ensures
        grep_shown(pattern@, name@, matches@, r@),
{
    let mut a = ArrayBuilder::new();
    let mut i: usize = 0;
    while i < matches.len()
        invariant
            i <= matches.len(),
            a.value().len() == i,
            forall|k: int| 0 <= k < i ==> match_shown(#[trigger] matches@[k], a.value()[k]),
        decreases matches.len() - i,
    {
        let j = match_to_json(&matches[i]);
        a.push(j);
        i = i + 1;
    }
    let ghost vs = a.value();
    let arr = a.build();
    let mut b = ObjectBuilder::new();
    b.put("pattern", Json::text(pattern));
    b.put("process", Json::text(name));
    b.put("total_matches", Json::unsigned(matches.len() as u64));
    b.put("matches", arr);
    let r = b.build();
    assert(r@ == JsonV::Object(
        seq![
            ("pattern"@, JsonV::Str(pattern@)),
            ("process"@, JsonV::Str(name@)),
            ("total_matches"@, JsonV::Number(decimal(matches@.len()))),
            ("matches"@, JsonV::Array(vs)),
        ],
    )) by {
        assert(b.value() =~= seq![
            ("pattern"@, JsonV::Str(pattern@)),
            ("process"@, JsonV::Str(name@)),
            ("total_matches"@, JsonV::Number(decimal(matches@.len()))),
            ("matches"@, JsonV::Array(vs)),
        ]);
    }
    r
}

/// The error for a failed search: a missing log file is an
/// invalid-parameters error naming the process; else the failure's message.
pub fn grep_failure(name: &str, status: &RpcStatus) -> (r: Error)
    ensures
        status.code == CODE_NOT_FOUND ==> (r matches Error::InvalidParams(m) && m@
            == "Log file for process \""@ + name@ + "\" not found"@),
        status.code != CODE_NOT_FOUND ==> (r matches Error::Internal(m) && m@
            == status.message@),
{
    if status.code == CODE_NOT_FOUND {
        let mut m = String::from_str("Log file for process \"");
        m.append(name);
        m.append("\" not found");
        Error::InvalidParams(m)
    } else {
        Error::Internal(status.message.clone())
    }
}

} // verus!
