//! What the daemon answers: processes, log entries, search matches and
//! failures, and the JSON and text shared by the tools that show them.

use vstd::prelude::*;
use vstd::string::*;
use crate::clock::{rfc3339_reads, rfc3339_text, Timestamp};
use crate::mcp::error::Error;
use crate::mcp::json::{ArrayBuilder, Json, JsonV};
use crate::status::{format_status, status_name, status_or_unknown};
use crate::text::decimal;

verus! {

/// The failure code of a request for something that does not exist.
pub const CODE_NOT_FOUND: i32 = 5;
/// The failure code of a request to create something that already exists.
pub const CODE_ALREADY_EXISTS: i32 = 6;
/// The status code of a running process.
pub const STATUS_RUNNING: i32 = 2;
/// The status code of a failed process.
pub const STATUS_FAILED: i32 = 5;
/// The level of a log entry written to standard error.
pub const LEVEL_ERROR: i32 = 2;

/// A managed process as the daemon describes it.
#[derive(Debug)]
pub struct ProcessInfo {
    pub id: String,
    pub project: String,
    pub name: String,
    pub pid: Option<u32>,
    pub status: i32,
    pub cmd: String,
    pub cwd: String,
    pub log_file: String,
    pub start_time: Option<Timestamp>,
    pub ports: Vec<u32>,
    pub exit_code: Option<i32>,
    pub exit_reason: Option<String>,
    pub stderr_tail: Option<String>,
    pub wait_timeout_occurred: Option<bool>,
    pub log_context: Vec<String>,
    pub matched_line: Option<String>,
}

/// A line of a process's log.
#[derive(Debug)]
pub struct LogEntry {
    pub line_number: u32,
    pub content: String,
    pub timestamp: Option<Timestamp>,
    pub level: i32,
    pub process_name: Option<String>,
}

/// A log search hit: the matching line and the lines around it.
#[derive(Debug)]
pub struct GrepMatch {
    pub matched_line: Option<LogEntry>,
    pub context_before: Vec<LogEntry>,
    pub context_after: Vec<LogEntry>,
}

/// A failed request to the daemon: its status code, its message, and its
/// full display text.
#[derive(Debug)]
pub struct RpcStatus {
    pub code: i32,
    pub message: String,
    pub display: String,
}

/// The parameters of a tool call: none given, given but not of the
/// expected shape (with the reason), or read.
pub open spec fn params_outcome<T>(params: Option<Result<T, String>>) -> Result<T, Seq<char>> {
    match params {
        None => Err("Missing parameters"@),
        Some(Err(e)) => Err(e@),
        Some(Ok(p)) => Ok(p),
    }
}

/// The parameters of a tool call, which must be present and of the expected
/// shape; else an invalid-parameters error.
pub fn require_params<T>(params: Option<Result<T, String>>) -> (r: Result<T, Error>)
    ensures
        match params_outcome(params) {
            Ok(p) => r matches Ok(q) && q == p,
            Err(m) => r matches Err(Error::InvalidParams(e)) && e@ == m,
        },
{
    match params {
        None => Err(Error::InvalidParams(String::from_str("Missing parameters"))),
        Some(Err(e)) => Err(Error::InvalidParams(e)),
        Some(Ok(p)) => Ok(p),
    }
}

/// The error for a call whose answer carried no process.
pub fn no_process_info() -> (r: Error)
    ensures
        r matches Error::Internal(m) && m@ == "No process info returned"@,
{
    Error::Internal(String::from_str("No process info returned"))
}

/// The internal error carrying a failure's message.
pub fn failure_message(status: &RpcStatus) -> (r: Error)
    ensures
        r matches Error::Internal(m) && m@ == status.message@,
{
    Error::Internal(status.message.clone())
}

/// The internal error carrying a failure's display text.
pub fn failure_display(status: &RpcStatus) -> (r: Error)
    ensures
        r matches Error::Internal(m) && m@ == status.display@,
{
    Error::Internal(status.display.clone())
}

/// The JSON of an optional number.
pub open spec fn opt_number(n: Option<u32>) -> JsonV {
    match n {
        Some(v) => JsonV::Number(decimal(v as nat)),
        None => JsonV::Null,
    }
}

/// The JSON of an optional text.
pub open spec fn opt_string(t: Option<Seq<char>>) -> JsonV {
    match t {
        Some(s) => JsonV::Str(s),
        None => JsonV::Null,
    }
}

/// The JSON array of port numbers.
pub open spec fn ports_json(ports: Seq<u32>) -> JsonV {
    JsonV::Array(ports.map_values(|p: u32| JsonV::Number(decimal(p as nat))))
}

/// The JSON array of texts.
pub open spec fn texts_json(texts: Seq<Seq<char>>) -> JsonV {
    JsonV::Array(texts.map_values(|t: Seq<char>| JsonV::Str(t)))
}

/// The status name of a status code.
pub open spec fn status_text(code: i32) -> Seq<char> {
    status_name(status_or_unknown(code as int))
}

/// `text` is how the optional instant reads: none for none, else its RFC
/// 3339 text (see [`rfc3339_reads`]).
pub open spec fn stamp_reads(ts: Option<Timestamp>, text: Option<Seq<char>>) -> bool {
    match ts {
        Some(t) => text is Some && rfc3339_reads(t, text->0),
        None => text is None,
    }
}

/// The RFC 3339 text of an optional instant.
pub fn stamp_text(ts: &Option<Timestamp>) -> (r: Option<String>)
    ensures
        stamp_reads(
            *ts,
            match r {
                Some(s) => Some(s@),
                None => None,
            },
        ),
{
    match ts {
        Some(t) => Some(rfc3339_text(t)),
        None => None,
    }
}

/// The JSON of an optional number.
pub fn opt_number_json(n: Option<u32>) -> (r: Json)
    ensures
        r@ == opt_number(n),
{
    match n {
        Some(v) => Json::unsigned(v as u64),
        None => Json::Null,
    }
}

/// The JSON of an optional text.
pub fn opt_string_json(t: Option<String>) -> (r: Json)
    ensures
        r@ == opt_string(
            match t {
                Some(s) => Some(s@),
                None => None,
            },
        ),
{
    match t {
        Some(s) => Json::Str(s),
        None => Json::Null,
    }
}

/// The JSON array of port numbers.
pub fn ports_to_json(ports: &Vec<u32>) -> (r: Json)
    ensures
        r@ == ports_json(ports@),
{
    let mut b = ArrayBuilder::new();
    let mut i: usize = 0;
    while i < ports.len()
        invariant
            i <= ports.len(),
            b.value() =~= ports@.take(i as int).map_values(
                |p: u32| JsonV::Number(decimal(p as nat)),
            ),
        decreases ports.len() - i,
    {
        b.push(Json::unsigned(ports[i] as u64));
        assert(ports@.take(i + 1) =~= ports@.take(i as int).push(ports@[i as int]));
        i = i + 1;
    }
    assert(ports@.take(ports.len() as int) =~= ports@);
    b.build()
}

/// The JSON array of texts.
pub fn texts_to_json(texts: Vec<String>) -> (r: Json)
    ensures
        r@ == texts_json(texts@.map_values(|t: String| t@)),
{
    let mut b = ArrayBuilder::new();
    let mut i: usize = 0;
    while i < texts.len()
        invariant
            i <= texts.len(),
            b.value() =~= texts@.take(i as int).map_values(|t: String| JsonV::Str(t@)),
        decreases texts.len() - i,
    {
        b.push(Json::Str(texts[i].clone()));
        assert(texts@.take(i + 1) =~= texts@.take(i as int).push(texts@[i as int]));
        i = i + 1;
    }
    assert(texts@.take(texts.len() as int) =~= texts@);
    let r = b.build();
    assert(texts@.map_values(|t: String| JsonV::Str(t@)) =~= texts@.map_values(
        |t: String| t@,
    ).map_values(|t: Seq<char>| JsonV::Str(t)));
    r
}

/// The status name of a status code.
pub fn status_string(code: i32) -> (r: String)
    ensures
        r@ == status_text(code),
{
    format_status(code)
}

} // verus!
