//! Restarting a process.

use vstd::prelude::*;
use crate::mcp::error::Error;
use crate::mcp::json::{Json, JsonV, ObjectBuilder};
use crate::mcp::protocol::opt_text;
use crate::project::{mcp_project_outcome, resolve_mcp_project_name};
use crate::rpc::{params_outcome, require_params, stamp_reads, stamp_text, ProcessInfo};
use crate::tools::start::{
    context_members, failure_members, matched_members, put_base, put_context_and_match,
    put_failure, start_base,
};

verus! {

/// The parameters of the restart tool.
#[derive(Debug)]
pub struct RestartParams {
    pub name: String,
    pub project: Option<String>,
    pub wait_for_log: Option<String>,
    pub wait_timeout: Option<u32>,
}

/// What the restart tool asks the daemon.
#[derive(Debug)]
pub struct RestartRequest {
    pub name: String,
    pub project: String,
    pub wait_for_log: Option<String>,
    pub wait_timeout: Option<u32>,
}

/// Reads the restart tool's parameters and builds its request; missing or
/// malformed parameters and an unusable project are invalid-parameters
/// errors.
pub fn prepare_restart(
    params: Option<Result<RestartParams, String>>,
    env_project: Option<String>,
    cwd_project: Option<String>,
) -> (r: Result<RestartRequest, Error>)
    ensures
        match params_outcome(params) {
            Err(m) => r matches Err(Error::InvalidParams(e)) && e@ == m,
            Ok(p) => match mcp_project_outcome(p.project, env_project, cwd_project) {
                Err(m) => r matches Err(Error::InvalidParams(e)) && e@ == m,
                Ok(project) => r matches Ok(q) && q.name == p.name && q.project@ == project
                    && q.wait_for_log == p.wait_for_log && q.wait_timeout == p.wait_timeout,
            },
        },
{
    let p = match require_params(params) {
        Ok(p) => p,
        Err(e) => {
            return Err(e);
        },
    };
    match resolve_mcp_project_name(p.project, env_project, cwd_project) {
        Ok(project) => Ok(
            RestartRequest {
                name: p.name,
                project,
                wait_for_log: p.wait_for_log,
                wait_timeout: p.wait_timeout,
            },
        ),
        Err(e) => Err(e),
    }
}

/// The note members of how the restart's log wait ended: a timed-out wait,
/// or a matched pattern.
pub open spec fn restart_wait_members(p: ProcessInfo) -> Seq<(Seq<char>, JsonV)> {
    match p.wait_timeout_occurred {
        Some(true) => seq![
            ("wait_timeout_occurred"@, JsonV::Bool(true)),
            (
                "message"@,
                JsonV::Str("Process restarted but wait_for_log pattern was not found within timeout"@),
            ),
        ],
        Some(false) => seq![
            ("pattern_matched"@, JsonV::Bool(true)),
            ("message"@, JsonV::Str("Process restarted successfully. Pattern matched in logs."@)),
        ],
        None => Seq::empty(),
    }
}

/// The answer of the restart tool for the restarted process: the process's
/// description (as in the start answer: id, project, name, PID, status, log
/// file, start time and ports), its exit details when it failed, its log
/// context and matched line (without escape sequences), and a note on how
/// the log wait ended.
pub open spec fn restart_json(p: ProcessInfo, start: Option<Seq<char>>) -> JsonV {
    JsonV::Object(
        start_base(p, start) + failure_members(p) + context_members(p) + matched_members(p)
            + restart_wait_members(p),
    )
}

/// The answer of the restart tool (see [`restart_json`]), its start time in
/// RFC 3339.
pub fn restart_response(p: &ProcessInfo) -> (r: Json)
    ensures
        exists|start: Option<Seq<char>>|
            stamp_reads(p.start_time, start) && r@ == restart_json(*p, start),
{
    let start = stamp_text(&p.start_time);
    let ghost start_v = opt_text(start);
    let mut b = ObjectBuilder::new();
    put_base(&mut b, p, start);
    put_failure(&mut b, p);
    put_context_and_match(&mut b, p);
    let ghost before = b.value();
    match p.wait_timeout_occurred {
        Some(true) => {
            b.put("wait_timeout_occurred", Json::Bool(true));
            b.put(
                "message",
                Json::text("Process restarted but wait_for_log pattern was not found within timeout"),
            );
        },
        Some(false) => {
            b.put("pattern_matched", Json::Bool(true));
            b.put("message", Json::text("Process restarted successfully. Pattern matched in logs."));
        },
        None => {},
    }
    assert(b.value() =~= before + restart_wait_members(*p));
    let r = b.build();
    assert(r@ == restart_json(*p, start_v)) by {
        assert(b.value() =~= restart_json(*p, start_v)->Object_0);
    }
    r
}

} // verus!
