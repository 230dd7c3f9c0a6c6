//! The process commands of the command line: what each asks the daemon and
//! what it prints of the answer.

use vstd::prelude::*;
use vstd::string::*;
use crate::parse::{lines, split_lines};
use crate::project::resolve_project_name;
use crate::ps::{format_ports, ports_column, truncate, truncated};
use crate::rpc::{status_string, status_text, ProcessInfo, RpcStatus, CODE_ALREADY_EXISTS, STATUS_FAILED};
use crate::status::{parse_status, status_named, status_style, status_or_unknown, StatusStyle};
use crate::style::{
    bold_colored, bold_style, color_style, colored, dim_style, dimmed, line_v, lines_v, plain,
    plain_style, push_line, push_span, span, span_of, Color, Span, Style,
};
use crate::text::{chars_of, decimal, signed_decimal, str_equal, string_from_chars, u64_text, i64_text};
use crate::tools::restart::RestartRequest;
use crate::tools::logs::StopRequest;
use crate::validation::{project_name_error, validate_project_name};

verus! {

/// The PID text of a process: its number, or `N/A`.
pub open spec fn pid_or_na(pid: Option<u32>) -> Seq<char> {
    match pid {
        Some(p) => decimal(p as nat),
        None => "N/A"@,
    }
}

/// The PID text of a process: its number, or `N/A`.
pub fn pid_text(pid: Option<u32>) -> (r: String)
    ensures
        r@ == pid_or_na(pid),
{
    match pid {
        Some(p) => u64_text(p as u64),
        None => String::from_str("N/A"),
    }
}

/// A streamed log line as the commands echo it: indented and dimmed.
pub fn echoed_log_line(content: &str) -> (r: Vec<Span>)
    ensures
        line_v(r) == seq![("  "@, plain()), (content@, dimmed())],
{
    let mut l: Vec<Span> = Vec::new();
    push_span(&mut l, span("  ", plain_style()));
    push_span(&mut l, span(content, dim_style()));
    assert(line_v(l) =~= seq![("  "@, plain()), (content@, dimmed())]);
    l
}

/// The restart command: a process, and optionally its project.
#[derive(Debug)]
pub struct RestartCommand {
    pub name: String,
    pub project: Option<String>,
}

/// The lines printed for the process a restart reported: a failure notice
/// with its exit code and reason (when both are known) and its last error
/// lines; or the success notice with the process's name, id and PID.
pub open spec fn restart_report_lines(p: ProcessInfo) -> Seq<Seq<(Seq<char>, Style)>> {
    if p.status == STATUS_FAILED {
        seq![
            seq![
                ("✗"@, colored(Color::Red)),
                (" Process '"@ + p.name@ + "' failed to restart"@, plain()),
            ],
        ] + (if p.exit_code is Some && p.exit_reason is Some {
            seq![
                seq![("  Exit code: "@ + signed_decimal(p.exit_code->0 as int), plain())],
                seq![("  Reason: "@ + p.exit_reason->0@, plain())],
            ]
        } else {
            Seq::empty()
        }) + (match p.stderr_tail {
            Some(t) => if t@.len() > 0 {
                seq![seq![("  Recent logs:"@, plain())]] + lines(t@).map_values(
                    |l: Seq<char>| seq![("    "@, plain()), (l, dimmed())],
                )
            } else {
                Seq::empty()
            },
            None => Seq::empty(),
        })
    } else {
        seq![
            seq![("✓"@, colored(Color::Green)), (" Process restarted successfully"@, plain())],
            seq![("  Name: "@, plain()), (p.name@, colored(Color::BrightWhite))],
            seq![("  ID: "@ + p.id@, plain())],
            seq![("  PID: "@ + pid_or_na(p.pid), plain())],
        ]
    }
}

impl RestartCommand {
    /// The request: the process of the chosen project (the given one, else
    /// the current directory's), with no log wait.
    pub fn request(&self, cwd_project: Option<String>) -> (r: Result<RestartRequest, String>)
        ensures
            match self.project {
                Some(p) => r matches Ok(q) && q.project@ == p@,
                None => match cwd_project {
                    Some(c) => r matches Ok(q) && q.project@ == c@,
                    None => r matches Err(e) && e@ == "Unable to determine project name from current directory"@,
                },
            },
            r matches Ok(q) ==> (q.name@ == self.name@ && q.wait_for_log is None && q.wait_timeout is None),
    {
        let project = match &self.project {
            Some(p) => Some(p.clone()),
            None => None,
        };
        match resolve_project_name(project, cwd_project) {
            Ok(p) => Ok(
                RestartRequest { name: self.name.clone(), project: p, wait_for_log: None, wait_timeout: None },
            ),
            Err(e) => Err(e),
        }
    }

    /// The line printed before restarting.
    pub fn announcement(&self) -> (r: String)
        ensures
            r@ == "Restarting process '"@ + self.name@ + "'..."@,
    {
        let mut s = String::from_str("Restarting process '");
        s.append(self.name.as_str());
        s.append("'...");
        s
    }

    /// How long the restart may take, in seconds.
    pub fn timeout_secs(&self) -> (r: u64)
        ensures
            r == 35,
    {
        35
    }

    /// The lines printed for the answer, and the command's outcome: without
    /// a process, a failure; for a failed process, a failure naming its exit
    /// code (-1 when unknown); else success.
    pub fn report(&self, process: Option<&ProcessInfo>) -> (r: (Vec<Vec<Span>>, Result<(), String>))
        ensures
            match process {
                None => lines_v(r.0@) == seq![
                    seq![("✗"@, colored(Color::Red)), (" Failed to restart process"@, plain())],
                ] && (r.1 matches Err(e) && e@
                    == "No process info received - process may have failed to restart"@),
                Some(p) => lines_v(r.0@) == restart_report_lines(*p) && (if p.status == STATUS_FAILED {
                    (r.1 matches Err(e) && e@ == "Process failed with exit code: "@ + signed_decimal(
                        match p.exit_code {
                            Some(c) => c as int,
                            None => -1,
                        },
                    ))
                } else {
                    r.1 is Ok
                }),
            },
    {
        let mut out: Vec<Vec<Span>> = Vec::new();
        match process {
            None => {
                let mut l: Vec<Span> = Vec::new();
                push_span(&mut l, span("✗", color_style(Color::Red)));
                push_span(&mut l, span(" Failed to restart process", plain_style()));
                push_line(&mut out, l);
                assert(lines_v(out@) =~~= seq![
                    seq![("✗"@, colored(Color::Red)), (" Failed to restart process"@, plain())],
                ]);
                (out, Err(String::from_str("No process info received - process may have failed to restart")))
            },
            Some(p) => {
                if p.status == STATUS_FAILED {
                    let mut l: Vec<Span> = Vec::new();
                    push_span(&mut l, span("✗", color_style(Color::Red)));
                    let mut t = String::from_str(" Process '");
                    t.append(p.name.as_str());
                    t.append("' failed to restart");
                    push_span(&mut l, span_of(t, plain_style()));
                    push_line(&mut out, l);
                    let ghost first = lines_v(out@);
                    match (p.exit_code, &p.exit_reason) {
                        (Some(c), Some(reason)) => {
                            let mut a = String::from_str("  Exit code: ");
                            crate::text::push_signed_decimal(&mut a, c as i64);
                            let mut la: Vec<Span> = Vec::new();
                            push_span(&mut la, span_of(a, plain_style()));
                            push_line(&mut out, la);
                            let mut b = String::from_str("  Reason: ");
                            b.append(reason.as_str());
                            let mut lb: Vec<Span> = Vec::new();
                            push_span(&mut lb, span_of(b, plain_style()));
                            push_line(&mut out, lb);
                        },
                        _ => {},
                    }
                    let ghost second = lines_v(out@);
                    match &p.stderr_tail {
                        Some(tail) => {
                            if !tail.as_str().is_empty() {
                                let mut h: Vec<Span> = Vec::new();
                                push_span(&mut h, span("  Recent logs:", plain_style()));
                                push_line(&mut out, h);
                                let ls = split_lines(tail.as_str());
                                let ghost all = lines(tail@);
                                let ghost head = lines_v(out@);
                                let mut i: usize = 0;
                                while i < ls.len()
                                    invariant
                                        i <= ls.len() == all.len(),
                                        forall|j: int| 0 <= j < ls.len() ==> #[trigger] ls[j]@ == all[j],
                                        lines_v(out@) == head + all.take(i as int).map_values(
                                            |l: Seq<char>| seq![("    "@, plain()), (l, dimmed())],
                                        ),
                                    decreases ls.len() - i,
                                {
                                    let mut l: Vec<Span> = Vec::new();
                                    push_span(&mut l, span("    ", plain_style()));
                                    push_span(&mut l, span(ls[i].as_str(), dim_style()));
                                    assert(line_v(l) =~= seq![("    "@, plain()), (all[i as int], dimmed())]);
                                    push_line(&mut out, l);
                                    assert(all.take(i + 1) =~= all.take(i as int).push(all[i as int]));
                                    assert(lines_v(out@) =~= head + all.take(i + 1).map_values(
                                        |l: Seq<char>| seq![("    "@, plain()), (l, dimmed())],
                                    ));
                                    i = i + 1;
                                }
                                assert(all.take(ls.len() as int) =~= all);
                            }
                        },
                        None => {},
                    }
                    assert(lines_v(out@) =~~= restart_report_lines(*p));
                    let code: i64 = match p.exit_code {
                        Some(c) => c as i64,
                        None => -1,
                    };
                    let mut e = String::from_str("Process failed with exit code: ");
                    crate::text::push_signed_decimal(&mut e, code);
                    (out, Err(e))
                } else {
                    let mut l1: Vec<Span> = Vec::new();
                    push_span(&mut l1, span("✓", color_style(Color::Green)));
                    push_span(&mut l1, span(" Process restarted successfully", plain_style()));
                    push_line(&mut out, l1);
                    let mut l2: Vec<Span> = Vec::new();
                    push_span(&mut l2, span("  Name: ", plain_style()));
                    push_span(&mut l2, span(p.name.as_str(), color_style(Color::BrightWhite)));
                    push_line(&mut out, l2);
                    let mut t3 = String::from_str("  ID: ");
                    t3.append(p.id.as_str());
                    let mut l3: Vec<Span> = Vec::new();
                    push_span(&mut l3, span_of(t3, plain_style()));
                    push_line(&mut out, l3);
                    let mut t4 = String::from_str("  PID: ");
                    let pt = pid_text(p.pid);
                    t4.append(pt.as_str());
                    let mut l4: Vec<Span> = Vec::new();
                    push_span(&mut l4, span_of(t4, plain_style()));
                    push_line(&mut out, l4);
                    assert(lines_v(out@) =~~= restart_report_lines(*p));
                    (out, Ok(()))
                }
            },
        }
    }

    /// The line printed when the restart request fails, and the error: the
    /// failure's display text.
    pub fn failure(&self, status: &RpcStatus) -> (r: (Vec<Span>, String))
        ensures
            line_v(r.0) == seq![
                ("✗"@, colored(Color::Red)),
                (" Failed to restart process: "@ + status.display@, plain()),
            ],
            r.1@ == status.display@,
    {
        let mut l: Vec<Span> = Vec::new();
        push_span(&mut l, span("✗", color_style(Color::Red)));
        let mut t = String::from_str(" Failed to restart process: ");
        t.append(status.display.as_str());
        push_span(&mut l, span_of(t, plain_style()));
        assert(line_v(l) =~= seq![
            ("✗"@, colored(Color::Red)),
            (" Failed to restart process: "@ + status.display@, plain()),
        ]);
        (l, status.display.clone())
    }
}

/// The terminal style of a status highlight.
pub open spec fn status_span_style(st: StatusStyle) -> Style {
    match st {
        StatusStyle::White => colored(Color::White),
        StatusStyle::Yellow => colored(Color::Yellow),
        StatusStyle::Green => colored(Color::Green),
        StatusStyle::Red => colored(Color::Red),
        StatusStyle::RedBold => bold_colored(Color::Red),
    }
}

/// The status of a code as a styled span: its name in its highlight.
pub fn status_span(code: i32) -> (r: Span)
    ensures
        r.text@ == status_text(code),
        r.style == status_span_style(status_style(status_or_unknown(code as int))),
{
    let (text, st) = crate::status::format_status_colored(code);
    let style = match st {
        StatusStyle::White => color_style(Color::White),
        StatusStyle::Yellow => color_style(Color::Yellow),
        StatusStyle::Green => color_style(Color::Green),
        StatusStyle::Red => color_style(Color::Red),
        StatusStyle::RedBold => bold_style(Color::Red),
    };
    Span { text, style }
}

/// Index of the first `=` in `s`, or its length.
pub open spec fn equals_at(s: Seq<char>) -> nat
    decreases s.len(),
{
    if s.len() == 0 || s[0] == '=' {
        0
    } else {
        1 + equals_at(s.drop_first())
    }
}

/// The variable an environment assignment `KEY=VALUE` sets (split at the
/// first `=`), or none without one.
pub open spec fn env_assignment(s: Seq<char>) -> Option<(Seq<char>, Seq<char>)> {
    let k = equals_at(s);
    if k < s.len() {
        Some((s.take(k as int), s.skip(k + 1int)))
    } else {
        None
    }
}

/// The view of a list of variables.
pub open spec fn pairs_v(v: Seq<(String, String)>) -> Seq<(Seq<char>, Seq<char>)> {
    v.map_values(|kv: (String, String)| (kv.0@, kv.1@))
}

/// The texts of a list of strings.
pub open spec fn texts_v(v: Seq<String>) -> Seq<Seq<char>> {
    v.map_values(|t: String| t@)
}

/// The environment the assignments make: each variable set to the value of
/// its last assignment.
pub open spec fn env_map(env: Seq<String>) -> Map<Seq<char>, Seq<char>>
    decreases env.len(),
{
    if env.len() == 0 {
        Map::empty()
    } else {
        match env_assignment(env.last()@) {
            Some((k, v)) => env_map(env.drop_last()).insert(k, v),
            None => env_map(env.drop_last()),
        }
    }
}

/// The map of a list of variables, later entries winning.
pub open spec fn pairs_map(ps: Seq<(Seq<char>, Seq<char>)>) -> Map<Seq<char>, Seq<char>>
    decreases ps.len(),
{
    if ps.len() == 0 {
        Map::empty()
    } else {
        pairs_map(ps.drop_last()).insert(ps.last().0, ps.last().1)
    }
}

/// No variable occurs twice in the list.
pub open spec fn keys_distinct(ps: Seq<(Seq<char>, Seq<char>)>) -> bool {
    forall|i: int, j: int| 0 <= i < j < ps.len() ==> #[trigger] ps[i].0 != #[trigger] ps[j].0
}

/// A variable is in the map of a list exactly when some entry names it.
proof fn lemma_pairs_map_dom(ps: Seq<(Seq<char>, Seq<char>)>, k: Seq<char>)
    ensures
        pairs_map(ps).dom().contains(k) <==> exists|i: int| 0 <= i < ps.len() && #[trigger] ps[i].0 == k,
    decreases ps.len(),
{
    if ps.len() > 0 {
        lemma_pairs_map_dom(ps.drop_last(), k);
        if exists|i: int| 0 <= i < ps.drop_last().len() && #[trigger] ps.drop_last()[i].0 == k {
            let i = choose|i: int| 0 <= i < ps.drop_last().len() && #[trigger] ps.drop_last()[i].0 == k;
            assert(ps[i].0 == k);
        }
        if exists|i: int| 0 <= i < ps.len() && #[trigger] ps[i].0 == k {
            let i = choose|i: int| 0 <= i < ps.len() && #[trigger] ps[i].0 == k;
            if i < ps.len() - 1 {
                assert(ps.drop_last()[i].0 == k);
            }
        }
    }
}

/// Setting the value of a variable that the list names once gives the map
/// with that variable set.
proof fn lemma_pairs_map_update(ps: Seq<(Seq<char>, Seq<char>)>, j: int, v: Seq<char>)
    requires
        keys_distinct(ps),
        0 <= j < ps.len(),
    ensures
        pairs_map(ps.update(j, (ps[j].0, v))) == pairs_map(ps).insert(ps[j].0, v),
    decreases ps.len(),
{
    let k = ps[j].0;
    let u = ps.update(j, (k, v));
    if j == ps.len() - 1 {
        assert(u.drop_last() =~= ps.drop_last());
        assert(pairs_map(u) =~= pairs_map(ps).insert(k, v));
    } else {
        let d = ps.drop_last();
        assert(keys_distinct(d)) by {
            assert forall|a: int, b: int| 0 <= a < b < d.len() implies #[trigger] d[a].0 != #[trigger] d[b].0 by {
                assert(ps[a].0 != ps[b].0);
            }
        }
        lemma_pairs_map_update(d, j, v);
        assert(u.drop_last() =~= d.update(j, (k, v)));
        assert(u.last() == ps.last());
        assert(ps.last().0 != k) by {
            assert(ps[j].0 != ps[ps.len() - 1].0);
        }
        assert(pairs_map(u) =~= pairs_map(ps).insert(k, v));
    }
}

/// Splits an environment assignment at its first `=`.
pub fn split_assignment(s: &str) -> (r: Option<(String, String)>)
    ensures
        match env_assignment(s@) {
            Some((k, v)) => r matches Some((a, b)) && a@ == k && b@ == v,
            None => r is None,
        },
{
    let v = chars_of(s);
    let mut i: usize = 0;
    assert(v@.skip(0) =~= v@);
    while i < v.len() && v[i] != '='
        invariant
            i <= v.len(),
            v@ == s@,
            equals_at(s@) == i + equals_at(v@.skip(i as int)),
        decreases v.len() - i,
    {
        assert(v@.skip(i as int).drop_first() =~= v@.skip(i + 1));
        i = i + 1;
    }
    if i == v.len() {
        return None;
    }
    let k = string_from_chars(&v, 0, i);
    let val = string_from_chars(&v, i + 1, v.len());
    assert(k@ =~= s@.take(i as int));
    assert(val@ =~= s@.skip(i + 1));
    Some((k, val))
}

/// The start command of the command line.
#[derive(Debug)]
pub struct StartCommand {
    pub name: String,
    pub cmd: Option<String>,
    pub args: Option<Vec<String>>,
    pub cwd: Option<String>,
    pub project: Option<String>,
    pub env: Vec<String>,
    pub wait_for_log: Option<String>,
    pub wait_timeout: u32,
}

/// What the start command asks the daemon.
#[derive(Debug)]
pub struct CliStartRequest {
    pub name: String,
    pub cmd: Option<String>,
    pub args: Vec<String>,
    pub cwd: Option<String>,
    pub project: String,
    pub env: Vec<(String, String)>,
    pub wait_for_log: Option<String>,
    pub wait_timeout: Option<u32>,
}

impl StartCommand {
    /// The variables the command's assignments set, each once, with the
    /// value of its last assignment (in the order they first appear).
    pub fn env_pairs(&self) -> (r: Vec<(String, String)>)
        ensures
            keys_distinct(pairs_v(r@)),
            pairs_map(pairs_v(r@)) == env_map(self.env@),
    {
        let mut r: Vec<(String, String)> = Vec::new();
        let mut i: usize = 0;
        while i < self.env.len()
            invariant
                i <= self.env.len(),
                keys_distinct(pairs_v(r@)),
                pairs_map(pairs_v(r@)) == env_map(self.env@.take(i as int)),
            decreases self.env.len() - i,
        {
            let ghost before = pairs_v(r@);
            let ghost t = self.env@.take(i + 1);
            proof {
                assert(t.drop_last() =~= self.env@.take(i as int));
                assert(t.last() == self.env@[i as int]);
            }
            match split_assignment(self.env[i].as_str()) {
                Some(kv) => {
                    let ghost k = kv.0@;
                    let ghost v = kv.1@;
                    let mut j: usize = 0;
                    while j < r.len() && !str_equal(r[j].0.as_str(), kv.0.as_str())
                        invariant
                            j <= r.len(),
                            pairs_v(r@) == before,
                            kv.0@ == k,
                            forall|m: int| 0 <= m < j ==> #[trigger] pairs_v(r@)[m].0 != k,
                        decreases r.len() - j,
                    {
                        j = j + 1;
                    }
                    if j < r.len() {
                        r.set(j, kv);
                        proof {
                            assert(pairs_v(r@) =~= before.update(j as int, (before[j as int].0, v)));
                            lemma_pairs_map_update(before, j as int, v);
                            assert forall|a: int, b: int| 0 <= a < b < pairs_v(r@).len() implies
                                #[trigger] pairs_v(r@)[a].0 != #[trigger] pairs_v(r@)[b].0 by {
                                assert(before[a].0 != before[b].0);
                            }
                        }
                    } else {
                        r.push(kv);
                        proof {
                            assert(pairs_v(r@) =~= before.push((k, v)));
                            assert(pairs_v(r@).drop_last() =~= before);
                            assert forall|a: int, b: int| 0 <= a < b < pairs_v(r@).len() implies
                                #[trigger] pairs_v(r@)[a].0 != #[trigger] pairs_v(r@)[b].0 by {
                                if b < before.len() {
                                    assert(before[a].0 != before[b].0);
                                }
                            }
                        }
                    }
                },
                None => {},
            }
            proof {
                assert(pairs_map(pairs_v(r@)) =~= env_map(t));
            }
            i = i + 1;
        }
        assert(self.env@.take(self.env.len() as int) =~= self.env@);
        r
    }

    /// The request: refused without a command or arguments, or without a
    /// project (the given one, else the current directory's).
    pub fn request(&self, cwd_project: Option<String>) -> (r: Result<CliStartRequest, String>)
        ensures
            (self.cmd is None && self.args is None) ==> (r matches Err(e) && e@
                == "Must provide either --cmd or --args"@),
            !(self.cmd is None && self.args is None) ==> match self.project {
                Some(p) => r matches Ok(q) && q.project@ == p@,
                None => match cwd_project {
                    Some(c) => r matches Ok(q) && q.project@ == c@,
                    None => r matches Err(e) && e@
                        == "Unable to determine project name from current directory"@,
                },
            },
            r matches Ok(q) ==> {
                &&& q.name@ == self.name@
                &&& crate::mcp::protocol::opt_text(q.cmd) == crate::mcp::protocol::opt_text(self.cmd)
                &&& texts_v(q.args@) == match self.args {
                    Some(a) => texts_v(a@),
                    None => Seq::empty(),
                }
                &&& crate::mcp::protocol::opt_text(q.cwd) == crate::mcp::protocol::opt_text(self.cwd)
                &&& keys_distinct(pairs_v(q.env@))
                &&& pairs_map(pairs_v(q.env@)) == env_map(self.env@)
                &&& crate::mcp::protocol::opt_text(q.wait_for_log) == crate::mcp::protocol::opt_text(
                    self.wait_for_log,
                )
                &&& q.wait_timeout == Some(self.wait_timeout)
            },
    {
        let env = self.env_pairs();
        if self.cmd.is_none() && self.args.is_none() {
            return Err(String::from_str("Must provide either --cmd or --args"));
        }
        let project = match &self.project {
            Some(p) => Some(p.clone()),
            None => None,
        };
        let project = match resolve_project_name(project, cwd_project) {
            Ok(p) => p,
            Err(e) => {
                return Err(e);
            },
        };
        let cmd = match &self.cmd {
            Some(c) => Some(c.clone()),
            None => None,
        };
        let mut args: Vec<String> = Vec::new();
        match &self.args {
            Some(a) => {
                let mut i: usize = 0;
                while i < a.len()
                    invariant
                        i <= a.len(),
                        texts_v(args@) == texts_v(a@.take(i as int)),
                    decreases a.len() - i,
                {
                    let c = a[i].clone();
                    assert(c@ == a@[i as int]@);
                    let ghost old_args = args@;
                    args.push(c);
                    assert(texts_v(args@) =~= texts_v(old_args).push(c@));
                    assert(a@.take(i + 1) =~= a@.take(i as int).push(a@[i as int]));
                    assert(texts_v(args@) =~= texts_v(a@.take(i + 1)));
                    i = i + 1;
                }
                assert(a@.take(a.len() as int) =~= a@);
            },
            None => {},
        }
        let cwd = match &self.cwd {
            Some(c) => Some(c.clone()),
            None => None,
        };
        let wait_for_log = match &self.wait_for_log {
            Some(w) => Some(w.clone()),
            None => None,
        };
        Ok(
            CliStartRequest {
                name: self.name.clone(),
                cmd,
                args,
                cwd,
                project,
                env,
                wait_for_log,
                wait_timeout: Some(self.wait_timeout),
            },
        )
    }

    /// How long the start may take, in seconds: the log wait and five more.
    pub fn timeout_secs(&self) -> (r: u64)
        requires
            self.wait_timeout <= u32::MAX - 5,
        ensures
            r == self.wait_timeout + 5,
    {
        (self.wait_timeout + 5) as u64
    }

    /// A streamed log line is echoed only when a log pattern is awaited.
    pub fn log_line(&self, content: &str) -> (r: Option<Vec<Span>>)
        ensures
            self.wait_for_log is Some ==> (r matches Some(l) && line_v(l) == seq![
                ("  "@, plain()),
                (content@, dimmed()),
            ]),
            self.wait_for_log is None ==> r is None,
    {
        if self.wait_for_log.is_some() {
            Some(echoed_log_line(content))
        } else {
            None
        }
    }

    /// The lines printed when the process started.
    pub fn success_lines(&self, project: &str, p: &ProcessInfo) -> (r: Vec<Vec<Span>>)
        ensures
            lines_v(r@) == seq![
                seq![("✓"@, colored(Color::Green)), (" Process started successfully"@, plain())],
                seq![("  Project: "@, plain()), (project@, colored(Color::BrightWhite))],
                seq![("  Name: "@, plain()), (p.name@, colored(Color::BrightWhite))],
                seq![("  ID: "@ + p.id@, plain())],
                seq![("  PID: "@ + pid_or_na(p.pid), plain())],
                seq![
                    ("  Status: "@, plain()),
                    (status_text(p.status), status_span_style(status_style(status_or_unknown(p.status as int)))),
                ],
                seq![("  Log file: "@, plain()), (p.log_file@, dimmed())],
            ] + (if self.wait_for_log is Some {
                seq![
                    seq![
                        ("  "@, plain()),
                        ("✓"@, colored(Color::Green)),
                        (" Process is ready (log pattern matched)"@, plain()),
                    ],
                ]
            } else {
                Seq::empty()
            }),
    {
        let mut out: Vec<Vec<Span>> = Vec::new();
        let mut l: Vec<Span> = Vec::new();
        push_span(&mut l, span("✓", color_style(Color::Green)));
        push_span(&mut l, span(" Process started successfully", plain_style()));
        push_line(&mut out, l);
        let mut l: Vec<Span> = Vec::new();
        push_span(&mut l, span("  Project: ", plain_style()));
        push_span(&mut l, span(project, color_style(Color::BrightWhite)));
        push_line(&mut out, l);
        let mut l: Vec<Span> = Vec::new();
        push_span(&mut l, span("  Name: ", plain_style()));
        push_span(&mut l, span(p.name.as_str(), color_style(Color::BrightWhite)));
        push_line(&mut out, l);
        let mut t = String::from_str("  ID: ");
        t.append(p.id.as_str());
        let mut l: Vec<Span> = Vec::new();
        push_span(&mut l, span_of(t, plain_style()));
        push_line(&mut out, l);
        let mut t = String::from_str("  PID: ");
        let pt = pid_text(p.pid);
        t.append(pt.as_str());
        let mut l: Vec<Span> = Vec::new();
        push_span(&mut l, span_of(t, plain_style()));
        push_line(&mut out, l);
        let mut l: Vec<Span> = Vec::new();
        push_span(&mut l, span("  Status: ", plain_style()));
        push_span(&mut l, status_span(p.status));
        push_line(&mut out, l);
        let mut l: Vec<Span> = Vec::new();
        push_span(&mut l, span("  Log file: ", plain_style()));
        push_span(&mut l, span(p.log_file.as_str(), dim_style()));
        push_line(&mut out, l);
        if self.wait_for_log.is_some() {
            let mut l: Vec<Span> = Vec::new();
            push_span(&mut l, span("  ", plain_style()));
            push_span(&mut l, span("✓", color_style(Color::Green)));
            push_span(&mut l, span(" Process is ready (log pattern matched)", plain_style()));
            push_line(&mut out, l);
        }
        assert(lines_v(out@) =~~= seq![
            seq![("✓"@, colored(Color::Green)), (" Process started successfully"@, plain())],
            seq![("  Project: "@, plain()), (project@, colored(Color::BrightWhite))],
            seq![("  Name: "@, plain()), (p.name@, colored(Color::BrightWhite))],
            seq![("  ID: "@ + p.id@, plain())],
            seq![("  PID: "@ + pid_or_na(p.pid), plain())],
            seq![
                ("  Status: "@, plain()),
                (status_text(p.status), status_span_style(status_style(status_or_unknown(p.status as int)))),
            ],
            seq![("  Log file: "@, plain()), (p.log_file@, dimmed())],
        ] + (if self.wait_for_log is Some {
            seq![
                seq![
                    ("  "@, plain()),
                    ("✓"@, colored(Color::Green)),
                    (" Process is ready (log pattern matched)"@, plain()),
                ],
            ]
        } else {
            Seq::empty()
        }));
        out
    }

    /// The lines printed when the start request fails, and the error (the
    /// failure's display text): for a process that already runs, hints to
    /// list or restart it.
    pub fn failure(&self, status: &RpcStatus) -> (r: (Vec<Vec<Span>>, String))
        ensures
            r.1@ == status.display@,
            status.code == CODE_ALREADY_EXISTS ==> lines_v(r.0@) == seq![
                seq![
                    ("!"@, colored(Color::Yellow)),
                    (" Process '"@ + self.name@ + "' is already running"@, plain()),
                ],
                seq![("  Use 'mcproc ps' to see the running process"@, plain())],
                seq![("  Use 'mcproc restart "@ + self.name@ + "' to restart it"@, plain())],
            ],
            status.code != CODE_ALREADY_EXISTS ==> lines_v(r.0@) == seq![
                seq![
                    ("✗"@, colored(Color::Red)),
                    (" Failed to start process: "@ + status.message@, plain()),
                ],
            ],
    {
        let mut out: Vec<Vec<Span>> = Vec::new();
        if status.code == CODE_ALREADY_EXISTS {
            let mut t = String::from_str(" Process '");
            t.append(self.name.as_str());
            t.append("' is already running");
            let mut l: Vec<Span> = Vec::new();
            push_span(&mut l, span("!", color_style(Color::Yellow)));
            push_span(&mut l, span_of(t, plain_style()));
            push_line(&mut out, l);
            let mut l: Vec<Span> = Vec::new();
            push_span(&mut l, span("  Use 'mcproc ps' to see the running process", plain_style()));
            push_line(&mut out, l);
            let mut t = String::from_str("  Use 'mcproc restart ");
            t.append(self.name.as_str());
            t.append("' to restart it");
            let mut l: Vec<Span> = Vec::new();
            push_span(&mut l, span_of(t, plain_style()));
            push_line(&mut out, l);
            assert(lines_v(out@) =~~= seq![
                seq![
                    ("!"@, colored(Color::Yellow)),
                    (" Process '"@ + self.name@ + "' is already running"@, plain()),
                ],
                seq![("  Use 'mcproc ps' to see the running process"@, plain())],
                seq![("  Use 'mcproc restart "@ + self.name@ + "' to restart it"@, plain())],
            ]);
        } else {
            let mut t = String::from_str(" Failed to start process: ");
            t.append(status.message.as_str());
            let mut l: Vec<Span> = Vec::new();
            push_span(&mut l, span("✗", color_style(Color::Red)));
            push_span(&mut l, span_of(t, plain_style()));
            push_line(&mut out, l);
            assert(lines_v(out@) =~~= seq![
                seq![
                    ("✗"@, colored(Color::Red)),
                    (" Failed to start process: "@ + status.message@, plain()),
                ],
            ]);
        }
        (out, status.display.clone())
    }
}

/// The stop command: a process, its project, and whether to kill it.
#[derive(Debug)]
pub struct StopCommand {
    pub name: String,
    pub project: Option<String>,
    pub force: bool,
}

impl StopCommand {
    /// The request: the process of the chosen project (the given one, else
    /// the current directory's), forced or not as asked.
    pub fn request(&self, cwd_project: Option<String>) -> (r: Result<StopRequest, String>)
        ensures
            match self.project {
                Some(p) => r matches Ok(q) && q.project@ == p@,
                None => match cwd_project {
                    Some(c) => r matches Ok(q) && q.project@ == c@,
                    None => r matches Err(e) && e@ == "Unable to determine project name from current directory"@,
                },
            },
            r matches Ok(q) ==> (q.name@ == self.name@ && q.force == Some(self.force)),
    {
        let project = match &self.project {
            Some(p) => Some(p.clone()),
            None => None,
        };
        match resolve_project_name(project, cwd_project) {
            Ok(p) => Ok(StopRequest { name: self.name.clone(), force: Some(self.force), project: p }),
            Err(e) => Err(e),
        }
    }

    /// The line printed for the daemon's answer: success, or the failure
    /// with its message (`Unknown error` when there is none).
    pub fn outcome(&self, success: bool, message: Option<String>) -> (r: Vec<Span>)
        ensures
            success ==> line_v(r) == seq![
                ("✓"@, colored(Color::Green)),
                (" Process '"@ + self.name@ + "' stopped successfully"@, plain()),
            ],
            !success ==> line_v(r) == seq![
                ("✗"@, colored(Color::Red)),
                (" Failed to stop process '"@ + self.name@ + "': "@ + match message {
                    Some(m) => m@,
                    None => "Unknown error"@,
                }, plain()),
            ],
    {
        let mut l: Vec<Span> = Vec::new();
        if success {
            let mut t = String::from_str(" Process '");
            t.append(self.name.as_str());
            t.append("' stopped successfully");
            push_span(&mut l, span("✓", color_style(Color::Green)));
            push_span(&mut l, span_of(t, plain_style()));
        } else {
            let mut t = String::from_str(" Failed to stop process '");
            t.append(self.name.as_str());
            t.append("': ");
            match message {
                Some(m) => t.append(m.as_str()),
                None => t.append("Unknown error"),
            }
            push_span(&mut l, span("✗", color_style(Color::Red)));
            push_span(&mut l, span_of(t, plain_style()));
        }
        l
    }
}

/// The process listing command, optionally filtered by status.
#[derive(Debug)]
pub struct PsCommand {
    pub status: Option<String>,
}

/// A row of the process table.
#[derive(Debug)]
pub struct ProcessRow {
    pub project: String,
    pub name: String,
    pub pid: String,
    pub status: String,
    pub ports: String,
    pub cmd: String,
}

/// The row of a process: its project and name, its PID (or `-`), status,
/// ports, and command cut to forty characters.
pub open spec fn row_of(p: ProcessInfo, r: ProcessRow) -> bool {
    &&& r.project@ == p.project@
    &&& r.name@ == p.name@
    &&& r.pid@ == (match p.pid {
        Some(x) => decimal(x as nat),
        None => "-"@,
    })
    &&& r.status@ == status_text(p.status)
    &&& r.ports@ == ports_column(p.ports@)
    &&& r.cmd@ == truncated(p.cmd@, 40)
}

/// Law: the PID cell of a process row is a run of digits that reads as the
/// process's PID when it has one, and `-` only when it has none.
pub proof fn row_pid_reads_as_the_pid(p: ProcessInfo, r: ProcessRow)
    requires
        row_of(p, r),
    ensures
        match p.pid {
            Some(x) => crate::text::all_digits(r.pid@) && crate::text::digits_value(r.pid@) == x,
            None => r.pid@ == "-"@,
        },
{
    match p.pid {
        Some(x) => crate::text::decimal_reads_back(x as nat),
        None => {},
    }
}

/// The cells of a table row.
pub open spec fn record_view(r: Vec<String>) -> Seq<Seq<char>> {
    r@.map_values(|c: String| c@)
}

/// The cells of the rows of a table.
pub open spec fn records_view(rs: Seq<Vec<String>>) -> Seq<Seq<Seq<char>>> {
    rs.map_values(|r: Vec<String>| record_view(r))
}

/// The text `tabled` draws for the rows (the first one as the header), in
/// its default style.
pub uninterp spec fn table_rendering(records: Seq<Seq<Seq<char>>>) -> Seq<char>;

/// `tabled`'s `Builder::from` the rows, `build`, and its text: the result is
/// [`table_rendering`] of the rows.
#[verifier::external_body]
fn render_table(records: Vec<Vec<String>>) -> (r: String)
    ensures
        r@ == table_rendering(records_view(records@)),
{
    tabled::builder::Builder::from(records).build().to_string()
}

/// The header of the process table.
pub open spec fn ps_header() -> Seq<Seq<char>> {
    seq!["PROJECT"@, "NAME"@, "PID"@, "STATUS"@, "PORTS"@, "COMMAND"@]
}

/// The cells of a process row, in the header's order.
pub open spec fn row_cells(r: ProcessRow) -> Seq<Seq<char>> {
    seq![r.project@, r.name@, r.pid@, r.status@, r.ports@, r.cmd@]
}

fn cells(r: &ProcessRow) -> (v: Vec<String>)
    ensures
        record_view(v) == row_cells(*r),
{
    let ghost c = row_cells(*r);
    let v = vec![
        r.project.clone(),
        r.name.clone(),
        r.pid.clone(),
        r.status.clone(),
        r.ports.clone(),
        r.cmd.clone(),
    ];
    assert(record_view(v) =~= c);
    v
}

fn header_cells() -> (v: Vec<String>)
    ensures
        record_view(v) == ps_header(),
{
    let v = vec![
        String::from_str("PROJECT"),
        String::from_str("NAME"),
        String::from_str("PID"),
        String::from_str("STATUS"),
        String::from_str("PORTS"),
        String::from_str("COMMAND"),
    ];
    assert(record_view(v) =~= ps_header());
    v
}

/// `rows` are the rows of the processes `ps`, one for one (see [`row_of`]).
pub open spec fn rows_of(ps: Seq<ProcessInfo>, rows: Seq<ProcessRow>) -> bool {
    rows.len() == ps.len() && forall|i: int| 0 <= i < rows.len() ==> row_of(#[trigger] ps[i], rows[i])
}

/// The process table for `rows`: the header, then the rows.
pub open spec fn ps_table_text(rows: Seq<ProcessRow>) -> Seq<char> {
    table_rendering(seq![ps_header()] + rows.map_values(|row: ProcessRow| row_cells(row)))
}

impl PsCommand {
    /// The status filter: none, or the code of the state named (any ASCII
    /// case); an unknown name is an error.
    pub fn status_filter(&self) -> (r: Result<Option<i32>, String>)
        ensures
            match self.status {
                None => r matches Ok(None),
                Some(s) => match status_named(s@) {
                    Some(st) => r matches Ok(Some(c)) && crate::status::status_of_code(c as int) == Some(st),
                    None => r matches Err(e) && e@ == "Invalid process status: "@ + s@,
                },
            },
    {
        match &self.status {
            None => Ok(None),
            Some(s) => match parse_status(s.as_str()) {
                Ok(c) => Ok(Some(c)),
                Err(e) => Err(e),
            },
        }
    }

    /// The note printed when no process runs.
    pub fn empty_note() -> (r: String)
        ensures
            r@ == "No processes running"@,
    {
        String::from_str("No processes running")
    }

    /// The table rows of the processes, in order.
    pub fn rows(processes: &Vec<ProcessInfo>) -> (r: Vec<ProcessRow>)
        ensures
            r.len() == processes.len(),
            forall|i: int| 0 <= i < r.len() ==> row_of(#[trigger] processes@[i], r@[i]),
    {
        let mut rows: Vec<ProcessRow> = Vec::new();
        let mut i: usize = 0;
        while i < processes.len()
            invariant
                i <= processes.len(),
                rows.len() == i,
                forall|k: int| 0 <= k < i ==> row_of(#[trigger] processes@[k], rows@[k]),
            decreases processes.len() - i,
        {
            let p = &processes[i];
            let pid = match p.pid {
                Some(x) => u64_text(x as u64),
                None => String::from_str("-"),
            };
            let row = ProcessRow {
                project: p.project.clone(),
                name: p.name.clone(),
                pid,
                status: status_string(p.status),
                ports: format_ports(p.ports.as_slice()),
                cmd: truncate(p.cmd.as_str(), 40),
            };
            rows.push(row);
            i = i + 1;
        }
        rows
    }

    /// The process table: the header, then one row per process (see
    /// [`row_of`]), as `tabled` draws it.
    pub fn table(processes: &Vec<ProcessInfo>) -> (r: String)
        ensures
            exists|rows: Seq<ProcessRow>|
                #[trigger] rows_of(processes@, rows) && r@ == ps_table_text(rows),
    {
        let rows = Self::rows(processes);
        let ghost rv = rows@;
        let mut records: Vec<Vec<String>> = Vec::new();
        records.push(header_cells());
        let mut i: usize = 0;
        while i < rows.len()
            invariant
                i <= rows.len(),
                rows@ == rv,
                records_view(records@) =~= seq![ps_header()] + rv.take(i as int).map_values(
                    |row: ProcessRow| row_cells(row),
                ),
            decreases rows.len() - i,
        {
            let c = cells(&rows[i]);
            let ghost before = records@;
            records.push(c);
            assert(records_view(records@) =~= records_view(before).push(row_cells(rv[i as int])));
            assert(rv.take(i + 1) =~= rv.take(i as int).push(rv[i as int]));
            assert(rv.take(i + 1).map_values(|row: ProcessRow| row_cells(row)) =~= rv.take(
                i as int,
            ).map_values(|row: ProcessRow| row_cells(row)).push(row_cells(rv[i as int])));
            i = i + 1;
        }
        assert(rv.take(rv.len() as int) =~= rv);
        assert(rows_of(processes@, rv));
        render_table(records)
    }
}

/// The version command.
#[derive(Debug)]
pub struct VersionCommand {}

impl VersionCommand {
    /// The line printed: the program's name and version.
    pub fn line(&self, version: &str) -> (r: String)
        ensures
            r@ == "mcproc "@ + version@,
    {
        let mut s = String::from_str("mcproc ");
        s.append(version);
        s
    }
}

/// The subcommands of the MCP command.
#[derive(Debug)]
pub enum McpSubcommand {
    /// Serve MCP over standard input and output, optionally with a default
    /// project for every call.
    Serve { project: Option<String> },
}

/// The MCP command.
#[derive(Debug)]
pub struct McpCommand {
    pub command: McpSubcommand,
}

impl McpCommand {
    /// The default project the server is started with: it must be a valid
    /// project name.
    pub fn default_project(&self) -> (r: Result<Option<String>, String>)
        ensures
            match self.command {
                McpSubcommand::Serve { project: None } => r matches Ok(None),
                McpSubcommand::Serve { project: Some(p) } => match project_name_error(p@) {
                    None => r matches Ok(Some(q)) && q@ == p@,
                    Some(e) => r matches Err(m) && m@ == e,
                },
            },
    {
        match &self.command {
            McpSubcommand::Serve { project: None } => Ok(None),
            McpSubcommand::Serve { project: Some(p) } => match validate_project_name(p.as_str()) {
                Ok(()) => Ok(Some(p.clone())),
                Err(e) => Err(e),
            },
        }
    }
}

/// The older MCP command: serve with a server name (`mcproc` by default).
#[derive(Debug)]
pub struct MpcCommand {
    pub name: String,
}

impl MpcCommand {
    /// The command with the default server name.
    pub fn new() -> (r: Self)
        ensures
            r.name@ == "mcproc"@,
    {
        MpcCommand { name: String::from_str("mcproc") }
    }
}

} // verus!
