//! Cleaning projects: what is asked of the daemon and how its answer is
//! reported.

use vstd::prelude::*;
use vstd::string::*;
use crate::project::resolve_project_name;
use crate::style::{
    bold_colored, bold_style, color_style, colored, dim_style, dimmed, line_v, lines_v, plain,
    plain_style, push_line, push_span, span, span_of, span_v, Color, Span, Style,
};
use crate::text::{decimal, u64_text};

verus! {

/// The clean command: every project, or one (by default the current
/// directory's); verbose output names what was stopped and deleted.
#[derive(Debug)]
pub struct CleanCommand {
    pub all_projects: bool,
    pub project: Option<String>,
    pub verbose: bool,
}

/// What the clean command asks the daemon.
#[derive(Debug)]
pub struct CleanRequest {
    pub project: Option<String>,
    pub all_projects: bool,
}

/// What was cleaned in one project.
#[derive(Debug)]
pub struct ProjectCleanResult {
    pub project: String,
    pub processes_stopped: u32,
    pub logs_deleted: u32,
    pub stopped_process_names: Vec<String>,
    pub deleted_log_files: Vec<String>,
}

/// The daemon's answer to a clean request.
#[derive(Debug)]
pub struct CleanResponse {
    pub processes_stopped: u32,
    pub logs_deleted: u32,
    pub stopped_process_names: Vec<String>,
    pub deleted_log_files: Vec<String>,
    pub project_results: Vec<ProjectCleanResult>,
}

/// The spans of a count summary: the processes stopped in yellow and the
/// logs deleted in red.
pub open spec fn counts(stopped: nat, deleted: nat) -> Seq<(Seq<char>, Style)> {
    seq![
        (decimal(stopped), colored(Color::Yellow)),
        (" processes stopped, "@, plain()),
        (decimal(deleted), colored(Color::Red)),
        (" logs deleted"@, plain()),
    ]
}

/// A titled list: nothing when there are no items; else the title, then
/// each item after `indent` in `color`.
pub open spec fn listing(title: Seq<char>, indent: Seq<char>, items: Seq<String>, color: Color) -> Seq<Seq<(Seq<char>, Style)>> {
    if items.len() == 0 {
        Seq::empty()
    } else {
        seq![seq![(title, plain())]] + items.map_values(
            |s: String| seq![(indent, plain()), (s@, colored(color))],
        )
    }
}

/// The lines of one project in the report of every project.
pub open spec fn project_lines(r: ProjectCleanResult, verbose: bool) -> Seq<Seq<(Seq<char>, Style)>> {
    seq![
        seq![
            ("  "@, plain()),
            ("•"@, colored(Color::Cyan)),
            (" "@, plain()),
            (r.project@, bold_colored(Color::Default)),
            (": "@, plain()),
        ] + counts(r.processes_stopped as nat, r.logs_deleted as nat),
    ] + (if verbose {
        listing("      Stopped processes:"@, "        - "@, r.stopped_process_names@, Color::Green)
            + listing("      Deleted logs:"@, "        - "@, r.deleted_log_files@, Color::Red)
    } else {
        Seq::empty()
    })
}

/// The lines of several projects, in order.
pub open spec fn projects_lines(rs: Seq<ProjectCleanResult>, verbose: bool) -> Seq<Seq<(Seq<char>, Style)>>
    decreases rs.len(),
{
    if rs.len() == 0 {
        Seq::empty()
    } else {
        projects_lines(rs.drop_last(), verbose) + project_lines(rs.last(), verbose)
    }
}

/// The processes stopped over several projects.
pub open spec fn total_stopped(rs: Seq<ProjectCleanResult>) -> nat
    decreases rs.len(),
{
    if rs.len() == 0 {
        0
    } else {
        total_stopped(rs.drop_last()) + rs.last().processes_stopped as nat
    }
}

/// The logs deleted over several projects.
pub open spec fn total_deleted(rs: Seq<ProjectCleanResult>) -> nat
    decreases rs.len(),
{
    if rs.len() == 0 {
        0
    } else {
        total_deleted(rs.drop_last()) + rs.last().logs_deleted as nat
    }
}

/// The report of cleaning every project: a note when there was none; else
/// each project's counts (and, verbosely, what was stopped and deleted),
/// then the totals after an empty line.
pub open spec fn all_projects_report(rs: Seq<ProjectCleanResult>, verbose: bool) -> Seq<Seq<(Seq<char>, Style)>> {
    if rs.len() == 0 {
        seq![seq![("No projects to clean"@, dimmed())]]
    } else {
        seq![seq![("Cleaning all projects:"@, bold_colored(Color::Default))]] + projects_lines(
            rs,
            verbose,
        ) + seq![
            Seq::empty(),
            seq![("Summary:"@, bold_colored(Color::Default))],
            seq![("  Total: "@, plain())] + counts(total_stopped(rs), total_deleted(rs)),
        ]
    }
}

/// The report of cleaning one project: a note when nothing was found; else
/// its counts and, verbosely, what was stopped and deleted.
pub open spec fn project_report(project: Seq<char>, resp: CleanResponse, verbose: bool) -> Seq<Seq<(Seq<char>, Style)>> {
    if resp.processes_stopped == 0 && resp.logs_deleted == 0 {
        seq![
            seq![
                ("No processes or logs found for project:"@, dimmed()),
                (" "@, plain()),
                (project, dimmed()),
            ],
        ]
    } else {
        seq![
            seq![
                ("Cleaned project"@, colored(Color::Green)),
                (" "@, plain()),
                (project, bold_colored(Color::Default)),
                (": "@, plain()),
            ] + counts(resp.processes_stopped as nat, resp.logs_deleted as nat),
        ] + (if verbose {
            listing("  Stopped processes:"@, "    - "@, resp.stopped_process_names@, Color::Green)
                + listing("  Deleted logs:"@, "    - "@, resp.deleted_log_files@, Color::Red)
        } else {
            Seq::empty()
        })
    }
}

/// Appends the count spans to `line`.
fn push_counts(line: &mut Vec<Span>, stopped: u64, deleted: u64)
    ensures
        line_v(*final(line)) == line_v(*old(line)) + counts(stopped as nat, deleted as nat),
{
    push_span(line, span_of(u64_text(stopped), color_style(Color::Yellow)));
    push_span(line, span(" processes stopped, ", plain_style()));
    push_span(line, span_of(u64_text(deleted), color_style(Color::Red)));
    push_span(line, span(" logs deleted", plain_style()));
    assert(line_v(*line) =~= line_v(*old(line)) + counts(stopped as nat, deleted as nat));
}

/// Appends a titled list (see [`listing`]) to `out`.
fn push_listing(out: &mut Vec<Vec<Span>>, title: &str, indent: &str, items: &Vec<String>, color: Color)
    ensures
        lines_v(final(out)@) == lines_v(old(out)@) + listing(title@, indent@, items@, color),
{
    if items.len() == 0 {
        assert(lines_v(out@) =~~= lines_v(old(out)@) + listing(title@, indent@, items@, color));
        return;
    }
    let mut t: Vec<Span> = Vec::new();
    push_span(&mut t, span(title, plain_style()));
    assert(line_v(t) =~= seq![(title@, plain())]);
    push_line(out, t);
    let ghost head = lines_v(out@);
    let mut i: usize = 0;
    while i < items.len()
        invariant
            i <= items.len(),
            lines_v(out@) == head + items@.take(i as int).map_values(
                |s: String| seq![(indent@, plain()), (s@, colored(color))],
            ),
        decreases items.len() - i,
    {
        let mut l: Vec<Span> = Vec::new();
        push_span(&mut l, span(indent, plain_style()));
        push_span(&mut l, span_of(items[i].clone(), color_style(color)));
        assert(line_v(l) =~= seq![(indent@, plain()), (items@[i as int]@, colored(color))]);
        let ghost before = out@;
        push_line(out, l);
        assert(items@.take(i + 1) =~= items@.take(i as int).push(items@[i as int]));
        assert(lines_v(out@) =~~= lines_v(before).push(line_v(l)));
        i = i + 1;
    }
    assert(items@.take(items.len() as int) =~= items@);
    assert(lines_v(out@) =~~= lines_v(old(out)@) + listing(title@, indent@, items@, color));
}

impl CleanCommand {
    /// The request: every project, or the chosen one (the given project,
    /// else the current directory's, else an error).
    pub fn request(&self, cwd_project: Option<String>) -> (r: Result<CleanRequest, String>)
        ensures
            self.all_projects ==> (r matches Ok(q) && q.project is None && q.all_projects),
            !self.all_projects ==> match self.project {
                Some(p) => r matches Ok(q) && q.project matches Some(j) && j@ == p@ && !q.all_projects,
                None => match cwd_project {
                    Some(c) => r matches Ok(q) && q.project matches Some(j) && j@ == c@ && !q.all_projects,
                    None => r matches Err(e) && e@ == "Unable to determine project name from current directory"@,
                },
            },
    {
        if self.all_projects {
            return Ok(CleanRequest { project: None, all_projects: true });
        }
        let project = match &self.project {
            Some(p) => Some(p.clone()),
            None => None,
        };
        match resolve_project_name(project, cwd_project) {
            Ok(p) => Ok(CleanRequest { project: Some(p), all_projects: false }),
            Err(e) => Err(e),
        }
    }

    /// The report of the daemon's answer (see [`all_projects_report`] and
    /// [`project_report`]); `project` is the project cleaned when not all
    /// were.
    pub fn report(&self, project: &str, resp: &CleanResponse) -> (r: Vec<Vec<Span>>)
        requires
            total_stopped(resp.project_results@) <= u64::MAX,
            total_deleted(resp.project_results@) <= u64::MAX,
        ensures
            lines_v(r@) == (if self.all_projects {
                all_projects_report(resp.project_results@, self.verbose)
            } else {
                project_report(project@, *resp, self.verbose)
            }),
    {
        let mut out: Vec<Vec<Span>> = Vec::new();
        if self.all_projects {
            let rs = &resp.project_results;
            if rs.len() == 0 {
                let mut l: Vec<Span> = Vec::new();
                push_span(&mut l, span("No projects to clean", dim_style()));
                push_line(&mut out, l);
                assert(lines_v(out@) =~~= all_projects_report(rs@, self.verbose));
                return out;
            }
            let mut l: Vec<Span> = Vec::new();
            push_span(&mut l, span("Cleaning all projects:", bold_style(Color::Default)));
            push_line(&mut out, l);
            let ghost head = lines_v(out@);
            let mut total_p: u64 = 0;
            let mut total_l: u64 = 0;
            let mut i: usize = 0;
            while i < rs.len()
                invariant
                    i <= rs.len(),
                    rs@ == resp.project_results@,
                    total_stopped(rs@) <= u64::MAX,
                    total_deleted(rs@) <= u64::MAX,
                    total_p == total_stopped(rs@.take(i as int)),
                    total_l == total_deleted(rs@.take(i as int)),
                    lines_v(out@) == head + projects_lines(rs@.take(i as int), self.verbose),
                decreases rs.len() - i,
            {
                let res = &rs[i];
                let ghost before = lines_v(out@);
                let mut line: Vec<Span> = Vec::new();
                push_span(&mut line, span("  ", plain_style()));
                push_span(&mut line, span("•", color_style(Color::Cyan)));
                push_span(&mut line, span(" ", plain_style()));
                push_span(&mut line, span_of(res.project.clone(), bold_style(Color::Default)));
                push_span(&mut line, span(": ", plain_style()));
                let ghost pre = line_v(line);
                push_counts(&mut line, res.processes_stopped as u64, res.logs_deleted as u64);
                push_line(&mut out, line);
                let ghost after_first = lines_v(out@);
                if self.verbose {
                    push_listing(&mut out, "      Stopped processes:", "        - ", &res.stopped_process_names, Color::Green);
                    push_listing(&mut out, "      Deleted logs:", "        - ", &res.deleted_log_files, Color::Red);
                }
                proof {
                    let t = rs@.take(i + 1);
                    assert(t.drop_last() =~= rs@.take(i as int));
                    assert(t.last() == rs@[i as int]);
                    assert(after_first =~= before.push(line_v(line)));
                    assert(lines_v(out@) =~~= head + projects_lines(t, self.verbose));
                    lemma_totals_bounded(rs@, i as int + 1);
                }
                total_p = total_p + res.processes_stopped as u64;
                total_l = total_l + res.logs_deleted as u64;
                i = i + 1;
            }
            assert(rs@.take(rs.len() as int) =~= rs@);
            push_line(&mut out, Vec::new());
            let mut s: Vec<Span> = Vec::new();
            push_span(&mut s, span("Summary:", bold_style(Color::Default)));
            push_line(&mut out, s);
            let mut t: Vec<Span> = Vec::new();
            push_span(&mut t, span("  Total: ", plain_style()));
            push_counts(&mut t, total_p, total_l);
            push_line(&mut out, t);
            assert(lines_v(out@) =~~= all_projects_report(rs@, self.verbose));
            out
        } else {
            if resp.processes_stopped == 0 && resp.logs_deleted == 0 {
                let mut l: Vec<Span> = Vec::new();
                push_span(&mut l, span("No processes or logs found for project:", dim_style()));
                push_span(&mut l, span(" ", plain_style()));
                push_span(&mut l, span(project, dim_style()));
                push_line(&mut out, l);
                assert(lines_v(out@) =~~= project_report(project@, *resp, self.verbose));
                return out;
            }
            let mut line: Vec<Span> = Vec::new();
            push_span(&mut line, span("Cleaned project", color_style(Color::Green)));
            push_span(&mut line, span(" ", plain_style()));
            push_span(&mut line, span(project, bold_style(Color::Default)));
            push_span(&mut line, span(": ", plain_style()));
            push_counts(&mut line, resp.processes_stopped as u64, resp.logs_deleted as u64);
            push_line(&mut out, line);
            if self.verbose {
                push_listing(&mut out, "  Stopped processes:", "    - ", &resp.stopped_process_names, Color::Green);
                push_listing(&mut out, "  Deleted logs:", "    - ", &resp.deleted_log_files, Color::Red);
            }
            assert(lines_v(out@) =~~= project_report(project@, *resp, self.verbose));
            out
        }
    }
}

/// The totals of a prefix are at most those of the whole list.
proof fn lemma_totals_bounded(rs: Seq<ProjectCleanResult>, k: int)
    requires
        0 <= k <= rs.len(),
    ensures
        total_stopped(rs.take(k)) <= total_stopped(rs),
        total_deleted(rs.take(k)) <= total_deleted(rs),
    decreases rs.len() - k,
{
    if k < rs.len() {
        lemma_totals_bounded(rs, k + 1);
        assert(rs.take(k + 1).drop_last() =~= rs.take(k));
    } else {
        assert(rs.take(k) =~= rs);
    }
}

} // verus!
