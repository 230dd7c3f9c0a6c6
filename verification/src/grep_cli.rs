//! Searching logs from the command line.

use vstd::prelude::*;
use vstd::string::*;
use crate::clock::{date_time_reads, date_time_text};
use crate::project::resolve_project_name;
use crate::rpc::{GrepMatch, LogEntry, RpcStatus, LEVEL_ERROR};
use crate::style::{
    bold_colored, bold_style, color_style, colored, dim_style, dimmed, highlight_style,
    highlighted, line_v, lines_v, plain, plain_style, push_line, push_span, span, span_of, Color,
    Span, Style,
};
use crate::text::{decimal, push_decimal};
use crate::tools::logs::GrepRequest;

verus! {

/// The grep command: a process, a pattern, and the search options.
#[derive(Debug)]
pub struct GrepCommand {
    pub name: String,
    pub pattern: String,
    pub project: Option<String>,
    pub context: u32,
    pub before: Option<u32>,
    pub after: Option<u32>,
    pub since: Option<String>,
    pub until: Option<String>,
    pub last: Option<String>,
}

/// `n` right-aligned in six columns.
pub open spec fn line_number_text(n: nat) -> Seq<char> {
    let d = decimal(n);
    if d.len() >= 6 {
        d
    } else {
        Seq::new((6 - d.len()) as nat, |i: int| ' ') + d
    }
}

/// How a log line of a search is shown: its number, time, level letter and
/// content; the matched line has its number in bright yellow and its
/// content highlighted, context lines have a dimmed number.
pub open spec fn search_line(e: LogEntry, time: Seq<char>, is_match: bool) -> Seq<(Seq<char>, Style)> {
    seq![
        (line_number_text(e.line_number as nat), if is_match {
            colored(Color::BrightYellow)
        } else {
            dimmed()
        }),
        (" "@, plain()),
        (time, dimmed()),
        (" "@, plain()),
        (if e.level == LEVEL_ERROR {
            "E"@
        } else {
            "I"@
        }, if e.level == LEVEL_ERROR {
            bold_colored(Color::Red)
        } else {
            dimmed()
        }),
        (" "@, plain()),
        (e.content@, if is_match {
            highlighted()
        } else {
            plain()
        }),
    ]
}

/// `line` shows `e` with its time as `%Y-%m-%d %H:%M:%S` (empty without a
/// time).
pub open spec fn shows_entry(e: LogEntry, is_match: bool, line: Seq<(Seq<char>, Style)>) -> bool {
    exists|time: Seq<char>|
        #![trigger search_line(e, time, is_match)]
        (match e.timestamp {
            Some(ts) => date_time_reads(ts, time),
            None => time.len() == 0,
        }) && line == search_line(e, time, is_match)
}

/// The lines of a search hit: the lines before, the matched line, the lines
/// after.
pub open spec fn hit_shown(m: GrepMatch, ls: Seq<Seq<(Seq<char>, Style)>>) -> bool {
    let nb = m.context_before@.len();
    let nm: nat = if m.matched_line is Some {
        1
    } else {
        0
    };
    let na = m.context_after@.len();
    &&& ls.len() == nb + nm + na
    &&& forall|i: int| 0 <= i < nb ==> shows_entry(#[trigger] m.context_before@[i], false, ls[i])
    &&& (m.matched_line matches Some(e) ==> shows_entry(e, true, ls[nb as int]))
    &&& forall|i: int|
        0 <= i < na ==> shows_entry(#[trigger] m.context_after@[i], false, ls[nb + nm + i])
}

/// Formats `n` right-aligned in six columns.
pub fn format_line_number(n: u32) -> (r: String)
    ensures
        r@ == line_number_text(n as nat),
{
    let mut digits = String::new();
    push_decimal(&mut digits, n as u64);
    let d = crate::text::chars_of(digits.as_str());
    let mut s = String::new();
    let mut k: usize = d.len();
    while k < 6
        invariant
            d@ == digits@,
            d.len() <= k <= 6 || (k == d.len() && k >= 6),
            s@ == Seq::new((k - d.len()) as nat, |i: int| ' '),
        decreases 6 - k,
    {
        crate::text::push_char(&mut s, ' ');
        assert(s@ =~= Seq::new((k + 1 - d.len()) as nat, |i: int| ' '));
        k = k + 1;
    }
    s.append(digits.as_str());
    assert(digits@ =~= decimal(n as nat));
    assert(s@ =~= line_number_text(n as nat));
    s
}

/// How a log line of a search is shown (see [`search_line`]).
pub fn search_entry_line(e: &LogEntry, is_match: bool) -> (r: Vec<Span>)
    ensures
        shows_entry(*e, is_match, line_v(r)),
{
    let time = match &e.timestamp {
        Some(ts) => date_time_text(ts),
        None => String::new(),
    };
    let ghost tv = time@;
    assert(match e.timestamp {
        Some(ts) => date_time_reads(ts, tv),
        None => tv.len() == 0,
    });
    let mut l: Vec<Span> = Vec::new();
    let number = format_line_number(e.line_number);
    push_span(&mut l, span_of(number, if is_match {
        color_style(Color::BrightYellow)
    } else {
        dim_style()
    }));
    push_span(&mut l, span(" ", plain_style()));
    push_span(&mut l, span_of(time, dim_style()));
    push_span(&mut l, span(" ", plain_style()));
    if e.level == LEVEL_ERROR {
        push_span(&mut l, span("E", bold_style(Color::Red)));
    } else {
        push_span(&mut l, span("I", dim_style()));
    }
    push_span(&mut l, span(" ", plain_style()));
    push_span(&mut l, span(e.content.as_str(), if is_match {
        highlight_style()
    } else {
        plain_style()
    }));
    assert(line_v(l) =~= search_line(*e, tv, is_match));
    l
}

fn push_entries(out: &mut Vec<Vec<Span>>, es: &Vec<LogEntry>)
    ensures
        lines_v(final(out)@).len() == lines_v(old(out)@).len() + es@.len(),
        lines_v(final(out)@).take(old(out)@.len() as int) == lines_v(old(out)@),
        forall|i: int|
            0 <= i < es@.len() ==> shows_entry(
                #[trigger] es@[i],
                false,
                lines_v(final(out)@)[old(out)@.len() + i],
            ),
{
    let ghost start = out@.len();
    let mut i: usize = 0;
    while i < es.len()
        invariant
            i <= es.len(),
            lines_v(out@).len() == start + i,
            start == old(out)@.len(),
            lines_v(out@).take(start as int) == lines_v(old(out)@),
            forall|k: int| 0 <= k < i ==> shows_entry(#[trigger] es@[k], false, lines_v(out@)[start + k]),
        decreases es.len() - i,
    {
        let l = search_entry_line(&es[i], false);
        let ghost before = lines_v(out@);
        push_line(out, l);
        assert(lines_v(out@).take(start as int) =~= before.take(start as int));
        i = i + 1;
    }
}

/// The lines of a search hit (see [`hit_shown`]).
pub fn hit_lines(m: &GrepMatch) -> (r: Vec<Vec<Span>>)
    ensures
        hit_shown(*m, lines_v(r@)),
{
    let mut out: Vec<Vec<Span>> = Vec::new();
    push_entries(&mut out, &m.context_before);
    let ghost a = lines_v(out@);
    match &m.matched_line {
        Some(e) => {
            let l = search_entry_line(e, true);
            push_line(&mut out, l);
        },
        None => {},
    }
    let ghost b = lines_v(out@);
    assert(b.take(a.len() as int) =~= a);
    push_entries(&mut out, &m.context_after);
    proof {
        let c = lines_v(out@);
        assert(c.take(b.len() as int) =~= b);
        assert forall|i: int| 0 <= i < m.context_before@.len() implies shows_entry(
            #[trigger] m.context_before@[i],
            false,
            c[i],
        ) by {
            assert(c[i] == c.take(b.len() as int)[i]);
            assert(b[i] == b.take(a.len() as int)[i]);
        }
        if m.matched_line is Some {
            assert(c[a.len() as int] == c.take(b.len() as int)[a.len() as int]);
        }
    }
    out
}

impl GrepCommand {
    /// The request: the process and pattern in the chosen project (the given
    /// one, else the current directory's), with the context given.
    pub fn request(&self, cwd_project: Option<String>) -> (r: Result<GrepRequest, String>)
        ensures
            match self.project {
                Some(p) => r matches Ok(q) && q.project@ == p@,
                None => match cwd_project {
                    Some(c) => r matches Ok(q) && q.project@ == c@,
                    None => r matches Err(e) && e@ == "Unable to determine project name from current directory"@,
                },
            },
            r matches Ok(q) ==> (q.name@ == self.name@ && q.pattern@ == self.pattern@ && q.context
                == Some(self.context) && q.before == self.before && q.after == self.after),
    {
        let project = match &self.project {
            Some(p) => Some(p.clone()),
            None => None,
        };
        let project = match resolve_project_name(project, cwd_project) {
            Ok(p) => p,
            Err(e) => {
                return Err(e);
            },
        };
        Ok(
            GrepRequest {
                name: self.name.clone(),
                pattern: self.pattern.clone(),
                project,
                context: Some(self.context),
                before: self.before,
                after: self.after,
                since: match &self.since {
                    Some(s) => Some(s.clone()),
                    None => None,
                },
                until: match &self.until {
                    Some(s) => Some(s.clone()),
                    None => None,
                },
                last: match &self.last {
                    Some(s) => Some(s.clone()),
                    None => None,
                },
            },
        )
    }

    /// The summary line of a search: no hits, or how many there are.
    pub fn summary(&self, hits: usize) -> (r: Vec<Span>)
        ensures
            hits == 0 ==> line_v(r) == seq![
                ("!"@, colored(Color::Yellow)),
                (" No matches found for pattern: "@, plain()),
                (self.pattern@, colored(Color::BrightWhite)),
            ],
            hits > 0 ==> line_v(r) == seq![
                ("✓"@, colored(Color::Green)),
                (" Found "@ + decimal(hits as nat) + " matches for pattern: "@, plain()),
                (self.pattern@, colored(Color::BrightWhite)),
            ],
    {
        let mut l: Vec<Span> = Vec::new();
        if hits == 0 {
            push_span(&mut l, span("!", color_style(Color::Yellow)));
            push_span(&mut l, span(" No matches found for pattern: ", plain_style()));
        } else {
            push_span(&mut l, span("✓", color_style(Color::Green)));
            let mut t = String::from_str(" Found ");
            push_decimal(&mut t, hits as u64);
            t.append(" matches for pattern: ");
            push_span(&mut l, span_of(t, plain_style()));
        }
        push_span(&mut l, span(self.pattern.as_str(), color_style(Color::BrightWhite)));
        l
    }

    /// The separator printed between hits.
    pub fn separator() -> (r: Vec<Span>)
        ensures
            line_v(r) == seq![("--"@, dimmed())],
    {
        let mut l: Vec<Span> = Vec::new();
        push_span(&mut l, span("--", dim_style()));
        l
    }

    /// The line printed when the search fails, and the error (the failure's
    /// display text).
    pub fn failure(status: &RpcStatus) -> (r: (Vec<Span>, String))
        ensures
            line_v(r.0) == seq![
                ("✗"@, colored(Color::Red)),
                (" Failed to grep logs: "@ + status.message@, plain()),
            ],
            r.1@ == status.display@,
    {
        let mut l: Vec<Span> = Vec::new();
        push_span(&mut l, span("✗", color_style(Color::Red)));
        let mut t = String::from_str(" Failed to grep logs: ");
        t.append(status.message.as_str());
        push_span(&mut l, span_of(t, plain_style()));
        (l, status.display.clone())
    }
}

} // verus!
