//! Following logs on the command line: which lines are asked for, and how
//! each arriving line is shown.

use vstd::prelude::*;
use vstd::string::*;
use crate::ansi::{contains_ansi_escape, strip_ansi_escapes_str, without_escapes};
use crate::clock::{clock_text_reads, local_clock_text};
use crate::parse::contains_text;
use crate::rpc::{LogEntry, LEVEL_ERROR};
use crate::style::{
    bold_colored, bold_style, color_style, colored, dim_style, dimmed, line_v, plain,
    plain_style, push_span, span, span_of, Color, Span, Style,
};
use crate::text::chars_of;

verus! {

/// How log lines are coloured: only the processes' own colours, no colour
/// at all, or the processes' colours kept where they have any.
#[derive(Debug)]
pub struct ColorOptions {
    pub raw_color: bool,
    pub no_color: bool,
    pub smart_color: bool,
}

/// Whose logs are followed: named processes of a project, or all of them.
#[derive(Debug)]
pub enum LogTarget {
    Multiple { names: Vec<String>, project: String },
    All { project: String },
}

/// What the logs command asks the daemon.
#[derive(Debug)]
pub struct StreamLogsRequest {
    pub process_names: Vec<String>,
    pub tail: Option<u32>,
    pub follow: Option<bool>,
    pub project: String,
    pub include_events: Option<bool>,
}

/// The target for the named processes: all of the project's when none is
/// named.
pub fn log_target(names: Vec<String>, project: String) -> (r: LogTarget)
    ensures
        names@.len() == 0 ==> (r matches LogTarget::All { project: p } && p == project),
        names@.len() > 0 ==> (r matches LogTarget::Multiple { names: n, project: p } && n == names
            && p == project),
{
    if names.len() == 0 {
        LogTarget::All { project }
    } else {
        LogTarget::Multiple { names, project }
    }
}

/// The names joined by `, `.
pub open spec fn joined_names(names: Seq<String>) -> Seq<char>
    decreases names.len(),
{
    if names.len() == 0 {
        Seq::empty()
    } else if names.len() == 1 {
        names[0]@
    } else {
        joined_names(names.drop_last()) + ", "@ + names.last()@
    }
}

/// Joins the names with `, `.
pub fn join_names(names: &Vec<String>) -> (r: String)
    ensures
        r@ == joined_names(names@),
{
    let mut s = String::new();
    let mut i: usize = 0;
    while i < names.len()
        invariant
            i <= names.len(),
            s@ == joined_names(names@.take(i as int)),
        decreases names.len() - i,
    {
        if i > 0 {
            s.append(", ");
        }
        s.append(names[i].as_str());
        proof {
            let t = names@.take(i + 1);
            assert(t.drop_last() =~= names@.take(i as int));
            if i == 0 {
                assert(joined_names(names@.take(0)) =~= Seq::<char>::empty());
            }
            assert(s@ =~= joined_names(t));
        }
        i = i + 1;
    }
    assert(names@.take(names.len() as int) =~= names@);
    s
}

/// The request for a target: its processes (none meaning all), the lines
/// from the end to show, whether to follow, and no events.
pub fn stream_request(target: &LogTarget, tail: u32, follow: bool) -> (r: StreamLogsRequest)
    ensures
        r.tail == Some(tail),
        r.follow == Some(follow),
        r.include_events == Some(false),
        match target {
            LogTarget::Multiple { names, project } => r.process_names@.map_values(|n: String| n@)
                == names@.map_values(|n: String| n@) && r.project@ == project@,
            LogTarget::All { project } => r.process_names@.len() == 0 && r.project@ == project@,
        },
{
    match target {
        LogTarget::Multiple { names, project } => {
            let mut ns: Vec<String> = Vec::new();
            let mut i: usize = 0;
            while i < names.len()
                invariant
                    i <= names.len(),
                    ns@.map_values(|n: String| n@) == names@.take(i as int).map_values(|n: String| n@),
                decreases names.len() - i,
            {
                let c = names[i].clone();
                assert(c@ == names@[i as int]@);
                let ghost before = ns@;
                ns.push(c);
                assert(ns@ == before.push(c));
                assert(names@.take(i + 1) =~= names@.take(i as int).push(names@[i as int]));
                assert(ns@.map_values(|n: String| n@) =~= before.map_values(|n: String| n@).push(c@));
                assert(ns@.map_values(|n: String| n@) =~= names@.take(i + 1).map_values(|n: String| n@));
                i = i + 1;
            }
            assert(names@.take(names.len() as int) =~= names@);
            StreamLogsRequest {
                process_names: ns,
                tail: Some(tail),
                follow: Some(follow),
                project: project.clone(),
                include_events: Some(false),
            }
        },
        LogTarget::All { project } => StreamLogsRequest {
            process_names: Vec::new(),
            tail: Some(tail),
            follow: Some(follow),
            project: project.clone(),
            include_events: Some(false),
        },
    }
}

/// The banner printed when following: which processes of which project.
pub fn follow_banner(target: &LogTarget) -> (r: Vec<Span>)
    ensures
        line_v(r) == match target {
            LogTarget::Multiple { names, project } => seq![
                ("→"@, colored(Color::Yellow)),
                (" Following logs for processes: "@, plain()),
                (joined_names(names@), bold_colored(Color::Cyan)),
                (" in project: "@, plain()),
                (project@, bold_colored(Color::Cyan)),
            ],
            LogTarget::All { project } => seq![
                ("→"@, colored(Color::Yellow)),
                (" Following logs for all processes in project: "@, plain()),
                (project@, bold_colored(Color::Cyan)),
            ],
        },
{
    let mut l: Vec<Span> = Vec::new();
    push_span(&mut l, span("→", color_style(Color::Yellow)));
    match target {
        LogTarget::Multiple { names, project } => {
            push_span(&mut l, span(" Following logs for processes: ", plain_style()));
            push_span(&mut l, span_of(join_names(names), bold_style(Color::Cyan)));
            push_span(&mut l, span(" in project: ", plain_style()));
            push_span(&mut l, span(project.as_str(), bold_style(Color::Cyan)));
        },
        LogTarget::All { project } => {
            push_span(&mut l, span(" Following logs for all processes in project: ", plain_style()));
            push_span(&mut l, span(project.as_str(), bold_style(Color::Cyan)));
        },
    }
    assert(line_v(l) =~= match target {
        LogTarget::Multiple { names, project } => seq![
            ("→"@, colored(Color::Yellow)),
            (" Following logs for processes: "@, plain()),
            (joined_names(names@), bold_colored(Color::Cyan)),
            (" in project: "@, plain()),
            (project@, bold_colored(Color::Cyan)),
        ],
        LogTarget::All { project } => seq![
            ("→"@, colored(Color::Yellow)),
            (" Following logs for all processes in project: "@, plain()),
            (project@, bold_colored(Color::Cyan)),
        ],
    });
    l
}

/// What arrived on the log stream.
#[derive(Debug)]
pub enum StreamEvent {
    /// A log line.
    Entry(LogEntry),
    /// A process event, which the logs command does not show.
    Event,
    /// The stream failed, with the failure's display text.
    Failed(String),
    /// The stream ended.
    Ended,
    /// Nothing arrived for a while.
    Quiet,
}

/// What the stream reader does next.
#[derive(Debug)]
pub enum StreamAction {
    /// Hand the line to the printer.
    Forward(LogEntry),
    /// Read on.
    Continue,
    /// Stop reading, printing the line given, if any, first.
    Stop(Option<Vec<Span>>),
}

/// The reader's next step after `event`: lines are forwarded and events
/// skipped; a failure stops it with an error line; the end stops it; after
/// a quiet spell it stops when shutting down and reads on otherwise.
pub fn on_stream_event(event: StreamEvent, shutting_down: bool) -> (r: StreamAction)
    ensures
        match event {
            StreamEvent::Entry(e) => r == StreamAction::Forward(e),
            StreamEvent::Event => r is Continue,
            StreamEvent::Failed(d) => r matches StreamAction::Stop(Some(l)) && line_v(l) == seq![
                ("✗"@, colored(Color::Red)),
                (" Error receiving logs: "@ + d@, plain()),
            ],
            StreamEvent::Ended => r matches StreamAction::Stop(None),
            StreamEvent::Quiet => if shutting_down {
                r matches StreamAction::Stop(None)
            } else {
                r is Continue
            },
        },
{
    match event {
        StreamEvent::Entry(e) => StreamAction::Forward(e),
        StreamEvent::Event => StreamAction::Continue,
        StreamEvent::Failed(d) => {
            let mut t = String::from_str(" Error receiving logs: ");
            t.append(d.as_str());
            let mut l: Vec<Span> = Vec::new();
            push_span(&mut l, span("✗", color_style(Color::Red)));
            push_span(&mut l, span_of(t, plain_style()));
            assert(line_v(l) =~= seq![
                ("✗"@, colored(Color::Red)),
                (" Error receiving logs: "@ + d@, plain()),
            ]);
            StreamAction::Stop(Some(l))
        },
        StreamEvent::Ended => StreamAction::Stop(None),
        StreamEvent::Quiet => if shutting_down {
            StreamAction::Stop(None)
        } else {
            StreamAction::Continue
        },
    }
}

/// The line printed when the log stream cannot be opened.
pub fn stream_start_failure(display: &str) -> (r: Vec<Span>)
    ensures
        line_v(r) == seq![
            ("✗"@, colored(Color::Red)),
            (" Failed to start log stream: "@ + display@, plain()),
        ],
{
    let mut t = String::from_str(" Failed to start log stream: ");
    t.append(display);
    let mut l: Vec<Span> = Vec::new();
    push_span(&mut l, span("✗", color_style(Color::Red)));
    push_span(&mut l, span_of(t, plain_style()));
    assert(line_v(l) =~= seq![
        ("✗"@, colored(Color::Red)),
        (" Failed to start log stream: "@ + display@, plain()),
    ]);
    l
}


/// `name` padded with spaces to fifteen characters (left as it is when
/// longer).
pub open spec fn padded_name(name: Seq<char>) -> Seq<char> {
    if name.len() >= 15 {
        name
    } else {
        name + Seq::new((15 - name.len()) as nat, |i: int| ' ')
    }
}

/// The low byte of each character, added with wrap-around.
pub open spec fn byte_sum(name: Seq<char>) -> nat
    decreases name.len(),
{
    if name.len() == 0 {
        0
    } else {
        (byte_sum(name.drop_last()) + (name.last() as u32 % 256) as nat) % 256
    }
}

/// The colour of a process name: one of five, chosen by its byte sum.
pub open spec fn name_color(name: Seq<char>) -> Color {
    let k = byte_sum(name) % 5;
    if k == 0 {
        Color::Green
    } else if k == 1 {
        Color::Blue
    } else if k == 2 {
        Color::Cyan
    } else if k == 3 {
        Color::Magenta
    } else {
        Color::BrightBlue
    }
}

/// The level letter: `E` for standard error, `I` otherwise.
pub open spec fn level_letter(level: i32) -> Seq<char> {
    if level == LEVEL_ERROR {
        "E"@
    } else {
        "I"@
    }
}

/// The level letter's highlight: bold red for errors, dimmed otherwise.
pub open spec fn level_style(level: i32) -> Style {
    if level == LEVEL_ERROR {
        bold_colored(Color::Red)
    } else {
        dimmed()
    }
}

/// How a log line is shown, given its time text and content (already
/// without escape sequences when colour is off): raw colour shows only the
/// content (with the time and padded name before a `|` for named
/// processes); no colour adds the level letter, all plain; else the time is
/// dimmed, the process name takes its colour (bold unless the content has
/// its own colours in smart mode) and the level letter its highlight (plain
/// for coloured content in smart mode).
pub open spec fn entry_line(e: LogEntry, time: Seq<char>, content: Seq<char>, opts: ColorOptions) -> Seq<(Seq<char>, Style)> {
    let letter = level_letter(e.level);
    let own_colors = opts.smart_color && contains_text(content, seq!['\x1b', '[']);
    match e.process_name {
        None => if opts.raw_color {
            seq![(content, plain())]
        } else if opts.no_color {
            seq![(time + " "@ + letter + " "@ + content, plain())]
        } else {
            seq![
                (time, dimmed()),
                (" "@, plain()),
                (letter, if own_colors {
                    plain()
                } else {
                    level_style(e.level)
                }),
                (" "@, plain()),
                (content, plain()),
            ]
        },
        Some(n) => if opts.raw_color {
            seq![(time + " "@ + padded_name(n@) + " | "@ + content, plain())]
        } else if opts.no_color {
            seq![(time + " "@ + padded_name(n@) + " | "@ + letter + " "@ + content, plain())]
        } else {
            seq![
                (time, dimmed()),
                (" "@, plain()),
                (padded_name(n@), if own_colors {
                    colored(name_color(n@))
                } else {
                    bold_colored(name_color(n@))
                }),
                (" | "@, plain()),
                (letter, if own_colors {
                    plain()
                } else {
                    level_style(e.level)
                }),
                (" "@, plain()),
                (content, plain()),
            ]
        },
    }
}

/// Pads a process name with spaces to fifteen characters.
pub fn pad_name(name: &str) -> (r: String)
    ensures
        r@ == padded_name(name@),
{
    let v = chars_of(name);
    let mut s = String::from_str(name);
    let mut k: usize = v.len();
    while k < 15
        invariant
            v.len() <= k <= 15 || (k == v.len() && k >= 15),
            v@ == name@,
            s@ == name@ + Seq::new((k - v.len()) as nat, |i: int| ' '),
        decreases 15 - k,
    {
        crate::text::push_char(&mut s, ' ');
        assert(s@ =~= name@ + Seq::new((k + 1 - v.len()) as nat, |i: int| ' '));
        k = k + 1;
    }
    assert(s@ =~= padded_name(name@));
    s
}

/// The colour of a process name (see [`name_color`]).
pub fn color_of_name(name: &str) -> (r: Color)
    ensures
        r == name_color(name@),
{
    let v = chars_of(name);
    let mut acc: u32 = 0;
    let mut i: usize = 0;
    while i < v.len()
        invariant
            i <= v.len(),
            v@ == name@,
            acc < 256,
            acc == byte_sum(v@.take(i as int)),
        decreases v.len() - i,
    {
        let b: u32 = (v[i] as u32) % 256;
        acc = (acc + b) % 256;
        assert(v@.take(i + 1).drop_last() =~= v@.take(i as int));
        i = i + 1;
    }
    assert(v@.take(v.len() as int) =~= v@);
    let k = acc % 5;
    if k == 0 {
        Color::Green
    } else if k == 1 {
        Color::Blue
    } else if k == 2 {
        Color::Cyan
    } else if k == 3 {
        Color::Magenta
    } else {
        Color::BrightBlue
    }
}

/// The spans of a line without a process name (see [`entry_line`]).
fn plain_entry_spans(level: i32, time: String, content: String, opts: &ColorOptions) -> (r: Vec<Span>)
    ensures
        forall|e: LogEntry|
            e.level == level && e.process_name is None ==> line_v(r) == entry_line(
                e,
                time@,
                content@,
                *opts,
            ),
{
    let ghost tv = time@;
    let ghost cv = content@;
    let letter = if level == LEVEL_ERROR {
        "E"
    } else {
        "I"
    };
    let own_colors = opts.smart_color && contains_ansi_escape(content.as_str());
    let mut l: Vec<Span> = Vec::new();
    if opts.raw_color {
        push_span(&mut l, span_of(content, plain_style()));
        assert(line_v(l) =~= seq![(cv, plain())]);
    } else if opts.no_color {
        let mut t = time;
        t.append(" ");
        t.append(letter);
        t.append(" ");
        t.append(content.as_str());
        push_span(&mut l, span_of(t, plain_style()));
        assert(line_v(l) =~= seq![(tv + " "@ + level_letter(level) + " "@ + cv, plain())]);
    } else {
        let letter_style = if own_colors {
            plain_style()
        } else if level == LEVEL_ERROR {
            bold_style(Color::Red)
        } else {
            dim_style()
        };
        push_span(&mut l, span_of(time, dim_style()));
        push_span(&mut l, span(" ", plain_style()));
        push_span(&mut l, span(letter, letter_style));
        push_span(&mut l, span(" ", plain_style()));
        push_span(&mut l, span_of(content, plain_style()));
        assert(line_v(l) =~= seq![
            (tv, dimmed()),
            (" "@, plain()),
            (level_letter(level), if own_colors {
                plain()
            } else {
                level_style(level)
            }),
            (" "@, plain()),
            (cv, plain()),
        ]);
    }
    l
}

/// The spans of a line of a named process (see [`entry_line`]).
fn named_entry_spans(level: i32, name: &str, time: String, content: String, opts: &ColorOptions) -> (r: Vec<Span>)
    ensures
        forall|e: LogEntry|
            (e.process_name matches Some(n) && n@ == name@ && e.level == level) ==> line_v(r)
                == entry_line(e, time@, content@, *opts),
{
    let ghost tv = time@;
    let ghost cv = content@;
    let letter = if level == LEVEL_ERROR {
        "E"
    } else {
        "I"
    };
    let own_colors = opts.smart_color && contains_ansi_escape(content.as_str());
    let padded = pad_name(name);
    let ghost pv = padded@;
    let mut l: Vec<Span> = Vec::new();
    if opts.raw_color {
        let mut t = time;
        t.append(" ");
        t.append(padded.as_str());
        t.append(" | ");
        t.append(content.as_str());
        push_span(&mut l, span_of(t, plain_style()));
        assert(line_v(l) =~= seq![(tv + " "@ + pv + " | "@ + cv, plain())]);
    } else if opts.no_color {
        let mut t = time;
        t.append(" ");
        t.append(padded.as_str());
        t.append(" | ");
        t.append(letter);
        t.append(" ");
        t.append(content.as_str());
        push_span(&mut l, span_of(t, plain_style()));
        assert(line_v(l) =~= seq![(tv + " "@ + pv + " | "@ + level_letter(level) + " "@ + cv, plain())]);
    } else {
        let c = color_of_name(name);
        let name_style = if own_colors {
            color_style(c)
        } else {
            bold_style(c)
        };
        let letter_style = if own_colors {
            plain_style()
        } else if level == LEVEL_ERROR {
            bold_style(Color::Red)
        } else {
            dim_style()
        };
        push_span(&mut l, span_of(time, dim_style()));
        push_span(&mut l, span(" ", plain_style()));
        push_span(&mut l, span_of(padded, name_style));
        push_span(&mut l, span(" | ", plain_style()));
        push_span(&mut l, span(letter, letter_style));
        push_span(&mut l, span(" ", plain_style()));
        push_span(&mut l, span_of(content, plain_style()));
        assert(line_v(l) =~= seq![
            (tv, dimmed()),
            (" "@, plain()),
            (pv, if own_colors {
                colored(name_color(name@))
            } else {
                bold_colored(name_color(name@))
            }),
            (" | "@, plain()),
            (level_letter(level), if own_colors {
                plain()
            } else {
                level_style(level)
            }),
            (" "@, plain()),
            (cv, plain()),
        ]);
    }
    l
}

/// Law: whenever a log line shows a level letter (every mode but raw
/// colour, with or without a process name), the letter stands just before
/// a space and the content, and it is `E` exactly for a standard-error line
/// (level 2) and `I` for any other.
pub proof fn level_letter_marks_standard_error(e: LogEntry, time: Seq<char>, content: Seq<char>, opts: ColorOptions)
    requires
        !opts.raw_color,
    ensures
        opts.no_color ==> entry_line(e, time, content, opts).len() == 1,
        opts.no_color ==> entry_line(e, time, content, opts)[0].0.len() >= content.len() + 2,
        opts.no_color ==> entry_line(e, time, content, opts)[0].0.skip(
            entry_line(e, time, content, opts)[0].0.len() - content.len() - 2,
        ) == (if e.level == 2 {
            "E"@
        } else {
            "I"@
        }) + " "@ + content,
        !opts.no_color ==> entry_line(e, time, content, opts).len() >= 3,
        !opts.no_color ==> entry_line(e, time, content, opts)[entry_line(e, time, content, opts).len()
            - 3].0 == if e.level == 2 {
            "E"@
        } else {
            "I"@
        },
        !opts.no_color ==> entry_line(e, time, content, opts)[entry_line(e, time, content, opts).len()
            - 2].0 == " "@,
        !opts.no_color ==> entry_line(e, time, content, opts)[entry_line(e, time, content, opts).len()
            - 1].0 == content,
{
    let line = entry_line(e, time, content, opts);
    let letter = if e.level == 2 {
        "E"@
    } else {
        "I"@
    };
    assert(level_letter(e.level) == letter);
    reveal_strlit("E");
    reveal_strlit("I");
    reveal_strlit(" ");
    assert(letter.len() == 1);
    if opts.no_color {
        match e.process_name {
            None => {
                let before = time + " "@;
                assert(line[0].0 == (before + letter) + " "@ + content);
                assert(line[0].0.skip(before.len() as int) =~= letter + " "@ + content);
            },
            Some(n) => {
                let before = time + " "@ + padded_name(n@) + " | "@;
                assert(line[0].0 == (before + letter) + " "@ + content);
                assert(line[0].0.skip(before.len() as int) =~= letter + " "@ + content);
            },
        }
        assert(line.len() == 1);
    } else {
        assert(line.len() >= 3);
        assert(line[line.len() - 3].0 == letter);
        assert(line[line.len() - 2].0 == " "@);
        assert(line[line.len() - 1].0 == content);
    }
}

/// How a log line is shown (see [`entry_line`]), with its local
/// `%H:%M:%S` time (see [`clock_text_reads`]; empty when it has none) and, when colour is off, its content without escape
/// sequences.
pub fn format_log_entry(e: &LogEntry, opts: &ColorOptions) -> (r: Vec<Span>)
    ensures
        exists|time: Seq<char>|
            match e.timestamp {
                None => time.len() == 0,
                Some(ts) => clock_text_reads(ts, time),
            } && line_v(r) == entry_line(
                *e,
                time,
                if opts.no_color {
                    without_escapes(e.content@)
                } else {
                    e.content@
                },
                *opts,
            ),
{
    let time = match &e.timestamp {
        Some(ts) => local_clock_text(ts),
        None => String::new(),
    };
    let ghost tv = time@;
    let content = if opts.no_color {
        strip_ansi_escapes_str(e.content.as_str())
    } else {
        e.content.clone()
    };
    let ghost cv = content@;
    let r = match &e.process_name {
        None => plain_entry_spans(e.level, time, content, opts),
        Some(n) => named_entry_spans(e.level, n.as_str(), time, content, opts),
    };
    assert(line_v(r) == entry_line(*e, tv, cv, *opts));
    r
}


/// Where the last `tail` of `len` entries start: `len - tail`, or the first
/// entry when there are fewer.
pub fn tail_start(len: usize, tail: u32) -> (r: usize)
    ensures
        r == if len >= tail {
            len - tail
        } else {
            0
        },
{
    if len >= tail as usize {
        len - tail as usize
    } else {
        0
    }
}


/// The number of `:` in `s`.
pub open spec fn colon_count(s: Seq<char>) -> nat
    decreases s.len(),
{
    if s.len() == 0 {
        0
    } else {
        colon_count(s.drop_last()) + if s.last() == ':' {
            1nat
        } else {
            0nat
        }
    }
}

/// Index of the first `:` in `s`, or its length.
pub open spec fn colon_at(s: Seq<char>) -> nat
    decreases s.len(),
{
    if s.len() == 0 || s[0] == ':' {
        0
    } else {
        1 + colon_at(s.drop_first())
    }
}

/// A bound of a line range: none when empty, else the number it reads as
/// (or why it does not).
pub open spec fn bound_reading(s: Seq<char>) -> Result<Option<int>, Seq<char>> {
    if s.len() == 0 {
        Ok(None)
    } else {
        match crate::parse::u32_reading(s) {
            Ok(v) => Ok(Some(v)),
            Err(m) => Err(m),
        }
    }
}

/// A line range `from:to`: exactly one `:`, each side empty (no bound) or a
/// number; the first side that does not read gives the error.
pub open spec fn range_reading(range: Seq<char>) -> Result<(Option<int>, Option<int>), Seq<char>> {
    if colon_count(range) != 1 {
        Err("Invalid range format. Use 'from:to'"@)
    } else {
        let k = colon_at(range);
        match bound_reading(range.take(k as int)) {
            Err(m) => Err(m),
            Ok(from) => match bound_reading(range.skip(k + 1int)) {
                Err(m) => Err(m),
                Ok(to) => Ok((from, to)),
            },
        }
    }
}

fn read_bound(s: &str) -> (r: Result<Option<u32>, String>)
    ensures
        match bound_reading(s@) {
            Ok(None) => r matches Ok(None),
            Ok(Some(v)) => r matches Ok(Some(x)) && x == v,
            Err(m) => r matches Err(e) && e@ == m,
        },
{
    if s.is_empty() {
        return Ok(None);
    }
    match crate::parse::parse_u32(s) {
        Ok(v) => Ok(Some(v)),
        Err(e) => Err(e),
    }
}

/// Reads a line range `from:to` (see [`range_reading`]).
pub fn parse_range(range: &str) -> (r: Result<(Option<u32>, Option<u32>), String>)
    ensures
        match range_reading(range@) {
            Ok((from, to)) => r matches Ok((f, t)) && (match from {
                Some(v) => f matches Some(x) && x == v,
                None => f is None,
            }) && (match to {
                Some(v) => t matches Some(x) && x == v,
                None => t is None,
            }),
            Err(m) => r matches Err(e) && e@ == m,
        },
{
    let v = chars_of(range);
    let mut count: usize = 0;
    let mut first: usize = v.len();
    let mut i: usize = 0;
    while i < v.len()
        invariant
            i <= v.len(),
            v@ == range@,
            count == colon_count(v@.take(i as int)),
            count <= i,
            count == 0 ==> first == v.len() && forall|j: int| 0 <= j < i ==> v@[j] != ':',
            count > 0 ==> first < i && v@[first as int] == ':' && forall|j: int|
                0 <= j < first ==> v@[j] != ':',
        decreases v.len() - i,
    {
        assert(v@.take(i + 1).drop_last() =~= v@.take(i as int));
        if v[i] == ':' {
            if count == 0 {
                first = i;
            }
            count = count + 1;
        }
        i = i + 1;
    }
    assert(v@.take(v.len() as int) =~= v@);
    if count != 1 {
        return Err(String::from_str("Invalid range format. Use 'from:to'"));
    }
    proof {
        lemma_colon_at(v@, first as int);
    }
    let from_text = crate::text::string_from_chars(&v, 0, first);
    let to_text = crate::text::string_from_chars(&v, first + 1, v.len());
    assert(from_text@ =~= range@.take(first as int));
    assert(to_text@ =~= range@.skip(first + 1));
    let from = match read_bound(from_text.as_str()) {
        Ok(f) => f,
        Err(e) => {
            return Err(e);
        },
    };
    let to = match read_bound(to_text.as_str()) {
        Ok(t) => t,
        Err(e) => {
            return Err(e);
        },
    };
    Ok((from, to))
}

proof fn lemma_colon_at(s: Seq<char>, k: int)
    requires
        0 <= k < s.len(),
        s[k] == ':',
        forall|j: int| 0 <= j < k ==> s[j] != ':',
    ensures
        colon_at(s) == k,
    decreases k,
{
    if k > 0 {
        lemma_colon_at(s.drop_first(), k - 1);
    }
}

} // verus!
