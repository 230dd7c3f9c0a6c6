//! Process states and how they are written.

use vstd::prelude::*;
use vstd::string::*;
use crate::text::{chars_of, str_equal};

verus! {

/// The state of a managed process.
#[derive(Debug, Clone, Copy, PartialEq, Eq)]
pub enum ProcessStatus {
    Unknown,
    Starting,
    Running,
    Stopping,
    Stopped,
    Failed,
}

/// The state a wire code stands for: 0 to 5 are unknown, starting, running,
/// stopping, stopped and failed.
pub open spec fn status_of_code(code: int) -> Option<ProcessStatus> {
    if code == 0 {
        Some(ProcessStatus::Unknown)
    } else if code == 1 {
        Some(ProcessStatus::Starting)
    } else if code == 2 {
        Some(ProcessStatus::Running)
    } else if code == 3 {
        Some(ProcessStatus::Stopping)
    } else if code == 4 {
        Some(ProcessStatus::Stopped)
    } else if code == 5 {
        Some(ProcessStatus::Failed)
    } else {
        None
    }
}

/// The display name of a state.
pub open spec fn status_name(s: ProcessStatus) -> Seq<char> {
    match s {
        ProcessStatus::Unknown => "Unknown"@,
        ProcessStatus::Starting => "Starting"@,
        ProcessStatus::Running => "Running"@,
        ProcessStatus::Stopping => "Stopping"@,
        ProcessStatus::Stopped => "Stopped"@,
        ProcessStatus::Failed => "Failed"@,
    }
}

/// The lower-case name of a state, as tools report it.
pub open spec fn status_word(s: ProcessStatus) -> Seq<char> {
    match s {
        ProcessStatus::Unknown => "unknown"@,
        ProcessStatus::Starting => "starting"@,
        ProcessStatus::Running => "running"@,
        ProcessStatus::Stopping => "stopping"@,
        ProcessStatus::Stopped => "stopped"@,
        ProcessStatus::Failed => "failed"@,
    }
}

/// The state of a wire code, unknown when the code is not one.
pub open spec fn status_or_unknown(code: int) -> ProcessStatus {
    match status_of_code(code) {
        Some(s) => s,
        None => ProcessStatus::Unknown,
    }
}

/// How a state is highlighted on a terminal.
#[derive(Debug, Clone, Copy, PartialEq, Eq)]
pub enum StatusStyle {
    White,
    Yellow,
    Green,
    Red,
    RedBold,
}

/// The highlight of a state: unknown white, starting and stopping yellow,
/// running green, stopped red and failed bold red.
pub open spec fn status_style(s: ProcessStatus) -> StatusStyle {
    match s {
        ProcessStatus::Unknown => StatusStyle::White,
        ProcessStatus::Starting => StatusStyle::Yellow,
        ProcessStatus::Running => StatusStyle::Green,
        ProcessStatus::Stopping => StatusStyle::Yellow,
        ProcessStatus::Stopped => StatusStyle::Red,
        ProcessStatus::Failed => StatusStyle::RedBold,
    }
}

impl ProcessStatus {
    /// The state a wire code stands for.
    pub fn from_code(code: i32) -> (r: Option<ProcessStatus>)
        ensures
            r == status_of_code(code as int),
    {
        if code == 0 {
            Some(ProcessStatus::Unknown)
        } else if code == 1 {
            Some(ProcessStatus::Starting)
        } else if code == 2 {
            Some(ProcessStatus::Running)
        } else if code == 3 {
            Some(ProcessStatus::Stopping)
        } else if code == 4 {
            Some(ProcessStatus::Stopped)
        } else if code == 5 {
            Some(ProcessStatus::Failed)
        } else {
            None
        }
    }

    /// The wire code of a state.
    pub fn code(self) -> (r: i32)
        ensures
            status_of_code(r as int) == Some(self),
    {
        match self {
            ProcessStatus::Unknown => 0,
            ProcessStatus::Starting => 1,
            ProcessStatus::Running => 2,
            ProcessStatus::Stopping => 3,
            ProcessStatus::Stopped => 4,
            ProcessStatus::Failed => 5,
        }
    }
}

/// The display name of a state.
pub fn format_status_enum(status: ProcessStatus) -> (r: String)
    ensures
        r@ == status_name(status),
{
    String::from_str(
        match status {
            ProcessStatus::Unknown => "Unknown",
            ProcessStatus::Starting => "Starting",
            ProcessStatus::Running => "Running",
            ProcessStatus::Stopping => "Stopping",
            ProcessStatus::Stopped => "Stopped",
            ProcessStatus::Failed => "Failed",
        },
    )
}

/// The display name of the state a wire code stands for; codes that are not
/// states are shown as unknown.
pub fn format_status(status: i32) -> (r: String)
    ensures
        r@ == status_name(status_or_unknown(status as int)),
{
    let s = match ProcessStatus::from_code(status) {
        Some(s) => s,
        None => ProcessStatus::Unknown,
    };
    format_status_enum(s)
}

/// The display name and highlight of a state.
pub fn format_status_colored_enum(status: ProcessStatus) -> (r: (String, StatusStyle))
    ensures
        r.0@ == status_name(status),
        r.1 == status_style(status),
{
    let style = match status {
        ProcessStatus::Unknown => StatusStyle::White,
        ProcessStatus::Starting => StatusStyle::Yellow,
        ProcessStatus::Running => StatusStyle::Green,
        ProcessStatus::Stopping => StatusStyle::Yellow,
        ProcessStatus::Stopped => StatusStyle::Red,
        ProcessStatus::Failed => StatusStyle::RedBold,
    };
    (format_status_enum(status), style)
}

/// The display name and highlight of the state a wire code stands for.
pub fn format_status_colored(status: i32) -> (r: (String, StatusStyle))
    ensures
        r.0@ == status_name(status_or_unknown(status as int)),
        r.1 == status_style(status_or_unknown(status as int)),
{
    let s = match ProcessStatus::from_code(status) {
        Some(s) => s,
        None => ProcessStatus::Unknown,
    };
    format_status_colored_enum(s)
}

/// The lower-case name of the state a wire code stands for, as tools report
/// it; codes that are not states are reported as unknown.
pub fn status_word_of_code(status: i32) -> (r: &'static str)
    ensures
        r@ == status_word(status_or_unknown(status as int)),
{
    if status == 1 {
        "starting"
    } else if status == 2 {
        "running"
    } else if status == 3 {
        "stopping"
    } else if status == 4 {
        "stopped"
    } else if status == 5 {
        "failed"
    } else {
        "unknown"
    }
}

/// `s` with ASCII upper-case letters turned to lower case.
pub open spec fn ascii_lower(s: Seq<char>) -> Seq<char> {
    s.map_values(|c: char| if 'A' <= c <= 'Z' { ((c as u32) + 32) as char } else { c })
}

/// The state named by `s`, ignoring ASCII case.
pub open spec fn status_named(s: Seq<char>) -> Option<ProcessStatus> {
    let l = ascii_lower(s);
    if l == "unknown"@ {
        Some(ProcessStatus::Unknown)
    } else if l == "starting"@ {
        Some(ProcessStatus::Starting)
    } else if l == "running"@ {
        Some(ProcessStatus::Running)
    } else if l == "stopping"@ {
        Some(ProcessStatus::Stopping)
    } else if l == "stopped"@ {
        Some(ProcessStatus::Stopped)
    } else if l == "failed"@ {
        Some(ProcessStatus::Failed)
    } else {
        None
    }
}

fn to_ascii_lower(s: &str) -> (r: String)
    ensures
        r@ == ascii_lower(s@),
{
    let v = chars_of(s);
    let mut out = String::new();
    let mut i: usize = 0;
    while i < v.len()
        invariant
            i <= v.len(),
            v@ == s@,
            out@ =~= ascii_lower(s@).take(i as int),
        decreases v.len() - i,
    {
        let c = v[i];
        let d = if 'A' <= c && c <= 'Z' {
            ((c as u32) + 32) as u8 as char
        } else {
            c
        };
        crate::text::push_char(&mut out, d);
        assert(ascii_lower(s@).take(i + 1) =~= ascii_lower(s@).take(i as int).push(ascii_lower(s@)[i as int]));
        i = i + 1;
    }
    assert(ascii_lower(s@).take(v.len() as int) =~= ascii_lower(s@));
    out
}

/// Reads a state name given on the command line, ignoring ASCII case, and
/// returns its wire code.
pub fn parse_status(status: &str) -> (r: Result<i32, String>)
    ensures
        match status_named(status@) {
            Some(s) => r matches Ok(c) && status_of_code(c as int) == Some(s),
            None => r matches Err(e) && e@ == "Invalid process status: "@ + status@,
        },
{
    let l = to_ascii_lower(status);
    let s = if str_equal(l.as_str(), "unknown") {
        ProcessStatus::Unknown
    } else if str_equal(l.as_str(), "starting") {
        ProcessStatus::Starting
    } else if str_equal(l.as_str(), "running") {
        ProcessStatus::Running
    } else if str_equal(l.as_str(), "stopping") {
        ProcessStatus::Stopping
    } else if str_equal(l.as_str(), "stopped") {
        ProcessStatus::Stopped
    } else if str_equal(l.as_str(), "failed") {
        ProcessStatus::Failed
    } else {
        let mut e = String::from_str("Invalid process status: ");
        e.append(status);
        return Err(e);
    };
    Ok(s.code())
}


/// Every state's display name reads back as that state, and its wire code
/// as its name.
pub proof fn status_names_read_back(s: ProcessStatus)
    ensures
        status_named(status_name(s)) == Some(s),
{
    reveal_strlit("Unknown");
    reveal_strlit("Starting");
    reveal_strlit("Running");
    reveal_strlit("Stopping");
    reveal_strlit("Stopped");
    reveal_strlit("Failed");
    reveal_strlit("unknown");
    reveal_strlit("starting");
    reveal_strlit("running");
    reveal_strlit("stopping");
    reveal_strlit("stopped");
    reveal_strlit("failed");
    let l = ascii_lower(status_name(s));
    match s {
        ProcessStatus::Unknown => {
            assert(l =~= "unknown"@);
        },
        ProcessStatus::Starting => {
            assert(l =~= "starting"@);
        },
        ProcessStatus::Running => {
            assert(l =~= "running"@);
            assert(l[0] != "unknown"@[0] && l.len() != "starting"@.len());
        },
        ProcessStatus::Stopping => {
            assert(l =~= "stopping"@);
            assert(l[0] != "unknown"@[0] && l[2] != "starting"@[2] && l.len() != "running"@.len());
        },
        ProcessStatus::Stopped => {
            assert(l =~= "stopped"@);
            assert(l[0] != "unknown"@[0] && l.len() != "starting"@.len() && l[0] != "running"@[0]
                && l.len() != "stopping"@.len());
        },
        ProcessStatus::Failed => {
            assert(l =~= "failed"@);
            assert(l[0] != "unknown"@[0] && l[0] != "starting"@[0] && l[0] != "running"@[0] && l[0]
                != "stopping"@[0] && l[0] != "stopped"@[0]);
        },
    }
}

} // verus!
