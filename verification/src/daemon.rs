//! Daemon bookkeeping: recognising the daemon among processes, reading its
//! PID file, deciding whether it runs, and the reports the daemon command
//! prints.

use vstd::prelude::*;
use vstd::string::*;
use crate::text::{chars_of, decimal, push_decimal, str_equal, string_from_chars};
use crate::parse::{
    contains, contains_text, fields, lines, parse_i32, parsed_i32, split_fields, split_lines,
    trim, trimmed,
};

verus! {

/// Start of the last `/`-separated segment of `p`: the length of the prefix
/// that ends with the last `/` (zero when there is none).
pub open spec fn segment_start(p: Seq<char>) -> nat
    decreases p.len(),
{
    if p.len() == 0 {
        0
    } else if p.last() == '/' {
        p.len()
    } else {
        segment_start(p.drop_last())
    }
}

/// `seg` is the segment `.`.
pub open spec fn is_dot(seg: Seq<char>) -> bool {
    seg.len() == 1 && seg[0] == '.'
}

/// `seg` is the segment `..`.
pub open spec fn is_dot_dot(seg: Seq<char>) -> bool {
    seg.len() == 2 && seg[0] == '.' && seg[1] == '.'
}

pub proof fn lemma_segment_start(p: Seq<char>)
    ensures
        segment_start(p) <= p.len(),
        p.len() > 0 && p.last() != '/' ==> segment_start(p) < p.len(),
        segment_start(p) > 0 ==> p[segment_start(p) - 1] == '/',
        forall|j: int| segment_start(p) <= j < p.len() ==> p[j] != '/',
    decreases p.len(),
{
    if p.len() > 0 && p.last() != '/' {
        lemma_segment_start(p.drop_last());
        assert forall|j: int| segment_start(p) <= j < p.len() implies p[j] != '/' by {
            if j < p.len() - 1 {
                assert(p[j] == p.drop_last()[j]);
            }
        }
    }
}

/// The last component of the path `p` that is not `.`, ignoring trailing
/// slashes.
pub open spec fn last_component(p: Seq<char>) -> Option<Seq<char>>
    decreases p.len(),
{
    if p.len() == 0 {
        None
    } else if p.last() == '/' {
        last_component(p.drop_last())
    } else {
        proof {
            lemma_segment_start(p);
        }
        let k = segment_start(p);
        let seg = p.skip(k as int);
        if is_dot(seg) {
            last_component(p.take(k as int))
        } else {
            Some(seg)
        }
    }
}

/// The final component of the path `p` as `Path::file_name` gives it: none
/// when the path ends in `..` or has no normal component.
pub open spec fn path_file_name(p: Seq<char>) -> Option<Seq<char>> {
    match last_component(p) {
        Some(seg) => if is_dot_dot(seg) {
            None
        } else {
            Some(seg)
        },
        None => None,
    }
}

/// The final component of the path `p`, if it has one.
pub fn file_name(p: &str) -> (r: Option<String>)
    ensures
        match path_file_name(p@) {
            Some(seg) => r is Some && r->0@ == seg,
            None => r is None,
        },
{
    let v = chars_of(p);
    let mut end: usize = v.len();
    assert(v@.take(end as int) =~= p@);
    loop
        invariant
            end <= v.len(),
            v@ == p@,
            last_component(p@) == last_component(v@.take(end as int)),
        decreases end,
    {
        if end == 0 {
            assert(v@.take(0) =~= Seq::<char>::empty());
            return None;
        }
        if v[end - 1] == '/' {
            assert(v@.take(end as int).drop_last() =~= v@.take(end - 1));
            end = end - 1;
        } else {
            let ghost t = v@.take(end as int);
            let mut start: usize = end;
            while start > 0 && v[start - 1] != '/'
                invariant
                    start <= end <= v.len(),
                    t == v@.take(end as int),
                    t.len() > 0,
                    t.last() != '/',
                    segment_start(t) == segment_start(v@.take(start as int)) || start == end,
                    start < end ==> segment_start(t) == segment_start(v@.take(start as int)),
                    forall|j: int| start <= j < end ==> v@[j] != '/',
                decreases start,
            {
                proof {
                    let w = v@.take(start as int);
                    if start == end {
                        assert(w =~= t);
                    }
                    assert(w.drop_last() =~= v@.take(start - 1));
                    assert(w.last() == v@[start - 1]);
                }
                start = start - 1;
            }
            proof {
                lemma_segment_start(t);
                let w = v@.take(start as int);
                if start == end {
                    assert(w =~= t);
                }
                if start > 0 {
                    assert(w.last() == '/');
                    assert(segment_start(w) == start);
                } else {
                    assert(segment_start(w) == 0);
                }
                assert(segment_start(t) == start);
                assert(t.skip(start as int) =~= v@.subrange(start as int, end as int));
                assert(t.take(start as int) =~= v@.take(start as int));
            }
            let len = end - start;
            if len == 1 && v[start] == '.' {
                end = start;
            } else {
                let seg = string_from_chars(&v, start, end);
                if len == 2 && v[start] == '.' && v[start + 1] == '.' {
                    return None;
                }
                return Some(seg);
            }
        }
    }
}

/// Whether a process with executable name `name` and command line `command`
/// is the daemon: the executable is `mcproc` (by name, or by the file name of
/// the first argument) and some argument is `--daemon`.
pub open spec fn identifies_daemon(name: Seq<char>, command: Seq<String>) -> bool {
    &&& (name == "mcproc"@ || (command.len() > 0 && path_file_name(command[0]@) == Some(
        "mcproc"@,
    )))
    &&& exists|i: int| 0 <= i < command.len() && #[trigger] command[i]@ == "--daemon"@
}

/// Whether the process described by `name` and `command` is the daemon.
pub fn command_identifies_mcproc_daemon(name: &str, command: &[String]) -> (r: bool)
    ensures
        r == identifies_daemon(name@, command@),
{
    let mut executable_is_mcproc = str_equal(name, "mcproc");
    if !executable_is_mcproc && command.len() > 0 {
        match file_name(command[0].as_str()) {
            Some(base) => {
                executable_is_mcproc = str_equal(base.as_str(), "mcproc");
            },
            None => {},
        }
    }
    if !executable_is_mcproc {
        return false;
    }
    let mut i: usize = 0;
    while i < command.len()
        invariant
            i <= command@.len(),
            name@ == "mcproc"@ || (command@.len() > 0 && path_file_name(command@[0]@) == Some(
                "mcproc"@,
            )),
            forall|j: int| 0 <= j < i ==> #[trigger] command@[j]@ != "--daemon"@,
        decreases command.len() - i,
    {
        if str_equal(command[i].as_str(), "--daemon") {
            return true;
        }
        i = i + 1;
    }
    false
}

/// The uptime text: days, hours, minutes and seconds, leaving out the
/// leading units that are zero (`1d 2h 3m 4s`, `2h 0m 5s`, `3m 0s`, `7s`).
pub open spec fn uptime_text(seconds: nat) -> Seq<char> {
    let days = seconds / 86400;
    let hours = (seconds % 86400) / 3600;
    let minutes = (seconds % 3600) / 60;
    let secs = seconds % 60;
    if days > 0 {
        decimal(days) + "d "@ + decimal(hours) + "h "@ + decimal(minutes) + "m "@ + decimal(secs)
            + "s"@
    } else if hours > 0 {
        decimal(hours) + "h "@ + decimal(minutes) + "m "@ + decimal(secs) + "s"@
    } else if minutes > 0 {
        decimal(minutes) + "m "@ + decimal(secs) + "s"@
    } else {
        decimal(secs) + "s"@
    }
}

/// The text of an uptime split into units: days, hours, minutes and
/// seconds in base ten, each followed by its unit letter, the leading units
/// that are zero left out.
pub open spec fn units_text(days: nat, hours: nat, minutes: nat, secs: nat) -> Seq<char> {
    let h = decimal(hours) + "h "@;
    let m = decimal(minutes) + "m "@;
    let s = decimal(secs) + "s"@;
    if days > 0 {
        decimal(days) + "d "@ + h + m + s
    } else if hours > 0 {
        h + m + s
    } else if minutes > 0 {
        m + s
    } else {
        s
    }
}

/// Law: the uptime text of a number of seconds names days, hours under a
/// day, minutes under an hour and seconds under a minute that add up to
/// it.
pub proof fn uptime_units_add_up(seconds: nat)
    ensures
        exists|days: nat, hours: nat, minutes: nat, secs: nat|
            hours < 24 && minutes < 60 && secs < 60 && days * 86400 + hours * 3600 + minutes * 60
                + secs == seconds && uptime_text(seconds) == #[trigger] units_text(
                days,
                hours,
                minutes,
                secs,
            ),
{
    let days = seconds / 86400;
    let r1 = seconds % 86400;
    let hours = r1 / 3600;
    let minutes = (seconds % 3600) / 60;
    let secs = seconds % 60;
    assert(seconds == 86400 * days + r1) by {
        vstd::arithmetic::div_mod::lemma_fundamental_div_mod(seconds as int, 86400);
    }
    assert(r1 < 86400) by {
        vstd::arithmetic::div_mod::lemma_mod_bound(seconds as int, 86400);
    }
    assert(r1 % 3600 == seconds % 3600) by {
        vstd::arithmetic::div_mod::lemma_mod_mod(seconds as int, 3600, 24);
    }
    assert(r1 == 3600 * hours + r1 % 3600) by {
        vstd::arithmetic::div_mod::lemma_fundamental_div_mod(r1 as int, 3600);
    }
    assert(hours < 24);
    let r2 = seconds % 3600;
    assert(r2 < 3600) by {
        vstd::arithmetic::div_mod::lemma_mod_bound(seconds as int, 3600);
    }
    assert(r2 % 60 == seconds % 60) by {
        vstd::arithmetic::div_mod::lemma_mod_mod(seconds as int, 60, 60);
    }
    assert(r2 == 60 * minutes + r2 % 60) by {
        vstd::arithmetic::div_mod::lemma_fundamental_div_mod(r2 as int, 60);
    }
    assert(minutes < 60);
    assert(days * 86400 + hours * 3600 + minutes * 60 + secs == seconds);
    assert(uptime_text(seconds) == units_text(days, hours, minutes, secs));
}

/// Formats a number of seconds as the daemon status shows its uptime.
pub fn format_uptime(seconds: u64) -> (r: String)
    ensures
        r@ == uptime_text(seconds as nat),
{
    let days = seconds / 86400;
    let hours = (seconds % 86400) / 3600;
    let minutes = (seconds % 3600) / 60;
    let secs = seconds % 60;
    let mut s = String::new();
    if days > 0 {
        push_decimal(&mut s, days);
        s.append("d ");
    }
    if days > 0 || hours > 0 {
        push_decimal(&mut s, hours);
        s.append("h ");
    }
    if days > 0 || hours > 0 || minutes > 0 {
        push_decimal(&mut s, minutes);
        s.append("m ");
    }
    push_decimal(&mut s, secs);
    s.append("s");
    assert(s@ =~= uptime_text(seconds as nat));
    s
}

/// The PID a PID file holds: its trimmed text read as an `i32`.
pub open spec fn pid_in_file(text: Seq<char>) -> Option<i32> {
    match parsed_i32(trimmed(text)) {
        Some(v) => Some(v as i32),
        None => None,
    }
}

/// Reads the PID held by the text of a PID file.
pub fn pid_from_file(text: &str) -> (r: Option<i32>)
    ensures
        r == pid_in_file(text@),
{
    let t = trim(text);
    parse_i32(t.as_str())
}

/// Index of the last `)` in `s`, or -1.
pub open spec fn last_close_paren(s: Seq<char>) -> int
    decreases s.len(),
{
    if s.len() == 0 {
        -1
    } else if s.last() == ')' {
        s.len() - 1
    } else {
        last_close_paren(s.drop_last())
    }
}

/// Whether a `/proc/<pid>/stat` line describes a zombie: the first field
/// after the command name (which ends at the last `)`) is `Z`.
pub open spec fn stat_shows_zombie(stat: Seq<char>) -> bool {
    let k = last_close_paren(stat);
    k >= 0 && fields(stat.skip(k + 1)).len() > 0 && fields(stat.skip(k + 1))[0] == seq!['Z']
}

/// Whether the `/proc/<pid>/stat` text describes a zombie process.
pub fn stat_is_zombie(stat: &str) -> (r: bool)
    ensures
        r == stat_shows_zombie(stat@),
{
    let v = chars_of(stat);
    let mut k: usize = v.len();
    assert(v@.take(k as int) =~= v@);
    while k > 0 && v[k - 1] != ')'
        invariant
            k <= v.len(),
            v@ == stat@,
            last_close_paren(v@) == last_close_paren(v@.take(k as int)),
        decreases k,
    {
        assert(v@.take(k as int).drop_last() =~= v@.take(k - 1));
        k = k - 1;
    }
    if k == 0 {
        assert(v@.take(0) =~= Seq::<char>::empty());
        return false;
    }
    assert(v@.take(k as int).last() == ')');
    assert(last_close_paren(stat@) == k - 1);
    let after = string_from_chars(&v, k, v.len());
    assert(after@ =~= stat@.skip(k as int));
    let fs = split_fields(after.as_str());
    if fs.len() == 0 {
        return false;
    }
    let first = str_equal(fs[0].as_str(), "Z");
    proof {
        reveal_strlit("Z");
        assert("Z"@ =~= seq!['Z']);
        assert(fs[0]@ == fields(stat@.skip(k as int))[0]);
    }
    first
}

/// What the system tells about a process: its executable name and command
/// line.
#[derive(Debug)]
pub struct ProcessIdentity {
    pub name: String,
    pub command: Vec<String>,
}

/// Whether `pid` names the daemon, given whether a process with that PID is
/// alive and what the system tells about it: never for a PID that is not
/// positive or not alive; when nothing is known of the process, it is taken
/// to be the daemon; else its name and command line decide.
pub open spec fn daemon_pid(pid: int, alive: bool, identity: Option<ProcessIdentity>) -> bool {
    if pid <= 0 || !alive {
        false
    } else {
        match identity {
            None => true,
            Some(id) => identifies_daemon(id.name@, id.command@),
        }
    }
}

/// Whether `pid` names the daemon (see [`daemon_pid`]).
pub fn pid_is_mcproc_daemon(pid: i32, alive: bool, identity: Option<&ProcessIdentity>) -> (r: bool)
    ensures
        r == daemon_pid(
            pid as int,
            alive,
            match identity {
                Some(id) => Some(*id),
                None => None,
            },
        ),
{
    if pid <= 0 || !alive {
        return false;
    }
    match identity {
        None => true,
        Some(id) => command_identifies_mcproc_daemon(id.name.as_str(), id.command.as_slice()),
    }
}

/// What was observed of the daemon: whether its socket accepts a
/// connection, the text of its PID file, and, for the PID that file holds,
/// whether the process is alive, its `/proc` stat line, and whether it is
/// the daemon.
#[derive(Debug)]
pub struct DaemonProbe {
    pub socket_connectable: bool,
    pub pid_file: Option<String>,
    pub process_alive: bool,
    pub proc_stat: Option<String>,
    pub process_is_daemon: bool,
}

/// Whether the daemon runs, and the PID its file holds.
#[derive(Debug)]
pub struct DaemonState {
    pub running: bool,
    pub pid: Option<i32>,
    pub warning: Option<String>,
}

/// The PID held by the probe's PID file, if it holds one.
pub open spec fn probe_pid(probe: DaemonProbe) -> Option<i32> {
    match probe.pid_file {
        Some(t) => pid_in_file(t@),
        None => None,
    }
}

/// Whether the daemon runs: its socket accepts a connection; or else its
/// PID file names a live process that is no zombie and is the daemon.
pub open spec fn probe_running(probe: DaemonProbe) -> bool {
    probe.socket_connectable || (probe_pid(probe) is Some && probe.process_alive && !(
    match probe.proc_stat {
        Some(st) => stat_shows_zombie(st@),
        None => false,
    }) && probe.process_is_daemon)
}

/// The warning shown alongside the answer: for a connectable socket
/// without a valid PID file, or for a live daemon process whose socket does
/// not answer.
pub open spec fn probe_warning(probe: DaemonProbe) -> Option<Seq<char>> {
    if probe.socket_connectable {
        if probe_pid(probe) is None {
            Some("Warning: Socket exists but PID file is invalid"@)
        } else {
            None
        }
    } else if probe_running(probe) {
        Some(
            "Warning: Process "@ + crate::text::signed_decimal(probe_pid(probe)->0 as int)
                + " exists but socket is not accessible"@,
        )
    } else {
        None
    }
}

/// Decides whether the daemon runs from what was observed of it.
pub fn is_daemon_running_with_details(probe: &DaemonProbe) -> (r: DaemonState)
    ensures
        r.running == probe_running(*probe),
        r.pid == probe_pid(*probe),
        match probe_warning(*probe) {
            Some(w) => r.warning is Some && r.warning->0@ == w,
            None => r.warning is None,
        },
{
    let pid = match &probe.pid_file {
        Some(t) => pid_from_file(t.as_str()),
        None => None,
    };
    if probe.socket_connectable {
        let warning = if pid.is_none() {
            Some(String::from_str("Warning: Socket exists but PID file is invalid"))
        } else {
            None
        };
        return DaemonState { running: true, pid, warning };
    }
    match pid {
        None => DaemonState { running: false, pid: None, warning: None },
        Some(p) => {
            let zombie = match &probe.proc_stat {
                Some(st) => stat_is_zombie(st.as_str()),
                None => false,
            };
            if !probe.process_alive || zombie || !probe.process_is_daemon {
                DaemonState { running: false, pid, warning: None }
            } else {
                let mut w = String::from_str("Warning: Process ");
                crate::text::push_signed_decimal(&mut w, p as i64);
                w.append(" exists but socket is not accessible");
                DaemonState { running: true, pid, warning: Some(w) }
            }
        },
    }
}

/// Whether the daemon runs, from what was observed of it.
pub fn is_daemon_running(probe: &DaemonProbe) -> (r: bool)
    ensures
        r == probe_running(*probe),
{
    is_daemon_running_with_details(probe).running
}

/// A line of the process listing that names a daemon: it mentions `mcproc`
/// and `--daemon` and is not the `grep` looking for them.
pub open spec fn daemon_line(l: Seq<char>) -> bool {
    contains_text(l, "mcproc"@) && contains_text(l, "--daemon"@) && !contains_text(l, "grep"@)
}

/// The PIDs named by the daemon lines of a listing: the second field of each
/// such line, where it reads as an `i32`.
pub open spec fn listed_daemon_pids(ls: Seq<Seq<char>>) -> Seq<i32>
    decreases ls.len(),
{
    if ls.len() == 0 {
        Seq::empty()
    } else {
        let l = ls.last();
        let fs = fields(l);
        let rest = listed_daemon_pids(ls.drop_last());
        if daemon_line(l) && fs.len() > 1 && parsed_i32(fs[1]) is Some {
            rest.push(parsed_i32(fs[1])->0 as i32)
        } else {
            rest
        }
    }
}

/// The PIDs of the daemons named in a `ps aux` listing, in order.
pub fn daemon_pids_in_listing(listing: &str) -> (r: Vec<i32>)
    ensures
        r@ == listed_daemon_pids(lines(listing@)),
{
    let ls = split_lines(listing);
    let ghost all = lines(listing@);
    let mut pids: Vec<i32> = Vec::new();
    let mut i: usize = 0;
    while i < ls.len()
        invariant
            i <= ls.len() == all.len(),
            all == lines(listing@),
            forall|j: int| 0 <= j < ls.len() ==> #[trigger] ls[j]@ == all[j],
            pids@ == listed_daemon_pids(all.take(i as int)),
        decreases ls.len() - i,
    {
        let line = ls[i].as_str();
        assert(all.take(i + 1).drop_last() =~= all.take(i as int));
        if contains(line, "mcproc") && contains(line, "--daemon") && !contains(line, "grep") {
            let fs = split_fields(line);
            if fs.len() > 1 {
                match parse_i32(fs[1].as_str()) {
                    Some(pid) => {
                        pids.push(pid);
                    },
                    None => {},
                }
            }
        }
        i = i + 1;
    }
    assert(all.take(ls.len() as int) =~= all);
    pids
}

/// The subcommands of the daemon command.
#[derive(Debug)]
pub enum DaemonSubcommand {
    Start,
    Stop,
    Restart,
    Status,
}

/// The daemon command: one of its subcommands.
#[derive(Debug)]
pub struct DaemonCommand {
    pub command: DaemonSubcommand,
}

/// What a daemon subcommand does before its main work, given the daemon's
/// state and whether its socket file exists: the line it prints (if any),
/// its notes on standard error, which stale files it removes, and whether it
/// goes on to its main work.
#[derive(Debug)]
pub struct DaemonPlan {
    pub say: Option<String>,
    pub notes: Vec<String>,
    pub remove_pid_file: bool,
    pub remove_socket: bool,
    pub proceed: bool,
}

/// The note printed before a stale PID file is removed.
pub open spec fn stale_pid_note(pid: i32) -> Seq<char> {
    "Cleaning up stale PID file for process "@ + crate::text::signed_decimal(pid as int)
}

/// The plan of `command` (see [`DaemonPlan`]):
/// - `start`: when the daemon runs, says so and stops; else removes a stale
///   PID file (when one holds a PID) and a stale socket, with a note for
///   each, and launches.
/// - `stop`: when the daemon does not run, says so, removes the stale files
///   and stops; else goes on to signal it.
/// - `restart`: when the daemon runs, says it stops it first; always goes on.
/// - `status`: when the daemon does not run, says so (naming a stale PID
///   file, which it removes with the socket) and stops; else goes on to
///   report.
pub open spec fn plan_holds(
    command: DaemonSubcommand,
    running: bool,
    pid: Option<i32>,
    socket_exists: bool,
    plan: DaemonPlan,
) -> bool {
    match command {
        DaemonSubcommand::Start => if running {
            said(plan.say) == Some("mcprocd daemon is already running"@)
                && plan.notes@.len() == 0 && !plan.remove_pid_file && !plan.remove_socket
                && !plan.proceed
        } else {
            &&& said(plan.say) is None
            &&& plan.remove_pid_file == pid is Some
            &&& plan.remove_socket == socket_exists
            &&& plan.proceed
            &&& plan.notes@.map_values(|n: String| n@) == (if pid is Some {
                seq![stale_pid_note(pid->0)]
            } else {
                Seq::empty()
            }) + (if socket_exists {
                seq!["Cleaning up stale socket file"@]
            } else {
                Seq::empty()
            })
        },
        DaemonSubcommand::Stop => if running {
            said(plan.say) is None && plan.notes@.len() == 0 && !plan.remove_pid_file
                && !plan.remove_socket && plan.proceed
        } else {
            said(plan.say) == Some("mcprocd daemon is not running"@) && plan.notes@.len() == 0
                && plan.remove_pid_file == pid is Some && plan.remove_socket == socket_exists
                && !plan.proceed
        },
        DaemonSubcommand::Restart => {
            &&& said(plan.say) == (if running {
                Some("Stopping mcprocd daemon..."@)
            } else {
                None
            })
            &&& plan.notes@.len() == 0 && !plan.remove_pid_file && !plan.remove_socket
            &&& plan.proceed
        },
        DaemonSubcommand::Status => if running {
            said(plan.say) is None && plan.notes@.len() == 0 && !plan.remove_pid_file
                && !plan.remove_socket && plan.proceed
        } else if pid is Some {
            said(plan.say) == Some("mcprocd daemon is not running (stale PID file)"@)
                && plan.notes@.len() == 0 && plan.remove_pid_file
                && plan.remove_socket == socket_exists && !plan.proceed
        } else {
            said(plan.say) == Some("mcprocd daemon is not running"@) && plan.notes@.len() == 0
                && !plan.remove_pid_file && !plan.remove_socket && !plan.proceed
        },
    }
}

/// A `Some` holding the view of `s`.
pub open spec fn said(s: Option<String>) -> Option<Seq<char>> {
    match s {
        Some(t) => Some(t@),
        None => None,
    }
}

/// Plans `command` from the daemon's state and whether its socket file
/// exists.
pub fn plan_daemon_command(command: &DaemonSubcommand, state: &DaemonState, socket_exists: bool) -> (r: DaemonPlan)
    ensures
        plan_holds(*command, state.running, state.pid, socket_exists, r),
{
    let running = state.running;
    let mut notes: Vec<String> = Vec::new();
    match command {
        DaemonSubcommand::Start => {
            if running {
                DaemonPlan {
                    say: Some(String::from_str("mcprocd daemon is already running")),
                    notes,
                    remove_pid_file: false,
                    remove_socket: false,
                    proceed: false,
                }
            } else {
                match state.pid {
                    Some(p) => {
                        let mut n = String::from_str("Cleaning up stale PID file for process ");
                        crate::text::push_signed_decimal(&mut n, p as i64);
                        notes.push(n);
                    },
                    None => {},
                }
                if socket_exists {
                    notes.push(String::from_str("Cleaning up stale socket file"));
                }
                assert(notes@.map_values(|n: String| n@) =~= (if state.pid is Some {
                    seq![stale_pid_note(state.pid->0)]
                } else {
                    Seq::empty()
                }) + (if socket_exists {
                    seq!["Cleaning up stale socket file"@]
                } else {
                    Seq::empty()
                }));
                DaemonPlan {
                    say: None,
                    notes,
                    remove_pid_file: state.pid.is_some(),
                    remove_socket: socket_exists,
                    proceed: true,
                }
            }
        },
        DaemonSubcommand::Stop => {
            if running {
                DaemonPlan { say: None, notes, remove_pid_file: false, remove_socket: false, proceed: true }
            } else {
                DaemonPlan {
                    say: Some(String::from_str("mcprocd daemon is not running")),
                    notes,
                    remove_pid_file: state.pid.is_some(),
                    remove_socket: socket_exists,
                    proceed: false,
                }
            }
        },
        DaemonSubcommand::Restart => {
            DaemonPlan {
                say: if running {
                    Some(String::from_str("Stopping mcprocd daemon..."))
                } else {
                    None
                },
                notes,
                remove_pid_file: false,
                remove_socket: false,
                proceed: true,
            }
        },
        DaemonSubcommand::Status => {
            if running {
                DaemonPlan { say: None, notes, remove_pid_file: false, remove_socket: false, proceed: true }
            } else if state.pid.is_some() {
                DaemonPlan {
                    say: Some(String::from_str("mcprocd daemon is not running (stale PID file)")),
                    notes,
                    remove_pid_file: true,
                    remove_socket: socket_exists,
                    proceed: false,
                }
            } else {
                DaemonPlan {
                    say: Some(String::from_str("mcprocd daemon is not running")),
                    notes,
                    remove_pid_file: false,
                    remove_socket: false,
                    proceed: false,
                }
            }
        },
    }
}

/// The error given instead of signalling a PID that is not the daemon.
pub fn refusal_message(pid: i32) -> (r: String)
    ensures
        r@ == "Refusing to signal PID "@ + crate::text::signed_decimal(pid as int)
            + ": process is not an mcproc daemon"@,
{
    let mut s = String::from_str("Refusing to signal PID ");
    crate::text::push_signed_decimal(&mut s, pid as i64);
    s.append(": process is not an mcproc daemon");
    s
}

/// The next step in stopping the daemon whose PID file names `pid`.
#[derive(Debug)]
pub enum SignalStep {
    /// The PID is not the daemon: stop with this error, signalling nothing.
    Refuse(String),
    /// Ask the daemon to stop (SIGTERM).
    Terminate,
    /// Wait for the asked daemon to stop.
    Wait,
    /// It did not stop in time: kill it (SIGKILL).
    Escalate,
    /// It stopped.
    Done,
}

/// The step that follows, given whether `pid` is the daemon now, whether it
/// was already asked to stop, whether it has stopped and whether the wait
/// for it is over. A PID that is not the daemon is never signalled: it is
/// refused before the first signal and before the kill.
pub open spec fn signal_step_holds(
    pid: i32,
    is_daemon: bool,
    terminated: bool,
    stopped: bool,
    wait_over: bool,
    r: SignalStep,
) -> bool {
    if stopped {
        r is Done
    } else if !terminated || wait_over {
        if !is_daemon {
            r matches SignalStep::Refuse(m) && m@ == "Refusing to signal PID "@
                + crate::text::signed_decimal(pid as int) + ": process is not an mcproc daemon"@
        } else if !terminated {
            r is Terminate
        } else {
            r is Escalate
        }
    } else {
        r is Wait
    }
}

/// Decides the next step in stopping the daemon (see [`signal_step_holds`]).
pub fn next_signal_step(pid: i32, is_daemon: bool, terminated: bool, stopped: bool, wait_over: bool) -> (r:
    SignalStep)
    ensures
        signal_step_holds(pid, is_daemon, terminated, stopped, wait_over, r),
        (r is Terminate || r is Escalate) ==> is_daemon,
        r is Escalate ==> terminated && wait_over,
{
    if stopped {
        SignalStep::Done
    } else if !terminated || wait_over {
        if !is_daemon {
            SignalStep::Refuse(refusal_message(pid))
        } else if !terminated {
            SignalStep::Terminate
        } else {
            SignalStep::Escalate
        }
    } else {
        SignalStep::Wait
    }
}

/// Waiting for a signalled daemon to stop: it is checked once per interval,
/// for as many whole intervals as fit in the timeout.
#[derive(Debug)]
pub struct StopWait {
    pub timeout_ms: u64,
    pub interval_ms: u64,
    pub checks: u64,
    pub elapsed_ms: u64,
}

/// What a check of a stopping daemon found.
#[derive(Debug)]
pub enum StopCheck {
    /// The daemon is gone.
    Stopped,
    /// It still runs; the line to print, every five seconds.
    StillRunning(Option<String>),
}

/// The progress line printed while waiting for the daemon to stop.
pub open spec fn stop_progress_line(elapsed_ms: nat, timeout_ms: nat) -> Seq<char> {
    "Waiting for daemon to stop gracefully... ("@ + decimal(elapsed_ms / 1000) + "/"@
        + decimal(timeout_ms / 1000) + "s)"@
}

impl StopWait {
    /// The number of checks the timeout allows.
    pub open spec fn allowed(self) -> nat {
        (self.timeout_ms / self.interval_ms) as nat
    }

    /// Well-formed: a positive interval, and the time waited is one interval
    /// per check made, no more checks than allowed.
    pub open spec fn wf(self) -> bool {
        &&& self.interval_ms > 0
        &&& self.checks <= self.allowed()
        &&& self.elapsed_ms == self.checks * self.interval_ms
    }

    /// Starts waiting, with no check made yet.
    pub fn new(timeout_ms: u64, interval_ms: u64) -> (r: Self)
        requires
            interval_ms > 0,
        ensures
            r.wf(),
            r.timeout_ms == timeout_ms,
            r.interval_ms == interval_ms,
            r.checks == 0,
            r.elapsed_ms == 0,
    {
        StopWait { timeout_ms, interval_ms, checks: 0, elapsed_ms: 0 }
    }

    /// Whether the timeout allows another check.
    pub fn may_wait(&self) -> (r: bool)
        requires
            self.wf(),
        ensures
            r == (self.checks < self.allowed()),
    {
        self.checks < self.timeout_ms / self.interval_ms
    }

    /// Records a check made after one more interval: whether the daemon
    /// still runs, and, every five seconds, the progress line.
    pub fn record(&mut self, still_running: bool) -> (r: StopCheck)
        requires
            old(self).wf(),
            old(self).checks < old(self).allowed(),
        ensures
            final(self).wf(),
            final(self).timeout_ms == old(self).timeout_ms,
            final(self).interval_ms == old(self).interval_ms,
            final(self).checks == old(self).checks + 1,
            !still_running ==> r is Stopped,
            still_running ==> r is StillRunning,
            still_running ==> match r {
                StopCheck::StillRunning(line) => if final(self).elapsed_ms % 5000 == 0 {
                    line is Some && line->0@ == stop_progress_line(
                        final(self).elapsed_ms as nat,
                        final(self).timeout_ms as nat,
                    )
                } else {
                    line is None
                },
                StopCheck::Stopped => false,
            },
    {
        let ghost allowed = self.allowed();
        proof {
            let c = self.checks as int;
            let i = self.interval_ms as int;
            let t = self.timeout_ms as int;
            assert((c + 1) * i <= (t / i) * i) by (nonlinear_arith)
                requires
                    c + 1 <= t / i,
                    i > 0,
            ;
            assert((t / i) * i <= t) by (nonlinear_arith)
                requires
                    i > 0,
                    t >= 0,
            ;
            assert((c + 1) * i == c * i + i) by (nonlinear_arith);
        }
        self.checks = self.checks + 1;
        self.elapsed_ms = self.elapsed_ms + self.interval_ms;
        if !still_running {
            return StopCheck::Stopped;
        }
        if self.elapsed_ms % 5000 == 0 {
            let mut line = String::from_str("Waiting for daemon to stop gracefully... (");
            push_decimal(&mut line, self.elapsed_ms / 1000);
            line.append("/");
            push_decimal(&mut line, self.timeout_ms / 1000);
            line.append("s)");
            StopCheck::StillRunning(Some(line))
        } else {
            StopCheck::StillRunning(None)
        }
    }
}

/// Waiting for a launched daemon to come up: it is checked once per
/// interval, for as many whole intervals as fit in the startup timeout.
#[derive(Debug)]
pub struct StartWait {
    pub allowed: u64,
    pub checks: u64,
}

/// What a check of a starting daemon found.
#[derive(Debug)]
pub enum StartCheck {
    /// Its PID file and socket are ready.
    Ready,
    /// Not yet; the line to print, once, halfway through.
    NotYet(Option<String>),
}

impl StartWait {
    /// Starts waiting for `timeout_ms`, checking every `interval_ms`.
    pub fn new(timeout_ms: u64, interval_ms: u64) -> (r: Self)
        requires
            interval_ms > 0,
        ensures
            r.allowed == timeout_ms / interval_ms,
            r.checks == 0,
    {
        StartWait { allowed: timeout_ms / interval_ms, checks: 0 }
    }

    /// Whether the timeout allows another check.
    pub fn may_wait(&self) -> (r: bool)
        ensures
            r == (self.checks < self.allowed),
    {
        self.checks < self.allowed
    }

    /// Records a check: whether the daemon is ready and, when it is not and
    /// this is the check in the middle of the allowed ones, the line
    /// `Waiting for daemon to start...`.
    pub fn record(&mut self, ready: bool) -> (r: StartCheck)
        requires
            old(self).checks < old(self).allowed,
        ensures
            final(self).allowed == old(self).allowed,
            final(self).checks == old(self).checks + 1,
            ready ==> r is Ready,
            !ready ==> match r {
                StartCheck::NotYet(line) => if old(self).checks == old(self).allowed / 2 {
                    line is Some && line->0@ == "Waiting for daemon to start..."@
                } else {
                    line is None
                },
                StartCheck::Ready => false,
            },
    {
        let i = self.checks;
        self.checks = self.checks + 1;
        if ready {
            StartCheck::Ready
        } else if i == self.allowed / 2 {
            StartCheck::NotYet(Some(String::from_str("Waiting for daemon to start...")))
        } else {
            StartCheck::NotYet(None)
        }
    }
}

/// The text of a list of PIDs as `{:?}` prints it: `[1, 2]`.
pub open spec fn pid_list_text(pids: Seq<i32>) -> Seq<char> {
    "["@ + pid_items(pids) + "]"@
}

/// The PIDs separated by `, `.
pub open spec fn pid_items(pids: Seq<i32>) -> Seq<char>
    decreases pids.len(),
{
    if pids.len() == 0 {
        Seq::empty()
    } else if pids.len() == 1 {
        crate::text::signed_decimal(pids[0] as int)
    } else {
        pid_items(pids.drop_last()) + ", "@ + crate::text::signed_decimal(pids.last() as int)
    }
}

/// The warnings printed before launching when daemons already run: none
/// when the list is empty.
pub fn existing_daemons_warning(pids: &Vec<i32>) -> (r: Vec<String>)
    ensures
        pids.len() == 0 ==> r.len() == 0,
        pids.len() > 0 ==> r.len() == 2 && r[0]@ == "Warning: Found "@ + decimal(
            pids.len() as nat,
        ) + " existing mcproc daemon process(es): "@ + pid_list_text(pids@) && r[1]@
            == "Consider running 'mcproc daemon stop' first to clean up"@,
{
    let mut r: Vec<String> = Vec::new();
    if pids.len() == 0 {
        return r;
    }
    let mut w = String::from_str("Warning: Found ");
    push_decimal(&mut w, pids.len() as u64);
    w.append(" existing mcproc daemon process(es): [");
    let ghost head = w@;
    let mut i: usize = 0;
    while i < pids.len()
        invariant
            i <= pids.len(),
            w@ == head + pid_items(pids@.take(i as int)),
        decreases pids.len() - i,
    {
        if i > 0 {
            w.append(", ");
        }
        crate::text::push_signed_decimal(&mut w, pids[i] as i64);
        proof {
            let t = pids@.take(i + 1);
            assert(t.drop_last() =~= pids@.take(i as int));
            if i == 0 {
                assert(pid_items(pids@.take(0)) =~= Seq::<char>::empty());
            }
            assert(w@ =~= head + pid_items(t));
        }
        i = i + 1;
    }
    w.append("]");
    proof {
        assert(pids@.take(pids.len() as int) =~= pids@);
        reveal_strlit(" existing mcproc daemon process(es): [");
        reveal_strlit(" existing mcproc daemon process(es): ");
        reveal_strlit("[");
        assert(" existing mcproc daemon process(es): ["@ =~= " existing mcproc daemon process(es): "@ + "["@);
        assert(w@ =~= "Warning: Found "@ + decimal(pids.len() as nat) + " existing mcproc daemon process(es): "@ + pid_list_text(pids@));
    }
    r.push(w);
    r.push(String::from_str("Consider running 'mcproc daemon stop' first to clean up"));
    r
}

/// Whether a newline must be written before the daemon's output is appended
/// to its log: the log is not empty and does not end with one.
pub fn needs_log_separator(last_byte: Option<u8>) -> (r: bool)
    ensures
        r == (last_byte is Some && last_byte->0 != 10),
{
    match last_byte {
        Some(b) => b != 10u8,
        None => false,
    }
}

/// The lines of the detailed daemon status.
pub fn status_report(version: &str, pid: u32, data_dir: &str, uptime_seconds: u64, active_processes: u32) -> (r: Vec<String>)
    ensures
        r.len() == 6,
        r[0]@ == "mcprocd daemon is running"@,
        r[1]@ == "  Version:   "@ + version@,
        r[2]@ == "  PID:       "@ + decimal(pid as nat),
        r[3]@ == "  Data:      "@ + data_dir@,
        r[4]@ == "  Uptime:    "@ + uptime_text(uptime_seconds as nat),
        r[5]@ == "  Processes: "@ + decimal(active_processes as nat),
{
    let mut r: Vec<String> = Vec::new();
    r.push(String::from_str("mcprocd daemon is running"));
    let mut l = String::from_str("  Version:   ");
    l.append(version);
    r.push(l);
    let mut l = String::from_str("  PID:       ");
    push_decimal(&mut l, pid as u64);
    r.push(l);
    let mut l = String::from_str("  Data:      ");
    l.append(data_dir);
    r.push(l);
    let mut l = String::from_str("  Uptime:    ");
    let u = format_uptime(uptime_seconds);
    l.append(u.as_str());
    r.push(l);
    let mut l = String::from_str("  Processes: ");
    push_decimal(&mut l, active_processes as u64);
    r.push(l);
    r
}

/// The lines of the basic daemon status, printed when the daemon could not
/// be asked: its PID, its data directory, and why the details are missing
/// (`error` is the failure of the status request, or none when no
/// connection was made).
pub fn basic_status_report(pid: i32, data_dir: &str, error: Option<&str>) -> (r: Vec<String>)
    ensures
        r.len() == 4,
        r[0]@ == "mcprocd daemon is running"@,
        r[1]@ == "  PID:  "@ + crate::text::signed_decimal(pid as int),
        r[2]@ == "  Data: "@ + data_dir@,
        r[3]@ == match error {
            Some(e) => "  (Could not get detailed status: "@ + e@ + ")"@,
            None => "  (Could not connect to daemon for detailed status)"@,
        },
{
    let mut r: Vec<String> = Vec::new();
    r.push(String::from_str("mcprocd daemon is running"));
    let mut l = String::from_str("  PID:  ");
    crate::text::push_signed_decimal(&mut l, pid as i64);
    r.push(l);
    let mut l = String::from_str("  Data: ");
    l.append(data_dir);
    r.push(l);
    match error {
        Some(e) => {
            let mut l = String::from_str("  (Could not get detailed status: ");
            l.append(e);
            l.append(")");
            r.push(l);
        },
        None => {
            r.push(String::from_str("  (Could not connect to daemon for detailed status)"));
        },
    }
    r
}


/// A socket that accepts a connection means the daemon runs, whatever the
/// PID file says and whatever process it names.
pub proof fn connectable_socket_means_running(probe: DaemonProbe)
    requires
        probe.socket_connectable,
    ensures
        probe_running(probe),
{
}

/// A process is never taken for the daemon unless one of its arguments is
/// `--daemon`.
pub proof fn daemon_needs_daemon_flag(name: Seq<char>, command: Seq<String>)
    requires
        forall|i: int| 0 <= i < command.len() ==> #[trigger] command[i]@ != "--daemon"@,
    ensures
        !identifies_daemon(name, command),
{
}

/// Waiting for a stopping daemon never takes longer than the timeout.
pub proof fn stop_wait_within_timeout(w: StopWait)
    requires
        w.wf(),
    ensures
        w.elapsed_ms <= w.timeout_ms,
{
    let c = w.checks as int;
    let i = w.interval_ms as int;
    let t = w.timeout_ms as int;
    assert(c * i <= (t / i) * i) by (nonlinear_arith)
        requires
            c <= t / i,
            i > 0,
    ;
    assert((t / i) * i <= t) by (nonlinear_arith)
        requires
            i > 0,
            t >= 0,
    ;
}

} // verus!
