//! File-system locations used by the CLI and the daemon, kept as text.

use vstd::prelude::*;
use vstd::string::*;
use crate::process_key::sanitize;
use crate::text::{chars_of, push_char, push_chars};

verus! {

/// `base` extended by `part` as a Unix path: an absolute `part` replaces
/// `base`, an empty `base` gives `part`, and otherwise one `/` separates
/// them unless `base` already ends with one.
pub open spec fn path_join(base: Seq<char>, part: Seq<char>) -> Seq<char> {
    if part.len() > 0 && part[0] == '/' {
        part
    } else if base.len() == 0 {
        part
    } else if base.last() == '/' {
        base + part
    } else {
        base + seq!['/'] + part
    }
}

/// Extends `base` by `part` as a Unix path (see [`path_join`]).
pub fn join(base: &str, part: &str) -> (r: String)
    ensures
        r@ == path_join(base@, part@),
{
    let b = chars_of(base);
    let p = chars_of(part);
    if p.len() > 0 && p[0] == '/' {
        return String::from_str(part);
    }
    if b.len() == 0 {
        return String::from_str(part);
    }
    let mut s = String::from_str(base);
    if b[b.len() - 1] != '/' {
        push_char(&mut s, '/');
    }
    s.append(part);
    s
}

/// Where mcproc keeps its files under a home directory.
#[derive(Debug, Clone)]
pub struct McprocPaths {
    /// Base data directory (`~/.mcproc`).
    pub data_dir: String,
    /// PID file of the daemon.
    pub pid_file: String,
    /// Socket the daemon listens on.
    pub socket_path: String,
    /// Directory of process log files.
    pub log_dir: String,
    /// The daemon's own log file.
    pub daemon_log_file: String,
}

/// The home directory used when none is known.
pub open spec fn home_or_tmp(home: Option<Seq<char>>) -> Seq<char> {
    match home {
        Some(h) => h,
        None => "/tmp"@,
    }
}

impl McprocPaths {
    /// The paths under `home` (or under `/tmp` when no home directory is
    /// known): data in `.mcproc`, logs in `.mcproc/log`, and the daemon's
    /// PID file, socket and log file in the data directory.
    pub fn new(home: Option<&str>) -> (p: Self)
        ensures
            ({
                let h = match home {
                    Some(x) => Some(x@),
                    None => None,
                };
                let data = path_join(home_or_tmp(h), ".mcproc"@);
                &&& p.data_dir@ == data
                &&& p.log_dir@ == path_join(data, "log"@)
                &&& p.pid_file@ == path_join(data, "mcprocd.pid"@)
                &&& p.socket_path@ == path_join(data, "mcprocd.sock"@)
                &&& p.daemon_log_file@ == path_join(data, "mcprocd.log"@)
            }),
    {
        let base = match home {
            Some(h) => h,
            None => "/tmp",
        };
        let data_dir = join(base, ".mcproc");
        let log_dir = join(data_dir.as_str(), "log");
        let pid_file = join(data_dir.as_str(), "mcprocd.pid");
        let socket_path = join(data_dir.as_str(), "mcprocd.sock");
        let daemon_log_file = join(data_dir.as_str(), "mcprocd.log");
        McprocPaths { data_dir, pid_file, socket_path, log_dir, daemon_log_file }
    }

    /// The log file of a process: `<name>.log` in the log directory, with
    /// every `/` of the name replaced by `_`.
    pub fn process_log_file(&self, process_name: &str) -> (r: String)
        ensures
            r@ == path_join(self.log_dir@, sanitize(process_name@) + ".log"@),
    {
        let v = chars_of(process_name);
        let mut file = String::new();
        let mut i: usize = 0;
        while i < v.len()
            invariant
                i <= v.len(),
                v@ == process_name@,
                file@ =~= sanitize(process_name@).take(i as int),
            decreases v.len() - i,
        {
            let c = v[i];
            push_char(&mut file, if c == '/' { '_' } else { c });
            assert(sanitize(process_name@).take(i + 1) =~= sanitize(process_name@).take(i as int).push(
                sanitize(process_name@)[i as int],
            ));
            i = i + 1;
        }
        assert(sanitize(process_name@).take(v.len() as int) =~= sanitize(process_name@));
        file.append(".log");
        join(self.log_dir.as_str(), file.as_str())
    }
}

} // verus!
