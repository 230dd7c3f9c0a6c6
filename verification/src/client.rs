//! Reaching the daemon: whether it runs, retrying a connection, and
//! restarting it when its version differs.

use vstd::prelude::*;
use vstd::string::*;
use crate::daemon::{pid_from_file, pid_in_file};
use crate::text::{decimal, push_decimal, str_equal};

verus! {

/// The error returned after the daemon was restarted to match the client's
/// version.
#[derive(Debug)]
pub struct DaemonRestartedForUpgrade;

impl DaemonRestartedForUpgrade {
    /// The error's text.
    pub fn message(&self) -> (r: String)
        ensures
            r@ == "daemon restarted for upgrade"@,
    {
        String::from_str("daemon restarted for upgrade")
    }
}

/// Whether the PID file shows a running daemon: it can be read, holds a
/// PID, and a process with that PID is alive.
pub open spec fn indicates_running(pid_file: Option<Seq<char>>, alive: bool) -> bool {
    match pid_file {
        Some(t) => pid_in_file(t) is Some && alive,
        None => false,
    }
}

/// Whether the PID file (its text, when it could be read) shows a running
/// daemon, given whether the process its PID names is alive.
pub fn pid_file_indicates_running(pid_file: Option<&str>, alive: bool) -> (r: bool)
    ensures
        r == indicates_running(
            match pid_file {
                Some(t) => Some(t@),
                None => None,
            },
            alive,
        ),
{
    match pid_file {
        Some(t) => pid_from_file(t).is_some() && alive,
        None => false,
    }
}

/// The next step of a connection attempt.
#[derive(Debug)]
pub enum RetryStep {
    /// Connected.
    Connected,
    /// Wait one interval and try again.
    Wait,
    /// Give up with this error.
    GiveUp(String),
}

/// Connecting to the daemon's socket, a limited number of times.
#[derive(Debug)]
pub struct ConnectRetry {
    pub attempts: u32,
    pub attempt: u32,
}

impl ConnectRetry {
    /// No attempt made yet.
    pub fn new(attempts: u32) -> (r: Self)
        ensures
            r.attempts == attempts,
            r.attempt == 0,
    {
        ConnectRetry { attempts, attempt: 0 }
    }

    /// Whether another attempt is allowed.
    pub fn may_try(&self) -> (r: bool)
        ensures
            r == (self.attempt < self.attempts),
    {
        self.attempt < self.attempts
    }

    /// Records an attempt: whether the socket exists and, when it does,
    /// whether connecting failed (with the error's text). A missing socket
    /// means waiting; a failed connection means waiting too, except on the
    /// last attempt, which gives up naming the number of attempts and the
    /// error.
    pub fn record(&mut self, socket_exists: bool, error: Option<String>) -> (r: RetryStep)
        requires
            old(self).attempt < old(self).attempts,
        ensures
            final(self).attempts == old(self).attempts,
            final(self).attempt == old(self).attempt + 1,
            !socket_exists ==> r is Wait,
            socket_exists && error is None ==> r is Connected,
            socket_exists && error is Some && old(self).attempt < old(self).attempts - 1 ==> r is Wait,
            socket_exists && error is Some && old(self).attempt == old(self).attempts - 1 ==> (r matches RetryStep::GiveUp(m) && m@ == "Failed to connect to daemon after "@ + decimal(
                old(self).attempts as nat,
            ) + " attempts: "@ + error->0@),
    {
        let attempt = self.attempt;
        self.attempt = self.attempt + 1;
        if !socket_exists {
            return RetryStep::Wait;
        }
        match error {
            None => RetryStep::Connected,
            Some(e) => {
                if attempt < self.attempts - 1 {
                    RetryStep::Wait
                } else {
                    let mut m = String::from_str("Failed to connect to daemon after ");
                    push_decimal(&mut m, self.attempts as u64);
                    m.append(" attempts: ");
                    m.append(e.as_str());
                    RetryStep::GiveUp(m)
                }
            },
        }
    }

    /// The error when every attempt found no socket.
    pub fn exhausted(&self) -> (r: String)
        ensures
            r@ == "Failed to connect to daemon: socket not available"@,
    {
        String::from_str("Failed to connect to daemon: socket not available")
    }
}

/// The notes printed when the daemon is started for a client: that it was
/// not running, that it started, and where its log is.
pub fn autostart_notes(daemon_log_file: &str) -> (r: Vec<String>)
    ensures
        r.len() == 3,
        r[0]@ == "mcprocd daemon is not running. Starting it automatically..."@,
        r[1]@ == "Started mcprocd daemon"@,
        r[2]@ == "Daemon logs: "@ + daemon_log_file@,
{
    let mut r: Vec<String> = Vec::new();
    r.push(String::from_str("mcprocd daemon is not running. Starting it automatically..."));
    r.push(String::from_str("Started mcprocd daemon"));
    let mut l = String::from_str("Daemon logs: ");
    l.append(daemon_log_file);
    r.push(l);
    r
}

/// The warning printed when the daemon's socket did not appear.
pub fn socket_missing_warning(attempts: u32) -> (r: String)
    ensures
        r@ == "Warning: Daemon socket not found after "@ + decimal(attempts as nat) + " attempts"@,
{
    let mut s = String::from_str("Warning: Daemon socket not found after ");
    push_decimal(&mut s, attempts as u64);
    s.append(" attempts");
    s
}

/// The notes printed when the daemon's version differs from the client's,
/// before restarting it; none when they agree.
pub fn version_mismatch_notes(daemon_version: &str, client_version: &str) -> (r: Option<Vec<String>>)
    ensures
        daemon_version@ == client_version@ ==> r is None,
        daemon_version@ != client_version@ ==> (r matches Some(v) && v.len() == 2 && v[0]@
            == "Daemon version mismatch: daemon="@ + daemon_version@ + ", client="@
            + client_version@ && v[1]@ == "Restarting daemon to update version..."@),
{
    if str_equal(daemon_version, client_version) {
        return None;
    }
    let mut a = String::from_str("Daemon version mismatch: daemon=");
    a.append(daemon_version);
    a.append(", client=");
    a.append(client_version);
    let mut v: Vec<String> = Vec::new();
    v.push(a);
    v.push(String::from_str("Restarting daemon to update version..."));
    Some(v)
}

/// The error when restarting the daemon failed, with its error output.
pub fn restart_failure(stderr: &str) -> (r: String)
    ensures
        r@ == "Failed to restart daemon: "@ + stderr@,
{
    let mut s = String::from_str("Failed to restart daemon: ");
    s.append(stderr);
    s
}

} // verus!
