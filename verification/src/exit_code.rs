//! Exit codes of managed processes and their human-readable reasons.

use vstd::prelude::*;
use vstd::string::*;
use crate::text::{push_decimal, decimal};

verus! {

/// A normal exit.
pub const SUCCESS: i32 = 0;
/// A general error.
pub const GENERAL_ERROR: i32 = 1;
/// Misuse of a shell builtin.
pub const SHELL_BUILTIN_MISUSE: i32 = 2;
/// The command was found but could not be executed.
pub const CANNOT_EXECUTE: i32 = 126;
/// The command was not found.
pub const COMMAND_NOT_FOUND: i32 = 127;
/// Exit codes above this one encode termination by a signal.
pub const SIGNAL_BASE: i32 = 128;

/// The reason reported for an exit code.
pub open spec fn exit_reason(code: int) -> Seq<char> {
    if code == 0 {
        "Process exited normally"@
    } else if code == 1 {
        "General error"@
    } else if code == 2 {
        "Misuse of shell builtin"@
    } else if code == 126 {
        "Command cannot execute"@
    } else if code == 127 {
        "Command not found"@
    } else if code > 128 {
        "Terminated by signal "@ + decimal((code - 128) as nat)
    } else {
        "Unknown error"@
    }
}

/// Formats an exit code as a human-readable reason.
pub fn format_exit_reason(exit_code: i32) -> (r: String)
    ensures
        r@ == exit_reason(exit_code as int),
{
    if exit_code == 0 {
        String::from_str("Process exited normally")
    } else if exit_code == 1 {
        String::from_str("General error")
    } else if exit_code == 2 {
        String::from_str("Misuse of shell builtin")
    } else if exit_code == 126 {
        String::from_str("Command cannot execute")
    } else if exit_code == 127 {
        String::from_str("Command not found")
    } else if exit_code > 128 {
        let mut s = String::from_str("Terminated by signal ");
        push_decimal(&mut s, (exit_code - 128) as u64);
        s
    } else {
        String::from_str("Unknown error")
    }
}

/// Whether the exit code encodes termination by a signal.
pub fn is_signal_termination(exit_code: i32) -> (r: bool)
    ensures
        r == (exit_code > SIGNAL_BASE),
{
    exit_code > SIGNAL_BASE
}

/// The signal number encoded in an exit code, if the process was terminated
/// by a signal.
pub fn get_signal_number(exit_code: i32) -> (r: Option<i32>)
    ensures
        exit_code > SIGNAL_BASE ==> r == Some((exit_code - SIGNAL_BASE) as i32),
        exit_code <= SIGNAL_BASE ==> r is None,
{
    if is_signal_termination(exit_code) {
        Some(exit_code - SIGNAL_BASE)
    } else {
        None
    }
}

} // verus!
