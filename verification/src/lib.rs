//! Verified core of a background-process manager driven over the Model
//! Context Protocol: name validation, process keys, status and exit-code
//! reporting, daemon bookkeeping decisions and JSON-RPC request dispatch.

pub mod text;
pub mod exit_code;
pub mod validation;
pub mod process_key;
pub mod paths;
pub mod xdg;
pub mod config;
pub mod status;
pub mod ps;
pub mod parse;
pub mod daemon;
pub mod project;
pub mod clock;
pub mod ansi;
pub mod rpc;
pub mod tools;
pub mod style;
pub mod clean;
pub mod commands;
pub mod log_view;
pub mod client;
pub mod grep_cli;
pub mod mcp;
