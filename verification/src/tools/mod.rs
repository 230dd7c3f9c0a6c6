//! The tools the MCP server offers: what each checks of its parameters,
//! what it asks the daemon, and what it answers.

pub mod start;
pub mod status;
pub mod restart;
pub mod ps;
pub mod logs;
pub mod catalog;
