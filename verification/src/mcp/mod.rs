//! The Model Context Protocol: JSON-RPC messages, their dispatch to tools and
//! the notifications that tools send while they run.

pub mod json;
pub mod error;
pub mod types;
pub mod notification;
pub mod protocol;
pub mod transport;
