//! Errors of the protocol layer.

use vstd::prelude::*;
use vstd::string::*;

verus! {

/// An error raised while serving a request.
///
/// Errors that come from outside the protocol layer (serialisation, I/O)
/// carry the text of the underlying error.
#[derive(Debug)]
pub enum Error {
    Transport(String),
    Protocol(String),
    Serialization(String),
    Io(String),
    MethodNotFound(String),
    InvalidParams(String),
    Internal(String),
    NotImplemented(String),
}

impl Error {
    /// The prefix of the error's display text.
    pub open spec fn prefix(&self) -> Seq<char> {
        match self {
            Error::Transport(_) => "Transport error: "@,
            Error::Protocol(_) => "Protocol error: "@,
            Error::Serialization(_) => "Serialization error: "@,
            Error::Io(_) => "IO error: "@,
            Error::MethodNotFound(_) => "Method not found: "@,
            Error::InvalidParams(_) => "Invalid params: "@,
            Error::Internal(_) => "Internal error: "@,
            Error::NotImplemented(_) => "Not implemented: "@,
        }
    }

    /// The detail the error carries.
    pub open spec fn detail(&self) -> Seq<char> {
        match self {
            Error::Transport(m) => m@,
            Error::Protocol(m) => m@,
            Error::Serialization(m) => m@,
            Error::Io(m) => m@,
            Error::MethodNotFound(m) => m@,
            Error::InvalidParams(m) => m@,
            Error::Internal(m) => m@,
            Error::NotImplemented(m) => m@,
        }
    }

    /// The error's display text: its kind, a colon and its detail.
    pub open spec fn text(&self) -> Seq<char> {
        self.prefix() + self.detail()
    }

    /// The error's display text.
    pub fn message(&self) -> (r: String)
        ensures
            r@ == self.text(),
    {
        let (prefix, detail) = match self {
            Error::Transport(m) => ("Transport error: ", m),
            Error::Protocol(m) => ("Protocol error: ", m),
            Error::Serialization(m) => ("Serialization error: ", m),
            Error::Io(m) => ("IO error: ", m),
            Error::MethodNotFound(m) => ("Method not found: ", m),
            Error::InvalidParams(m) => ("Invalid params: ", m),
            Error::Internal(m) => ("Internal error: ", m),
            Error::NotImplemented(m) => ("Not implemented: ", m),
        };
        let mut s = String::from_str(prefix);
        s.append(detail.as_str());
        s
    }
}

} // verus!
