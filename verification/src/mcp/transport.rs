//! Transports: what a line read from standard input becomes, and the
//! transports that are announced but not offered yet.

use vstd::prelude::*;
use vstd::string::*;
use crate::mcp::error::Error;
use crate::mcp::types::{
    error_response, is_error_response, IdV, JsonRpcId, JsonRpcMessage, PARSE_ERROR,
};

verus! {

/// The answer to a line that is not a JSON-RPC message: an error response
/// with the parse-error code, the message `Parse error` and a null id.
pub fn parse_error_response() -> (r: JsonRpcMessage)
    ensures
        r matches JsonRpcMessage::Response(resp) && is_error_response(
            resp,
            IdV::Null,
            PARSE_ERROR as int,
            "Parse error"@,
        ),
{
    JsonRpcMessage::Response(error_response(JsonRpcId::Null, PARSE_ERROR, String::from_str("Parse error")))
}

/// What a line read from standard input becomes, given the message it
/// decoded to (none when it is not one): the message, to be handled, or the
/// parse-error response, to be written back.
pub fn parse_input_line(decoded: Option<JsonRpcMessage>) -> (r: Result<JsonRpcMessage, JsonRpcMessage>)
    ensures
        match decoded {
            Some(m) => r == Ok::<JsonRpcMessage, JsonRpcMessage>(m),
            None => r matches Err(JsonRpcMessage::Response(resp)) && is_error_response(
                resp,
                IdV::Null,
                PARSE_ERROR as int,
                "Parse error"@,
            ),
        },
{
    match decoded {
        Some(m) => Ok(m),
        None => Err(parse_error_response()),
    }
}

/// The error every operation of the SSE transport gives.
pub open spec fn sse_unavailable(e: Error) -> bool {
    e matches Error::NotImplemented(m) && m@ == "SSE transport is not yet implemented"@
}

/// The error every operation of the streamable HTTP transport gives.
pub open spec fn streamable_http_unavailable(e: Error) -> bool {
    e matches Error::NotImplemented(m) && m@ == "Streamable HTTP transport is not yet implemented"@
}

/// The SSE transport (a POST endpoint for requests and an event stream for
/// replies); not offered yet: each operation fails.
#[derive(Debug)]
pub struct SseTransport;

impl SseTransport {
    pub fn new() -> (r: Self) {
        SseTransport
    }

    fn unavailable() -> (e: Error)
        ensures
            sse_unavailable(e),
    {
        Error::NotImplemented(String::from_str("SSE transport is not yet implemented"))
    }

    /// Starting fails: the transport is not offered yet.
    pub fn start(&mut self) -> (r: Result<(), Error>)
        ensures
            r matches Err(e) && sse_unavailable(e),
    {
        Err(Self::unavailable())
    }

    /// Sending fails: the transport is not offered yet.
    pub fn send(&mut self, message: JsonRpcMessage) -> (r: Result<(), Error>)
        ensures
            r matches Err(e) && sse_unavailable(e),
    {
        Err(Self::unavailable())
    }

    /// Receiving fails: the transport is not offered yet.
    pub fn receive(&mut self) -> (r: Result<Option<JsonRpcMessage>, Error>)
        ensures
            r matches Err(e) && sse_unavailable(e),
    {
        Err(Self::unavailable())
    }

    /// Closing fails: the transport is not offered yet.
    pub fn close(&mut self) -> (r: Result<(), Error>)
        ensures
            r matches Err(e) && sse_unavailable(e),
    {
        Err(Self::unavailable())
    }
}

/// The streamable HTTP transport (one endpoint for requests, replies and
/// event streams); not offered yet: each operation fails.
#[derive(Debug)]
pub struct StreamableHttpTransport;

impl StreamableHttpTransport {
    pub fn new() -> (r: Self) {
        StreamableHttpTransport
    }

    fn unavailable() -> (e: Error)
        ensures
            streamable_http_unavailable(e),
    {
        Error::NotImplemented(String::from_str("Streamable HTTP transport is not yet implemented"))
    }

    /// Starting fails: the transport is not offered yet.
    pub fn start(&mut self) -> (r: Result<(), Error>)
        ensures
            r matches Err(e) && streamable_http_unavailable(e),
    {
        Err(Self::unavailable())
    }

    /// Sending fails: the transport is not offered yet.
    pub fn send(&mut self, message: JsonRpcMessage) -> (r: Result<(), Error>)
        ensures
            r matches Err(e) && streamable_http_unavailable(e),
    {
        Err(Self::unavailable())
    }

    /// Receiving fails: the transport is not offered yet.
    pub fn receive(&mut self) -> (r: Result<Option<JsonRpcMessage>, Error>)
        ensures
            r matches Err(e) && streamable_http_unavailable(e),
    {
        Err(Self::unavailable())
    }

    /// Closing fails: the transport is not offered yet.
    pub fn close(&mut self) -> (r: Result<(), Error>)
        ensures
            r matches Err(e) && streamable_http_unavailable(e),
    {
        Err(Self::unavailable())
    }
}

} // verus!
