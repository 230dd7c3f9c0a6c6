//! JSON-RPC 2.0 messages and the MCP types carried in them.

use vstd::prelude::*;
use vstd::string::*;
use crate::mcp::json::{Json, JsonV};
use crate::text::str_equal;

verus! {

/// JSON-RPC error code: the text is not valid JSON.
pub const PARSE_ERROR: i32 = -32700;
/// JSON-RPC error code: the message is not a valid request.
pub const INVALID_REQUEST: i32 = -32600;
/// JSON-RPC error code: no such method.
pub const METHOD_NOT_FOUND: i32 = -32601;
/// JSON-RPC error code: invalid method parameters.
pub const INVALID_PARAMS: i32 = -32602;
/// JSON-RPC error code: internal error.
pub const INTERNAL_ERROR: i32 = -32603;
/// MCP error code for any other server-side error.
pub const SERVER_ERROR: i32 = -32000;

/// A request identifier.
#[derive(Debug, PartialEq)]
pub enum JsonRpcId {
    String(String),
    Number(i64),
    Null,
}

/// The value of a request identifier.
pub enum IdV {
    Text(Seq<char>),
    Number(int),
    Null,
}

impl View for JsonRpcId {
    type V = IdV;

    open spec fn view(&self) -> IdV {
        match self {
            JsonRpcId::String(s) => IdV::Text(s@),
            JsonRpcId::Number(n) => IdV::Number(*n as int),
            JsonRpcId::Null => IdV::Null,
        }
    }
}

impl JsonRpcId {
    /// A copy of this identifier.
    pub fn duplicate(&self) -> (r: JsonRpcId)
        ensures
            r@ == self@,
    {
        match self {
            JsonRpcId::String(s) => JsonRpcId::String(s.clone()),
            JsonRpcId::Number(n) => JsonRpcId::Number(*n),
            JsonRpcId::Null => JsonRpcId::Null,
        }
    }
}

/// A request: a method call that expects a response.
#[derive(Debug)]
pub struct JsonRpcRequest {
    pub jsonrpc: String,
    pub method: String,
    pub params: Option<Json>,
    pub id: JsonRpcId,
}

/// A notification: a method call that expects no response.
#[derive(Debug)]
pub struct JsonRpcNotification {
    pub jsonrpc: String,
    pub method: String,
    pub params: Option<Json>,
}

/// A response to a request: either a result or an error.
#[derive(Debug)]
pub struct JsonRpcResponse {
    pub jsonrpc: String,
    pub result: Option<Json>,
    pub error: Option<JsonRpcError>,
    pub id: JsonRpcId,
}

/// The error object of a failed request.
#[derive(Debug)]
pub struct JsonRpcError {
    pub code: i32,
    pub message: String,
    pub data: Option<Json>,
}

/// Any JSON-RPC message, or a batch of them.
#[derive(Debug)]
pub enum JsonRpcMessage {
    Request(JsonRpcRequest),
    Response(JsonRpcResponse),
    Notification(JsonRpcNotification),
    Batch(Vec<JsonRpcMessage>),
}

/// `r` answers request `id` with `value`.
pub open spec fn is_result_response(r: JsonRpcResponse, id: IdV, value: JsonV) -> bool {
    &&& r.jsonrpc@ == "2.0"@
    &&& r.result matches Some(v) && v@ == value
    &&& r.error is None
    &&& r.id@ == id
}

/// `r` answers request `id` with the error `code` and `message`.
pub open spec fn is_error_response(r: JsonRpcResponse, id: IdV, code: int, message: Seq<char>) -> bool {
    &&& r.jsonrpc@ == "2.0"@
    &&& r.result is None
    &&& r.error matches Some(e) && e.code == code && e.message@ == message && e.data is None
    &&& r.id@ == id
}

/// A response with the given result.
pub fn result_response(id: JsonRpcId, result: Json) -> (r: JsonRpcResponse)
    ensures
        is_result_response(r, id@, result@),
{
    JsonRpcResponse {
        jsonrpc: String::from_str("2.0"),
        result: Some(result),
        error: None,
        id,
    }
}

/// A response with the given error.
pub fn error_response(id: JsonRpcId, code: i32, message: String) -> (r: JsonRpcResponse)
    ensures
        is_error_response(r, id@, code as int, message@),
{
    JsonRpcResponse {
        jsonrpc: String::from_str("2.0"),
        result: None,
        error: Some(JsonRpcError { code, message, data: None }),
        id,
    }
}

/// Description of a tool that the server offers.
#[derive(Debug)]
pub struct ToolInfo {
    pub name: String,
    pub description: String,
    /// JSON schema of the tool's arguments.
    pub input_schema: Json,
}

impl ToolInfo {
    /// The tool's entry in a tool listing.
    pub open spec fn listing(&self) -> JsonV {
        JsonV::Object(
            seq![
                ("name"@, JsonV::Str(self.name@)),
                ("description"@, JsonV::Str(self.description@)),
                ("inputSchema"@, self.input_schema@),
            ],
        )
    }
}

/// The server's name and version.
#[derive(Debug, Clone)]
pub struct ServerInfo {
    pub name: String,
    pub version: String,
}

/// Severity of a message notification.
#[derive(Debug, Clone, Copy, PartialEq, Eq)]
pub enum MessageLevel {
    Debug,
    Info,
    Warning,
    Error,
}

impl MessageLevel {
    /// The level's name on the wire.
    pub open spec fn wire_name(self) -> Seq<char> {
        match self {
            MessageLevel::Debug => "debug"@,
            MessageLevel::Info => "info"@,
            MessageLevel::Warning => "warning"@,
            MessageLevel::Error => "error"@,
        }
    }

    /// The level's name on the wire.
    pub fn name(&self) -> (r: &'static str)
        ensures
            r@ == self.wire_name(),
    {
        match self {
            MessageLevel::Debug => "debug",
            MessageLevel::Info => "info",
            MessageLevel::Warning => "warning",
            MessageLevel::Error => "error",
        }
    }
}

/// A log message sent to the client while a tool runs.
#[derive(Debug)]
pub struct MessageNotification {
    pub level: MessageLevel,
    pub logger: Option<String>,
    pub data: Json,
}

/// A progress report sent to the client while a tool runs.
#[derive(Debug, Clone)]
pub struct ProgressNotification {
    pub progress_token: String,
    pub progress: u64,
    pub total: u64,
    pub message: Option<String>,
}

/// Metadata a request may carry for progress tracking.
#[derive(Debug, Clone)]
pub struct RequestMeta {
    pub progress_token: Option<String>,
}

/// The methods the protocol layer knows.
#[derive(Debug)]
pub enum McpMethod {
    Initialize,
    Shutdown,
    ToolsList,
    ToolsCall,
    Custom(String),
}

/// Which known method a method name selects: 0 for `initialize`, 1 for
/// `shutdown`, 2 for `tools/list`, 3 for `tools/call` and 4 for any other.
pub open spec fn method_kind(name: Seq<char>) -> int {
    if name == "initialize"@ {
        0
    } else if name == "shutdown"@ {
        1
    } else if name == "tools/list"@ {
        2
    } else if name == "tools/call"@ {
        3
    } else {
        4
    }
}

/// `m` is the method that the name `name` selects.
pub open spec fn names_method(name: Seq<char>, m: McpMethod) -> bool {
    match m {
        McpMethod::Initialize => method_kind(name) == 0,
        McpMethod::Shutdown => method_kind(name) == 1,
        McpMethod::ToolsList => method_kind(name) == 2,
        McpMethod::ToolsCall => method_kind(name) == 3,
        McpMethod::Custom(c) => method_kind(name) == 4 && c@ == name,
    }
}

impl McpMethod {
    /// Reads a method name. Every name is accepted: names that are not one of
    /// the known methods are custom methods.
    pub fn parse_name(s: &str) -> (r: McpMethod)
        ensures
            method_kind(s@) == 0 ==> r is Initialize,
            method_kind(s@) == 1 ==> r is Shutdown,
            method_kind(s@) == 2 ==> r is ToolsList,
            method_kind(s@) == 3 ==> r is ToolsCall,
            method_kind(s@) == 4 ==> (r matches McpMethod::Custom(m) && m@ == s@),
    {
        if str_equal(s, "initialize") {
            McpMethod::Initialize
        } else if str_equal(s, "shutdown") {
            McpMethod::Shutdown
        } else if str_equal(s, "tools/list") {
            McpMethod::ToolsList
        } else if str_equal(s, "tools/call") {
            McpMethod::ToolsCall
        } else {
            McpMethod::Custom(String::from_str(s))
        }
    }
}

impl core::str::FromStr for McpMethod {
    type Err = core::convert::Infallible;

    /// Reading a method name never fails (see [`McpMethod::parse_name`]).
    fn from_str(s: &str) -> (r: Result<Self, Self::Err>)
        ensures
            r matches Ok(m) && names_method(s@, m),
    {
        Ok(McpMethod::parse_name(s))
    }
}

} // verus!
