//! Dispatch of JSON-RPC messages to the protocol's methods and to tools.
//!
//! Serving a message has two halves. [`Protocol::plan_message`] decides, for
//! every request in the message, either the response outright or which tool
//! or custom handler must run; running a handler is work outside this layer.
//! Each handler's outcome is then turned into the response by
//! [`finish_tool_call`] or [`finish_method_call`], and [`assemble`] puts the
//! responses of a batch back together.

use vstd::prelude::*;
use vstd::string::*;
use crate::mcp::error::Error as McpError;
use crate::mcp::json::{get, text_at, value_at, ArrayBuilder, Json, JsonV, ObjectBuilder};
use crate::mcp::notification::opt_view;
use crate::mcp::types::{
    IdV, JsonRpcError, error_response, is_error_response, is_result_response, method_kind, result_response, JsonRpcId,
    JsonRpcMessage, JsonRpcNotification, JsonRpcRequest, JsonRpcResponse, McpMethod, ServerInfo, ToolInfo, INTERNAL_ERROR,
    INVALID_PARAMS, INVALID_REQUEST, METHOD_NOT_FOUND, SERVER_ERROR,
};
use crate::text::str_equal;

verus! {

/// The text of an optional string.
pub open spec fn opt_text(o: Option<String>) -> Option<Seq<char>> {
    match o {
        Some(s) => Some(s@),
        None => None,
    }
}

/// The protocol version this server speaks.
pub open spec fn protocol_version() -> Seq<char> {
    "2025-03-26"@
}

/// The result of `initialize`: protocol version, capabilities and the
/// server's name and version.
pub open spec fn initialize_result(name: Seq<char>, version: Seq<char>) -> JsonV {
    JsonV::Object(
        seq![
            ("protocolVersion"@, JsonV::Str(protocol_version())),
            (
                "capabilities"@,
                JsonV::Object(
                    seq![("tools"@, JsonV::Object(seq![("listChanged"@, JsonV::Bool(false))]))],
                ),
            ),
            (
                "serverInfo"@,
                JsonV::Object(seq![("name"@, JsonV::Str(name)), ("version"@, JsonV::Str(version))]),
            ),
        ],
    )
}

/// The result of a tool call: one text item, flagged as an error or not.
pub open spec fn tool_content(text: Seq<char>, is_error: bool) -> JsonV {
    JsonV::Object(
        seq![
            (
                "content"@,
                JsonV::Array(
                    seq![
                        JsonV::Object(
                            seq![("type"@, JsonV::Str("text"@)), ("text"@, JsonV::Str(text))],
                        ),
                    ],
                ),
            ),
            ("isError"@, JsonV::Bool(is_error)),
        ],
    )
}

/// The JSON-RPC error code an error is reported with.
pub open spec fn error_code(e: McpError) -> int {
    match e {
        McpError::MethodNotFound(_) => METHOD_NOT_FOUND as int,
        McpError::InvalidParams(_) => INVALID_PARAMS as int,
        McpError::Internal(_) => INTERNAL_ERROR as int,
        _ => SERVER_ERROR as int,
    }
}

/// The message an error is reported with: the detail for the errors that
/// have their own code, the full display text for the others.
pub open spec fn error_message(e: McpError) -> Seq<char> {
    match e {
        McpError::MethodNotFound(m) => m@,
        McpError::InvalidParams(m) => m@,
        McpError::Internal(m) => m@,
        _ => e.text(),
    }
}

/// Work that a request needs from a handler outside this layer.
#[derive(Debug)]
pub enum Invocation {
    /// `tools/call` of a registered tool: the tool runs with `arguments`,
    /// and its result is reported as tool content.
    ToolCall {
        tool: String,
        arguments: Option<Json>,
        progress_token: Option<String>,
        id: JsonRpcId,
    },
    /// A method named like a registered tool: the tool runs with the
    /// request's parameters, and its result is the response's result.
    ToolMethod { tool: String, params: Option<Json>, progress_token: Option<String>, id: JsonRpcId },
    /// A method with a registered custom handler, which runs with the
    /// request's parameters.
    Custom { method: String, params: Option<Json>, id: JsonRpcId },
}

/// What a request is answered with: a response decided here, or a handler
/// to run.
#[derive(Debug)]
pub enum Step {
    Reply(JsonRpcResponse),
    Invoke(Invocation),
}

/// How a message is served.
#[derive(Debug)]
pub enum Plan {
    /// Nothing is sent back (notifications and responses).
    Silent,
    /// A request, or an empty batch, which is answered as an invalid request.
    Answer(Step),
    /// A non-empty batch: one plan per message, in order.
    Batch(Vec<Plan>),
}

/// The protocol state: the server's identity and what is registered.
pub struct Protocol {
    pub server_info: ServerInfo,
    /// Registered tools; no two share a name.
    pub tools: Vec<ToolInfo>,
    /// Methods that have a custom handler.
    pub custom_methods: Vec<String>,
}

impl Protocol {
    /// No two registered tools share a name.
    pub open spec fn wf(&self) -> bool {
        forall|i: int, j: int|
            0 <= i < j < self.tools@.len() ==> #[trigger] self.tools@[i].name@
                != #[trigger] self.tools@[j].name@
    }

    /// A tool with this name is registered.
    pub open spec fn has_tool(&self, name: Seq<char>) -> bool {
        exists|i: int| 0 <= i < self.tools@.len() && #[trigger] self.tools@[i].name@ == name
    }

    /// A custom handler is registered for this method.
    pub open spec fn has_custom(&self, method: Seq<char>) -> bool {
        exists|i: int|
            0 <= i < self.custom_methods@.len() && #[trigger] self.custom_methods@[i]@ == method
    }

    /// The registry: each registered tool's name mapped to its listing entry.
    pub open spec fn registry(&self) -> Map<Seq<char>, JsonV> {
        Map::new(
            |n: Seq<char>| self.has_tool(n),
            |n: Seq<char>|
                self.tools@[choose|i: int|
                    0 <= i < self.tools@.len() && #[trigger] self.tools@[i].name@ == n].listing(),
        )
    }

    /// The result of `tools/list`: every registered tool, in registration
    /// order.
    pub open spec fn tools_list_result(&self) -> JsonV {
        JsonV::Object(
            seq![("tools"@, JsonV::Array(self.tools@.map_values(|t: ToolInfo| t.listing())))],
        )
    }

    /// How `req` is answered.
    pub open spec fn step_for(&self, req: JsonRpcRequest, s: Step) -> bool {
        let id = req.id@;
        let p = opt_view(req.params);
        if req.jsonrpc@ != "2.0"@ {
            s matches Step::Reply(r) && is_error_response(r, id, INVALID_REQUEST as int, "Invalid Request"@)
        } else if method_kind(req.method@) == 0 {
            s matches Step::Reply(r) && is_result_response(
                r,
                id,
                initialize_result(self.server_info.name@, self.server_info.version@),
            )
        } else if method_kind(req.method@) == 1 {
            s matches Step::Reply(r) && is_result_response(r, id, JsonV::Object(Seq::empty()))
        } else if method_kind(req.method@) == 2 {
            s matches Step::Reply(r) && is_result_response(r, id, self.tools_list_result())
        } else if method_kind(req.method@) == 3 {
            if p is None {
                s matches Step::Reply(r) && is_error_response(
                    r,
                    id,
                    INVALID_PARAMS as int,
                    "Missing parameters"@,
                )
            } else if text_at(p, "name"@) is None {
                s matches Step::Reply(r) && is_error_response(
                    r,
                    id,
                    INVALID_PARAMS as int,
                    "Missing tool name"@,
                )
            } else if !self.has_tool(text_at(p, "name"@)->0) {
                s matches Step::Reply(r) && is_error_response(
                    r,
                    id,
                    INVALID_PARAMS as int,
                    "Unknown tool: "@ + text_at(p, "name"@)->0,
                )
            } else {
                s matches Step::Invoke(Invocation::ToolCall { tool, arguments, progress_token, id: rid })
                    && tool@ == text_at(p, "name"@)->0 && opt_view(arguments) == value_at(
                    p,
                    "arguments"@,
                ) && opt_text(progress_token) == text_at(value_at(p, "_meta"@), "progressToken"@)
                    && rid@ == id
            }
        } else if self.has_tool(req.method@) {
            s matches Step::Invoke(Invocation::ToolMethod { tool, params, progress_token, id: rid })
                && tool@ == req.method@ && opt_view(params) == p && opt_text(progress_token)
                == text_at(value_at(p, "_meta"@), "progressToken"@) && rid@ == id
        } else if self.has_custom(req.method@) {
            s matches Step::Invoke(Invocation::Custom { method, params, id: rid }) && method@
                == req.method@ && opt_view(params) == p && rid@ == id
        } else {
            s matches Step::Reply(r) && is_error_response(
                r,
                id,
                METHOD_NOT_FOUND as int,
                "Method not found: "@ + req.method@,
            )
        }
    }
}

/// The progress token a request's parameters carry in `_meta.progressToken`.
fn progress_token_of(params: &Option<Json>) -> (r: Option<String>)
    ensures
        opt_text(r) == text_at(value_at(opt_view(*params), "_meta"@), "progressToken"@),
{
    match params {
        Some(p) => match p.get("_meta") {
            Some(meta) => match meta.get("progressToken") {
                Some(t) => match t.as_str() {
                    Some(s) => Some(s.clone()),
                    None => None,
                },
                None => None,
            },
            None => None,
        },
        None => None,
    }
}

/// The response `req` gets when it is not a JSON-RPC 2.0 request: an
/// invalid-request error that echoes its id.
pub fn invalid_request_response(id: JsonRpcId) -> (r: JsonRpcMessage)
    ensures
        r matches JsonRpcMessage::Response(resp) && is_error_response(
            resp,
            id@,
            INVALID_REQUEST as int,
            "Invalid Request"@,
        ),
{
    JsonRpcMessage::Response(invalid_request(id))
}

fn invalid_request(id: JsonRpcId) -> (r: JsonRpcResponse)
    ensures
        is_error_response(r, id@, INVALID_REQUEST as int, "Invalid Request"@),
{
    error_response(id, INVALID_REQUEST, String::from_str("Invalid Request"))
}

impl ToolInfo {
    /// The tool's entry in a tool listing.
    pub fn to_listing(&self) -> (r: Json)
        ensures
            r@ == self.listing(),
    {
        let mut b = ObjectBuilder::new();
        b.put("name", Json::Str(self.name.clone()));
        b.put("description", Json::Str(self.description.clone()));
        b.put("inputSchema", self.input_schema.duplicate());
        assert(b.value() =~= seq![
            ("name"@, JsonV::Str(self.name@)),
            ("description"@, JsonV::Str(self.description@)),
            ("inputSchema"@, self.input_schema@),
        ]);
        b.build()
    }
}

impl Protocol {
    /// A protocol for a server with this name and version, with nothing
    /// registered.
    pub fn new(name: String, version: String) -> (p: Self)
        ensures
            p.wf(),
            p.server_info.name@ == name@,
            p.server_info.version@ == version@,
            p.tools@.len() == 0,
            p.custom_methods@.len() == 0,
    {
        Protocol { server_info: ServerInfo { name, version }, tools: Vec::new(), custom_methods: Vec::new() }
    }

    /// The position of the tool with this name.
    pub fn find_tool(&self, name: &str) -> (r: Option<usize>)
        ensures
            match r {
                Some(i) => i < self.tools@.len() && self.tools@[i as int].name@ == name@,
                None => !self.has_tool(name@),
            },
    {
        let mut i: usize = 0;
        while i < self.tools.len()
            invariant
                i <= self.tools@.len(),
                forall|j: int| 0 <= j < i ==> #[trigger] self.tools@[j].name@ != name@,
            decreases self.tools.len() - i,
        {
            if str_equal(self.tools[i].name.as_str(), name) {
                return Some(i);
            }
            i = i + 1;
        }
        None
    }

    fn find_custom(&self, method: &str) -> (r: bool)
        ensures
            r == self.has_custom(method@),
    {
        let mut i: usize = 0;
        while i < self.custom_methods.len()
            invariant
                i <= self.custom_methods@.len(),
                forall|j: int| 0 <= j < i ==> #[trigger] self.custom_methods@[j]@ != method@,
            decreases self.custom_methods.len() - i,
        {
            if str_equal(self.custom_methods[i].as_str(), method) {
                return true;
            }
            i = i + 1;
        }
        false
    }

    /// Registers a tool, replacing a registered tool of the same name.
    pub fn register_tool(&mut self, tool: ToolInfo)
        requires
            old(self).wf(),
        ensures
            final(self).wf(),
            final(self).registry() == old(self).registry().insert(tool.name@, tool.listing()),
            final(self).server_info == old(self).server_info,
            final(self).custom_methods == old(self).custom_methods,
    {
        let ghost t = tool;
        let ghost before = *self;
        match self.find_tool(tool.name.as_str()) {
            Some(i) => {
                self.tools.set(i, tool);
                assert(self.wf()) by {
                    assert forall|a: int, b: int|
                        0 <= a < b < self.tools@.len() implies #[trigger] self.tools@[a].name@
                        != #[trigger] self.tools@[b].name@ by {
                        assert(before.tools@[a].name@ != before.tools@[b].name@);
                    }
                }
                assert forall|n: Seq<char>| #[trigger] self.has_tool(n) == (before.has_tool(n) || n == t.name@) by {
                    if before.has_tool(n) {
                        let k = choose|k: int| 0 <= k < before.tools@.len() && #[trigger] before.tools@[k].name@ == n;
                        assert(self.tools@[k].name@ == n);
                    }
                    if self.has_tool(n) {
                        let k = choose|k: int| 0 <= k < self.tools@.len() && #[trigger] self.tools@[k].name@ == n;
                        if k != i as int {
                            assert(before.tools@[k].name@ == n);
                        }
                    }
                }
            },
            None => {
                self.tools.push(tool);
                assert(self.wf()) by {
                    assert forall|a: int, b: int|
                        0 <= a < b < self.tools@.len() implies #[trigger] self.tools@[a].name@
                        != #[trigger] self.tools@[b].name@ by {
                        if b == before.tools@.len() {
                            assert(!before.has_tool(t.name@));
                            assert(before.tools@[a].name@ != t.name@);
                        } else {
                            assert(before.tools@[a].name@ != before.tools@[b].name@);
                        }
                    }
                }
                assert forall|n: Seq<char>| #[trigger] self.has_tool(n) == (before.has_tool(n) || n == t.name@) by {
                    if before.has_tool(n) {
                        let k = choose|k: int| 0 <= k < before.tools@.len() && #[trigger] before.tools@[k].name@ == n;
                        assert(self.tools@[k].name@ == n);
                    }
                    if n == t.name@ {
                        assert(self.tools@[before.tools@.len() as int].name@ == n);
                    }
                }
            },
        }
        let ghost placed: int = if self.tools@.len() > before.tools@.len() {
            before.tools@.len() as int
        } else {
            choose|j: int| 0 <= j < self.tools@.len() && self.tools@[j] == t
        };
        assert(0 <= placed < self.tools@.len() && self.tools@[placed] == t) by {
            if self.tools@.len() == before.tools@.len() {
                let i = choose|i: int| 0 <= i < self.tools@.len() && self.tools@[i] == t;
            }
        }
        assert forall|k: int| 0 <= k < self.tools@.len() && k != placed implies #[trigger] self.tools@[k]
            == before.tools@[k] by {}
        assert(self.registry() =~= before.registry().insert(t.name@, t.listing())) by {
            assert forall|n: Seq<char>| #[trigger] self.registry().dom().contains(n) implies
                self.registry()[n] == before.registry().insert(t.name@, t.listing())[n] by {
                let k = choose|k: int| 0 <= k < self.tools@.len() && #[trigger] self.tools@[k].name@ == n;
                if n == t.name@ {
                    assert(self.tools@[placed].name@ == n);
                    assert(k == placed);
                } else {
                    assert(k != placed);
                    assert(before.tools@[k].name@ == n);
                    let k2 = choose|k2: int| 0 <= k2 < before.tools@.len() && #[trigger] before.tools@[k2].name@ == n;
                    assert(k2 == k);
                }
            }
        }
    }
}

impl Protocol {
    /// Registers a handler for a custom method.
    pub fn register_custom_handler(&mut self, method: String)
        ensures
            final(self).has_custom(method@),
            forall|m: Seq<char>| m != method@ ==> (#[trigger] final(self).has_custom(m) == old(self).has_custom(m)),
            final(self).tools == old(self).tools,
            final(self).server_info == old(self).server_info,
    {
        let ghost before = *self;
        let ghost mv = method@;
        self.custom_methods.push(method);
        assert(self.custom_methods@[before.custom_methods@.len() as int]@ == mv);
        assert forall|m: Seq<char>| m != mv implies #[trigger] self.has_custom(m) == before.has_custom(m) by {
            if before.has_custom(m) {
                let k = choose|k: int| 0 <= k < before.custom_methods@.len() && #[trigger] before.custom_methods@[k]@ == m;
                assert(self.custom_methods@[k]@ == m);
            }
            if self.has_custom(m) {
                let k = choose|k: int| 0 <= k < self.custom_methods@.len() && #[trigger] self.custom_methods@[k]@ == m;
                assert(before.custom_methods@[k]@ == m);
            }
        }
    }

    /// The result of `initialize`.
    fn initialize_json(&self) -> (r: Json)
        ensures
            r@ == initialize_result(self.server_info.name@, self.server_info.version@),
    {
        let mut tools = ObjectBuilder::new();
        tools.put("listChanged", Json::Bool(false));
        assert(tools.value() =~= seq![("listChanged"@, JsonV::Bool(false))]);
        let tools = tools.build();
        let mut caps = ObjectBuilder::new();
        caps.put("tools", tools);
        assert(caps.value() =~= seq![("tools"@, JsonV::Object(seq![("listChanged"@, JsonV::Bool(false))]))]);
        let caps = caps.build();
        let mut info = ObjectBuilder::new();
        info.put("name", Json::Str(self.server_info.name.clone()));
        info.put("version", Json::Str(self.server_info.version.clone()));
        assert(info.value() =~= seq![("name"@, JsonV::Str(self.server_info.name@)), ("version"@, JsonV::Str(self.server_info.version@))]);
        let info = info.build();
        let mut b = ObjectBuilder::new();
        b.put("protocolVersion", Json::text("2025-03-26"));
        b.put("capabilities", caps);
        b.put("serverInfo", info);
        let ghost expected = initialize_result(self.server_info.name@, self.server_info.version@);
        assert(JsonV::Object(b.value()) == expected) by {
            assert(b.value() =~= expected->Object_0);
        }
        b.build()
    }

    /// The result of `tools/list`.
    fn tools_list_json(&self) -> (r: Json)
        ensures
            r@ == self.tools_list_result(),
    {
        let mut items = ArrayBuilder::new();
        let mut i: usize = 0;
        while i < self.tools.len()
            invariant
                i <= self.tools@.len(),
                items.value() =~= self.tools@.take(i as int).map_values(|t: ToolInfo| t.listing()),
            decreases self.tools.len() - i,
        {
            let entry = self.tools[i].to_listing();
            items.push(entry);
            assert(self.tools@.take(i + 1).map_values(|t: ToolInfo| t.listing()) =~= self.tools@.take(
                i as int,
            ).map_values(|t: ToolInfo| t.listing()).push(self.tools@[i as int].listing()));
            i = i + 1;
        }
        assert(self.tools@.take(self.tools@.len() as int) =~= self.tools@);
        let list = items.build();
        let mut b = ObjectBuilder::new();
        b.put("tools", list);
        let r = b.build();
        assert(r@ =~= self.tools_list_result());
        r
    }

    /// Decides how `tools/call` with these parameters is answered.
    fn plan_tools_call(&self, params: Option<Json>, id: JsonRpcId) -> (s: Step)
        ensures
            ({
                let p = opt_view(params);
                if p is None {
                    s matches Step::Reply(r) && is_error_response(r, id@, INVALID_PARAMS as int, "Missing parameters"@)
                } else if text_at(p, "name"@) is None {
                    s matches Step::Reply(r) && is_error_response(r, id@, INVALID_PARAMS as int, "Missing tool name"@)
                } else if !self.has_tool(text_at(p, "name"@)->0) {
                    s matches Step::Reply(r) && is_error_response(
                        r,
                        id@,
                        INVALID_PARAMS as int,
                        "Unknown tool: "@ + text_at(p, "name"@)->0,
                    )
                } else {
                    s matches Step::Invoke(Invocation::ToolCall { tool, arguments, progress_token, id: rid })
                        && tool@ == text_at(p, "name"@)->0 && opt_view(arguments) == value_at(p, "arguments"@)
                        && opt_text(progress_token) == text_at(value_at(p, "_meta"@), "progressToken"@)
                        && rid@ == id@
                }
            }),
    {
        let progress_token = progress_token_of(&params);
        match &params {
            None => Step::Reply(error_response(id, INVALID_PARAMS, String::from_str("Missing parameters"))),
            Some(p) => {
                let name = match p.get("name") {
                    Some(n) => match n.as_str() {
                        Some(s) => s.clone(),
                        None => {
                            return Step::Reply(
                                error_response(id, INVALID_PARAMS, String::from_str("Missing tool name")),
                            );
                        },
                    },
                    None => {
                        return Step::Reply(
                            error_response(id, INVALID_PARAMS, String::from_str("Missing tool name")),
                        );
                    },
                };
                match self.find_tool(name.as_str()) {
                    None => {
                        let mut msg = String::from_str("Unknown tool: ");
                        msg.append(name.as_str());
                        Step::Reply(error_response(id, INVALID_PARAMS, msg))
                    },
                    Some(_) => {
                        let arguments = match p.get("arguments") {
                            Some(a) => Some(a.duplicate()),
                            None => None,
                        };
                        Step::Invoke(Invocation::ToolCall { tool: name, arguments, progress_token, id })
                    },
                }
            },
        }
    }

    /// Decides how a request is answered: the response itself when this
    /// layer can give it, or the handler that must run.
    pub fn handle_request(&self, req: JsonRpcRequest) -> (s: Step)
        ensures
            self.step_for(req, s),
    {
        let ghost orig = req;
        if !str_equal(req.jsonrpc.as_str(), "2.0") {
            return Step::Reply(invalid_request(req.id));
        }
        match McpMethod::parse_name(req.method.as_str()) {
            McpMethod::Initialize => Step::Reply(result_response(req.id, self.initialize_json())),
            McpMethod::Shutdown => {
                let empty = ObjectBuilder::new().build();
                Step::Reply(result_response(req.id, empty))
            },
            McpMethod::ToolsList => Step::Reply(result_response(req.id, self.tools_list_json())),
            McpMethod::ToolsCall => self.plan_tools_call(req.params, req.id),
            McpMethod::Custom(method) => {
                if self.find_tool(method.as_str()).is_some() {
                    let progress_token = progress_token_of(&req.params);
                    Step::Invoke(
                        Invocation::ToolMethod { tool: method, params: req.params, progress_token, id: req.id },
                    )
                } else if self.find_custom(method.as_str()) {
                    Step::Invoke(Invocation::Custom { method, params: req.params, id: req.id })
                } else {
                    let mut msg = String::from_str("Method not found: ");
                    msg.append(method.as_str());
                    Step::Reply(error_response(req.id, METHOD_NOT_FOUND, msg))
                }
            },
        }
    }

    /// The JSON-RPC error object an error is reported with.
    pub fn error_to_json_rpc(&self, error: McpError) -> (r: JsonRpcError)
        ensures
            r.code == error_code(error),
            r.message@ == error_message(error),
            r.data is None,
    {
        let code = match &error {
            McpError::MethodNotFound(_) => METHOD_NOT_FOUND,
            McpError::InvalidParams(_) => INVALID_PARAMS,
            McpError::Internal(_) => INTERNAL_ERROR,
            _ => SERVER_ERROR,
        };
        let message = match error {
            McpError::MethodNotFound(m) => m,
            McpError::InvalidParams(m) => m,
            McpError::Internal(m) => m,
            other => other.message(),
        };
        JsonRpcError { code, message, data: None }
    }
}

/// The response to a `tools/call` once the tool has run: its result text as
/// tool content, or the error's display text flagged as an error.
pub fn finish_tool_call(id: JsonRpcId, outcome: Result<String, McpError>) -> (r: JsonRpcResponse)
    ensures
        match outcome {
            Ok(text) => is_result_response(r, id@, tool_content(text@, false)),
            Err(e) => is_result_response(r, id@, tool_content("Error: "@ + e.text(), true)),
        },
{
    let (text, is_error) = match outcome {
        Ok(t) => (t, false),
        Err(e) => {
            let mut t = String::from_str("Error: ");
            t.append(e.message().as_str());
            (t, true)
        },
    };
    let ghost tv = text@;
    let mut item = ObjectBuilder::new();
    item.put("type", Json::text("text"));
    item.put("text", Json::Str(text));
    let ghost iv = JsonV::Object(seq![("type"@, JsonV::Str("text"@)), ("text"@, JsonV::Str(tv))]);
    assert(JsonV::Object(item.value()) == iv) by {
        assert(item.value() =~= iv->Object_0);
    }
    let item = item.build();
    let mut content = ArrayBuilder::new();
    content.push(item);
    assert(content.value() =~= seq![iv]);
    let content = content.build();
    let mut b = ObjectBuilder::new();
    b.put("content", content);
    b.put("isError", Json::Bool(is_error));
    assert(JsonV::Object(b.value()) == tool_content(tv, is_error)) by {
        assert(b.value() =~= tool_content(tv, is_error)->Object_0);
    }
    let result = b.build();
    result_response(id, result)
}

/// The response to a method served by a handler once it has run: its result,
/// or its error as a JSON-RPC error.
pub fn finish_method_call(id: JsonRpcId, outcome: Result<Json, McpError>) -> (r: JsonRpcResponse)
    ensures
        match outcome {
            Ok(v) => is_result_response(r, id@, v@),
            Err(e) => is_error_response(r, id@, error_code(e), error_message(e)),
        },
{
    match outcome {
        Ok(v) => result_response(id, v),
        Err(e) => {
            let p = Protocol { server_info: ServerInfo { name: String::new(), version: String::new() }, tools: Vec::new(), custom_methods: Vec::new() };
            let err = p.error_to_json_rpc(e);
            JsonRpcResponse { jsonrpc: String::from_str("2.0"), result: None, error: Some(err), id }
        },
    }
}

impl Invocation {
    /// The identifier of the request the invocation serves.
    pub open spec fn request_id(&self) -> IdV {
        match self {
            Invocation::ToolCall { id, .. } => id@,
            Invocation::ToolMethod { id, .. } => id@,
            Invocation::Custom { id, .. } => id@,
        }
    }
}

/// Law: every answer to a request carries the request's id, whether it is
/// decided here or after a handler has run.
pub proof fn answers_echo_request_id(p: Protocol, req: JsonRpcRequest, s: Step)
    requires
        p.step_for(req, s),
    ensures
        match s {
            Step::Reply(r) => r.id@ == req.id@,
            Step::Invoke(inv) => inv.request_id() == req.id@,
        },
{
}

impl Protocol {
    /// How a message is served: requests as [`Protocol::step_for`] says,
    /// notifications and responses silently, an empty batch as an invalid
    /// request with a null id, and a non-empty batch element by element.
    pub open spec fn plan_for(&self, msg: JsonRpcMessage, plan: Plan) -> bool
        decreases msg,
    {
        match msg {
            JsonRpcMessage::Request(req) => plan matches Plan::Answer(s) && self.step_for(req, s),
            JsonRpcMessage::Batch(ms) => {
                if ms@.len() == 0 {
                    plan matches Plan::Answer(Step::Reply(r)) && is_error_response(
                        r,
                        IdV::Null,
                        INVALID_REQUEST as int,
                        "Invalid Request"@,
                    )
                } else {
                    plan matches Plan::Batch(ps) && self.plans_for(ms@, ps@)
                }
            },
            _ => plan is Silent,
        }
    }

    /// `ps` holds the plans of the messages `ms`, in order.
    pub open spec fn plans_for(&self, ms: Seq<JsonRpcMessage>, ps: Seq<Plan>) -> bool
        decreases ms,
    {
        if ms.len() == 0 {
            ps.len() == 0
        } else {
            ps.len() > 0 && self.plan_for(ms[0], ps[0]) && self.plans_for(
                ms.subrange(1, ms.len() as int),
                ps.subrange(1, ps.len() as int),
            )
        }
    }

    /// Decides how a message is served.
    pub fn plan_message(&self, msg: JsonRpcMessage) -> (p: Plan)
        ensures
            self.plan_for(msg, p),
        decreases msg,
    {
        let ghost whole = msg;
        match msg {
            JsonRpcMessage::Request(req) => Plan::Answer(self.handle_request(req)),
            JsonRpcMessage::Batch(ms) => {
                if ms.len() == 0 {
                    return Plan::Answer(Step::Reply(invalid_request(JsonRpcId::Null)));
                }
                let ghost orig = ms@;
                let mut rest = ms;
                let mut plans: Vec<Plan> = Vec::new();
                let ghost mut done: Seq<JsonRpcMessage> = Seq::empty();
                while rest.len() > 0
                    invariant
                        orig == done + rest@,
                        whole == msg,
                        whole is Batch,
                        whole->Batch_0@ == orig,
                        self.plans_for(done, plans@),
                    decreases rest.len(),
                {
                    let ghost before_rest = rest@;
                    let m = rest.remove(0);
                    proof {
                        assert(orig[done.len() as int] == m);
                        assert(decreases_to!(whole => whole->Batch_0));
                        assert(decreases_to!(whole->Batch_0 => whole->Batch_0@));
                        assert(decreases_to!(whole->Batch_0@ => whole->Batch_0@[done.len() as int]));
                        assert(decreases_to!(msg => m));
                    }
                    let p = self.plan_message(m);
                    let ghost old_plans = plans@;
                    plans.push(p);
                    proof {
                        self.lemma_plans_for_push(done, old_plans, m, p);
                        done = done.push(m);
                        assert(orig =~= done + rest@);
                    }
                }
                assert(done =~= orig);
                Plan::Batch(plans)
            },
            JsonRpcMessage::Notification(_) => Plan::Silent,
            JsonRpcMessage::Response(_) => Plan::Silent,
        }
    }

    /// Extending matched message and plan lists by one each.
    proof fn lemma_plans_for_push(&self, ms: Seq<JsonRpcMessage>, ps: Seq<Plan>, m: JsonRpcMessage, p: Plan)
        requires
            self.plans_for(ms, ps),
            self.plan_for(m, p),
        ensures
            self.plans_for(ms.push(m), ps.push(p)),
        decreases ms.len(),
    {
        if ms.len() == 0 {
            assert(ms.push(m).subrange(1, 1) =~= Seq::<JsonRpcMessage>::empty());
            assert(ps.push(p).subrange(1, 1) =~= Seq::<Plan>::empty());
            assert(ps.len() == 0);
            assert(ms.push(m)[0] == m);
            assert(ps.push(p)[0] == p);
            assert(self.plans_for(Seq::<JsonRpcMessage>::empty(), Seq::<Plan>::empty()));
        } else {
            self.lemma_plans_for_push(ms.subrange(1, ms.len() as int), ps.subrange(1, ps.len() as int), m, p);
            assert(ms.push(m).subrange(1, ms.len() as int + 1) =~= ms.subrange(1, ms.len() as int).push(m));
            assert(ps.push(p).subrange(1, ps.len() as int + 1) =~= ps.subrange(1, ps.len() as int).push(p));
            assert(ms.push(m)[0] == ms[0]);
            assert(ps.push(p)[0] == ps[0]);
            assert(self.plan_for(ms[0], ps[0]));
        }
    }
}

/// What became of a planned message once its handlers have run.
#[derive(Debug)]
pub enum Done {
    /// Nothing to send back.
    Silent,
    /// The response to a request.
    Reply(JsonRpcResponse),
    /// The outcomes of a batch's messages, in order.
    Batch(Vec<Done>),
}

/// The error object of a response, as a value.
pub struct ErrorV {
    pub code: int,
    pub message: Seq<char>,
    pub data: Option<JsonV>,
}

/// A response, as a value.
pub struct ResponseV {
    pub jsonrpc: Seq<char>,
    pub result: Option<JsonV>,
    pub error: Option<ErrorV>,
    pub id: IdV,
}

/// What is sent back: one response, or a batch of replies.
pub enum ReplyV {
    One(ResponseV),
    Many(Seq<ReplyV>),
}

/// The value of a response.
pub open spec fn response_view(r: JsonRpcResponse) -> ResponseV {
    ResponseV {
        jsonrpc: r.jsonrpc@,
        result: opt_view(r.result),
        error: match r.error {
            Some(e) => Some(ErrorV { code: e.code as int, message: e.message@, data: opt_view(e.data) }),
            None => None,
        },
        id: r.id@,
    }
}

/// An optional reply as a list of zero or one replies.
pub open spec fn option_seq(x: Option<ReplyV>) -> Seq<ReplyV> {
    match x {
        Some(v) => seq![v],
        None => Seq::empty(),
    }
}

/// The replies in a list, in order, leaving out the absent ones.
pub open spec fn present(xs: Seq<Option<ReplyV>>) -> Seq<ReplyV>
    decreases xs.len(),
{
    if xs.len() == 0 {
        Seq::empty()
    } else {
        option_seq(xs[0]) + present(xs.drop_first())
    }
}

/// What is sent back for an outcome: nothing for silence, the response for
/// a reply, and for a batch the replies of its elements in order without the
/// silent ones; a batch with nothing to send sends nothing.
pub open spec fn reply_of_done(d: Done) -> Option<ReplyV>
    decreases d,
{
    match d {
        Done::Silent => None,
        Done::Reply(r) => Some(ReplyV::One(response_view(r))),
        Done::Batch(ds) => {
            let xs = present(replies_of_dones(ds@));
            if xs.len() == 0 {
                None
            } else {
                Some(ReplyV::Many(xs))
            }
        },
    }
}

/// The replies of a list of outcomes.
pub open spec fn replies_of_dones(ds: Seq<Done>) -> Seq<Option<ReplyV>>
    decreases ds,
{
    if ds.len() == 0 {
        Seq::empty()
    } else {
        seq![reply_of_done(ds[0])] + replies_of_dones(ds.subrange(1, ds.len() as int))
    }
}

/// What a message sent back says: a response, or a batch of them.
pub open spec fn reply_of_message(m: JsonRpcMessage) -> Option<ReplyV>
    decreases m,
{
    match m {
        JsonRpcMessage::Response(r) => Some(ReplyV::One(response_view(r))),
        JsonRpcMessage::Batch(ms) => Some(ReplyV::Many(present(replies_of_messages(ms@)))),
        _ => None,
    }
}

/// What a list of messages sent back says.
pub open spec fn replies_of_messages(ms: Seq<JsonRpcMessage>) -> Seq<Option<ReplyV>>
    decreases ms,
{
    if ms.len() == 0 {
        Seq::empty()
    } else {
        seq![reply_of_message(ms[0])] + replies_of_messages(ms.subrange(1, ms.len() as int))
    }
}

/// What an optional message sent back says.
pub open spec fn reply_of(m: Option<JsonRpcMessage>) -> Option<ReplyV> {
    match m {
        Some(x) => reply_of_message(x),
        None => None,
    }
}

proof fn lemma_present_push(xs: Seq<Option<ReplyV>>, x: Option<ReplyV>)
    ensures
        present(xs.push(x)) == present(xs) + option_seq(x),
    decreases xs.len(),
{
    if xs.len() == 0 {
        assert(xs.push(x).drop_first() =~= Seq::<Option<ReplyV>>::empty());
        reveal_with_fuel(present, 2);
        assert(present(xs.push(x)) =~= present(xs) + option_seq(x));
    } else {
        lemma_present_push(xs.drop_first(), x);
        assert(xs.push(x).drop_first() =~= xs.drop_first().push(x));
        assert(present(xs.push(x)) =~= present(xs) + option_seq(x));
    }
}

proof fn lemma_dones_push(ds: Seq<Done>, d: Done)
    ensures
        replies_of_dones(ds.push(d)) == replies_of_dones(ds).push(reply_of_done(d)),
    decreases ds.len(),
{
    if ds.len() == 0 {
        assert(ds.push(d).subrange(1, 1) =~= Seq::<Done>::empty());
        reveal_with_fuel(replies_of_dones, 2);
        assert(replies_of_dones(ds.push(d)) =~= replies_of_dones(ds).push(reply_of_done(d)));
    } else {
        lemma_dones_push(ds.subrange(1, ds.len() as int), d);
        assert(ds.push(d).subrange(1, ds.len() as int + 1) =~= ds.subrange(1, ds.len() as int).push(d));
        assert(ds.push(d)[0] == ds[0]);
        assert(replies_of_dones(ds.push(d)) =~= replies_of_dones(ds).push(reply_of_done(d)));
    }
}

proof fn lemma_messages_push(ms: Seq<JsonRpcMessage>, m: JsonRpcMessage)
    ensures
        replies_of_messages(ms.push(m)) == replies_of_messages(ms).push(reply_of_message(m)),
    decreases ms.len(),
{
    if ms.len() == 0 {
        assert(ms.push(m).subrange(1, 1) =~= Seq::<JsonRpcMessage>::empty());
        reveal_with_fuel(replies_of_messages, 2);
        assert(replies_of_messages(ms.push(m)) =~= replies_of_messages(ms).push(reply_of_message(m)));
    } else {
        lemma_messages_push(ms.subrange(1, ms.len() as int), m);
        assert(ms.push(m).subrange(1, ms.len() as int + 1) =~= ms.subrange(1, ms.len() as int).push(m));
        assert(ms.push(m)[0] == ms[0]);
        assert(replies_of_messages(ms.push(m)) =~= replies_of_messages(ms).push(reply_of_message(m)));
    }
}

/// The message to send back for an outcome, if any.
pub fn assemble(done: Done) -> (r: Option<JsonRpcMessage>)
    ensures
        reply_of(r) == reply_of_done(done),
        match r {
            Some(JsonRpcMessage::Response(_)) => true,
            Some(JsonRpcMessage::Batch(ms)) => forall|k: int|
                0 <= k < ms@.len() ==> (#[trigger] ms@[k] is Response || ms@[k] is Batch),
            None => true,
            _ => false,
        },
    decreases done,
{
    let ghost whole = done;
    match done {
        Done::Silent => None,
        Done::Reply(r) => Some(JsonRpcMessage::Response(r)),
        Done::Batch(ds) => {
            let ghost orig = ds@;
            let mut rest = ds;
            let mut out: Vec<JsonRpcMessage> = Vec::new();
            let ghost mut taken: Seq<Done> = Seq::empty();
            while rest.len() > 0
                invariant
                    orig == taken + rest@,
                    whole == done,
                    whole is Batch,
                    whole->Batch_0@ == orig,
                    present(replies_of_messages(out@)) == present(replies_of_dones(taken)),
                    forall|k: int| 0 <= k < out@.len() ==> reply_of_message(#[trigger] out@[k]) is Some,
                    forall|k: int| 0 <= k < out@.len() ==> (#[trigger] out@[k] is Response || out@[k] is Batch),
                decreases rest.len(),
            {
                let d = rest.remove(0);
                proof {
                    assert(orig[taken.len() as int] == d);
                    assert(decreases_to!(whole => whole->Batch_0));
                    assert(decreases_to!(whole->Batch_0 => whole->Batch_0@));
                    assert(decreases_to!(whole->Batch_0@ => whole->Batch_0@[taken.len() as int]));
                    assert(decreases_to!(done => d));
                }
                let ghost dd = d;
                let ghost old_out = out@;
                let x = assemble(d);
                proof {
                    lemma_dones_push(taken, dd);
                    lemma_present_push(replies_of_dones(taken), reply_of_done(dd));
                }
                match x {
                    Some(m) => {
                        out.push(m);
                        proof {
                            lemma_messages_push(old_out, m);
                            lemma_present_push(replies_of_messages(old_out), reply_of_message(m));
                        }
                    },
                    None => {},
                }
                proof {
                    taken = taken.push(dd);
                    assert(orig =~= taken + rest@);
                }
            }
            assert(taken =~= orig);
            if out.len() == 0 {
                assert(replies_of_messages(out@) =~= Seq::<Option<ReplyV>>::empty());
                None
            } else {
                proof {
                    let k = 0int;
                    assert(reply_of_message(out@[0]) is Some);
                    assert(out@ =~= seq![out@[0]] + out@.subrange(1, out@.len() as int));
                    assert(replies_of_messages(out@)[0] == reply_of_message(out@[0]));
                    assert(present(replies_of_messages(out@)).len() > 0);
                }
                Some(JsonRpcMessage::Batch(out))
            }
        },
    }
}

/// `done` is what running the handlers of `plan` produced: decided replies
/// are kept as they are, every invocation is answered by a response that
/// echoes its request's id (as [`finish_tool_call`] and
/// [`finish_method_call`] make it), and silence stays silent.
pub open spec fn done_for(plan: Plan, done: Done) -> bool
    decreases plan,
{
    match plan {
        Plan::Silent => done is Silent,
        Plan::Answer(Step::Reply(r)) => done == Done::Reply(r),
        Plan::Answer(Step::Invoke(inv)) => done matches Done::Reply(r) && r.id@ == inv.request_id(),
        Plan::Batch(ps) => done matches Done::Batch(ds) && dones_for(ps@, ds@),
    }
}

/// `ds` holds, in order, the outcomes of the plans `ps`.
pub open spec fn dones_for(ps: Seq<Plan>, ds: Seq<Done>) -> bool
    decreases ps,
{
    if ps.len() == 0 {
        ds.len() == 0
    } else {
        ds.len() > 0 && done_for(ps[0], ds[0]) && dones_for(
            ps.subrange(1, ps.len() as int),
            ds.subrange(1, ds.len() as int),
        )
    }
}

/// The id of a request, as a list of one; nothing for other messages.
pub open spec fn own_request_id(m: JsonRpcMessage) -> Seq<IdV> {
    match m {
        JsonRpcMessage::Request(r) => seq![r.id@],
        _ => Seq::<IdV>::empty(),
    }
}

/// The ids of the requests among `ms`, in order.
pub open spec fn request_ids(ms: Seq<JsonRpcMessage>) -> Seq<IdV>
    decreases ms.len(),
{
    if ms.len() == 0 {
        Seq::empty()
    } else {
        own_request_id(ms[0]) + request_ids(ms.subrange(1, ms.len() as int))
    }
}

/// Every message is a request or a notification.
pub open spec fn only_calls(ms: Seq<JsonRpcMessage>) -> bool {
    forall|i: int|
        0 <= i < ms.len() ==> (#[trigger] ms[i] is Request || ms[i] is Notification)
}

/// The ids of single responses (a batch reply counts as a null id).
pub open spec fn reply_ids(xs: Seq<ReplyV>) -> Seq<IdV> {
    xs.map_values(|x: ReplyV| match x {
        ReplyV::One(r) => r.id,
        ReplyV::Many(_) => IdV::Null,
    })
}

proof fn lemma_flat_batch_replies(p: Protocol, ms: Seq<JsonRpcMessage>, ps: Seq<Plan>, ds: Seq<Done>)
    requires
        p.plans_for(ms, ps),
        dones_for(ps, ds),
        only_calls(ms),
    ensures
        forall|k: int|
            0 <= k < present(replies_of_dones(ds)).len() ==> #[trigger] present(
                replies_of_dones(ds),
            )[k] is One,
        reply_ids(present(replies_of_dones(ds))) == request_ids(ms),
    decreases ms.len(),
{
    if ms.len() == 0 {
        assert(ds.len() == 0);
        assert(replies_of_dones(ds) =~= Seq::<Option<ReplyV>>::empty());
        assert(present(replies_of_dones(ds)) =~= Seq::<ReplyV>::empty());
        assert(reply_ids(present(replies_of_dones(ds))) =~= request_ids(ms));
    } else {
        let ms1 = ms.subrange(1, ms.len() as int);
        let ps1 = ps.subrange(1, ps.len() as int);
        let ds1 = ds.subrange(1, ds.len() as int);
        assert forall|i: int| 0 <= i < ms1.len() implies (#[trigger] ms1[i] is Request
            || ms1[i] is Notification) by {
            assert(ms1[i] == ms[i + 1]);
        }
        lemma_flat_batch_replies(p, ms1, ps1, ds1);
        let rest = present(replies_of_dones(ds1));
        assert(replies_of_dones(ds).drop_first() =~= replies_of_dones(ds1));
        assert(present(replies_of_dones(ds)) == option_seq(reply_of_done(ds[0])) + rest);
        assert(ms[0] is Request || ms[0] is Notification);
        assert(p.plan_for(ms[0], ps[0]));
        assert(done_for(ps[0], ds[0]));
        match ms[0] {
            JsonRpcMessage::Request(req) => {
                assert(ps[0] matches Plan::Answer(st) && p.step_for(req, st));
                assert(ds[0] matches Done::Reply(r) && r.id@ == req.id@) by {
                    let st = ps[0]->Answer_0;
                    answers_echo_request_id(p, req, st);
                }
                let r = ds[0]->Reply_0;
                assert(option_seq(reply_of_done(ds[0])) == seq![ReplyV::One(response_view(r))]);
                assert(request_ids(ms) == seq![req.id@] + request_ids(ms1));
                assert(reply_ids(present(replies_of_dones(ds))) =~= request_ids(ms));
            },
            _ => {
                assert(ps[0] is Silent);
                assert(ds[0] is Silent);
                assert(present(replies_of_dones(ds)) =~= rest);
                assert(request_ids(ms) =~= request_ids(ms1));
            },
        }
    }
}

/// Law: a batch of requests and notifications is answered by a batch that
/// holds one response per request, in the order of the requests, each
/// carrying its request's id; notifications add nothing. When the batch
/// holds no request at all, nothing is sent back.
pub proof fn batch_replies_follow_request_order(
    p: Protocol,
    ms: Vec<JsonRpcMessage>,
    plan: Plan,
    done: Done,
)
    requires
        ms@.len() > 0,
        only_calls(ms@),
        p.plan_for(JsonRpcMessage::Batch(ms), plan),
        done_for(plan, done),
    ensures
        request_ids(ms@).len() == 0 ==> reply_of_done(done) is None,
        request_ids(ms@).len() > 0 ==> (reply_of_done(done) matches Some(ReplyV::Many(xs)) && reply_ids(xs)
            == request_ids(ms@) && forall|k: int| 0 <= k < xs.len() ==> #[trigger] xs[k] is One),
{
    let ps = plan->Batch_0@;
    let ds = done->Batch_0@;
    lemma_flat_batch_replies(p, ms@, ps, ds);
    assert(reply_ids(present(replies_of_dones(ds))).len() == present(replies_of_dones(ds)).len());
}

/// Law: a notification is never answered.
pub proof fn notifications_are_not_answered(p: Protocol, n: JsonRpcNotification, plan: Plan, done: Done)
    requires
        p.plan_for(JsonRpcMessage::Notification(n), plan),
        done_for(plan, done),
    ensures
        reply_of_done(done) is None,
{
}

/// Law: once a tool is registered, a `tools/call` that names it runs that
/// tool, with the call's arguments and the request's id.
pub proof fn registered_tool_is_called(
    before: Protocol,
    after: Protocol,
    tool: ToolInfo,
    req: JsonRpcRequest,
    s: Step,
)
    requires
        after.registry() == before.registry().insert(tool.name@, tool.listing()),
        req.jsonrpc@ == "2.0"@,
        req.method@ == "tools/call"@,
        text_at(opt_view(req.params), "name"@) == Some(tool.name@),
        after.step_for(req, s),
    ensures
        s matches Step::Invoke(Invocation::ToolCall { tool: t, arguments, id, .. }) && t@ == tool.name@
            && opt_view(arguments) == value_at(opt_view(req.params), "arguments"@) && id@ == req.id@,
{
    assert(after.registry().dom().contains(tool.name@));
    reveal_strlit("tools/call");
    reveal_strlit("initialize");
    reveal_strlit("shutdown");
    reveal_strlit("tools/list");
    assert("tools/call"@ != "initialize"@ && "tools/call"@ != "shutdown"@ && "tools/call"@ != "tools/list"@) by {
        assert("tools/call"@[0] != "initialize"@[0]);
        assert("tools/call"@.len() != "shutdown"@.len());
        assert("tools/call"@[6] != "tools/list"@[6]);
    }
    assert(method_kind(req.method@) == 3);
}

} // verus!
