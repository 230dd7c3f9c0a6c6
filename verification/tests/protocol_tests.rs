use mcproc::mcp::error::Error;
use mcproc::mcp::json::{Json, ObjectBuilder};
use mcproc::mcp::protocol::{assemble, finish_tool_call, Done, Invocation, Plan, Protocol, Step};
use mcproc::mcp::types::{
    JsonRpcId, JsonRpcMessage, JsonRpcNotification, JsonRpcRequest, JsonRpcResponse, ToolInfo,
    INTERNAL_ERROR, INVALID_PARAMS, INVALID_REQUEST, METHOD_NOT_FOUND, SERVER_ERROR,
};

fn get<'a>(j: &'a Json, key: &str) -> &'a Json {
    match j {
        Json::Object(ms) => &ms.iter().find(|(k, _)| k == key).expect(key).1,
        other => panic!("expected object, got {other:?}"),
    }
}

fn text(j: &Json) -> &str {
    match j {
        Json::Str(s) => s,
        other => panic!("expected string, got {other:?}"),
    }
}

fn obj(members: Vec<(&str, Json)>) -> Json {
    let mut b = ObjectBuilder::new();
    for (k, v) in members {
        b.put(k, v);
    }
    b.build()
}

fn request(method: &str, params: Option<Json>, id: JsonRpcId) -> JsonRpcMessage {
    JsonRpcMessage::Request(JsonRpcRequest {
        jsonrpc: "2.0".to_string(),
        method: method.to_string(),
        params,
        id,
    })
}

fn notification(method: &str, params: Option<Json>) -> JsonRpcMessage {
    JsonRpcMessage::Notification(JsonRpcNotification {
        jsonrpc: "2.0".to_string(),
        method: method.to_string(),
        params,
    })
}

fn fixed_tool() -> ToolInfo {
    ToolInfo {
        name: "fixed".to_string(),
        description: "Returns a fixed value".to_string(),
        input_schema: obj(vec![
            ("type", Json::text("object")),
            ("properties", obj(vec![("ignored", obj(vec![("type", Json::text("string"))]))])),
        ]),
    }
}

/// Runs what a plan asks for: the fixed tool answers `{"answer": 42}`.
fn run(plan: Plan) -> Done {
    match plan {
        Plan::Silent => Done::Silent,
        Plan::Answer(Step::Reply(r)) => Done::Reply(r),
        Plan::Answer(Step::Invoke(Invocation::ToolCall { tool, id, .. })) => {
            assert_eq!(tool, "fixed");
            Done::Reply(finish_tool_call(id, Ok("{\n  \"answer\": 42\n}".to_string())))
        }
        Plan::Answer(Step::Invoke(other)) => panic!("unexpected invocation {other:?}"),
        Plan::Batch(ps) => Done::Batch(ps.into_iter().map(run).collect()),
    }
}

fn serve(p: &Protocol, m: JsonRpcMessage) -> Option<JsonRpcMessage> {
    assemble(run(p.plan_message(m)))
}

fn response(m: Option<JsonRpcMessage>) -> JsonRpcResponse {
    match m {
        Some(JsonRpcMessage::Response(r)) => r,
        other => panic!("expected response, got {other:?}"),
    }
}

fn assert_invalid_request(message: Option<JsonRpcMessage>) {
    match message {
        Some(JsonRpcMessage::Response(response)) => {
            assert_eq!(response.id, JsonRpcId::Null);
            assert_eq!(response.error.unwrap().code, INVALID_REQUEST);
        }
        other => panic!("expected invalid-request response, got {other:?}"),
    }
}

#[test]
fn empty_batch_returns_invalid_request() {
    let protocol = Protocol::new("test".to_string(), "1".to_string());
    assert_invalid_request(serve(&protocol, JsonRpcMessage::Batch(Vec::new())));
}

#[test]
fn non_2_0_request_returns_invalid_request() {
    let protocol = Protocol::new("test".to_string(), "1".to_string());
    let req = JsonRpcMessage::Request(JsonRpcRequest {
        jsonrpc: "1.0".to_string(),
        method: "initialize".to_string(),
        params: None,
        id: JsonRpcId::Number(7),
    });
    let r = response(serve(&protocol, req));
    assert_eq!(r.id, JsonRpcId::Number(7));
    assert_eq!(r.error.unwrap().code, INVALID_REQUEST);
}

#[test]
fn initialize_returns_server_metadata_and_capabilities() {
    let protocol = Protocol::new("test-server".to_string(), "1.2.3".to_string());
    let params = obj(vec![
        ("protocolVersion", Json::text("2025-03-26")),
        ("capabilities", obj(vec![])),
        ("clientInfo", obj(vec![("name", Json::text("test-client")), ("version", Json::text("1"))])),
    ]);
    let r = response(serve(
        &protocol,
        request("initialize", Some(params), JsonRpcId::String("init-1".to_string())),
    ));
    assert_eq!(r.jsonrpc, "2.0");
    assert_eq!(r.id, JsonRpcId::String("init-1".to_string()));
    assert!(r.error.is_none());
    let result = r.result.unwrap();
    assert_eq!(text(get(&result, "protocolVersion")), "2025-03-26");
    assert_eq!(text(get(get(&result, "serverInfo"), "name")), "test-server");
    assert_eq!(text(get(get(&result, "serverInfo"), "version")), "1.2.3");
    assert!(matches!(get(get(&result, "capabilities"), "tools"), Json::Object(_)));
}

#[test]
fn tools_list_returns_registered_tool_metadata() {
    let mut protocol = Protocol::new("test".to_string(), "1".to_string());
    protocol.register_tool(fixed_tool());
    let r = response(serve(&protocol, request("tools/list", None, JsonRpcId::Number(1))));
    let result = r.result.unwrap();
    let tools = match get(&result, "tools") {
        Json::Array(tools) => tools,
        other => panic!("expected tools array, got {other:?}"),
    };
    assert_eq!(tools.len(), 1);
    assert_eq!(text(get(&tools[0], "name")), "fixed");
    assert_eq!(text(get(&tools[0], "description")), "Returns a fixed value");
    let schema = get(&tools[0], "inputSchema");
    assert_eq!(text(get(schema, "type")), "object");
    assert_eq!(text(get(get(get(schema, "properties"), "ignored"), "type")), "string");
}

#[test]
fn tools_call_returns_tool_result_and_echoes_id() {
    let mut protocol = Protocol::new("test".to_string(), "1".to_string());
    protocol.register_tool(fixed_tool());
    let params = obj(vec![
        ("name", Json::text("fixed")),
        ("arguments", obj(vec![("ignored", Json::text("x"))])),
    ]);
    let r = response(serve(
        &protocol,
        request("tools/call", Some(params), JsonRpcId::String("call-1".to_string())),
    ));
    assert_eq!(r.id, JsonRpcId::String("call-1".to_string()));
    let result = r.result.unwrap();
    assert!(matches!(get(&result, "isError"), Json::Bool(false)));
    let content = match get(&result, "content") {
        Json::Array(c) => c,
        other => panic!("expected content, got {other:?}"),
    };
    assert_eq!(text(get(&content[0], "type")), "text");
    assert_eq!(text(get(&content[0], "text")), "{\n  \"answer\": 42\n}");
}

#[test]
fn tools_call_missing_params_or_name_returns_invalid_params() {
    let protocol = Protocol::new("test".to_string(), "1".to_string());
    let cases = [(None, JsonRpcId::Number(10)), (Some(obj(vec![])), JsonRpcId::Number(11))];
    for (params, id) in cases {
        let expected = match &id {
            JsonRpcId::Number(n) => *n,
            _ => unreachable!(),
        };
        let r = response(serve(&protocol, request("tools/call", params, id)));
        assert_eq!(r.id, JsonRpcId::Number(expected));
        assert_eq!(r.error.unwrap().code, INVALID_PARAMS);
    }
}

#[test]
fn tools_call_unknown_tool_returns_invalid_params() {
    let protocol = Protocol::new("test".to_string(), "1".to_string());
    let params = obj(vec![("name", Json::text("no-such-tool")), ("arguments", obj(vec![]))]);
    let r = response(serve(&protocol, request("tools/call", Some(params), JsonRpcId::Number(12))));
    assert_eq!(r.error.unwrap().code, INVALID_PARAMS);
}

#[test]
fn error_variants_map_to_json_rpc_error_codes() {
    let protocol = Protocol::new("test".to_string(), "1".to_string());
    let cases = [
        (Error::Transport("transport".to_string()), SERVER_ERROR),
        (Error::Protocol("protocol".to_string()), SERVER_ERROR),
        (Error::Serialization("EOF while parsing an object".to_string()), SERVER_ERROR),
        (Error::Io("io".to_string()), SERVER_ERROR),
        (Error::MethodNotFound("missing".to_string()), METHOD_NOT_FOUND),
        (Error::InvalidParams("invalid".to_string()), INVALID_PARAMS),
        (Error::Internal("internal".to_string()), INTERNAL_ERROR),
        (Error::NotImplemented("todo".to_string()), SERVER_ERROR),
    ];
    for (source, expected_code) in cases {
        let mapped = protocol.error_to_json_rpc(source);
        assert_eq!(mapped.code, expected_code);
        assert!(mapped.data.is_none());
    }
}

#[test]
fn error_messages_keep_detail_or_display_text() {
    let protocol = Protocol::new("test".to_string(), "1".to_string());
    assert_eq!(protocol.error_to_json_rpc(Error::InvalidParams("bad".to_string())).message, "bad");
    assert_eq!(
        protocol.error_to_json_rpc(Error::Transport("down".to_string())).message,
        "Transport error: down"
    );
    assert_eq!(Error::NotImplemented("x".to_string()).message(), "Not implemented: x");
}

#[test]
fn unknown_custom_method_returns_method_not_found() {
    let protocol = Protocol::new("test".to_string(), "1".to_string());
    let r = response(serve(&protocol, request("unknown/custom", None, JsonRpcId::Number(20))));
    assert_eq!(r.id, JsonRpcId::Number(20));
    let e = r.error.unwrap();
    assert_eq!(e.code, METHOD_NOT_FOUND);
    assert_eq!(e.message, "Method not found: unknown/custom");
}

#[test]
fn nonempty_batch_returns_responses_in_request_order() {
    let protocol = Protocol::new("test-server".to_string(), "1".to_string());
    let out = serve(
        &protocol,
        JsonRpcMessage::Batch(vec![
            request("initialize", None, JsonRpcId::Number(31)),
            request("tools/list", None, JsonRpcId::Number(32)),
        ]),
    );
    let responses = match out {
        Some(JsonRpcMessage::Batch(b)) => b,
        other => panic!("expected batch, got {other:?}"),
    };
    assert_eq!(responses.len(), 2);
    for (message, expected_id) in responses.iter().zip([31, 32]) {
        match message {
            JsonRpcMessage::Response(r) => {
                assert_eq!(r.id, JsonRpcId::Number(expected_id));
                assert!(r.error.is_none());
            }
            other => panic!("expected response in batch, got {other:?}"),
        }
    }
}

#[test]
fn mixed_batch_omits_notification_response() {
    let protocol = Protocol::new("test".to_string(), "1".to_string());
    let out = serve(
        &protocol,
        JsonRpcMessage::Batch(vec![
            request("tools/list", None, JsonRpcId::Number(41)),
            notification("notifications/initialized", None),
        ]),
    );
    let responses = match out {
        Some(JsonRpcMessage::Batch(b)) => b,
        other => panic!("expected batch, got {other:?}"),
    };
    assert_eq!(responses.len(), 1);
    match &responses[0] {
        JsonRpcMessage::Response(r) => assert_eq!(r.id, JsonRpcId::Number(41)),
        other => panic!("expected response in batch, got {other:?}"),
    }
}

#[test]
fn standalone_notification_produces_no_response() {
    let protocol = Protocol::new("test".to_string(), "1".to_string());
    let out = serve(
        &protocol,
        notification("notifications/initialized", Some(obj(vec![("ready", Json::Bool(true))]))),
    );
    assert!(out.is_none());
}

#[test]
fn failed_tool_call_is_reported_as_error_content() {
    let r = finish_tool_call(JsonRpcId::Number(3), Err(Error::Internal("boom".to_string())));
    let result = r.result.unwrap();
    assert!(matches!(get(&result, "isError"), Json::Bool(true)));
    let content = match get(&result, "content") {
        Json::Array(c) => c,
        other => panic!("expected content, got {other:?}"),
    };
    assert_eq!(text(get(&content[0], "text")), "Error: Internal error: boom");
}

#[test]
fn registering_a_tool_twice_keeps_one_entry() {
    let mut protocol = Protocol::new("test".to_string(), "1".to_string());
    protocol.register_tool(fixed_tool());
    protocol.register_tool(fixed_tool());
    assert_eq!(protocol.tools.len(), 1);
    assert!(protocol.find_tool("fixed").is_some());
    assert!(protocol.find_tool("other").is_none());
}

#[test]
fn notifications_queue_in_order_and_drain() {
    use_notification_queue();
}

fn use_notification_queue() {
    let mut q = mcproc::mcp::notification::QueuedNotificationSender::new();
    q.send_raw("a/b".to_string(), None);
    let ctx = mcproc::mcp::notification::ToolContext::new(Some("tok".to_string()), None);
    q.send_message(ctx.log_notification(mcproc::mcp::types::MessageLevel::Info, "hi".to_string()));
    q.send_progress(ctx.progress_notification(10, 100, None).unwrap());
    let taken = q.take_all();
    let methods: Vec<&str> = taken.iter().map(|n| n.method.as_str()).collect();
    assert_eq!(methods, vec!["a/b", "notifications/message", "notifications/progress"]);
    let params = taken[1].params.as_ref().unwrap();
    assert_eq!(text(get(params, "level")), "info");
    assert_eq!(text(get(params, "logger")), "mcproc");
    assert_eq!(text(get(get(params, "data"), "message")), "hi");
    let progress = taken[2].params.as_ref().unwrap();
    assert_eq!(text(get(progress, "progressToken")), "tok");
    assert!(q.take_all().is_empty());
    let none = mcproc::mcp::notification::ToolContext::new(None, None);
    assert!(none.progress_notification(1, 2, None).is_none());
}

#[test]
fn custom_handlers_and_invalid_requests() {
    let mut protocol = Protocol::new("test".to_string(), "1".to_string());
    protocol.register_custom_handler("custom/echo".to_string());
    match protocol.plan_message(request("custom/echo", None, JsonRpcId::Number(5))) {
        Plan::Answer(Step::Invoke(Invocation::Custom { method, id, .. })) => {
            assert_eq!(method, "custom/echo");
            assert_eq!(id, JsonRpcId::Number(5));
        }
        other => panic!("expected custom invocation, got {other:?}"),
    }
    match mcproc::mcp::protocol::invalid_request_response(JsonRpcId::Number(3)) {
        JsonRpcMessage::Response(r) => {
            assert_eq!(r.id, JsonRpcId::Number(3));
            let e = r.error.unwrap();
            assert_eq!(e.code, INVALID_REQUEST);
            assert_eq!(e.message, "Invalid Request");
        }
        other => panic!("expected response, got {other:?}"),
    }
    let r = mcproc::mcp::protocol::finish_method_call(JsonRpcId::Number(4), Err(Error::InvalidParams("x".to_string())));
    assert_eq!(r.error.unwrap().code, INVALID_PARAMS);
    assert!(matches!(
        mcproc::mcp::types::McpMethod::parse_name("tools/call"),
        mcproc::mcp::types::McpMethod::ToolsCall
    ));
}
