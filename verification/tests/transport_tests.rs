use mcproc::mcp::error::Error;
use mcproc::mcp::transport::{parse_input_line, SseTransport, StreamableHttpTransport};
use mcproc::mcp::types::{JsonRpcId, JsonRpcMessage, JsonRpcNotification, PARSE_ERROR};

#[test]
fn invalid_json_produces_parse_error_response() {
    // A line that does not decode ("{not json") reaches the library as no message.
    match parse_input_line(None).unwrap_err() {
        JsonRpcMessage::Response(response) => {
            assert_eq!(response.id, JsonRpcId::Null);
            let e = response.error.unwrap();
            assert_eq!(e.code, PARSE_ERROR);
            assert_eq!(e.message, "Parse error");
        }
        other => panic!("expected parse-error response, got {other:?}"),
    }
}

#[test]
fn decoded_line_is_handled() {
    let m = JsonRpcMessage::Notification(JsonRpcNotification {
        jsonrpc: "2.0".to_string(),
        method: "ping".to_string(),
        params: None,
    });
    assert!(matches!(parse_input_line(Some(m)), Ok(JsonRpcMessage::Notification(_))));
}

fn not_implemented(r: Error) -> String {
    match r {
        Error::NotImplemented(m) => m,
        other => panic!("expected not implemented, got {other:?}"),
    }
}

#[test]
fn sse_and_streamable_http_are_not_offered() {
    let mut sse = SseTransport::new();
    assert_eq!(not_implemented(sse.start().unwrap_err()), "SSE transport is not yet implemented");
    assert!(sse.receive().is_err());
    assert!(sse.close().is_err());
    let mut http = StreamableHttpTransport::new();
    assert_eq!(
        not_implemented(http.close().unwrap_err()),
        "Streamable HTTP transport is not yet implemented"
    );
    assert!(http.start().is_err());
}
