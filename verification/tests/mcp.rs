use superide::mcp::protocol::{wait_step, JsonRpcError, RequestIds, ServerInfo, WaitEvent, WaitStep};
use superide::mcp::transport::{ends_headers, frame_message};

#[test]
fn test_next_id_increments() {
    let mut ids = RequestIds::new();
    let a = ids.next_id();
    let b = ids.next_id();
    assert!(b > a);
}

#[test]
fn test_server_info_default() {
    let info = ServerInfo::default();
    assert_eq!(info.name, "unknown");
    assert_eq!(info.version, "0.0.0");
}

#[test]
fn test_content_length_matches_body() {
    let body = r#"{"jsonrpc":"2.0","id":1,"result":null}"#;
    let raw = frame_message(body);
    assert_eq!(raw, format!("Content-Length: {}\r\n\r\n{}", body.len(), body));

    let mut lines = raw.lines();
    let header = lines.next().unwrap();
    let len: usize = header.trim_start_matches("Content-Length: ").parse().unwrap();
    assert_eq!(len, body.len());

    let blank = lines.next().unwrap();
    assert!(blank.is_empty());

    let parsed_body = lines.next().unwrap();
    assert_eq!(parsed_body.len(), len);
}

#[test]
fn frame_counts_bytes_not_chars() {
    assert_eq!(frame_message("\"é\""), "Content-Length: 4\r\n\r\n\"é\"");
}

#[test]
fn blank_header_line_ends_headers() {
    assert!(ends_headers("\r\n"));
    assert!(ends_headers(""));
    assert!(!ends_headers("Content-Length: 3\r\n"));
}

#[test]
fn first_request_id_is_one() {
    let mut ids = RequestIds::new();
    assert_eq!(ids.next_id(), 1);
    assert_eq!(ids.next_id(), 2);
}

#[test]
fn rpc_error_text() {
    let e = JsonRpcError { code: -32601, message: "Method not found".to_string(), data: None };
    assert_eq!(e.to_string(), "MCP error -32601: Method not found");
}

#[test]
fn waiting_for_a_response() {
    assert_eq!(wait_step(3, &WaitEvent::Unsolicited), WaitStep::KeepWaiting);
    assert_eq!(wait_step(3, &WaitEvent::Response { id: 2, error: None }), WaitStep::KeepWaiting);
    assert_eq!(wait_step(3, &WaitEvent::Response { id: 3, error: None }), WaitStep::Done);
    let err = JsonRpcError { code: -1, message: "boom".to_string(), data: None };
    assert_eq!(
        wait_step(3, &WaitEvent::Response { id: 3, error: Some(err) }),
        WaitStep::Failed("MCP error -1: boom".to_string())
    );
    assert_eq!(
        wait_step(3, &WaitEvent::Closed),
        WaitStep::Failed("MCP server closed connection".to_string())
    );
}

#[test]
fn test_frame_construction() {
    let body = r#"{"id":1,"jsonrpc":"2.0","result":null}"#;
    let bytes = frame_message(body).into_bytes();
    let text = String::from_utf8(bytes).unwrap();
    assert!(text.starts_with("Content-Length:"));
    assert!(text.contains("\r\n\r\n"));
    assert!(text.contains(r#""jsonrpc":"2.0""#));
}
