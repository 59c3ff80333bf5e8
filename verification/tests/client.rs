use mcp_core::client::{
    accept_greeting, client_declaration, encode_document, Client, ClientError, ClientState,
    INITIALIZE_ID,
};
use mcp_core::frame::{decode_frame, write_frame, Frame};
use mcp_core::jsonrpc::{
    DecodeError, JsonRpcError, JsonRpcNotification, JsonRpcRequest, JsonRpcResponse,
};
use mcp_core::server::{Server, ServerState};
use mcp_core::types::{
    success_content, text_content, AddParams, Tool, ToolImplementation, ToolsCallParams,
    ToolsCallResult, ToolsListParams, ToolsListResult,
};
use serde_json::Value;

fn json(text: &str) -> Value {
    serde_json::from_str(text).unwrap()
}

fn body_of(frame: &[u8]) -> Vec<u8> {
    match decode_frame(frame) {
        Frame::Message { body, consumed } => {
            assert_eq!(consumed, frame.len());
            body
        }
        _ => panic!("a frame was expected"),
    }
}

struct Upper;

impl ToolImplementation for Upper {
    fn get_tool(&self) -> Tool {
        Tool { name: "upper".to_string(), description: "Upper case".to_string(), input_schema: json("{}") }
    }

    fn call(&self, arguments: Value) -> ToolsCallResult {
        let text = arguments["text"].as_str().unwrap_or("").to_uppercase();
        success_content(vec![text_content(text)])
    }
}

const GREETING: &str = r#"{"jsonrpc":"2.0","id":1,"result":{"protocolVersion":"2025-03-26","capabilities":{},"serverInfo":{"name":"s","version":"1"}}}"#;

#[test]
fn the_client_opens_with_initialize() {
    let mut c = Client::new();
    assert_eq!(c.state, ClientState::Created);
    let frame = c.initialize().unwrap();
    assert_eq!(c.state, ClientState::AwaitingInitialize);
    let doc: Value = serde_json::from_slice(&body_of(&frame)).unwrap();
    assert_eq!(
        doc,
        json(
            r#"{"jsonrpc":"2.0","id":1,"method":"initialize","params":{"protocolVersion":"2025-03-26","capabilities":{"roots":{"listChanged":true},"sampling":null,"experimental":null},"clientInfo":{"name":"ExampleClient","version":"1.0.0"}}}"#
        )
    );
    assert_eq!(doc["params"], client_declaration().to_value());
}

#[test]
fn initialize_is_sent_once() {
    let mut c = Client::new();
    c.initialize().unwrap();
    assert_eq!(c.initialize(), Err(ClientError::OutOfSequence));
    assert_eq!(c.state, ClientState::AwaitingInitialize);
}

#[test]
fn an_accepted_greeting_is_confirmed() {
    let mut c = Client::new();
    c.initialize().unwrap();
    let frame = c.complete_initialize(GREETING.as_bytes()).unwrap();
    assert_eq!(c.state, ClientState::Ready);
    assert_eq!(frame, write_frame(br#"{"jsonrpc":"2.0","method":"notifications/initialized"}"#));
}

#[test]
fn a_greeting_before_initialize_is_out_of_sequence() {
    let mut c = Client::new();
    assert_eq!(c.complete_initialize(GREETING.as_bytes()), Err(ClientError::OutOfSequence));
    assert_eq!(c.state, ClientState::Created);
}

#[test]
fn an_error_response_fails_the_handshake() {
    let mut c = Client::new();
    c.initialize().unwrap();
    let r = c.complete_initialize(
        br#"{"jsonrpc":"2.0","id":1,"error":{"code":-32602,"message":"Unsupported protocol version"}}"#,
    );
    assert_eq!(
        r,
        Err(ClientError::Rejected(JsonRpcError::new(-32602, "Unsupported protocol version".to_string())))
    );
    assert_eq!(c.state, ClientState::Failed);
    // nothing more may be sent
    let request = JsonRpcRequest::new("add", json(r#"{"a":1,"b":2}"#), 2);
    assert_eq!(c.send_request(&request), Err(ClientError::OutOfSequence));
    assert_eq!(c.initialize(), Err(ClientError::OutOfSequence));
    assert_eq!(c.complete_initialize(GREETING.as_bytes()), Err(ClientError::OutOfSequence));
}

#[test]
fn another_protocol_version_fails_the_handshake() {
    let mut c = Client::new();
    c.initialize().unwrap();
    let r = c.complete_initialize(
        br#"{"jsonrpc":"2.0","id":1,"result":{"protocolVersion":"2024-11-05","capabilities":{},"serverInfo":{"name":"s","version":"1"}}}"#,
    );
    assert_eq!(r, Err(ClientError::UnsupportedVersion("2024-11-05".to_string())));
    assert_eq!(c.state, ClientState::Failed);
}

#[test]
fn an_unreadable_greeting_fails_the_handshake() {
    for (body, error) in [
        ("{", DecodeError::InvalidJson),
        (r#"{"jsonrpc":"2.0","id":1}"#, DecodeError::InvalidShape),
        (r#"{"jsonrpc":"2.0","id":1,"result":{"protocolVersion":"2025-03-26"}}"#, DecodeError::InvalidShape),
        (r#"{"jsonrpc":"2.0","id":1,"result":"2025-03-26"}"#, DecodeError::InvalidShape),
    ] {
        let mut c = Client::new();
        c.initialize().unwrap();
        assert_eq!(c.complete_initialize(body.as_bytes()), Err(ClientError::Decode(error)), "{}", body);
        assert_eq!(c.state, ClientState::Failed);
    }
}

#[test]
fn a_response_with_another_id_is_not_the_matching_one() {
    let mut c = Client::new();
    c.initialize().unwrap();
    let r = c.complete_initialize(
        br#"{"jsonrpc":"2.0","id":99,"result":{"protocolVersion":"2025-03-26","capabilities":{},"serverInfo":{"name":"s","version":"1"}}}"#,
    );
    assert_eq!(r, Err(ClientError::UnexpectedId(99)));
    assert_eq!(c.state, ClientState::Failed);
    assert_eq!(
        accept_greeting(&json(r#"{"jsonrpc":"2.0","id":2,"error":{"code":5,"message":"no"}}"#)),
        Err(ClientError::UnexpectedId(2))
    );
    assert_eq!(INITIALIZE_ID, 1);
}

#[test]
fn a_good_handshake_writes_two_frames() {
    let mut c = Client::new();
    let mut written = Vec::new();
    written.extend_from_slice(&c.initialize().unwrap());
    written.extend_from_slice(&c.complete_initialize(GREETING.as_bytes()).unwrap());
    assert_eq!(c.state, ClientState::Ready);
    let (first, used) = match decode_frame(&written) {
        Frame::Message { body, consumed } => (body, consumed),
        _ => panic!("a frame was expected"),
    };
    let first: Value = serde_json::from_slice(&first).unwrap();
    assert_eq!(first["method"], json("\"initialize\""));
    assert_eq!(first["id"], json("1"));
    let second: Value = serde_json::from_slice(&body_of(&written[used..])).unwrap();
    assert_eq!(second, json(r#"{"jsonrpc":"2.0","method":"notifications/initialized"}"#));
}

#[test]
fn greetings_are_checked() {
    assert_eq!(accept_greeting(&json(GREETING)), Ok(()));
    assert_eq!(
        accept_greeting(&json(r#"{"jsonrpc":"2.0","id":1,"error":{"code":5,"message":"no"}}"#)),
        Err(ClientError::Rejected(JsonRpcError::new(5, "no".to_string())))
    );
    assert_eq!(accept_greeting(&json("[]")), Err(ClientError::Decode(DecodeError::InvalidShape)));
}

#[test]
fn requests_wait_for_the_handshake() {
    let request = JsonRpcRequest::new("add", json(r#"{"a":3,"b":4}"#), 2);
    let note = JsonRpcNotification::new("notifications/cancelled");
    let mut c = Client::new();
    assert_eq!(c.send_request(&request), Err(ClientError::OutOfSequence));
    assert_eq!(c.send_notification(&note), Err(ClientError::OutOfSequence));
    c.initialize().unwrap();
    assert_eq!(c.send_request(&request), Err(ClientError::OutOfSequence));
    c.complete_initialize(GREETING.as_bytes()).unwrap();
    assert_eq!(
        c.send_request(&request),
        Ok(write_frame(br#"{"id":2,"jsonrpc":"2.0","method":"add","params":{"a":3,"b":4}}"#))
    );
    assert_eq!(
        c.send_notification(&note),
        Ok(write_frame(br#"{"jsonrpc":"2.0","method":"notifications/cancelled"}"#))
    );
}

#[test]
fn documents_are_written_as_frames() {
    assert_eq!(encode_document(&json(r#"{"b":1,"a":"é"}"#)), write_frame("{\"a\":\"\u{e9}\",\"b\":1}".as_bytes()));
}

#[test]
fn responses_are_read() {
    let c = Client::new();
    assert_eq!(
        c.read_response(br#"{"jsonrpc":"2.0","result":7,"id":2}"#),
        Ok(JsonRpcResponse::success(2, json("7")))
    );
    assert_eq!(
        c.read_response(br#"{"jsonrpc":"2.0","error":{"code":-32601,"message":"m"},"id":2}"#),
        Ok(JsonRpcResponse::failure(2, JsonRpcError::new(-32601, "m".to_string())))
    );
    assert_eq!(c.read_response::<Value>(b"7 7"), Err(ClientError::Decode(DecodeError::InvalidJson)));
    assert_eq!(c.read_response::<Value>(b"7"), Err(ClientError::Decode(DecodeError::InvalidShape)));
    // the result must be of the type that is asked for
    assert_eq!(
        c.read_response::<i64>(br#"{"jsonrpc":"2.0","result":"7","id":2}"#),
        Err(ClientError::Decode(DecodeError::InvalidShape))
    );
    let failed: JsonRpcResponse<i64> =
        c.read_response(br#"{"jsonrpc":"2.0","error":{"code":-32601,"message":"m"},"id":2}"#).unwrap();
    assert_eq!(failed.result, None);
    assert_eq!(failed.error, Some(JsonRpcError::new(-32601, "m".to_string())));
}

/// Sends a frame to the server and reads the body of what comes back.
fn exchange(server: &mut Server<Upper>, frame: &[u8]) -> Option<Vec<u8>> {
    let body = body_of(frame);
    server.handle_body(&body).unwrap().map(|reply| body_of(&reply))
}

#[test]
fn client_and_server_complete_a_session() {
    let mut server: Server<Upper> = Server::new();
    server.register_tool(Upper).unwrap();
    let mut client = Client::new();

    let hello = client.initialize().unwrap();
    let greeting = exchange(&mut server, &hello).expect("initialize is answered");
    assert_eq!(server.state, ServerState::Initializing);
    let confirmation = client.complete_initialize(&greeting).unwrap();
    assert_eq!(client.state, ClientState::Ready);
    assert_eq!(exchange(&mut server, &confirmation), None);
    assert_eq!(server.state, ServerState::Initialized);

    let list = JsonRpcRequest::new("tools/list", ToolsListParams { cursor: None }.to_value(), 2);
    let reply = exchange(&mut server, &client.send_request(&list).unwrap()).unwrap();
    let response: JsonRpcResponse<ToolsListResult> = client.read_response(&reply).unwrap();
    assert_eq!(response.id, 2);
    assert_eq!(response.error, None);
    let listing = response.result.unwrap();
    assert_eq!(listing.tools, vec![Upper.get_tool()]);
    assert_eq!(listing.next_cursor, None);

    let request = JsonRpcRequest {
        jsonrpc: "2.0".to_string(),
        method: "tools/call".to_string(),
        params: ToolsCallParams { name: "upper".to_string(), arguments: json(r#"{"text":"abc"}"#) },
        id: 3,
    };
    let reply = exchange(&mut server, &client.send_request(&request).unwrap()).unwrap();
    let response: JsonRpcResponse<Value> = client.read_response(&reply).unwrap();
    assert_eq!(response.id, 3);
    let result = ToolsCallResult::from_value(&response.result.unwrap()).unwrap();
    assert_eq!(result, success_content(vec![text_content("ABC".to_string())]));

    let add = JsonRpcRequest::new("add", json(r#"{"a":3,"b":4}"#), 4);
    let reply = exchange(&mut server, &client.send_request(&add).unwrap()).unwrap();
    assert_eq!(client.read_response(&reply), Ok(JsonRpcResponse::success(4, json("7"))));
    let add = JsonRpcRequest {
        jsonrpc: "2.0".to_string(),
        method: "add".to_string(),
        params: AddParams { a: -3, b: 4 },
        id: 5,
    };
    let reply = exchange(&mut server, &client.send_request(&add).unwrap()).unwrap();
    let sum: JsonRpcResponse<i64> = client.read_response(&reply).unwrap();
    assert_eq!(sum.result, Some(1));
    assert_eq!(sum.id, 5);
}
