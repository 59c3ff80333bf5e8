use mcp_core::frame::{decode_frame, write_frame, Frame, FramingError};
use mcp_core::jsonrpc::{decode_message, DecodeError, JsonRpcResponse};
use mcp_core::registry::RegistryError;
use mcp_core::server::{
    encode_response, reply_to_call, server_greeting, Outcome, Reaction, Server, ServerError,
    ServerState, INVALID_PARAMS, METHOD_NOT_FOUND, NOT_INITIALIZED, PROTOCOL_VERSION,
};
use mcp_core::types::{
    error_content, success_content, text_content, Tool, ToolContent, ToolImplementation,
    ToolsCallResult,
};
use serde_json::Value;

struct GreetTool;

impl ToolImplementation for GreetTool {
    fn get_tool(&self) -> Tool {
        Tool {
            name: "greet".to_string(),
            description: "Generate a greeting message for a given name".to_string(),
            input_schema: json(
                r#"{"type":"object","properties":{"name":{"type":"string","description":"The name to greet"}},"required":["name"]}"#,
            ),
        }
    }

    fn call(&self, arguments: Value) -> ToolsCallResult {
        match arguments.get("name").and_then(|v| v.as_str()) {
            Some(name) => success_content(vec![text_content(format!(
                "Hello, {}! Welcome to the MCP server.",
                name
            ))]),
            None => error_content("Missing required parameter 'name'".to_string()),
        }
    }
}

struct EchoTool;

impl ToolImplementation for EchoTool {
    fn get_tool(&self) -> Tool {
        Tool {
            name: "echo".to_string(),
            description: "Gives its arguments back".to_string(),
            input_schema: json(r#"{"type":"object"}"#),
        }
    }

    fn call(&self, arguments: Value) -> ToolsCallResult {
        success_content(vec![ToolContent { content_type: "json".to_string(), content: arguments }])
    }
}

type Tools = Box<dyn ToolImplementation>;

fn json(text: &str) -> Value {
    serde_json::from_str(text).unwrap()
}

fn server() -> Server<Tools> {
    let mut server: Server<Tools> = Server::new();
    assert_eq!(server.register_tool(Box::new(GreetTool)), Ok(()));
    assert_eq!(server.register_tool(Box::new(EchoTool)), Ok(()));
    server
}

fn initialize(version: &str, id: u64) -> String {
    format!(
        r#"{{"jsonrpc":"2.0","id":{},"method":"initialize","params":{{"protocolVersion":"{}","capabilities":{{"roots":{{"listChanged":true}}}},"clientInfo":{{"name":"c","version":"1"}}}}}}"#,
        id, version
    )
}

const INITIALIZED: &str = r#"{"jsonrpc":"2.0","method":"notifications/initialized"}"#;

/// The reply to `body`, as a JSON document; `None` where there is no reply.
fn reply(server: &mut Server<Tools>, body: &str) -> Option<Value> {
    let sent = server.handle_body(body.as_bytes()).unwrap();
    sent.map(|bytes| match decode_frame(&bytes) {
        Frame::Message { body, consumed } => {
            assert_eq!(consumed, bytes.len());
            serde_json::from_slice(&body).unwrap()
        }
        _ => panic!("the reply is not a frame"),
    })
}

fn ready() -> Server<Tools> {
    let mut s = server();
    assert!(reply(&mut s, &initialize(PROTOCOL_VERSION, 1)).is_some());
    assert!(reply(&mut s, INITIALIZED).is_none());
    assert_eq!(s.state, ServerState::Initialized);
    s
}

fn error_of(reply: &Value) -> (i64, String) {
    assert!(reply.get("result").is_none());
    let e = reply.get("error").expect("an error was expected");
    (e["code"].as_i64().unwrap(), e["message"].as_str().unwrap().to_string())
}

#[test]
fn a_new_server_is_uninitialized() {
    let s: Server<Tools> = Server::new();
    assert_eq!(s.state, ServerState::Uninitialized);
    assert_eq!(s.registry.len(), 0);
}

#[test]
fn error_codes_are_the_reserved_ones() {
    assert_eq!(NOT_INITIALIZED, -32002);
    assert_eq!(METHOD_NOT_FOUND, -32601);
    assert_eq!(INVALID_PARAMS, -32602);
    assert_eq!(PROTOCOL_VERSION, "2025-03-26");
}

#[test]
fn handshake_then_tool_call_ends_initialized_with_one_response_per_request() {
    let mut s = server();
    let first = reply(&mut s, &initialize("2025-03-26", 1)).expect("initialize is answered");
    assert_eq!(s.state, ServerState::Initializing);
    assert_eq!(first["id"], json("1"));
    assert_eq!(first["jsonrpc"], json("\"2.0\""));
    assert!(first.get("error").is_none());
    assert_eq!(first["result"]["protocolVersion"], json("\"2025-03-26\""));
    assert_eq!(first["result"]["serverInfo"], json(r#"{"name":"ExampleServer","version":"1.0.0"}"#));
    assert_eq!(
        first["result"]["capabilities"],
        json(
            r#"{"logging":{},"prompts":{"listChanged":true},"resources":{"subscribe":true,"listChanged":true},"tools":{"listChanged":true},"experimental":null}"#
        )
    );
    assert_eq!(
        first["result"]["instructions"],
        json("\"Welcome! Send 'add' requests after initialization.\"")
    );

    assert_eq!(reply(&mut s, INITIALIZED), None);
    assert_eq!(s.state, ServerState::Initialized);

    let second = reply(
        &mut s,
        r#"{"jsonrpc":"2.0","id":7,"method":"tools/call","params":{"name":"greet","arguments":{"name":"Ada"}}}"#,
    )
    .expect("the call is answered");
    assert_eq!(s.state, ServerState::Initialized);
    assert_eq!(
        second,
        json(
            r#"{"jsonrpc":"2.0","id":7,"result":{"content":[{"type":"text","text":"Hello, Ada! Welcome to the MCP server."}],"isError":false}}"#
        )
    );
}

#[test]
fn tool_call_before_initialize_is_refused_and_changes_nothing() {
    let mut s = server();
    let r = reply(
        &mut s,
        r#"{"jsonrpc":"2.0","id":3,"method":"tools/call","params":{"name":"greet","arguments":{}}}"#,
    )
    .unwrap();
    assert_eq!(r["id"], json("3"));
    assert_eq!(
        error_of(&r),
        (-32002, "Server not initialized. 'initialize' must be the first request.".to_string())
    );
    assert_eq!(s.state, ServerState::Uninitialized);
}

#[test]
fn notification_before_initialize_is_ignored() {
    let mut s = server();
    assert_eq!(reply(&mut s, INITIALIZED), None);
    assert_eq!(reply(&mut s, r#"{"method":"anything"}"#), None);
    assert_eq!(s.state, ServerState::Uninitialized);
}

#[test]
fn version_mismatch_is_refused_and_the_handshake_can_be_retried() {
    let mut s = server();
    let r = reply(&mut s, &initialize("2024-01-01", 4)).unwrap();
    assert_eq!(r["id"], json("4"));
    assert_eq!(error_of(&r), (-32602, "Unsupported protocol version".to_string()));
    assert_eq!(s.state, ServerState::Uninitialized);
    let r = reply(&mut s, &initialize("2025-03-26", 5)).unwrap();
    assert_eq!(r["id"], json("5"));
    assert!(r.get("result").is_some());
    assert_eq!(s.state, ServerState::Initializing);
}

#[test]
fn malformed_initialize_is_invalid_params() {
    let mut s = server();
    let r = reply(&mut s, r#"{"jsonrpc":"2.0","id":9,"method":"initialize","params":{"protocolVersion":"2025-03-26"}}"#)
        .unwrap();
    assert_eq!(error_of(&r), (-32602, "Invalid params".to_string()));
    assert_eq!(r["id"], json("9"));
    assert_eq!(s.state, ServerState::Uninitialized);
    // without an id there is nobody to answer
    assert_eq!(
        reply(&mut s, r#"{"jsonrpc":"2.0","method":"initialize","params":{"protocolVersion":"2025-03-26"}}"#),
        None
    );
    assert_eq!(s.state, ServerState::Uninitialized);
}

#[test]
fn requests_while_initializing_are_refused() {
    let mut s = server();
    reply(&mut s, &initialize(PROTOCOL_VERSION, 1)).unwrap();
    let r = reply(&mut s, r#"{"jsonrpc":"2.0","id":2,"method":"add","params":{"a":1,"b":2}}"#).unwrap();
    assert_eq!(r["id"], json("2"));
    assert_eq!(
        error_of(&r),
        (
            -32002,
            "Server is initializing. Received unexpected method 'add'. Waiting for 'notifications/initialized'."
                .to_string()
        )
    );
    assert_eq!(s.state, ServerState::Initializing);
    let r = reply(&mut s, &initialize(PROTOCOL_VERSION, 3)).unwrap();
    assert_eq!(error_of(&r).0, -32002);
    assert_eq!(reply(&mut s, r#"{"method":"notifications/other"}"#), None);
    assert_eq!(s.state, ServerState::Initializing);
}

#[test]
fn add_after_handshake_returns_the_sum() {
    let mut s = ready();
    let r = reply(&mut s, r#"{"jsonrpc":"2.0","method":"add","params":{"a":3,"b":4},"id":2}"#).unwrap();
    assert_eq!(r, json(r#"{"jsonrpc":"2.0","result":7,"id":2}"#));
    let r = reply(&mut s, r#"{"jsonrpc":"2.0","method":"add","params":{"a":-9223372036854775808,"b":9223372036854775807},"id":3}"#)
        .unwrap();
    assert_eq!(r["result"], json("-1"));
}

#[test]
fn add_out_of_range_is_invalid_params() {
    let mut s = ready();
    let r = reply(&mut s, r#"{"jsonrpc":"2.0","method":"add","params":{"a":9223372036854775807,"b":1},"id":2}"#)
        .unwrap();
    assert_eq!(error_of(&r), (-32602, "Sum out of range".to_string()));
    let r = reply(&mut s, r#"{"jsonrpc":"2.0","method":"add","params":{"a":-9223372036854775808,"b":-1},"id":3}"#)
        .unwrap();
    assert_eq!(error_of(&r), (-32602, "Sum out of range".to_string()));
    let r = reply(&mut s, r#"{"jsonrpc":"2.0","method":"add","params":{"a":"3","b":4},"id":4}"#).unwrap();
    assert_eq!(error_of(&r), (-32602, "Invalid params".to_string()));
    let r = reply(&mut s, r#"{"jsonrpc":"2.0","method":"add","params":{"a":1.5,"b":4},"id":5}"#).unwrap();
    assert_eq!(error_of(&r), (-32602, "Invalid params".to_string()));
    assert_eq!(s.state, ServerState::Initialized);
}

#[test]
fn unknown_method_is_method_not_found() {
    let mut s = ready();
    let r = reply(&mut s, r#"{"jsonrpc":"2.0","method":"subtract","params":{},"id":11}"#).unwrap();
    assert_eq!(r["id"], json("11"));
    assert_eq!(error_of(&r), (-32601, "Method not found: 'subtract'".to_string()));
    let r = reply(&mut s, &initialize(PROTOCOL_VERSION, 12)).unwrap();
    assert_eq!(error_of(&r), (-32601, "Method not found: 'initialize'".to_string()));
    assert_eq!(reply(&mut s, r#"{"jsonrpc":"2.0","method":"subtract"}"#), None);
    assert_eq!(reply(&mut s, INITIALIZED), None);
    assert_eq!(s.state, ServerState::Initialized);
}

#[test]
fn unregistered_tool_gives_an_error_flagged_result() {
    let mut s = ready();
    let r = reply(
        &mut s,
        r#"{"jsonrpc":"2.0","id":5,"method":"tools/call","params":{"name":"nope","arguments":{}}}"#,
    )
    .unwrap();
    assert_eq!(
        r,
        json(
            r#"{"jsonrpc":"2.0","id":5,"result":{"content":[{"type":"text","text":"Tool not found: 'nope'"}],"isError":true}}"#
        )
    );
}

#[test]
fn a_failing_tool_gives_an_error_flagged_result() {
    let mut s = ready();
    let r = reply(
        &mut s,
        r#"{"jsonrpc":"2.0","id":6,"method":"tools/call","params":{"name":"greet","arguments":{"who":"Ada"}}}"#,
    )
    .unwrap();
    assert_eq!(
        r["result"],
        json(r#"{"content":[{"type":"text","text":"Missing required parameter 'name'"}],"isError":true}"#)
    );
    assert!(r.get("error").is_none());
}

#[test]
fn tool_output_that_cannot_be_encoded_is_reported_in_the_result() {
    let mut s = ready();
    let r = reply(
        &mut s,
        r#"{"jsonrpc":"2.0","id":6,"method":"tools/call","params":{"name":"echo","arguments":[1,2]}}"#,
    )
    .unwrap();
    assert_eq!(
        r["result"],
        json(
            r#"{"content":[{"type":"text","text":"Tool returned content that cannot be encoded"}],"isError":true}"#
        )
    );
    let r = reply(
        &mut s,
        r#"{"jsonrpc":"2.0","id":7,"method":"tools/call","params":{"name":"echo","arguments":{"k":[1,2.5,null]}}}"#,
    )
    .unwrap();
    assert_eq!(r["result"], json(r#"{"content":[{"type":"json","k":[1,2.5,null]}],"isError":false}"#));
}

#[test]
fn malformed_tool_call_is_invalid_params() {
    let mut s = ready();
    let r = reply(&mut s, r#"{"jsonrpc":"2.0","id":6,"method":"tools/call","params":{"name":"greet"}}"#).unwrap();
    assert_eq!(error_of(&r), (-32602, "Invalid params".to_string()));
    let r = reply(&mut s, r#"{"jsonrpc":"2.0","id":6,"method":"tools/call","params":{"name":5,"arguments":{}}}"#)
        .unwrap();
    assert_eq!(error_of(&r), (-32602, "Invalid params".to_string()));
    let r = reply(&mut s, r#"{"id":6,"method":"tools/call","params":{"name":"greet","arguments":{}}}"#).unwrap();
    assert_eq!(error_of(&r), (-32602, "Invalid params".to_string()));
}

#[test]
fn tools_list_is_the_same_every_time() {
    let mut s = ready();
    let one = reply(&mut s, r#"{"jsonrpc":"2.0","id":1,"method":"tools/list","params":{}}"#).unwrap();
    let two = reply(&mut s, r#"{"jsonrpc":"2.0","id":2,"method":"tools/list","params":{"cursor":"x"}}"#).unwrap();
    assert_eq!(one["result"], two["result"]);
    assert_eq!(one["id"], json("1"));
    assert_eq!(two["id"], json("2"));
    let tools = one["result"]["tools"].as_array().unwrap();
    assert_eq!(tools.len(), 2);
    assert_eq!(tools[0]["name"], json("\"greet\""));
    assert_eq!(tools[0]["description"], json("\"Generate a greeting message for a given name\""));
    assert_eq!(tools[0]["inputSchema"]["required"], json(r#"["name"]"#));
    assert_eq!(tools[1]["name"], json("\"echo\""));
    assert_eq!(one["result"]["nextCursor"], Value::Null);
    assert_eq!(s.state, ServerState::Initialized);
}

#[test]
fn tools_list_with_a_bad_cursor_is_invalid_params() {
    let mut s = ready();
    let r = reply(&mut s, r#"{"jsonrpc":"2.0","id":1,"method":"tools/list","params":{"cursor":5}}"#).unwrap();
    assert_eq!(error_of(&r), (-32602, "Invalid params".to_string()));
    let r = reply(&mut s, r#"{"jsonrpc":"2.0","id":1,"method":"tools/list"}"#).unwrap();
    assert_eq!(error_of(&r), (-32602, "Invalid params".to_string()));
}

#[test]
fn duplicate_tool_names_are_refused_at_registration() {
    let mut s = server();
    assert_eq!(s.register_tool(Box::new(GreetTool)), Err(RegistryError::DuplicateName));
    assert_eq!(s.registry.len(), 2);
    assert_eq!(s.registry.find("greet"), Some(0));
    assert_eq!(s.registry.find("echo"), Some(1));
    assert_eq!(s.registry.find("Greet"), None);
    assert_eq!(s.registry.definition(1).name, "echo");
    let names: Vec<String> = s.registry.definitions().into_iter().map(|t| t.name).collect();
    assert_eq!(names, vec!["greet".to_string(), "echo".to_string()]);
}

#[test]
fn a_body_that_is_not_json_ends_the_session() {
    let mut s = ready();
    assert_eq!(s.handle_body(b"{not json"), Err(ServerError::Decode(DecodeError::InvalidJson)));
    assert_eq!(s.handle_body(b""), Err(ServerError::Decode(DecodeError::InvalidJson)));
    assert_eq!(s.state, ServerState::Initialized);
}

#[test]
fn a_message_without_method_and_id_is_ignored() {
    for state in [ServerState::Uninitialized, ServerState::Initializing, ServerState::Initialized] {
        let mut s = server();
        s.state = state;
        for body in [r#"{"jsonrpc":"2.0"}"#, "{}", "[1,2]", "null", r#"{"method":5}"#, r#"{"id":"x"}"#, r#"{"id":-1}"#] {
            assert_eq!(s.handle_body(body.as_bytes()), Ok(None), "{}", body);
            assert_eq!(s.state, state);
        }
    }
}

#[test]
fn a_message_with_an_id_and_no_method_ends_the_session() {
    let mut s = server();
    assert_eq!(
        s.handle_body(br#"{"jsonrpc":"2.0","id":1}"#),
        Err(ServerError::Decode(DecodeError::MissingMethod))
    );
    assert_eq!(s.handle_body(br#"{"method":5,"id":1}"#), Err(ServerError::Decode(DecodeError::MissingMethod)));
    assert_eq!(s.state, ServerState::Uninitialized);
}

#[test]
fn an_id_that_is_not_an_unsigned_number_makes_a_notification() {
    let msg = decode_message(br#"{"method":"add","id":"seven"}"#).unwrap();
    assert_eq!(msg.method, "add");
    assert_eq!(msg.id, None);
    let msg = decode_message(br#"{"method":"add","id":-1}"#).unwrap();
    assert_eq!(msg.id, None);
    let msg = decode_message(br#"{"method":"add","id":18446744073709551615}"#).unwrap();
    assert_eq!(msg.id, Some(u64::MAX));
}

#[test]
fn decide_leaves_the_server_as_it_is() {
    let s = server();
    let msg = decode_message(initialize(PROTOCOL_VERSION, 1).as_bytes()).unwrap();
    let (next, reaction) = s.decide(&msg);
    assert_eq!(next, ServerState::Initializing);
    assert_eq!(s.state, ServerState::Uninitialized);
    match reaction {
        Reaction::Respond(r) => {
            assert_eq!(r.id, 1);
            assert_eq!(r.error, None);
            assert_eq!(r.result, Some(server_greeting().to_value()));
        }
        _ => panic!("a response was expected"),
    }
}

#[test]
fn decide_names_the_tool_to_call() {
    let s = ready();
    let msg = decode_message(
        br#"{"jsonrpc":"2.0","id":8,"method":"tools/call","params":{"name":"echo","arguments":{"x":1}}}"#,
    )
    .unwrap();
    match s.decide(&msg).1 {
        Reaction::Call { id, index, arguments } => {
            assert_eq!(id, 8);
            assert_eq!(index, 1);
            assert_eq!(arguments, json(r#"{"x":1}"#));
        }
        _ => panic!("a call was expected"),
    }
}

#[test]
fn reply_to_call_wraps_the_result() {
    let r = reply_to_call(3, &error_content("boom".to_string()));
    assert_eq!(r.id, 3);
    assert_eq!(r.jsonrpc, "2.0");
    assert_eq!(r.error, None);
    assert_eq!(r.result, Some(json(r#"{"content":[{"type":"text","text":"boom"}],"isError":true}"#)));
}

#[test]
fn responses_are_written_as_frames() {
    let response = JsonRpcResponse::success(2, json("7"));
    let bytes = encode_response(&response);
    assert_eq!(bytes, b"Content-Length: 35\r\n\r\n{\"id\":2,\"jsonrpc\":\"2.0\",\"result\":7}".to_vec());
    let s = server();
    assert_eq!(s.send_response(&response), Ok(bytes.clone()));
    let typed = JsonRpcResponse { jsonrpc: "2.0".to_string(), result: Some(7i64), error: None, id: 2 };
    assert_eq!(s.send_response(&typed), Ok(bytes));
}

#[test]
fn handle_message_reads_one_frame() {
    let mut s = server();
    let mut input = write_frame(initialize(PROTOCOL_VERSION, 1).as_bytes());
    let first = input.len();
    input.extend_from_slice(&write_frame(INITIALIZED.as_bytes()));
    match s.handle_message(&input) {
        Outcome::Continue { consumed, reply } => {
            assert_eq!(consumed, first);
            assert!(reply.is_some());
        }
        _ => panic!("the session should go on"),
    }
    match s.handle_message(&input[first..]) {
        Outcome::Continue { consumed, reply } => {
            assert_eq!(consumed, input.len() - first);
            assert_eq!(reply, None);
        }
        _ => panic!("the session should go on"),
    }
    assert!(matches!(s.handle_message(b""), Outcome::EndOfStream));
    assert!(matches!(
        s.handle_message(b"Content-Length: 10\r\n\r\n{}"),
        Outcome::Fatal(ServerError::Framing(FramingError::Truncated))
    ));
    assert_eq!(
        s.handle_message(b"Content-Length: 2\r\n\r\n{}"),
        Outcome::Continue { consumed: 23, reply: None }
    );
    assert!(matches!(
        s.handle_message(b"Content-Length: 8\r\n\r\n{\"id\":1}"),
        Outcome::Fatal(ServerError::Decode(DecodeError::MissingMethod))
    ));
    assert_eq!(s.state, ServerState::Initialized);
}

fn frames(mut stream: &[u8]) -> Vec<Value> {
    let mut out = Vec::new();
    loop {
        match decode_frame(stream) {
            Frame::Message { body, consumed } => {
                out.push(serde_json::from_slice(&body).unwrap());
                stream = &stream[consumed..];
            }
            Frame::EndOfStream => return out,
            Frame::Failed(e) => panic!("bad output: {:?}", e),
        }
    }
}

#[test]
fn end_to_end_add_after_handshake() {
    let mut s = server();
    let mut input = Vec::new();
    input.extend_from_slice(&write_frame(initialize(PROTOCOL_VERSION, 1).as_bytes()));
    input.extend_from_slice(&write_frame(INITIALIZED.as_bytes()));
    input.extend_from_slice(&write_frame(br#"{"jsonrpc":"2.0","method":"add","params":{"a":3,"b":4},"id":2}"#));
    let mut output = Vec::new();
    assert_eq!(s.run(&input, &mut output), Ok(()));
    assert_eq!(s.state, ServerState::Initialized);
    let sent = frames(&output);
    assert_eq!(sent.len(), 2);
    assert_eq!(sent[0]["id"], json("1"));
    assert_eq!(sent[1], json(r#"{"jsonrpc":"2.0","result":7,"id":2}"#));
}

#[test]
fn run_stops_at_the_first_fatal_error_and_keeps_what_was_sent() {
    let mut s = server();
    let mut input = Vec::new();
    input.extend_from_slice(&write_frame(br#"{"jsonrpc":"2.0","method":"add","params":{"a":3,"b":4},"id":2}"#));
    input.extend_from_slice(&write_frame(b"oops"));
    input.extend_from_slice(&write_frame(initialize(PROTOCOL_VERSION, 1).as_bytes()));
    let mut output = b"kept".to_vec();
    assert_eq!(s.run(&input, &mut output), Err(ServerError::Decode(DecodeError::InvalidJson)));
    assert_eq!(s.state, ServerState::Uninitialized);
    assert!(output.starts_with(b"kept"));
    let sent = frames(&output[4..]);
    assert_eq!(sent.len(), 1);
    assert_eq!(sent[0]["error"]["code"], json("-32002"));

    let mut output = Vec::new();
    assert_eq!(
        s.run(b"Content-Length: 5\r\n\r\n{}", &mut output),
        Err(ServerError::Framing(FramingError::Truncated))
    );
    assert!(output.is_empty());
    assert_eq!(s.run(b"", &mut output), Ok(()));
}

fn stream(bodies: &[&str]) -> Vec<u8> {
    let mut input = Vec::new();
    for body in bodies {
        input.extend_from_slice(&write_frame(body.as_bytes()));
    }
    input
}

#[test]
fn run_ignores_a_message_without_method_and_id_and_goes_on() {
    let mut s = server();
    let input = stream(&[r#"{"jsonrpc":"2.0"}"#, r#"{"jsonrpc":"2.0","method":"x","id":3}"#]);
    let mut output = Vec::new();
    assert_eq!(s.run(&input, &mut output), Ok(()));
    let sent = frames(&output);
    assert_eq!(sent.len(), 1);
    assert_eq!(sent[0]["error"]["code"], json("-32002"));
    assert_eq!(sent[0]["id"], json("3"));
    assert_eq!(s.state, ServerState::Uninitialized);
}

#[test]
fn run_answers_requests_around_the_handshake() {
    let mut s = server();
    let input = stream(&[
        &initialize(PROTOCOL_VERSION, 1),
        r#"{"jsonrpc":"2.0","method":"ping","id":2}"#,
        INITIALIZED,
        r#"{"jsonrpc":"2.0","method":"ping","id":3}"#,
    ]);
    let mut output = Vec::new();
    assert_eq!(s.run(&input, &mut output), Ok(()));
    assert_eq!(s.state, ServerState::Initialized);
    let sent = frames(&output);
    assert_eq!(sent.len(), 3);
    assert_eq!(sent[0]["id"], json("1"));
    assert!(sent[0].get("result").is_some());
    assert_eq!(sent[1]["id"], json("2"));
    assert_eq!(sent[1]["error"]["code"], json("-32002"));
    assert_eq!(sent[2]["id"], json("3"));
    assert_eq!(sent[2]["error"]["code"], json("-32601"));
}

#[test]
fn run_reads_a_header_in_lower_case() {
    let mut s = server();
    let body = initialize(PROTOCOL_VERSION, 1);
    let input = format!("content-length: {}\r\n\r\n{}", body.len(), body);
    let mut output = Vec::new();
    assert_eq!(s.run(input.as_bytes(), &mut output), Ok(()));
    assert_eq!(s.state, ServerState::Initializing);
    let sent = frames(&output);
    assert_eq!(sent.len(), 1);
    assert_eq!(sent[0]["result"]["protocolVersion"], json("\"2025-03-26\""));
}

#[test]
fn run_refuses_a_tool_call_and_then_takes_initialize() {
    let mut s = server();
    let input = stream(&[
        r#"{"jsonrpc":"2.0","method":"tools/call","params":{"name":"greet","arguments":{}},"id":5}"#,
        &initialize(PROTOCOL_VERSION, 6),
    ]);
    let mut output = Vec::new();
    assert_eq!(s.run(&input, &mut output), Ok(()));
    assert_eq!(s.state, ServerState::Initializing);
    let sent = frames(&output);
    assert_eq!(sent.len(), 2);
    assert_eq!(sent[0]["id"], json("5"));
    assert_eq!(sent[0]["error"]["code"], json("-32002"));
    assert!(sent[0].get("result").is_none());
    assert_eq!(sent[1]["id"], json("6"));
    assert!(sent[1].get("error").is_none());
}

#[test]
fn run_answers_initialize_with_empty_params_with_invalid_params() {
    let mut s = server();
    let input = stream(&[r#"{"jsonrpc":"2.0","method":"initialize","params":{},"id":1}"#]);
    let mut output = Vec::new();
    assert_eq!(s.run(&input, &mut output), Ok(()));
    assert_eq!(s.state, ServerState::Uninitialized);
    let sent = frames(&output);
    assert_eq!(sent.len(), 1);
    assert_eq!(sent[0]["id"], json("1"));
    assert_eq!(sent[0]["error"]["code"], json("-32602"));
}

#[test]
fn run_sends_one_response_per_request_in_order() {
    let mut s = ready();
    let input = stream(&[
        r#"{"jsonrpc":"2.0","method":"add","params":{"a":1,"b":2},"id":10}"#,
        r#"{"jsonrpc":"2.0","method":"notifications/progress"}"#,
        r#"{"jsonrpc":"2.0","method":"tools/list","params":{},"id":11}"#,
        r#"{"jsonrpc":"2.0","method":"tools/call","params":{"name":"greet","arguments":{"name":"Ada"}},"id":12}"#,
        r#"{"jsonrpc":"2.0","method":"nope","params":{},"id":13}"#,
    ]);
    let mut output = Vec::new();
    assert_eq!(s.run(&input, &mut output), Ok(()));
    let sent = frames(&output);
    let ids: Vec<u64> = sent.iter().map(|r| r["id"].as_u64().unwrap()).collect();
    assert_eq!(ids, vec![10, 11, 12, 13]);
    for r in &sent {
        assert_eq!(r["jsonrpc"], json("\"2.0\""));
        assert!(r.get("result").is_some() != r.get("error").is_some());
    }
    assert_eq!(sent[0]["result"], json("3"));
    assert_eq!(
        sent[2]["result"]["content"],
        json(r#"[{"type":"text","text":"Hello, Ada! Welcome to the MCP server."}]"#)
    );
    assert_eq!(sent[2]["result"]["isError"], json("false"));
}

#[test]
fn send_response_counts_the_bytes_of_the_text() {
    let s = server();
    let response = JsonRpcResponse { jsonrpc: "2.0".to_string(), result: Some("\u{e9}".to_string()), error: None, id: 1 };
    let frame = s.send_response(&response).unwrap();
    let body = "{\"id\":1,\"jsonrpc\":\"2.0\",\"result\":\"\u{e9}\"}";
    assert_eq!(body.chars().count(), 37);
    assert_eq!(frame, format!("Content-Length: 38\r\n\r\n{}", body).into_bytes());
}
