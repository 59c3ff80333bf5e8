//! The server's side of a session: the handshake state machine, which
//! decides what each message is answered with, and the handling of messages
//! and of whole streams around it.

use vstd::prelude::*;
use crate::frame::{
    append, decode_frame, framed, read_frame, write_frame, Frame, FrameV, FramingError,
};
use crate::handshake::{
    InitializeParams, InitializeParamsV, InitializeResult, InitializeResultV, ServerCapabilities,
    ServerCapabilitiesV, ServerInfo, ServerInfoV, ServerLoggingCapabilities,
    ServerPromptsCapabilities, ServerResourcesCapabilities, ServerToolsCapabilities,
};
use crate::json::{
    get_u64, json_parse, json_text, parse_value, to_text, value_i64, value_model, JsonV,
};
use crate::jsonrpc::{
    decode_generic, DecodeError, Incoming, IncomingV, JsonRpcError, JsonRpcRequest,
    JsonRpcResponse, RequestV, ResponseV,
};
use crate::payload::{response_wire, Payload};
use crate::registry::{has_name, position_of, RegistryError, ToolRegistry};
use crate::text::{between, same_text};
use crate::types::{
    error_content, AddParams, ToolImplementation, ToolV, ToolsCallParams, ToolsCallParamsV,
    ToolsCallResult, ToolsCallResultV, ToolsListParams, ToolsListParamsV, ToolsListResult,
    ToolsListResultV,
};

verus! {

/// The one protocol version that the server speaks.
pub const PROTOCOL_VERSION: &'static str = "2025-03-26";

/// The error code of a request that comes before the handshake is complete.
pub const NOT_INITIALIZED: i64 = -32002;

/// The error code of a request for a method that the server does not have.
pub const METHOD_NOT_FOUND: i64 = -32601;

/// The error code of a request whose parameters cannot be used.
pub const INVALID_PARAMS: i64 = -32602;

/// How far the handshake of a session has come.
#[derive(Clone, Copy, Debug, PartialEq, Eq, Structural)]
pub enum ServerState {
    /// Nothing has been received.
    Uninitialized,
    /// `initialize` has been answered; the client's confirmation is awaited.
    Initializing,
    /// The handshake is complete.
    Initialized,
}

impl ServerState {
    /// How far the state is from the start: states only ever move forward.
    pub open spec fn rank(self) -> nat {
        match self {
            ServerState::Uninitialized => 0,
            ServerState::Initializing => 1,
            ServerState::Initialized => 2,
        }
    }
}

/// What the server does about a message.
#[derive(Clone, Debug, PartialEq)]
pub enum Reaction {
    /// Nothing.
    Ignore,
    /// It sends this response.
    Respond(JsonRpcResponse<serde_json::Value>),
    /// It runs the tool registered at `index` on `arguments`, and sends what
    /// the tool returns as the result for the request `id`.
    Call { id: u64, index: usize, arguments: serde_json::Value },
}

/// What the server does about a message, as a mathematical value.
pub ghost enum ReactionV {
    Ignore,
    Respond(ResponseV),
    Call { id: u64, index: nat, arguments: JsonV },
}

impl View for Reaction {
    type V = ReactionV;

    open spec fn view(&self) -> ReactionV {
        match self {
            Reaction::Ignore => ReactionV::Ignore,
            Reaction::Respond(r) => ReactionV::Respond(r@),
            Reaction::Call { id, index, arguments } => ReactionV::Call {
                id: *id,
                index: *index as nat,
                arguments: value_model(*arguments),
            },
        }
    }
}

/// Whether `response` is the reply to the call with the id `id` of the tool
/// registered at `index`, for a result that the tool may return for
/// `arguments`.
pub open spec fn call_answered_by<T: ToolImplementation>(
    registry: ToolRegistry<T>,
    id: u64,
    index: nat,
    arguments: JsonV,
    response: ResponseV,
) -> bool {
    exists|result: ToolsCallResultV|
        #[trigger] registry.implementation(index as int).may_return(arguments, result)
            && response == call_reply(id, result)
}

impl ReactionV {
    /// An error is sent in answer to a request; a notification that cannot be
    /// served is ignored.
    pub open spec fn error(id: Option<u64>, code: i64, message: Seq<char>) -> ReactionV {
        match id {
            Some(id) => ReactionV::Respond(ResponseV::failure(id, code, message)),
            None => ReactionV::Ignore,
        }
    }

    /// The reaction to a message that does not have the shape that its method
    /// asks for.
    pub open spec fn invalid_params(id: Option<u64>) -> ReactionV {
        ReactionV::error(id, INVALID_PARAMS, "Invalid params"@)
    }

    /// Whether `response` is what is sent by this reaction: the response that
    /// it names, or the reply to the call for a result that the tool
    /// registered at that index may return for the arguments of the call.
    pub open spec fn answered_by<T: ToolImplementation>(
        self,
        registry: ToolRegistry<T>,
        response: ResponseV,
    ) -> bool {
        match self {
            ReactionV::Ignore => false,
            ReactionV::Respond(r) => response == r,
            ReactionV::Call { id, index, arguments } => call_answered_by(
                registry,
                id,
                index,
                arguments,
                response,
            ),
        }
    }
}

/// What the server declares in answer to `initialize`.
pub open spec fn greeting() -> InitializeResultV {
    InitializeResultV {
        protocol_version: PROTOCOL_VERSION@,
        capabilities: ServerCapabilitiesV {
            logging: Some(ServerLoggingCapabilities {  }),
            prompts: Some(ServerPromptsCapabilities { list_changed: Some(true) }),
            resources: Some(
                ServerResourcesCapabilities { subscribe: Some(true), list_changed: Some(true) },
            ),
            tools: Some(ServerToolsCapabilities { list_changed: Some(true) }),
            experimental: None,
        },
        server_info: ServerInfoV { name: "ExampleServer"@, version: "1.0.0"@ },
        instructions: Some("Welcome! Send 'add' requests after initialization."@),
    }
}

/// The reply to a tool call: the tool's result, as it is reported, is the
/// result of the request.
pub open spec fn call_reply(id: u64, result: ToolsCallResultV) -> ResponseV {
    ResponseV::success(id, result.reported().render())
}

/// `initialize` before the handshake: the version must be the server's own.
pub open spec fn on_initialize(msg: IncomingV) -> (ServerState, ReactionV) {
    match RequestV::parse(msg.raw) {
        Some(request) => match InitializeParamsV::parse(request.params) {
            Some(params) => if params.protocol_version == PROTOCOL_VERSION@ {
                (
                    ServerState::Initializing,
                    ReactionV::Respond(ResponseV::success(request.id, greeting().render())),
                )
            } else {
                (
                    ServerState::Uninitialized,
                    ReactionV::Respond(
                        ResponseV::failure(
                            request.id,
                            INVALID_PARAMS,
                            "Unsupported protocol version"@,
                        ),
                    ),
                )
            },
            None => (ServerState::Uninitialized, ReactionV::invalid_params(msg.id)),
        },
        None => (ServerState::Uninitialized, ReactionV::invalid_params(msg.id)),
    }
}

/// `add` after the handshake: the sum of the two numbers, where it fits.
pub open spec fn on_add(msg: IncomingV) -> ReactionV {
    match RequestV::parse(msg.raw) {
        Some(request) => match AddParams::parse(request.params) {
            Some(params) => if i64::MIN <= params.a + params.b <= i64::MAX {
                ReactionV::Respond(
                    ResponseV::success(request.id, JsonV::Int(params.a + params.b)),
                )
            } else {
                ReactionV::Respond(
                    ResponseV::failure(request.id, INVALID_PARAMS, "Sum out of range"@),
                )
            },
            None => ReactionV::invalid_params(msg.id),
        },
        None => ReactionV::invalid_params(msg.id),
    }
}

/// `tools/list` after the handshake: all definitions, in the order of
/// registration, on one page.
pub open spec fn on_tools_list(tools: Seq<ToolV>, msg: IncomingV) -> ReactionV {
    match RequestV::parse(msg.raw) {
        Some(request) => match ToolsListParamsV::parse(request.params) {
            Some(_) => ReactionV::Respond(
                ResponseV::success(
                    request.id,
                    (ToolsListResultV { tools, next_cursor: None }).render(),
                ),
            ),
            None => ReactionV::invalid_params(msg.id),
        },
        None => ReactionV::invalid_params(msg.id),
    }
}

/// The text that reports a call of a tool that is not registered.
pub open spec fn tool_not_found(name: Seq<char>) -> Seq<char> {
    "Tool not found: '"@ + name + "'"@
}

/// `tools/call` after the handshake: the call of the tool of that name; where
/// there is none, a result that says so, with its error flag set.
pub open spec fn on_tools_call(tools: Seq<ToolV>, msg: IncomingV) -> ReactionV {
    match RequestV::parse(msg.raw) {
        Some(request) => match ToolsCallParamsV::parse(request.params) {
            Some(params) => if has_name(tools, params.name) {
                ReactionV::Call {
                    id: request.id,
                    index: position_of(tools, params.name),
                    arguments: params.arguments,
                }
            } else {
                ReactionV::Respond(
                    ResponseV::success(
                        request.id,
                        ToolsCallResultV::failure(tool_not_found(params.name)).render(),
                    ),
                )
            },
            None => ReactionV::invalid_params(msg.id),
        },
        None => ReactionV::invalid_params(msg.id),
    }
}

/// The text of the error for a request that comes while the client's
/// confirmation is awaited.
pub open spec fn still_initializing(method: Seq<char>) -> Seq<char> {
    "Server is initializing. Received unexpected method '"@ + method
        + "'. Waiting for 'notifications/initialized'."@
}

/// The text of the error for a method that the server does not have.
pub open spec fn method_not_found(method: Seq<char>) -> Seq<char> {
    "Method not found: '"@ + method + "'"@
}

/// The handshake state machine: the state after a message, and what the
/// server does about the message.
pub open spec fn step(state: ServerState, tools: Seq<ToolV>, msg: IncomingV) -> (
    ServerState,
    ReactionV,
) {
    match state {
        ServerState::Uninitialized => if msg.method == "initialize"@ {
            on_initialize(msg)
        } else {
            (
                state,
                ReactionV::error(
                    msg.id,
                    NOT_INITIALIZED,
                    "Server not initialized. 'initialize' must be the first request."@,
                ),
            )
        },
        ServerState::Initializing => if msg.method == "notifications/initialized"@ {
            (ServerState::Initialized, ReactionV::Ignore)
        } else {
            (state, ReactionV::error(msg.id, NOT_INITIALIZED, still_initializing(msg.method)))
        },
        ServerState::Initialized => (
            state,
            if msg.method == "add"@ {
                on_add(msg)
            } else if msg.method == "tools/list"@ {
                on_tools_list(tools, msg)
            } else if msg.method == "tools/call"@ {
                on_tools_call(tools, msg)
            } else {
                ReactionV::error(msg.id, METHOD_NOT_FOUND, method_not_found(msg.method))
            },
        ),
    }
}

impl Reaction {
    /// An error in answer to a request; nothing in answer to a notification.
    pub fn error(id: Option<u64>, code: i64, message: String) -> (r: Reaction)
        ensures
            r@ == ReactionV::error(id, code, message@),
    {
        match id {
            Some(id) => Reaction::Respond(
                JsonRpcResponse::failure(id, JsonRpcError::new(code, message)),
            ),
            None => Reaction::Ignore,
        }
    }

    /// The reaction to a message that does not have the shape that its method
    /// asks for.
    pub fn invalid_params(id: Option<u64>) -> (r: Reaction)
        ensures
            r@ == ReactionV::invalid_params(id),
    {
        Reaction::error(id, INVALID_PARAMS, "Invalid params".to_owned())
    }
}

/// What the server declares in answer to `initialize`.
pub fn server_greeting() -> (r: InitializeResult)
    ensures
        r@ == greeting(),
{
    InitializeResult {
        protocol_version: PROTOCOL_VERSION.to_owned(),
        capabilities: ServerCapabilities {
            logging: Some(ServerLoggingCapabilities {  }),
            prompts: Some(ServerPromptsCapabilities { list_changed: Some(true) }),
            resources: Some(
                ServerResourcesCapabilities { subscribe: Some(true), list_changed: Some(true) },
            ),
            tools: Some(ServerToolsCapabilities { list_changed: Some(true) }),
            experimental: None,
        },
        server_info: ServerInfo { name: "ExampleServer".to_owned(), version: "1.0.0".to_owned() },
        instructions: Some("Welcome! Send 'add' requests after initialization.".to_owned()),
    }
}

/// The reaction to `initialize` before the handshake.
pub fn react_to_initialize(msg: &Incoming) -> (r: (ServerState, Reaction))
    ensures
        (r.0, r.1@) == on_initialize(msg@),
{
    let request = match JsonRpcRequest::from_value(&msg.raw) {
        Ok(request) => request,
        Err(_) => {
            return (ServerState::Uninitialized, Reaction::invalid_params(msg.id));
        },
    };
    let params = match InitializeParams::from_value(&request.params) {
        Ok(params) => params,
        Err(_) => {
            return (ServerState::Uninitialized, Reaction::invalid_params(msg.id));
        },
    };
    if same_text(params.protocol_version.as_str(), PROTOCOL_VERSION) {
        (
            ServerState::Initializing,
            Reaction::Respond(JsonRpcResponse::success(request.id, server_greeting().to_value())),
        )
    } else {
        (
            ServerState::Uninitialized,
            Reaction::Respond(
                JsonRpcResponse::failure(
                    request.id,
                    JsonRpcError::new(INVALID_PARAMS, "Unsupported protocol version".to_owned()),
                ),
            ),
        )
    }
}

/// The reaction to `add` after the handshake.
pub fn react_to_add(msg: &Incoming) -> (r: Reaction)
    ensures
        r@ == on_add(msg@),
{
    let request = match JsonRpcRequest::from_value(&msg.raw) {
        Ok(request) => request,
        Err(_) => {
            return Reaction::invalid_params(msg.id);
        },
    };
    let params = match AddParams::from_value(&request.params) {
        Ok(params) => params,
        Err(_) => {
            return Reaction::invalid_params(msg.id);
        },
    };
    let a = params.a;
    let b = params.b;
    if (b > 0 && a > i64::MAX - b) || (b < 0 && a < i64::MIN - b) {
        Reaction::Respond(
            JsonRpcResponse::failure(
                request.id,
                JsonRpcError::new(INVALID_PARAMS, "Sum out of range".to_owned()),
            ),
        )
    } else {
        Reaction::Respond(JsonRpcResponse::success(request.id, value_i64(a + b)))
    }
}

/// The response that carries a tool's result for the request `id`.
pub fn reply_to_call(id: u64, result: &ToolsCallResult) -> (r: JsonRpcResponse<serde_json::Value>)
    ensures
        r@ == call_reply(id, result@),
{
    JsonRpcResponse::success(id, result.to_reported_value())
}

/// A server: the state of the handshake, and the tools.
pub struct Server<T> {
    pub state: ServerState,
    pub registry: ToolRegistry<T>,
}

impl<T> Server<T> {
    /// A server before the handshake, without tools.
    pub fn new() -> (r: Server<T>)
        ensures
            r.state == ServerState::Uninitialized,
            r.registry@ == Seq::<ToolV>::empty(),
    {
        Server { state: ServerState::Uninitialized, registry: ToolRegistry::new() }
    }

    /// The reaction to `tools/list` after the handshake.
    pub fn react_to_tools_list(&self, msg: &Incoming) -> (r: Reaction)
        ensures
            r@ == on_tools_list(self.registry@, msg@),
    {
        let request = match JsonRpcRequest::from_value(&msg.raw) {
            Ok(request) => request,
            Err(_) => {
                return Reaction::invalid_params(msg.id);
            },
        };
        match ToolsListParams::from_value(&request.params) {
            Ok(_) => {
                let listing = ToolsListResult {
                    tools: self.registry.definitions(),
                    next_cursor: None,
                };
                Reaction::Respond(JsonRpcResponse::success(request.id, listing.to_value()))
            },
            Err(_) => Reaction::invalid_params(msg.id),
        }
    }

    /// The reaction to `tools/call` after the handshake.
    pub fn react_to_tools_call(&self, msg: &Incoming) -> (r: Reaction)
        ensures
            r@ == on_tools_call(self.registry@, msg@),
            r matches Reaction::Call { index, .. } ==> index < self.registry@.len(),
    {
        let request = match JsonRpcRequest::from_value(&msg.raw) {
            Ok(request) => request,
            Err(_) => {
                return Reaction::invalid_params(msg.id);
            },
        };
        let params = match ToolsCallParams::from_value(&request.params) {
            Ok(params) => params,
            Err(_) => {
                return Reaction::invalid_params(msg.id);
            },
        };
        match self.registry.find(params.name.as_str()) {
            Some(index) => Reaction::Call { id: request.id, index, arguments: params.arguments },
            None => {
                let report = error_content(between("Tool not found: '", params.name.as_str(), "'"));
                Reaction::Respond(reply_to_call(request.id, &report))
            },
        }
    }

    /// The state machine's step: the state after `msg`, and what to do about
    /// `msg`. The server itself stays as it is.
    pub fn decide(&self, msg: &Incoming) -> (r: (ServerState, Reaction))
        ensures
            (r.0, r.1@) == step(self.state, self.registry@, msg@),
            r.1 matches Reaction::Call { index, .. } ==> index < self.registry@.len(),
    {
        let method = msg.method.as_str();
        match self.state {
            ServerState::Uninitialized => {
                if same_text(method, "initialize") {
                    react_to_initialize(msg)
                } else {
                    (
                        ServerState::Uninitialized,
                        Reaction::error(
                            msg.id,
                            NOT_INITIALIZED,
                            "Server not initialized. 'initialize' must be the first request.".to_owned(),
                        ),
                    )
                }
            },
            ServerState::Initializing => {
                if same_text(method, "notifications/initialized") {
                    (ServerState::Initialized, Reaction::Ignore)
                } else {
                    let message = between(
                        "Server is initializing. Received unexpected method '",
                        method,
                        "'. Waiting for 'notifications/initialized'.",
                    );
                    (ServerState::Initializing, Reaction::error(msg.id, NOT_INITIALIZED, message))
                }
            },
            ServerState::Initialized => {
                let reaction = if same_text(method, "add") {
                    react_to_add(msg)
                } else if same_text(method, "tools/list") {
                    self.react_to_tools_list(msg)
                } else if same_text(method, "tools/call") {
                    self.react_to_tools_call(msg)
                } else {
                    Reaction::error(
                        msg.id,
                        METHOD_NOT_FOUND,
                        between("Method not found: '", method, "'"),
                    )
                };
                (ServerState::Initialized, reaction)
            },
        }
    }
}

/// Why a session cannot go on.
#[derive(Clone, Copy, Debug, PartialEq, Eq, Structural)]
pub enum ServerError {
    /// A frame could not be read.
    Framing(FramingError),
    /// A message body is not JSON, or carries an id but names no method.
    Decode(DecodeError),
}

/// What handling one message of a stream comes to.
#[derive(Clone, Debug, PartialEq, Eq)]
pub enum Outcome {
    /// The message took up `consumed` bytes of the input, and `reply` is to be
    /// sent, if there is one; the session goes on.
    Continue { consumed: usize, reply: Option<Vec<u8>> },
    /// The stream has ended where a frame would begin: a clean end.
    EndOfStream,
    /// The session cannot go on.
    Fatal(ServerError),
}

/// The bytes that carry a response: its JSON text in a frame.
pub open spec fn wire(response: ResponseV) -> Seq<u8> {
    framed(json_text(response.render()))
}

/// What a reply is as a mathematical value.
pub open spec fn reply_view(r: Result<Option<Vec<u8>>, ServerError>) -> Result<
    Option<Seq<u8>>,
    ServerError,
> {
    match r {
        Ok(Some(bytes)) => Ok(Some(bytes@)),
        Ok(None) => Ok(None),
        Err(e) => Err(e),
    }
}

/// Whether the message body `body` ends the session: it is not JSON, or it
/// is a document that carries an id but names no method. Every other body
/// lets the session go on.
pub open spec fn ends_session(body: Seq<u8>) -> bool {
    match json_parse(body) {
        None => true,
        Some(doc) => doc.text_member("method"@) is None && doc.unsigned_member("id"@) is Some,
    }
}

/// Whether handling the message body `body` in the state `state`, with the
/// tools of `registry`, may end in the state `next` with the reply `reply`.
///
/// - A body that is not JSON ends the session, and leaves the state.
/// - A document that names no method is ignored where it carries no id
///   either: no reply, the state stays, the session goes on. Where it carries
///   an id it ends the session, and leaves the state.
/// - Any other document moves the state as the state machine says. Where the
///   state machine ignores the message there is no reply; else the reply is
///   the frame of the one response that answers the message.
///
/// A proof sees this definition after `reveal(handles)`; what follows from it
/// for a request, and for a message without a method, is stated in `protocol`.
#[verifier::opaque]
pub open spec fn handles<T: ToolImplementation>(
    state: ServerState,
    registry: ToolRegistry<T>,
    body: Seq<u8>,
    next: ServerState,
    reply: Result<Option<Seq<u8>>, ServerError>,
) -> bool {
    match json_parse(body) {
        None => {
            &&& next == state
            &&& reply == Err::<Option<Seq<u8>>, ServerError>(
                ServerError::Decode(DecodeError::InvalidJson),
            )
        },
        Some(doc) => match IncomingV::parse(doc) {
            None => {
                &&& next == state
                &&& reply == (if doc.unsigned_member("id"@) is None {
                    Ok::<Option<Seq<u8>>, ServerError>(None)
                } else {
                    Err::<Option<Seq<u8>>, ServerError>(
                        ServerError::Decode(DecodeError::MissingMethod),
                    )
                })
            },
            Some(msg) => {
                &&& next == step(state, registry@, msg).0
                &&& if step(state, registry@, msg).1 is Ignore {
                    reply == Ok::<Option<Seq<u8>>, ServerError>(None)
                } else {
                    exists|response: ResponseV|
                        step(state, registry@, msg).1.answered_by(registry, response) && reply
                            == Ok::<Option<Seq<u8>>, ServerError>(Some(#[trigger] wire(response)))
                }
            },
        },
    }
}

/// One message of a session, as it was handled.
pub ghost struct Exchange {
    /// Where the frame of the message begins in the input.
    pub start: nat,
    /// The number of bytes that the frame takes up.
    pub consumed: nat,
    /// The body of the frame.
    pub body: Seq<u8>,
    /// The state in which the message arrived.
    pub before: ServerState,
    /// The state in which it left the server.
    pub after: ServerState,
    /// What was sent in answer.
    pub reply: Option<Seq<u8>>,
}

/// The bytes of a reply; none where there is no reply.
pub open spec fn reply_bytes(reply: Option<Seq<u8>>) -> Seq<u8> {
    match reply {
        Some(bytes) => bytes,
        None => Seq::empty(),
    }
}

/// The replies of a sequence of exchanges, one after the other.
pub open spec fn replies(trace: Seq<Exchange>) -> Seq<u8>
    decreases trace.len(),
{
    if trace.len() == 0 {
        Seq::empty()
    } else {
        replies(trace.drop_last()) + reply_bytes(trace.last().reply)
    }
}

/// The position in the input at which a sequence of exchanges ends.
pub open spec fn end_position(trace: Seq<Exchange>) -> nat {
    if trace.len() == 0 {
        0
    } else {
        trace.last().start + trace.last().consumed
    }
}

/// The state in which a sequence of exchanges ends.
pub open spec fn end_state(start: ServerState, trace: Seq<Exchange>) -> ServerState {
    if trace.len() == 0 {
        start
    } else {
        trace.last().after
    }
}

/// Whether `trace` is how the frames at the start of `input` are handled, one
/// after the other, from the state `start`: each exchange begins where the one
/// before it ended, in the input and in the state; its frame is the one read
/// there; and its reply is one that handling the frame's body may give.
pub open spec fn exchanges<T: ToolImplementation>(
    start: ServerState,
    registry: ToolRegistry<T>,
    input: Seq<u8>,
    trace: Seq<Exchange>,
) -> bool {
    forall|k: int|
        0 <= k < trace.len() ==> {
            let x = #[trigger] trace[k];
            &&& x.start == end_position(trace.subrange(0, k))
            &&& x.before == end_state(start, trace.subrange(0, k))
            &&& x.start + x.consumed <= input.len()
            &&& read_frame(input.skip(x.start as int)) == (FrameV::Message {
                body: x.body,
                consumed: x.consumed,
            })
            &&& handles(x.before, registry, x.body, x.after, Ok(x.reply))
        }
}

/// A sequence of exchanges goes on with the exchange that begins where it
/// ends.
pub proof fn lemma_next_exchange<T: ToolImplementation>(
    start: ServerState,
    registry: ToolRegistry<T>,
    input: Seq<u8>,
    trace: Seq<Exchange>,
    x: Exchange,
)
    requires
        exchanges(start, registry, input, trace),
        x.start == end_position(trace),
        x.before == end_state(start, trace),
        x.start + x.consumed <= input.len(),
        read_frame(input.skip(x.start as int)) == (FrameV::Message {
            body: x.body,
            consumed: x.consumed,
        }),
        handles(x.before, registry, x.body, x.after, Ok(x.reply)),
    ensures
        exchanges(start, registry, input, trace.push(x)),
        replies(trace.push(x)) == replies(trace) + reply_bytes(x.reply),
        end_position(trace.push(x)) == x.start + x.consumed,
        end_state(start, trace.push(x)) == x.after,
{
    let longer = trace.push(x);
    assert(longer.drop_last() =~= trace);
    assert forall|k: int| 0 <= k < longer.len() implies {
        let y = #[trigger] longer[k];
        &&& y.start == end_position(longer.subrange(0, k))
        &&& y.before == end_state(start, longer.subrange(0, k))
        &&& y.start + y.consumed <= input.len()
        &&& read_frame(input.skip(y.start as int)) == (FrameV::Message {
            body: y.body,
            consumed: y.consumed,
        })
        &&& handles(y.before, registry, y.body, y.after, Ok(y.reply))
    } by {
        if k < trace.len() {
            assert(longer.subrange(0, k) =~= trace.subrange(0, k));
            assert(longer[k] == trace[k]);
        } else {
            assert(longer.subrange(0, k) =~= trace);
        }
    }
}

/// Whether a session on `input` from the state `start` may end in the state
/// `last` with the bytes `output` sent and the result `r`.
///
/// The session handles frame after frame and sends the replies in that order.
/// It ends well where the input ends at the end of a frame, and with an error
/// at the first frame that cannot be read or whose body ends the session.
pub open spec fn session<T: ToolImplementation>(
    start: ServerState,
    registry: ToolRegistry<T>,
    input: Seq<u8>,
    trace: Seq<Exchange>,
    last: ServerState,
    output: Seq<u8>,
    r: Result<(), ServerError>,
) -> bool {
    &&& exchanges(start, registry, input, trace)
    &&& output == replies(trace)
    &&& end_position(trace) <= input.len()
    &&& match read_frame(input.skip(end_position(trace) as int)) {
        FrameV::EndOfStream => r == Ok::<(), ServerError>(()) && last == end_state(start, trace),
        FrameV::Failed(e) => r == Err::<(), ServerError>(ServerError::Framing(e)) && last
            == end_state(start, trace),
        FrameV::Message { body, consumed } => r matches Err(e) && handles(
            end_state(start, trace),
            registry,
            body,
            last,
            Err(e),
        ),
    }
}

/// Writes a response as a frame.
pub fn encode_response(response: &JsonRpcResponse<serde_json::Value>) -> (r: Vec<u8>)
    ensures
        r@ == wire(response@),
{
    write_frame(to_text(&response.to_value()).as_slice())
}

impl<T: ToolImplementation> Server<T> {
    /// Registers a tool under the definition that it gives of itself: adds it
    /// at the end, unless a tool of that name is registered already.
    /// Registration belongs before the first message.
    pub fn register_tool(&mut self, implementation: T) -> (r: Result<
        (),
        RegistryError,
    >)
        ensures
            final(self).state == old(self).state,
            match r {
                Ok(()) => {
                    &&& final(self).registry@.len() == old(self).registry@.len() + 1
                    &&& final(self).registry@.drop_last() == old(self).registry@
                    &&& implementation.may_define(final(self).registry@.last())
                    &&& !has_name(old(self).registry@, final(self).registry@.last().name)
                    &&& final(self).registry.implementation(old(self).registry@.len() as int)
                        == implementation
                },
                Err(e) => {
                    &&& e == RegistryError::DuplicateName
                    &&& final(self).registry == old(self).registry
                    &&& exists|tool: ToolV|
                        #[trigger] implementation.may_define(tool) && has_name(
                            old(self).registry@,
                            tool.name,
                        )
                },
            },
            forall|i: int|
                0 <= i < old(self).registry@.len() ==> final(self).registry.implementation(i)
                    == old(self).registry.implementation(i),
    {
        self.registry.register(implementation)
    }

    /// Handles one decoded message: moves the state as the state machine
    /// says, runs the tool where a tool is called, and returns the response
    /// to send, if there is one. A call is answered with what the tool
    /// returns for the arguments of the call.
    pub fn handle(&mut self, msg: &Incoming) -> (r: Option<JsonRpcResponse<serde_json::Value>>)
        ensures
            final(self).state == step(old(self).state, old(self).registry@, msg@).0,
            final(self).registry == old(self).registry,
            match r {
                Some(response) => step(old(self).state, old(self).registry@, msg@).1.answered_by(
                    old(self).registry,
                    response@,
                ),
                None => step(old(self).state, old(self).registry@, msg@).1 is Ignore,
            },
    {
        let (next, reaction) = self.decide(msg);
        self.state = next;
        let ghost decided = reaction@;
        match reaction {
            Reaction::Ignore => None,
            Reaction::Respond(response) => Some(response),
            Reaction::Call { id, index, arguments } => {
                let ghost handed = value_model(arguments);
                let result = self.registry.invoke(index, arguments);
                let response = reply_to_call(id, &result);
                proof {
                    let tool = self.registry.implementation(index as nat as int);
                    assert(tool.may_return(handed, result@));
                    assert(call_answered_by(self.registry, id, index as nat, handed, response@));
                }
                Some(response)
            },
        }
    }

    /// Writes a response as a frame, ready to be sent.
    pub fn send_response<P: Payload>(&self, response: &JsonRpcResponse<P>) -> (r: Result<
        Vec<u8>,
        ServerError,
    >)
        ensures
            r matches Ok(bytes) && bytes@ == wire(response_wire::<P>(response.typed())),
    {
        Ok(write_frame(to_text(&response.encode()).as_slice()))
    }

    /// Handles the body of one frame: reads it, handles the message, and
    /// returns the frame to send in answer, if there is one.
    ///
    /// A body that is not JSON ends the session. A document without a method
    /// is ignored where it has no id, and ends the session where it has one.
    /// Every request is answered by one frame.
    pub fn handle_body(&mut self, body: &[u8]) -> (r: Result<Option<Vec<u8>>, ServerError>)
        ensures
            final(self).registry == old(self).registry,
            r is Err <==> ends_session(body@),
            handles(old(self).state, old(self).registry, body@, final(self).state, reply_view(r)),
    {
        proof {
            reveal(handles);
        }
        let doc = match parse_value(body) {
            Ok(doc) => doc,
            Err(_) => {
                return Err(ServerError::Decode(DecodeError::InvalidJson));
            },
        };
        let has_id = get_u64(&doc, "id").is_some();
        let msg = match decode_generic(doc) {
            Ok(msg) => msg,
            Err(e) => {
                return if has_id {
                    Err(ServerError::Decode(e))
                } else {
                    Ok(None)
                };
            },
        };
        match self.handle(&msg) {
            None => Ok(None),
            Some(response) => {
                let bytes = encode_response(&response);
                assert(bytes@ == wire(response@));
                Ok(Some(bytes))
            },
        }
    }

    /// Handles the first message of `input`: reads its frame, handles its
    /// body, and says how much of `input` the frame took and what to send in
    /// answer.
    pub fn handle_message(&mut self, input: &[u8]) -> (r: Outcome)
        ensures
            final(self).registry == old(self).registry,
            match read_frame(input@) {
                FrameV::EndOfStream => r is EndOfStream && final(self).state == old(self).state,
                FrameV::Failed(e) => r matches Outcome::Fatal(ServerError::Framing(f)) && f == e
                    && final(self).state == old(self).state,
                FrameV::Message { body, consumed } => {
                    &&& r is Fatal <==> ends_session(body)
                    &&& match r {
                        Outcome::Continue { consumed: taken, reply } => {
                            &&& taken == consumed
                            &&& 0 < taken <= input.len()
                            &&& handles(
                                old(self).state,
                                old(self).registry,
                                body,
                                final(self).state,
                                reply_view(Ok(reply)),
                            )
                        },
                        Outcome::Fatal(e) => handles(
                            old(self).state,
                            old(self).registry,
                            body,
                            final(self).state,
                            Err(e),
                        ),
                        Outcome::EndOfStream => false,
                    }
                },
            },
    {
        match decode_frame(input) {
            Frame::EndOfStream => Outcome::EndOfStream,
            Frame::Failed(e) => Outcome::Fatal(ServerError::Framing(e)),
            Frame::Message { body, consumed } => match self.handle_body(body.as_slice()) {
                Ok(reply) => Outcome::Continue { consumed, reply },
                Err(e) => Outcome::Fatal(e),
            },
        }
    }

    /// Runs a session on a stream that is held in memory: handles the frames
    /// of `input` one after the other and appends the replies to `output`,
    /// until the input ends or a message ends the session.
    pub fn run(&mut self, input: &[u8], output: &mut Vec<u8>) -> (r: Result<(), ServerError>)
        ensures
            final(self).registry == old(self).registry,
            exists|trace: Seq<Exchange>, sent: Seq<u8>|
                final(output)@ == old(output)@ + sent && #[trigger] session(
                    old(self).state,
                    old(self).registry,
                    input@,
                    trace,
                    final(self).state,
                    sent,
                    r,
                ),
    {
        let ghost start = self.state;
        let ghost registry = self.registry;
        let ghost mut trace: Seq<Exchange> = Seq::empty();
        let mut at: usize = 0;
        loop
            invariant
                at <= input.len(),
                at == end_position(trace),
                self.state == end_state(start, trace),
                self.registry == old(self).registry,
                registry == old(self).registry,
                start == old(self).state,
                exchanges(start, registry, input@, trace),
                output@ == old(output)@ + replies(trace),
            decreases input.len() - at,
        {
            let rest = vstd::slice::slice_subrange(input, at, input.len());
            assert(rest@ =~= input@.skip(at as int));
            let ghost before = self.state;
            match self.handle_message(rest) {
                Outcome::EndOfStream => {
                    assert(session(start, registry, input@, trace, self.state, replies(trace), Ok(())));
                    return Ok(());
                },
                Outcome::Fatal(e) => {
                    assert(session(start, registry, input@, trace, self.state, replies(trace), Err(e)));
                    return Err(e);
                },
                Outcome::Continue { consumed, reply } => {
                    match &reply {
                        Some(bytes) => {
                            append(output, bytes.as_slice());
                        },
                        None => {},
                    }
                    proof {
                        let x = Exchange {
                            start: at as nat,
                            consumed: consumed as nat,
                            body: read_frame(rest@)->Message_body,
                            before,
                            after: self.state,
                            reply: match reply {
                                Some(bytes) => Some(bytes@),
                                None => None,
                            },
                        };
                        lemma_next_exchange(start, registry, input@, trace, x);
                        trace = trace.push(x);
                    }
                    at = at + consumed;
                },
            }
        }
    }
}

} // verus!
