//! What the handshake state machine guarantees of whole exchanges.

use vstd::prelude::*;
use crate::client::{
    check_greeting, declaration, initialize_request, initialized_notification, ClientErrorV,
    INITIALIZE_ID,
};
use crate::handshake::{
    lemma_initialize_params_round_trip, lemma_initialize_result_round_trip, InitializeParamsV,
};
use crate::json::{json_parse, JsonV};
use crate::jsonrpc::{
    lemma_envelope_keys, lemma_request_round_trip, lemma_response_round_trip, IncomingV,
    NotificationV, RequestV, ResponseV, JSONRPC_VERSION,
};
use crate::registry::{has_name, position_of, ToolRegistry};
use crate::server::{
    call_answered_by, call_reply, greeting, handles, wire, ServerError, method_not_found, step, tool_not_found, ReactionV, ServerState,
    METHOD_NOT_FOUND, NOT_INITIALIZED, PROTOCOL_VERSION,
};
use crate::types::{
    lemma_add_params_round_trip, lemma_text_well_formed, lemma_tools_call_params_round_trip,
    lemma_tools_call_result_round_trip, lemma_tools_list_params_round_trip,
    lemma_tools_list_result_round_trip, AddParams, ToolImplementation, ToolV,
    ToolsCallParamsV, ToolsCallResultV, ToolsListParamsV, ToolsListResultV,
};

verus! {

/// The request for `method` with the parameters `params` and the id `id`.
pub open spec fn request(method: Seq<char>, params: JsonV, id: u64) -> RequestV {
    RequestV { jsonrpc: JSONRPC_VERSION@, method, params, id }
}

/// A request as the server first reads it.
pub open spec fn received(r: RequestV) -> IncomingV {
    IncomingV { method: r.method, id: Some(r.id), raw: r.render() }
}

/// A notification as the server first reads it.
pub open spec fn notified(n: NotificationV) -> IncomingV {
    IncomingV { method: n.method, id: None, raw: n.render() }
}

/// The names of the methods differ from one another.
pub proof fn lemma_method_names()
    ensures
        "initialize"@ != "notifications/initialized"@,
        "initialize"@ != "add"@,
        "initialize"@ != "tools/list"@,
        "initialize"@ != "tools/call"@,
        "notifications/initialized"@ != "add"@,
        "notifications/initialized"@ != "tools/list"@,
        "notifications/initialized"@ != "tools/call"@,
        "add"@ != "tools/list"@,
        "add"@ != "tools/call"@,
        "tools/list"@ != "tools/call"@,
{
    reveal_strlit("initialize");
    reveal_strlit("notifications/initialized");
    reveal_strlit("add");
    reveal_strlit("tools/list");
    reveal_strlit("tools/call");
    assert("initialize"@.len() == 10 && "initialize"@[0] == 'i');
    assert("notifications/initialized"@.len() == 25);
    assert("add"@.len() == 3);
    assert("tools/list"@.len() == 10 && "tools/list"@[0] == 't' && "tools/list"@[6] == 'l');
    assert("tools/call"@.len() == 10 && "tools/call"@[0] == 't' && "tools/call"@[6] == 'c');
}

/// The first reading of a written request gives its method and its id, and
/// the typed reading gives the request back.
pub proof fn lemma_request_received(r: RequestV)
    ensures
        IncomingV::parse(r.render()) == Some(received(r)),
        RequestV::parse(received(r).raw) == Some(r),
{
    lemma_envelope_keys();
    lemma_request_round_trip(r);
}

/// The first reading of a written notification gives its method, and no id.
pub proof fn lemma_notification_received(n: NotificationV)
    ensures
        IncomingV::parse(n.render()) == Some(notified(n)),
{
    lemma_envelope_keys();
    reveal_strlit("jsonrpc");
    reveal_strlit("method");
    reveal_strlit("id");
    assert("jsonrpc"@.len() == 7 && "method"@.len() == 6 && "id"@.len() == 2);
}

/// The state only ever moves forward, and after the handshake it stays.
pub proof fn lemma_states_move_forward(state: ServerState, tools: Seq<ToolV>, msg: IncomingV)
    ensures
        step(state, tools, msg).0.rank() >= state.rank(),
        state == ServerState::Initialized ==> step(state, tools, msg).0 == state,
{
}

/// A notification is never answered.
pub proof fn lemma_notifications_are_not_answered(
    state: ServerState,
    tools: Seq<ToolV>,
    msg: IncomingV,
)
    requires
        IncomingV::parse(msg.raw) == Some(msg),
        msg.id is None,
    ensures
        step(state, tools, msg).1 is Ignore,
{
}

/// A request is answered by exactly one response, which carries the id of the
/// request and holds either a result or an error. The one message with an id
/// that is not answered is the confirmation of the handshake, which is a
/// notification by its method.
pub proof fn lemma_requests_are_answered<T: ToolImplementation>(
    state: ServerState,
    registry: ToolRegistry<T>,
    msg: IncomingV,
    response: ResponseV,
)
    requires
        IncomingV::parse(msg.raw) == Some(msg),
        msg.id is Some,
        !(state == ServerState::Initializing && msg.method == "notifications/initialized"@),
    ensures
        !(step(state, registry@, msg).1 is Ignore),
        step(state, registry@, msg).1.answered_by(registry, response) ==> response.id
            == msg.id->Some_0 && response.well_formed(),
{
    let reaction = step(state, registry@, msg).1;
    if reaction.answered_by(registry, response) {
        match reaction {
            ReactionV::Call { id, index, arguments } => {
                assert(call_answered_by(registry, id, index, arguments, response));
                let result = choose|result: ToolsCallResultV|
                    #[trigger] registry.implementation(index as int).may_return(arguments, result)
                        && response == call_reply(id, result);
                assert(response == call_reply(id, result));
            },
            _ => {},
        }
    }
}

/// Before the handshake, a request for anything but `initialize` is answered
/// with the error "not initialized", and the state stays as it is.
pub proof fn lemma_request_before_initialize(tools: Seq<ToolV>, msg: IncomingV)
    requires
        msg.method != "initialize"@,
        msg.id is Some,
    ensures
        step(ServerState::Uninitialized, tools, msg) == (
            ServerState::Uninitialized,
            ReactionV::Respond(
                ResponseV::failure(
                    msg.id->Some_0,
                    NOT_INITIALIZED,
                    "Server not initialized. 'initialize' must be the first request."@,
                ),
            ),
        ),
        NOT_INITIALIZED == -32002,
{
}

/// In particular a tool call before the handshake is answered with the error
/// "not initialized", whatever tool it names, and the state stays as it is.
pub proof fn lemma_tool_call_before_initialize(
    tools: Seq<ToolV>,
    call: ToolsCallParamsV,
    id: u64,
)
    ensures
        step(
            ServerState::Uninitialized,
            tools,
            received(request("tools/call"@, call.render(), id)),
        ) == (
            ServerState::Uninitialized,
            ReactionV::Respond(
                ResponseV::failure(
                    id,
                    -32002i64,
                    "Server not initialized. 'initialize' must be the first request."@,
                ),
            ),
        ),
{
    lemma_method_names();
    lemma_request_before_initialize(tools, received(request("tools/call"@, call.render(), id)));
}

/// `initialize` with the server's protocol version is answered with the
/// server's declaration, and the state moves to `Initializing`.
pub proof fn lemma_initialize_accepted(tools: Seq<ToolV>, params: InitializeParamsV, id: u64)
    requires
        params.capabilities.well_formed(),
        params.protocol_version == PROTOCOL_VERSION@,
    ensures
        step(
            ServerState::Uninitialized,
            tools,
            received(request("initialize"@, params.render(), id)),
        ) == (
            ServerState::Initializing,
            ReactionV::Respond(ResponseV::success(id, greeting().render())),
        ),
{
    let r = request("initialize"@, params.render(), id);
    lemma_request_received(r);
    lemma_initialize_params_round_trip(params);
}

/// `initialize` with another protocol version is answered with the error
/// "invalid params", and the state stays `Uninitialized`, so that the
/// handshake can be tried again.
pub proof fn lemma_version_mismatch(tools: Seq<ToolV>, params: InitializeParamsV, id: u64)
    requires
        params.capabilities.well_formed(),
        params.protocol_version != PROTOCOL_VERSION@,
    ensures
        step(
            ServerState::Uninitialized,
            tools,
            received(request("initialize"@, params.render(), id)),
        ) == (
            ServerState::Uninitialized,
            ReactionV::Respond(ResponseV::failure(id, -32602i64, "Unsupported protocol version"@)),
        ),
{
    let r = request("initialize"@, params.render(), id);
    lemma_request_received(r);
    lemma_initialize_params_round_trip(params);
}

/// The confirmation of the handshake completes it, and is not answered.
pub proof fn lemma_initialized_confirmed(tools: Seq<ToolV>, msg: IncomingV)
    requires
        msg.method == "notifications/initialized"@,
    ensures
        step(ServerState::Initializing, tools, msg) == (
            ServerState::Initialized,
            ReactionV::Ignore,
        ),
{
}

/// After the handshake, the call of a registered tool runs that tool on the
/// arguments given, and the call of a tool that is not registered is answered
/// with a result that says so, with its error flag set and one text item.
pub proof fn lemma_tool_call(tools: Seq<ToolV>, call: ToolsCallParamsV, id: u64)
    ensures
        ({
            let msg = received(request("tools/call"@, call.render(), id));
            let failure = ToolsCallResultV::failure(tool_not_found(call.name));
            &&& step(ServerState::Initialized, tools, msg).0 == ServerState::Initialized
            &&& has_name(tools, call.name) ==> step(ServerState::Initialized, tools, msg).1 == (
            ReactionV::Call {
                id,
                index: position_of(tools, call.name),
                arguments: call.arguments,
            })
            &&& !has_name(tools, call.name) ==> step(ServerState::Initialized, tools, msg).1
                == ReactionV::Respond(ResponseV::success(id, failure.render()))
            &&& failure.is_error
            &&& ToolsCallResultV::parse(failure.render()) == Some(failure)
        }),
{
    lemma_method_names();
    let r = request("tools/call"@, call.render(), id);
    lemma_request_received(r);
    lemma_tools_call_params_round_trip(call);
    lemma_text_well_formed(tool_not_found(call.name));
    lemma_tools_call_result_round_trip(ToolsCallResultV::failure(tool_not_found(call.name)));
}

/// The whole opening of a session: `initialize` with the server's version,
/// the confirmation, then a tool call. The session ends in `Initialized`; the
/// two requests are answered, each by one response with its id, and the
/// notification is not.
pub proof fn lemma_handshake_then_call<T: ToolImplementation>(
    registry: ToolRegistry<T>,
    params: InitializeParamsV,
    first: u64,
    call: ToolsCallParamsV,
    second: u64,
)
    requires
        params.capabilities.well_formed(),
        params.protocol_version == PROTOCOL_VERSION@,
    ensures
        ({
            let opening = received(request("initialize"@, params.render(), first));
            let confirmation = notified(initialized_notification());
            let calling = received(request("tools/call"@, call.render(), second));
            let s1 = step(ServerState::Uninitialized, registry@, opening);
            let s2 = step(s1.0, registry@, confirmation);
            let s3 = step(s2.0, registry@, calling);
            &&& s1.0 == ServerState::Initializing
            &&& s2.0 == ServerState::Initialized
            &&& s3.0 == ServerState::Initialized
            &&& s1.1 == ReactionV::Respond(ResponseV::success(first, greeting().render()))
            &&& s2.1 is Ignore
            &&& forall|response: ResponseV| #[trigger]
                s3.1.answered_by(registry, response) ==> response.id == second
                    && response.error is None
            &&& !(s3.1 is Ignore)
        }),
{
    let tools = registry@;
    lemma_initialize_accepted(tools, params, first);
    lemma_tool_call(tools, call, second);
    let calling = received(request("tools/call"@, call.render(), second));
    let reaction = step(ServerState::Initialized, tools, calling).1;
    assert forall|response: ResponseV| #[trigger]
        reaction.answered_by(registry, response) implies response.id == second
        && response.error is None by {
        if has_name(tools, call.name) {
            let index = position_of(tools, call.name);
            assert(call_answered_by(registry, second, index, call.arguments, response));
            let result = choose|result: ToolsCallResultV|
                #[trigger] registry.implementation(index as int).may_return(
                    call.arguments,
                    result,
                ) && response == call_reply(second, result);
            assert(response == call_reply(second, result));
        }
    }
}

/// After the handshake, `tools/list` is answered with the registered
/// definitions in the order of registration, whatever the cursor and the id,
/// and changes nothing: asked again, it gives the same definitions in the
/// same order.
pub proof fn lemma_tools_list_repeats(
    tools: Seq<ToolV>,
    one: ToolsListParamsV,
    first: u64,
    other: ToolsListParamsV,
    second: u64,
)
    ensures
        ({
            let listing = (ToolsListResultV { tools, next_cursor: None });
            let s1 = step(
                ServerState::Initialized,
                tools,
                received(request("tools/list"@, one.render(), first)),
            );
            let s2 = step(s1.0, tools, received(request("tools/list"@, other.render(), second)));
            &&& s1 == (
                ServerState::Initialized,
                ReactionV::Respond(ResponseV::success(first, listing.render())),
            )
            &&& s2 == (
                ServerState::Initialized,
                ReactionV::Respond(ResponseV::success(second, listing.render())),
            )
            &&& ToolsListResultV::parse(listing.render()) == Some(listing)
        }),
{
    lemma_method_names();
    lemma_request_received(request("tools/list"@, one.render(), first));
    lemma_request_received(request("tools/list"@, other.render(), second));
    lemma_tools_list_params_round_trip(one);
    lemma_tools_list_params_round_trip(other);
    lemma_tools_list_result_round_trip(ToolsListResultV { tools, next_cursor: None });
}

/// After the handshake, `add` is answered with the sum of its two numbers,
/// where the sum fits.
pub proof fn lemma_add(tools: Seq<ToolV>, params: AddParams, id: u64)
    requires
        i64::MIN <= params.a + params.b <= i64::MAX,
    ensures
        step(ServerState::Initialized, tools, received(request("add"@, params.render(), id))) == (
            ServerState::Initialized,
            ReactionV::Respond(ResponseV::success(id, JsonV::Int(params.a + params.b))),
        ),
{
    lemma_request_received(request("add"@, params.render(), id));
    lemma_add_params_round_trip(params);
}

/// After the handshake, a request for a method that the server does not have
/// is answered with the error "method not found".
pub proof fn lemma_unknown_method(tools: Seq<ToolV>, msg: IncomingV)
    requires
        msg.id is Some,
        msg.method != "add"@,
        msg.method != "tools/list"@,
        msg.method != "tools/call"@,
    ensures
        step(ServerState::Initialized, tools, msg) == (
            ServerState::Initialized,
            ReactionV::Respond(
                ResponseV::failure(
                    msg.id->Some_0,
                    METHOD_NOT_FOUND,
                    method_not_found(msg.method),
                ),
            ),
        ),
        METHOD_NOT_FOUND == -32601,
{
}

/// Client and server agree: the server accepts the client's `initialize`
/// request, the client accepts the server's answer, and the client's
/// confirmation completes the handshake.
pub proof fn lemma_handshake_agreement(tools: Seq<ToolV>)
    ensures
        ({
            let s1 = step(ServerState::Uninitialized, tools, received(initialize_request()));
            let answer = ResponseV::success(INITIALIZE_ID, greeting().render());
            let s2 = step(s1.0, tools, notified(initialized_notification()));
            &&& s1 == (ServerState::Initializing, ReactionV::Respond(answer))
            &&& check_greeting(answer.render()) == Ok::<(), ClientErrorV>(())
            &&& s2 == (ServerState::Initialized, ReactionV::Ignore)
        }),
{
    lemma_initialize_accepted(tools, declaration(), INITIALIZE_ID);
    let answer = ResponseV::success(INITIALIZE_ID, greeting().render());
    lemma_response_round_trip(answer);
    lemma_initialize_result_round_trip(greeting());
}

/// A message that names no method and carries no id is ignored: nothing is
/// sent, the state stays, and the session goes on.
pub proof fn lemma_message_without_method_is_ignored<T: ToolImplementation>(
    state: ServerState,
    registry: ToolRegistry<T>,
    body: Seq<u8>,
    doc: JsonV,
    next: ServerState,
    reply: Result<Option<Seq<u8>>, ServerError>,
)
    requires
        json_parse(body) == Some(doc),
        doc.text_member("method"@) is None,
        doc.unsigned_member("id"@) is None,
        handles(state, registry, body, next, reply),
    ensures
        reply == Ok::<Option<Seq<u8>>, ServerError>(None),
        next == state,
{
    reveal(handles);
}

/// Where the state machine names the response to a message, handling the
/// body of the message sends the frame of that response.
pub proof fn lemma_response_is_sent<T: ToolImplementation>(
    state: ServerState,
    registry: ToolRegistry<T>,
    body: Seq<u8>,
    msg: IncomingV,
    response: ResponseV,
    next: ServerState,
    reply: Result<Option<Seq<u8>>, ServerError>,
)
    requires
        json_parse(body) == Some(msg.raw),
        IncomingV::parse(msg.raw) == Some(msg),
        step(state, registry@, msg).1 == ReactionV::Respond(response),
        handles(state, registry, body, next, reply),
    ensures
        reply == Ok::<Option<Seq<u8>>, ServerError>(Some(wire(response))),
        next == step(state, registry@, msg).0,
{
    reveal(handles);
}

/// Every request is answered by one frame: the frame of a response that
/// carries the id of the request and holds either a result or an error. The
/// session goes on.
pub proof fn lemma_request_gets_one_frame<T: ToolImplementation>(
    state: ServerState,
    registry: ToolRegistry<T>,
    body: Seq<u8>,
    r: RequestV,
    next: ServerState,
    reply: Result<Option<Seq<u8>>, ServerError>,
)
    requires
        json_parse(body) == Some(r.render()),
        !(state == ServerState::Initializing && r.method == "notifications/initialized"@),
        handles(state, registry, body, next, reply),
    ensures
        next == step(state, registry@, received(r)).0,
        exists|response: ResponseV|
            reply == Ok::<Option<Seq<u8>>, ServerError>(Some(#[trigger] wire(response)))
                && response.id == r.id && response.well_formed()
                && step(state, registry@, received(r)).1.answered_by(registry, response),
{
    reveal(handles);
    lemma_request_received(r);
    let msg = received(r);
    let reaction = step(state, registry@, msg).1;
    let response = choose|response: ResponseV|
        reaction.answered_by(registry, response) && reply == Ok::<Option<Seq<u8>>, ServerError>(
            Some(#[trigger] wire(response)),
        );
    lemma_requests_are_answered(state, registry, msg, response);
    assert(reply == Ok::<Option<Seq<u8>>, ServerError>(Some(wire(response))));
}

} // verus!
