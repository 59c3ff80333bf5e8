//! The client's side of a session: the sequence of messages that opens it,
//! and the requests that may follow.

use vstd::prelude::*;
use crate::frame::{framed, write_frame};
use crate::handshake::{
    ClientCapabilities, ClientCapabilitiesV, ClientInfo, ClientInfoV, ClientRootsCapabilities,
    InitializeParams, InitializeParamsV, InitializeResult, InitializeResultV,
};
use crate::json::{json_parse, json_text, parse_value, to_text, value_model, JsonV};
use crate::jsonrpc::{
    DecodeError, ErrorV, JsonRpcError, JsonRpcNotification, JsonRpcRequest, JsonRpcResponse,
    NotificationV, RequestV, ResponseV, JSONRPC_VERSION,
};
use crate::payload::{parse_typed_response, request_wire, Payload};
use crate::server::PROTOCOL_VERSION;
use crate::text::same_text;

verus! {

/// How far a client has come in opening its session.
#[derive(Clone, Copy, Debug, PartialEq, Eq, Structural)]
pub enum ClientState {
    /// Nothing has been sent.
    Created,
    /// `initialize` has been sent; the response is awaited.
    AwaitingInitialize,
    /// The handshake is complete: requests may be sent.
    Ready,
    /// The handshake has failed: nothing more may be sent.
    Failed,
}

/// Why a step of the client could not be taken.
#[derive(Clone, Debug, PartialEq)]
pub enum ClientError {
    /// The step does not belong in the state that the client is in.
    OutOfSequence,
    /// What was received cannot be read.
    Decode(DecodeError),
    /// The response carries this id, which is not the id of the request that
    /// is waiting for its response.
    UnexpectedId(u64),
    /// The server answered `initialize` with an error.
    Rejected(JsonRpcError),
    /// The server speaks another protocol version: this one.
    UnsupportedVersion(String),
}

/// The reason why a step of the client could not be taken, as a mathematical
/// value.
pub ghost enum ClientErrorV {
    OutOfSequence,
    Decode(DecodeError),
    UnexpectedId(u64),
    Rejected(ErrorV),
    UnsupportedVersion(Seq<char>),
}

impl View for ClientError {
    type V = ClientErrorV;

    open spec fn view(&self) -> ClientErrorV {
        match self {
            ClientError::OutOfSequence => ClientErrorV::OutOfSequence,
            ClientError::Decode(e) => ClientErrorV::Decode(*e),
            ClientError::UnexpectedId(id) => ClientErrorV::UnexpectedId(*id),
            ClientError::Rejected(e) => ClientErrorV::Rejected(e@),
            ClientError::UnsupportedVersion(v) => ClientErrorV::UnsupportedVersion(v@),
        }
    }
}

/// The client's side of a session.
#[derive(Clone, Copy, Debug, PartialEq, Eq)]
pub struct Client {
    pub state: ClientState,
}

/// The id of the `initialize` request.
pub const INITIALIZE_ID: u64 = 1;

/// What the client declares in its `initialize` request.
pub open spec fn declaration() -> InitializeParamsV {
    InitializeParamsV {
        protocol_version: PROTOCOL_VERSION@,
        capabilities: ClientCapabilitiesV {
            roots: Some(ClientRootsCapabilities { list_changed: Some(true) }),
            sampling: None,
            experimental: None,
        },
        client_info: ClientInfoV { name: "ExampleClient"@, version: "1.0.0"@ },
    }
}

/// The `initialize` request.
pub open spec fn initialize_request() -> RequestV {
    RequestV {
        jsonrpc: JSONRPC_VERSION@,
        method: "initialize"@,
        params: declaration().render(),
        id: INITIALIZE_ID,
    }
}

/// The notification that completes the handshake.
pub open spec fn initialized_notification() -> NotificationV {
    NotificationV { jsonrpc: JSONRPC_VERSION@, method: "notifications/initialized"@ }
}

/// What the client makes of the response to `initialize`: the response must
/// carry the id of the request; then the client accepts a result that names
/// its own protocol version, and nothing else.
pub open spec fn check_greeting(doc: JsonV) -> Result<(), ClientErrorV> {
    match ResponseV::parse(doc) {
        None => Err(ClientErrorV::Decode(DecodeError::InvalidShape)),
        Some(response) => if response.id != INITIALIZE_ID {
            Err(ClientErrorV::UnexpectedId(response.id))
        } else {
            match (response.error, response.result) {
                (Some(e), _) => Err(ClientErrorV::Rejected(e)),
                (None, Some(result)) => match InitializeResultV::parse(result) {
                    None => Err(ClientErrorV::Decode(DecodeError::InvalidShape)),
                    Some(greeting) => if greeting.protocol_version == PROTOCOL_VERSION@ {
                        Ok(())
                    } else {
                        Err(ClientErrorV::UnsupportedVersion(greeting.protocol_version))
                    },
                },
                (None, None) => Err(ClientErrorV::Decode(DecodeError::InvalidShape)),
            }
        },
    }
}

/// What the client makes of the body of the response to `initialize`.
pub open spec fn check_greeting_text(body: Seq<u8>) -> Result<(), ClientErrorV> {
    match json_parse(body) {
        Some(doc) => check_greeting(doc),
        None => Err(ClientErrorV::Decode(DecodeError::InvalidJson)),
    }
}

/// What the result of a step is as a mathematical value.
pub open spec fn sent_view(r: Result<Vec<u8>, ClientError>) -> Result<Seq<u8>, ClientErrorV> {
    match r {
        Ok(bytes) => Ok(bytes@),
        Err(e) => Err(e@),
    }
}

/// What the client declares in its `initialize` request.
pub fn client_declaration() -> (r: InitializeParams)
    ensures
        r@ == declaration(),
{
    InitializeParams {
        protocol_version: PROTOCOL_VERSION.to_owned(),
        capabilities: ClientCapabilities {
            roots: Some(ClientRootsCapabilities { list_changed: Some(true) }),
            sampling: None,
            experimental: None,
        },
        client_info: ClientInfo { name: "ExampleClient".to_owned(), version: "1.0.0".to_owned() },
    }
}

/// Checks the response to `initialize`.
pub fn accept_greeting(doc: &serde_json::Value) -> (r: Result<(), ClientError>)
    ensures
        match r {
            Ok(()) => check_greeting(value_model(*doc)) == Ok::<(), ClientErrorV>(()),
            Err(e) => check_greeting(value_model(*doc)) == Err::<(), ClientErrorV>(e@),
        },
{
    let response = match JsonRpcResponse::from_value(doc) {
        Ok(response) => response,
        Err(e) => {
            return Err(ClientError::Decode(e));
        },
    };
    if response.id != INITIALIZE_ID {
        return Err(ClientError::UnexpectedId(response.id));
    }
    match response.error {
        Some(e) => {
            return Err(ClientError::Rejected(e));
        },
        None => {},
    }
    let result = match response.result {
        Some(result) => result,
        None => {
            return Err(ClientError::Decode(DecodeError::InvalidShape));
        },
    };
    match InitializeResult::from_value(&result) {
        Ok(greeting) => if same_text(greeting.protocol_version.as_str(), PROTOCOL_VERSION) {
            Ok(())
        } else {
            Err(ClientError::UnsupportedVersion(greeting.protocol_version))
        },
        Err(e) => Err(ClientError::Decode(e)),
    }
}

/// Writes a document as a frame.
pub fn encode_document(doc: &serde_json::Value) -> (r: Vec<u8>)
    ensures
        r@ == framed(json_text(value_model(*doc))),
{
    write_frame(to_text(doc).as_slice())
}

impl Client {
    /// A client that has sent nothing.
    pub fn new() -> (r: Client)
        ensures
            r.state == ClientState::Created,
    {
        Client { state: ClientState::Created }
    }

    /// The first step of the handshake: the frame of the `initialize` request.
    /// It can be taken once, before anything else.
    pub fn initialize(&mut self) -> (r: Result<Vec<u8>, ClientError>)
        ensures
            old(self).state != ClientState::Created ==> {
                &&& final(self).state == old(self).state
                &&& sent_view(r) == Err::<Seq<u8>, ClientErrorV>(ClientErrorV::OutOfSequence)
            },
            old(self).state == ClientState::Created ==> {
                &&& final(self).state == ClientState::AwaitingInitialize
                &&& sent_view(r) == Ok::<Seq<u8>, ClientErrorV>(
                    framed(json_text(initialize_request().render())),
                )
            },
    {
        if self.state != ClientState::Created {
            return Err(ClientError::OutOfSequence);
        }
        let request = JsonRpcRequest::new(
            "initialize",
            client_declaration().to_value(),
            INITIALIZE_ID,
        );
        self.state = ClientState::AwaitingInitialize;
        Ok(encode_document(&request.to_value()))
    }

    /// The second step of the handshake: takes the body of the response to
    /// `initialize`, and returns the frame of the notification that completes
    /// the handshake. Where the response is not accepted the handshake has
    /// failed, and nothing more may be sent.
    pub fn complete_initialize(&mut self, body: &[u8]) -> (r: Result<Vec<u8>, ClientError>)
        ensures
            old(self).state != ClientState::AwaitingInitialize ==> {
                &&& final(self).state == old(self).state
                &&& sent_view(r) == Err::<Seq<u8>, ClientErrorV>(ClientErrorV::OutOfSequence)
            },
            old(self).state == ClientState::AwaitingInitialize ==> match check_greeting_text(body@) {
                Err(e) => {
                    &&& final(self).state == ClientState::Failed
                    &&& sent_view(r) == Err::<Seq<u8>, ClientErrorV>(e)
                },
                Ok(()) => {
                    &&& final(self).state == ClientState::Ready
                    &&& sent_view(r) == Ok::<Seq<u8>, ClientErrorV>(
                        framed(json_text(initialized_notification().render())),
                    )
                },
            },
    {
        if self.state != ClientState::AwaitingInitialize {
            return Err(ClientError::OutOfSequence);
        }
        self.state = ClientState::Failed;
        let doc = match parse_value(body) {
            Ok(doc) => doc,
            Err(_) => {
                return Err(ClientError::Decode(DecodeError::InvalidJson));
            },
        };
        match accept_greeting(&doc) {
            Ok(()) => {},
            Err(e) => {
                return Err(e);
            },
        }
        let notification = JsonRpcNotification::new("notifications/initialized");
        self.state = ClientState::Ready;
        Ok(encode_document(&notification.to_value()))
    }

    /// The frame of a request. Requests may be sent once the handshake is
    /// complete.
    pub fn send_request<P: Payload>(&self, request: &JsonRpcRequest<P>) -> (r: Result<
        Vec<u8>,
        ClientError,
    >)
        ensures
            sent_view(r) == (if self.state == ClientState::Ready {
                Ok::<Seq<u8>, ClientErrorV>(
                    framed(json_text(request_wire::<P>(request.typed()).render())),
                )
            } else {
                Err::<Seq<u8>, ClientErrorV>(ClientErrorV::OutOfSequence)
            }),
    {
        if self.state != ClientState::Ready {
            return Err(ClientError::OutOfSequence);
        }
        Ok(encode_document(&request.encode()))
    }

    /// The frame of a notification. Notifications may be sent once the
    /// handshake is complete.
    pub fn send_notification(&self, notification: &JsonRpcNotification) -> (r: Result<
        Vec<u8>,
        ClientError,
    >)
        ensures
            sent_view(r) == (if self.state == ClientState::Ready {
                Ok::<Seq<u8>, ClientErrorV>(framed(json_text(notification@.render())))
            } else {
                Err::<Seq<u8>, ClientErrorV>(ClientErrorV::OutOfSequence)
            }),
    {
        if self.state != ClientState::Ready {
            return Err(ClientError::OutOfSequence);
        }
        Ok(encode_document(&notification.to_value()))
    }

    /// Reads the body of a response: the text as JSON, the envelope, then the
    /// result as a value of the type that is asked for.
    pub fn read_response<P: Payload>(&self, body: &[u8]) -> (r: Result<
        JsonRpcResponse<P>,
        ClientError,
    >)
        ensures
            match json_parse(body@) {
                None => r matches Err(e) && e@ == ClientErrorV::Decode(DecodeError::InvalidJson),
                Some(doc) => match r {
                    Ok(response) => parse_typed_response::<P>(doc) == Some(response.typed()),
                    Err(e) => parse_typed_response::<P>(doc) is None && e@ == ClientErrorV::Decode(
                        DecodeError::InvalidShape,
                    ),
                },
            },
    {
        match parse_value(body) {
            Ok(doc) => match JsonRpcResponse::<P>::decode(&doc) {
                Ok(response) => Ok(response),
                Err(e) => Err(ClientError::Decode(e)),
            },
            Err(_) => Err(ClientError::Decode(DecodeError::InvalidJson)),
        }
    }
}

} // verus!
