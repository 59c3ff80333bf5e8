//! The envelopes that travel inside frames: requests, notifications,
//! responses and error objects, with their JSON form.

use vstd::prelude::*;
use crate::json::{
    get_i64, get_optional, get_str, get_u64, json_parse, parse_value, value_get,
    value_i64, value_insert, value_model, value_object, value_string, value_u64, JsonV,
};

verus! {

/// The protocol tag of every envelope.
pub const JSONRPC_VERSION: &'static str = "2.0";

/// The versions of the envelope format.
#[derive(Clone, Copy, Debug, PartialEq, Eq, Structural)]
pub enum JsonRpcVersion {
    V2,
}

/// A request: a method, its parameters, and the id that the response echoes.
#[derive(Clone, Debug, PartialEq)]
pub struct JsonRpcRequest<T> {
    pub jsonrpc: String,
    pub method: String,
    pub params: T,
    pub id: u64,
}

/// A response: either a result or an error, and the id of the request.
#[derive(Clone, Debug, PartialEq)]
pub struct JsonRpcResponse<T> {
    pub jsonrpc: String,
    pub result: Option<T>,
    pub error: Option<JsonRpcError>,
    pub id: u64,
}

/// An error object.
#[derive(Clone, Debug, PartialEq)]
pub struct JsonRpcError {
    pub code: i64,
    pub message: String,
}

/// A notification: a method, no id, never answered.
#[derive(Clone, Debug, PartialEq)]
pub struct JsonRpcNotification {
    pub jsonrpc: String,
    pub method: String,
}

/// Why a document could not be decoded.
#[derive(Clone, Copy, Debug, PartialEq, Eq, Structural)]
pub enum DecodeError {
    /// The text is not JSON.
    InvalidJson,
    /// The document has no string member `method`.
    MissingMethod,
    /// The document does not have the shape that the type asks for.
    InvalidShape,
}

/// A request, as a mathematical value.
pub ghost struct RequestV {
    pub jsonrpc: Seq<char>,
    pub method: Seq<char>,
    pub params: JsonV,
    pub id: u64,
}

/// An error object, as a mathematical value.
pub ghost struct ErrorV {
    pub code: i64,
    pub message: Seq<char>,
}

/// A response, as a mathematical value.
pub ghost struct ResponseV {
    pub jsonrpc: Seq<char>,
    pub result: Option<JsonV>,
    pub error: Option<ErrorV>,
    pub id: u64,
}

/// A notification, as a mathematical value.
pub ghost struct NotificationV {
    pub jsonrpc: Seq<char>,
    pub method: Seq<char>,
}

impl View for JsonRpcRequest<serde_json::Value> {
    type V = RequestV;

    open spec fn view(&self) -> RequestV {
        RequestV {
            jsonrpc: self.jsonrpc@,
            method: self.method@,
            params: value_model(self.params),
            id: self.id,
        }
    }
}

impl View for JsonRpcError {
    type V = ErrorV;

    open spec fn view(&self) -> ErrorV {
        ErrorV { code: self.code, message: self.message@ }
    }
}

impl View for JsonRpcResponse<serde_json::Value> {
    type V = ResponseV;

    open spec fn view(&self) -> ResponseV {
        ResponseV {
            jsonrpc: self.jsonrpc@,
            result: match self.result {
                Some(v) => Some(value_model(v)),
                None => None,
            },
            error: match self.error {
                Some(e) => Some(e@),
                None => None,
            },
            id: self.id,
        }
    }
}

impl View for JsonRpcNotification {
    type V = NotificationV;

    open spec fn view(&self) -> NotificationV {
        NotificationV { jsonrpc: self.jsonrpc@, method: self.method@ }
    }
}

impl ErrorV {
    /// The JSON form of an error object.
    pub open spec fn render(self) -> JsonV {
        JsonV::empty_object().with("code"@, JsonV::Int(self.code as int)).with(
            "message"@,
            JsonV::Str(self.message),
        )
    }

    /// The error object that a document holds.
    pub open spec fn parse(doc: JsonV) -> Option<ErrorV> {
        match (doc.signed_member("code"@), doc.text_member("message"@)) {
            (Some(code), Some(message)) => Some(ErrorV { code, message }),
            _ => None,
        }
    }
}

impl RequestV {
    /// The JSON form of a request.
    pub open spec fn render(self) -> JsonV {
        JsonV::empty_object().with("jsonrpc"@, JsonV::Str(self.jsonrpc)).with(
            "method"@,
            JsonV::Str(self.method),
        ).with("params"@, self.params).with("id"@, JsonV::Int(self.id as int))
    }

    /// The request that a document holds: the four members, each of its type.
    pub open spec fn parse(doc: JsonV) -> Option<RequestV> {
        match (
            doc.text_member("jsonrpc"@),
            doc.text_member("method"@),
            doc.member("params"@),
            doc.unsigned_member("id"@),
        ) {
            (Some(jsonrpc), Some(method), Some(params), Some(id)) => Some(
                RequestV { jsonrpc, method, params, id },
            ),
            _ => None,
        }
    }
}

impl NotificationV {
    /// The JSON form of a notification.
    pub open spec fn render(self) -> JsonV {
        JsonV::empty_object().with("jsonrpc"@, JsonV::Str(self.jsonrpc)).with(
            "method"@,
            JsonV::Str(self.method),
        )
    }

    /// The notification that a document holds.
    pub open spec fn parse(doc: JsonV) -> Option<NotificationV> {
        match (doc.text_member("jsonrpc"@), doc.text_member("method"@)) {
            (Some(jsonrpc), Some(method)) => Some(NotificationV { jsonrpc, method }),
            _ => None,
        }
    }
}

impl ResponseV {
    /// The response that carries `result` for the request `id`.
    pub open spec fn success(id: u64, result: JsonV) -> ResponseV {
        ResponseV { jsonrpc: JSONRPC_VERSION@, result: Some(result), error: None, id }
    }

    /// The response that carries an error for the request `id`.
    pub open spec fn failure(id: u64, code: i64, message: Seq<char>) -> ResponseV {
        ResponseV {
            jsonrpc: JSONRPC_VERSION@,
            result: None,
            error: Some(ErrorV { code, message }),
            id,
        }
    }

    /// A response holds either a result, which is not `null`, or an error.
    pub open spec fn well_formed(self) -> bool {
        match (self.result, self.error) {
            (Some(r), None) => !(r is Null),
            (None, Some(_)) => true,
            _ => false,
        }
    }

    /// The JSON form of a response: the tag, then the result or the error,
    /// whichever there is, then the id.
    pub open spec fn render(self) -> JsonV {
        let tagged = JsonV::empty_object().with("jsonrpc"@, JsonV::Str(self.jsonrpc));
        let with_result = match self.result {
            Some(r) => tagged.with("result"@, r),
            None => tagged,
        };
        let with_error = match self.error {
            Some(e) => with_result.with("error"@, e.render()),
            None => with_result,
        };
        with_error.with("id"@, JsonV::Int(self.id as int))
    }

    /// The response that a document holds. A member that is `null` counts as
    /// missing; exactly one of result and error must be there.
    pub open spec fn parse(doc: JsonV) -> Option<ResponseV> {
        match (doc.text_member("jsonrpc"@), doc.unsigned_member("id"@)) {
            (Some(jsonrpc), Some(id)) => match (
                doc.optional_member("result"@),
                doc.optional_member("error"@),
            ) {
                (Some(r), None) => Some(ResponseV { jsonrpc, result: Some(r), error: None, id }),
                (None, Some(e)) => match ErrorV::parse(e) {
                    Some(error) => Some(
                        ResponseV { jsonrpc, result: None, error: Some(error), id },
                    ),
                    None => None,
                },
                _ => None,
            },
            _ => None,
        }
    }
}

impl JsonRpcError {
    /// An error object with this code and message.
    pub fn new(code: i64, message: String) -> (r: JsonRpcError)
        ensures
            r@ == (ErrorV { code, message: message@ }),
    {
        JsonRpcError { code, message }
    }

    /// The JSON form of this error object.
    pub fn to_value(&self) -> (out: serde_json::Value)
        ensures
            value_model(out) == self@.render(),
    {
        let mut out = value_object();
        value_insert(&mut out, "code", value_i64(self.code));
        value_insert(&mut out, "message", value_string(self.message.as_str()));
        out
    }

    /// Reads an error object.
    pub fn from_value(v: &serde_json::Value) -> (r: Result<JsonRpcError, DecodeError>)
        ensures
            match r {
                Ok(e) => ErrorV::parse(value_model(*v)) == Some(e@),
                Err(e) => e == DecodeError::InvalidShape && ErrorV::parse(value_model(*v)) is None,
            },
    {
        match (get_i64(v, "code"), get_str(v, "message")) {
            (Some(code), Some(message)) => Ok(JsonRpcError { code, message: message.to_owned() }),
            _ => Err(DecodeError::InvalidShape),
        }
    }
}

impl JsonRpcRequest<serde_json::Value> {
    /// A request with the protocol tag.
    pub fn new(method: &str, params: serde_json::Value, id: u64) -> (r: Self)
        ensures
            r@ == (RequestV {
                jsonrpc: JSONRPC_VERSION@,
                method: method@,
                params: value_model(params),
                id,
            }),
    {
        JsonRpcRequest {
            jsonrpc: JSONRPC_VERSION.to_owned(),
            method: method.to_owned(),
            params,
            id,
        }
    }

    /// The JSON form of this request.
    pub fn to_value(&self) -> (out: serde_json::Value)
        ensures
            value_model(out) == self@.render(),
    {
        let mut out = value_object();
        value_insert(&mut out, "jsonrpc", value_string(self.jsonrpc.as_str()));
        value_insert(&mut out, "method", value_string(self.method.as_str()));
        value_insert(&mut out, "params", self.params.clone());
        value_insert(&mut out, "id", value_u64(self.id));
        out
    }

    /// Reads a request.
    pub fn from_value(v: &serde_json::Value) -> (r: Result<Self, DecodeError>)
        ensures
            match r {
                Ok(req) => RequestV::parse(value_model(*v)) == Some(req@),
                Err(e) => e == DecodeError::InvalidShape && RequestV::parse(value_model(*v))
                    is None,
            },
    {
        match (get_str(v, "jsonrpc"), get_str(v, "method"), value_get(v, "params"), get_u64(v, "id")) {
            (Some(jsonrpc), Some(method), Some(params), Some(id)) => Ok(
                JsonRpcRequest {
                    jsonrpc: jsonrpc.to_owned(),
                    method: method.to_owned(),
                    params: params.clone(),
                    id,
                },
            ),
            _ => Err(DecodeError::InvalidShape),
        }
    }
}

impl JsonRpcNotification {
    /// A notification with the protocol tag.
    pub fn new(method: &str) -> (r: Self)
        ensures
            r@ == (NotificationV { jsonrpc: JSONRPC_VERSION@, method: method@ }),
    {
        JsonRpcNotification { jsonrpc: JSONRPC_VERSION.to_owned(), method: method.to_owned() }
    }

    /// The JSON form of this notification.
    pub fn to_value(&self) -> (out: serde_json::Value)
        ensures
            value_model(out) == self@.render(),
    {
        let mut out = value_object();
        value_insert(&mut out, "jsonrpc", value_string(self.jsonrpc.as_str()));
        value_insert(&mut out, "method", value_string(self.method.as_str()));
        out
    }

    /// Reads a notification.
    pub fn from_value(v: &serde_json::Value) -> (r: Result<Self, DecodeError>)
        ensures
            match r {
                Ok(n) => NotificationV::parse(value_model(*v)) == Some(n@),
                Err(e) => e == DecodeError::InvalidShape && NotificationV::parse(value_model(*v))
                    is None,
            },
    {
        match (get_str(v, "jsonrpc"), get_str(v, "method")) {
            (Some(jsonrpc), Some(method)) => Ok(
                JsonRpcNotification { jsonrpc: jsonrpc.to_owned(), method: method.to_owned() },
            ),
            _ => Err(DecodeError::InvalidShape),
        }
    }
}

impl JsonRpcResponse<serde_json::Value> {
    /// The response that carries `result` for the request `id`.
    pub fn success(id: u64, result: serde_json::Value) -> (r: Self)
        ensures
            r@ == ResponseV::success(id, value_model(result)),
    {
        JsonRpcResponse { jsonrpc: JSONRPC_VERSION.to_owned(), result: Some(result), error: None, id }
    }

    /// The response that carries `error` for the request `id`.
    pub fn failure(id: u64, error: JsonRpcError) -> (r: Self)
        ensures
            r@ == ResponseV::failure(id, error.code, error.message@),
    {
        JsonRpcResponse { jsonrpc: JSONRPC_VERSION.to_owned(), result: None, error: Some(error), id }
    }

    /// The JSON form of this response.
    pub fn to_value(&self) -> (out: serde_json::Value)
        ensures
            value_model(out) == self@.render(),
    {
        let mut out = value_object();
        value_insert(&mut out, "jsonrpc", value_string(self.jsonrpc.as_str()));
        match &self.result {
            Some(r) => {
                value_insert(&mut out, "result", r.clone());
            },
            None => {},
        }
        match &self.error {
            Some(e) => {
                value_insert(&mut out, "error", e.to_value());
            },
            None => {},
        }
        value_insert(&mut out, "id", value_u64(self.id));
        out
    }

    /// Reads a response.
    pub fn from_value(v: &serde_json::Value) -> (r: Result<Self, DecodeError>)
        ensures
            match r {
                Ok(resp) => ResponseV::parse(value_model(*v)) == Some(resp@),
                Err(e) => e == DecodeError::InvalidShape && ResponseV::parse(value_model(*v))
                    is None,
            },
    {
        let (jsonrpc, id) = match (get_str(v, "jsonrpc"), get_u64(v, "id")) {
            (Some(jsonrpc), Some(id)) => (jsonrpc, id),
            _ => {
                return Err(DecodeError::InvalidShape);
            },
        };
        match (get_optional(v, "result"), get_optional(v, "error")) {
            (Some(r), None) => Ok(
                JsonRpcResponse {
                    jsonrpc: jsonrpc.to_owned(),
                    result: Some(r.clone()),
                    error: None,
                    id,
                },
            ),
            (None, Some(e)) => match JsonRpcError::from_value(e) {
                Ok(error) => Ok(
                    JsonRpcResponse {
                        jsonrpc: jsonrpc.to_owned(),
                        result: None,
                        error: Some(error),
                        id,
                    },
                ),
                Err(e) => Err(e),
            },
            _ => Err(DecodeError::InvalidShape),
        }
    }
}

/// What every incoming message is read as first: its method, its id if it
/// has one, and the whole document for the typed reading that follows.
#[derive(Clone, Debug, PartialEq)]
pub struct Incoming {
    pub method: String,
    pub id: Option<u64>,
    pub raw: serde_json::Value,
}

/// The first reading of a message, as a mathematical value.
pub ghost struct IncomingV {
    pub method: Seq<char>,
    pub id: Option<u64>,
    pub raw: JsonV,
}

impl View for Incoming {
    type V = IncomingV;

    open spec fn view(&self) -> IncomingV {
        IncomingV { method: self.method@, id: self.id, raw: value_model(self.raw) }
    }
}

impl IncomingV {
    /// The first reading of a document: it must name a method; a member `id`
    /// that is an unsigned number makes it a request, anything else a
    /// notification.
    pub open spec fn parse(doc: JsonV) -> Option<IncomingV> {
        match doc.text_member("method"@) {
            Some(method) => Some(IncomingV { method, id: doc.unsigned_member("id"@), raw: doc }),
            None => None,
        }
    }

    /// The first reading of a message body.
    pub open spec fn parse_text(body: Seq<u8>) -> Result<IncomingV, DecodeError> {
        match json_parse(body) {
            Some(doc) => match IncomingV::parse(doc) {
                Some(msg) => Ok(msg),
                None => Err(DecodeError::MissingMethod),
            },
            None => Err(DecodeError::InvalidJson),
        }
    }
}

/// Reads the method and the id of a document, whatever its method is.
pub fn decode_generic(raw: serde_json::Value) -> (r: Result<Incoming, DecodeError>)
    ensures
        match r {
            Ok(msg) => IncomingV::parse(value_model(raw)) == Some(msg@),
            Err(e) => e == DecodeError::MissingMethod && IncomingV::parse(value_model(raw))
                is None,
        },
{
    let method = match get_str(&raw, "method") {
        Some(m) => m.to_owned(),
        None => {
            return Err(DecodeError::MissingMethod);
        },
    };
    let id = get_u64(&raw, "id");
    Ok(Incoming { method, id, raw })
}

/// Reads a message body: the text as JSON, then the method and the id.
pub fn decode_message(body: &[u8]) -> (r: Result<Incoming, DecodeError>)
    ensures
        match r {
            Ok(msg) => IncomingV::parse_text(body@) == Ok::<IncomingV, DecodeError>(msg@),
            Err(e) => IncomingV::parse_text(body@) == Err::<IncomingV, DecodeError>(e),
        },
{
    match parse_value(body) {
        Ok(raw) => decode_generic(raw),
        Err(_) => Err(DecodeError::InvalidJson),
    }
}

/// The member names of the envelopes differ from one another.
pub proof fn lemma_envelope_keys()
    ensures
        "jsonrpc"@ != "method"@,
        "jsonrpc"@ != "params"@,
        "jsonrpc"@ != "id"@,
        "jsonrpc"@ != "result"@,
        "jsonrpc"@ != "error"@,
        "method"@ != "params"@,
        "method"@ != "id"@,
        "params"@ != "id"@,
        "result"@ != "error"@,
        "result"@ != "id"@,
        "error"@ != "id"@,
        "code"@ != "message"@,
{
    reveal_strlit("jsonrpc");
    reveal_strlit("method");
    reveal_strlit("params");
    reveal_strlit("id");
    reveal_strlit("result");
    reveal_strlit("error");
    reveal_strlit("code");
    reveal_strlit("message");
    assert("jsonrpc"@.len() == 7);
    assert("method"@.len() == 6 && "method"@[0] == 'm');
    assert("params"@.len() == 6 && "params"@[0] == 'p');
    assert("result"@.len() == 6 && "result"@[0] == 'r');
    assert("id"@.len() == 2);
    assert("error"@.len() == 5);
    assert("code"@.len() == 4);
    assert("message"@.len() == 7);
}

/// Decoding the JSON form of an error object gives the error object back.
pub proof fn lemma_error_round_trip(e: ErrorV)
    ensures
        ErrorV::parse(e.render()) == Some(e),
{
    lemma_envelope_keys();
}

/// Decoding the JSON form of a request gives the request back, whatever its
/// method, parameters and id.
pub proof fn lemma_request_round_trip(r: RequestV)
    ensures
        RequestV::parse(r.render()) == Some(r),
{
    lemma_envelope_keys();
}

/// Decoding the JSON form of a notification gives the notification back.
pub proof fn lemma_notification_round_trip(n: NotificationV)
    ensures
        NotificationV::parse(n.render()) == Some(n),
{
    lemma_envelope_keys();
}

/// Decoding the JSON form of a response that holds either a result or an
/// error gives the response back.
pub proof fn lemma_response_round_trip(r: ResponseV)
    requires
        r.well_formed(),
    ensures
        ResponseV::parse(r.render()) == Some(r),
{
    lemma_envelope_keys();
    if r.error is Some {
        lemma_error_round_trip(r.error->Some_0);
    }
}

} // verus!
