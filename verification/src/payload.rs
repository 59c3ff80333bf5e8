//! Typed envelopes: requests and responses whose parameters and results are
//! values of a type with a JSON form, read in two phases, the envelope first
//! and its payload second.

use vstd::prelude::*;
use crate::handshake::{
    lemma_initialize_params_round_trip, lemma_initialize_result_round_trip, InitializeParams,
    InitializeParamsV, InitializeResult, InitializeResultV,
};
use crate::json::{value_as_i64, value_as_str, value_i64, value_model, value_string, JsonV};
use crate::jsonrpc::{
    lemma_request_round_trip, lemma_response_round_trip, DecodeError, ErrorV, JsonRpcError,
    JsonRpcRequest, JsonRpcResponse, RequestV, ResponseV,
};
use crate::types::{
    lemma_add_params_round_trip, lemma_tools_call_params_round_trip,
    lemma_tools_call_result_round_trip, lemma_tools_list_params_round_trip,
    lemma_tools_list_result_round_trip, AddParams, ToolsCallParams, ToolsCallParamsV,
    ToolsCallResult, ToolsCallResultV, ToolsListParams, ToolsListParamsV, ToolsListResult,
    ToolsListResultV,
};

verus! {

/// A type whose values have a JSON form: the parameters and results of this
/// library's methods, and any document.
pub trait Payload: Sized {
    /// The type's values as mathematical values.
    type Model;

    /// This value as a mathematical value.
    spec fn model(&self) -> Self::Model;

    /// The JSON form of a value.
    spec fn render(m: Self::Model) -> JsonV;

    /// The value that a document holds, if it holds one.
    spec fn parse(doc: JsonV) -> Option<Self::Model>;

    /// Whether a value is what reading its JSON form gives.
    spec fn faithful(m: Self::Model) -> bool;

    /// The JSON form of this value.
    fn encode(&self) -> (out: serde_json::Value)
        ensures
            value_model(out) == Self::render(self.model()),
    ;

    /// Reads a value.
    fn decode(v: &serde_json::Value) -> (r: Option<Self>)
        ensures
            match r {
                Some(p) => Self::parse(value_model(*v)) == Some(p.model()),
                None => Self::parse(value_model(*v)) is None,
            },
    ;

    /// Reading the JSON form of a faithful value gives the value back.
    proof fn round_trip(m: Self::Model)
        requires
            Self::faithful(m),
        ensures
            Self::parse(Self::render(m)) == Some(m),
    ;
}

/// Any document is a payload: itself.
impl Payload for serde_json::Value {
    type Model = JsonV;

    open spec fn model(&self) -> JsonV {
        value_model(*self)
    }

    open spec fn render(m: JsonV) -> JsonV {
        m
    }

    open spec fn parse(doc: JsonV) -> Option<JsonV> {
        Some(doc)
    }

    open spec fn faithful(m: JsonV) -> bool {
        true
    }

    fn encode(&self) -> (out: serde_json::Value) {
        self.clone()
    }

    fn decode(v: &serde_json::Value) -> (r: Option<Self>) {
        Some(v.clone())
    }

    proof fn round_trip(m: JsonV) {
    }
}

/// A number is a payload: the result of `add`.
impl Payload for i64 {
    type Model = i64;

    open spec fn model(&self) -> i64 {
        *self
    }

    open spec fn render(m: i64) -> JsonV {
        JsonV::Int(m as int)
    }

    open spec fn parse(doc: JsonV) -> Option<i64> {
        doc.signed()
    }

    open spec fn faithful(m: i64) -> bool {
        true
    }

    fn encode(&self) -> (out: serde_json::Value) {
        value_i64(*self)
    }

    fn decode(v: &serde_json::Value) -> (r: Option<Self>) {
        value_as_i64(v)
    }

    proof fn round_trip(m: i64) {
    }
}

/// A text is a payload.
impl Payload for String {
    type Model = Seq<char>;

    open spec fn model(&self) -> Seq<char> {
        self@
    }

    open spec fn render(m: Seq<char>) -> JsonV {
        JsonV::Str(m)
    }

    open spec fn parse(doc: JsonV) -> Option<Seq<char>> {
        doc.text()
    }

    open spec fn faithful(m: Seq<char>) -> bool {
        true
    }

    fn encode(&self) -> (out: serde_json::Value) {
        value_string(self.as_str())
    }

    fn decode(v: &serde_json::Value) -> (r: Option<Self>) {
        match value_as_str(v) {
            Some(s) => Some(s.to_owned()),
            None => None,
        }
    }

    proof fn round_trip(m: Seq<char>) {
    }
}

impl Payload for AddParams {
    type Model = AddParams;

    open spec fn model(&self) -> AddParams {
        *self
    }

    open spec fn render(m: AddParams) -> JsonV {
        m.render()
    }

    open spec fn parse(doc: JsonV) -> Option<AddParams> {
        AddParams::parse(doc)
    }

    open spec fn faithful(m: AddParams) -> bool {
        true
    }

    fn encode(&self) -> (out: serde_json::Value) {
        self.to_value()
    }

    fn decode(v: &serde_json::Value) -> (r: Option<Self>) {
        match AddParams::from_value(v) {
            Ok(p) => Some(p),
            Err(_) => None,
        }
    }

    proof fn round_trip(m: AddParams) {
        lemma_add_params_round_trip(m);
    }
}

impl Payload for InitializeParams {
    type Model = InitializeParamsV;

    open spec fn model(&self) -> InitializeParamsV {
        self@
    }

    open spec fn render(m: InitializeParamsV) -> JsonV {
        m.render()
    }

    open spec fn parse(doc: JsonV) -> Option<InitializeParamsV> {
        InitializeParamsV::parse(doc)
    }

    open spec fn faithful(m: InitializeParamsV) -> bool {
        m.capabilities.well_formed()
    }

    fn encode(&self) -> (out: serde_json::Value) {
        self.to_value()
    }

    fn decode(v: &serde_json::Value) -> (r: Option<Self>) {
        match InitializeParams::from_value(v) {
            Ok(p) => Some(p),
            Err(_) => None,
        }
    }

    proof fn round_trip(m: InitializeParamsV) {
        lemma_initialize_params_round_trip(m);
    }
}

impl Payload for InitializeResult {
    type Model = InitializeResultV;

    open spec fn model(&self) -> InitializeResultV {
        self@
    }

    open spec fn render(m: InitializeResultV) -> JsonV {
        m.render()
    }

    open spec fn parse(doc: JsonV) -> Option<InitializeResultV> {
        InitializeResultV::parse(doc)
    }

    open spec fn faithful(m: InitializeResultV) -> bool {
        m.capabilities.well_formed()
    }

    fn encode(&self) -> (out: serde_json::Value) {
        self.to_value()
    }

    fn decode(v: &serde_json::Value) -> (r: Option<Self>) {
        match InitializeResult::from_value(v) {
            Ok(p) => Some(p),
            Err(_) => None,
        }
    }

    proof fn round_trip(m: InitializeResultV) {
        lemma_initialize_result_round_trip(m);
    }
}

impl Payload for ToolsListParams {
    type Model = ToolsListParamsV;

    open spec fn model(&self) -> ToolsListParamsV {
        self@
    }

    open spec fn render(m: ToolsListParamsV) -> JsonV {
        m.render()
    }

    open spec fn parse(doc: JsonV) -> Option<ToolsListParamsV> {
        ToolsListParamsV::parse(doc)
    }

    open spec fn faithful(m: ToolsListParamsV) -> bool {
        true
    }

    fn encode(&self) -> (out: serde_json::Value) {
        self.to_value()
    }

    fn decode(v: &serde_json::Value) -> (r: Option<Self>) {
        match ToolsListParams::from_value(v) {
            Ok(p) => Some(p),
            Err(_) => None,
        }
    }

    proof fn round_trip(m: ToolsListParamsV) {
        lemma_tools_list_params_round_trip(m);
    }
}

impl Payload for ToolsListResult {
    type Model = ToolsListResultV;

    open spec fn model(&self) -> ToolsListResultV {
        self@
    }

    open spec fn render(m: ToolsListResultV) -> JsonV {
        m.render()
    }

    open spec fn parse(doc: JsonV) -> Option<ToolsListResultV> {
        ToolsListResultV::parse(doc)
    }

    open spec fn faithful(m: ToolsListResultV) -> bool {
        true
    }

    fn encode(&self) -> (out: serde_json::Value) {
        self.to_value()
    }

    fn decode(v: &serde_json::Value) -> (r: Option<Self>) {
        match ToolsListResult::from_value(v) {
            Ok(p) => Some(p),
            Err(_) => None,
        }
    }

    proof fn round_trip(m: ToolsListResultV) {
        lemma_tools_list_result_round_trip(m);
    }
}

impl Payload for ToolsCallParams {
    type Model = ToolsCallParamsV;

    open spec fn model(&self) -> ToolsCallParamsV {
        self@
    }

    open spec fn render(m: ToolsCallParamsV) -> JsonV {
        m.render()
    }

    open spec fn parse(doc: JsonV) -> Option<ToolsCallParamsV> {
        ToolsCallParamsV::parse(doc)
    }

    open spec fn faithful(m: ToolsCallParamsV) -> bool {
        true
    }

    fn encode(&self) -> (out: serde_json::Value) {
        self.to_value()
    }

    fn decode(v: &serde_json::Value) -> (r: Option<Self>) {
        match ToolsCallParams::from_value(v) {
            Ok(p) => Some(p),
            Err(_) => None,
        }
    }

    proof fn round_trip(m: ToolsCallParamsV) {
        lemma_tools_call_params_round_trip(m);
    }
}

/// The result of a tool call is a payload in the form in which it is
/// reported.
impl Payload for ToolsCallResult {
    type Model = ToolsCallResultV;

    open spec fn model(&self) -> ToolsCallResultV {
        self@
    }

    open spec fn render(m: ToolsCallResultV) -> JsonV {
        m.reported().render()
    }

    open spec fn parse(doc: JsonV) -> Option<ToolsCallResultV> {
        ToolsCallResultV::parse(doc)
    }

    open spec fn faithful(m: ToolsCallResultV) -> bool {
        m.well_formed()
    }

    fn encode(&self) -> (out: serde_json::Value) {
        self.to_reported_value()
    }

    fn decode(v: &serde_json::Value) -> (r: Option<Self>) {
        match ToolsCallResult::from_value(v) {
            Ok(p) => Some(p),
            Err(_) => None,
        }
    }

    proof fn round_trip(m: ToolsCallResultV) {
        lemma_tools_call_result_round_trip(m);
    }
}

/// A request with typed parameters, as a mathematical value.
pub ghost struct TypedRequestV<M> {
    pub jsonrpc: Seq<char>,
    pub method: Seq<char>,
    pub params: M,
    pub id: u64,
}

/// A response with a typed result, as a mathematical value.
pub ghost struct TypedResponseV<M> {
    pub jsonrpc: Seq<char>,
    pub result: Option<M>,
    pub error: Option<ErrorV>,
    pub id: u64,
}

/// The request that is sent for a typed request: its parameters in their
/// JSON form.
pub open spec fn request_wire<P: Payload>(r: TypedRequestV<P::Model>) -> RequestV {
    RequestV { jsonrpc: r.jsonrpc, method: r.method, params: P::render(r.params), id: r.id }
}

/// The typed request that a document holds: the envelope, then the
/// parameters.
pub open spec fn parse_typed_request<P: Payload>(doc: JsonV) -> Option<TypedRequestV<P::Model>> {
    match RequestV::parse(doc) {
        Some(raw) => match P::parse(raw.params) {
            Some(params) => Some(
                TypedRequestV { jsonrpc: raw.jsonrpc, method: raw.method, params, id: raw.id },
            ),
            None => None,
        },
        None => None,
    }
}

/// The response that is sent for a typed response: its result in its JSON
/// form.
pub open spec fn response_wire<P: Payload>(r: TypedResponseV<P::Model>) -> ResponseV {
    ResponseV {
        jsonrpc: r.jsonrpc,
        result: match r.result {
            Some(m) => Some(P::render(m)),
            None => None,
        },
        error: r.error,
        id: r.id,
    }
}

/// The typed response that a document holds: the envelope, then the result,
/// where there is one.
pub open spec fn parse_typed_response<P: Payload>(doc: JsonV) -> Option<
    TypedResponseV<P::Model>,
> {
    match ResponseV::parse(doc) {
        Some(raw) => match raw.result {
            Some(result) => match P::parse(result) {
                Some(m) => Some(
                    TypedResponseV {
                        jsonrpc: raw.jsonrpc,
                        result: Some(m),
                        error: raw.error,
                        id: raw.id,
                    },
                ),
                None => None,
            },
            None => Some(
                TypedResponseV { jsonrpc: raw.jsonrpc, result: None, error: raw.error, id: raw.id },
            ),
        },
        None => None,
    }
}

impl<P: Payload> JsonRpcRequest<P> {
    /// This request as a mathematical value.
    pub open spec fn typed(&self) -> TypedRequestV<P::Model> {
        TypedRequestV {
            jsonrpc: self.jsonrpc@,
            method: self.method@,
            params: self.params.model(),
            id: self.id,
        }
    }

    /// The JSON form of this request.
    pub fn encode(&self) -> (out: serde_json::Value)
        ensures
            value_model(out) == request_wire::<P>(self.typed()).render(),
    {
        let raw = JsonRpcRequest {
            jsonrpc: self.jsonrpc.clone(),
            method: self.method.clone(),
            params: self.params.encode(),
            id: self.id,
        };
        raw.to_value()
    }

    /// Reads a request: the envelope first, then the parameters.
    pub fn decode(v: &serde_json::Value) -> (r: Result<Self, DecodeError>)
        ensures
            match r {
                Ok(request) => parse_typed_request::<P>(value_model(*v)) == Some(request.typed()),
                Err(e) => e == DecodeError::InvalidShape && parse_typed_request::<P>(
                    value_model(*v),
                ) is None,
            },
    {
        let raw = match JsonRpcRequest::<serde_json::Value>::from_value(v) {
            Ok(raw) => raw,
            Err(e) => {
                return Err(e);
            },
        };
        match P::decode(&raw.params) {
            Some(params) => Ok(
                JsonRpcRequest { jsonrpc: raw.jsonrpc, method: raw.method, params, id: raw.id },
            ),
            None => Err(DecodeError::InvalidShape),
        }
    }
}

impl<P: Payload> JsonRpcResponse<P> {
    /// This response as a mathematical value.
    pub open spec fn typed(&self) -> TypedResponseV<P::Model> {
        TypedResponseV {
            jsonrpc: self.jsonrpc@,
            result: match self.result {
                Some(p) => Some(p.model()),
                None => None,
            },
            error: match self.error {
                Some(e) => Some(e@),
                None => None,
            },
            id: self.id,
        }
    }

    /// The JSON form of this response.
    pub fn encode(&self) -> (out: serde_json::Value)
        ensures
            value_model(out) == response_wire::<P>(self.typed()).render(),
    {
        let raw = JsonRpcResponse {
            jsonrpc: self.jsonrpc.clone(),
            result: match &self.result {
                Some(p) => Some(p.encode()),
                None => None,
            },
            error: match &self.error {
                Some(e) => Some(JsonRpcError::new(e.code, e.message.clone())),
                None => None,
            },
            id: self.id,
        };
        raw.to_value()
    }

    /// Reads a response: the envelope first, then the result.
    pub fn decode(v: &serde_json::Value) -> (r: Result<Self, DecodeError>)
        ensures
            match r {
                Ok(response) => parse_typed_response::<P>(value_model(*v)) == Some(
                    response.typed(),
                ),
                Err(e) => e == DecodeError::InvalidShape && parse_typed_response::<P>(
                    value_model(*v),
                ) is None,
            },
    {
        let raw = match JsonRpcResponse::<serde_json::Value>::from_value(v) {
            Ok(raw) => raw,
            Err(e) => {
                return Err(e);
            },
        };
        let result = match &raw.result {
            Some(doc) => match P::decode(doc) {
                Some(p) => Some(p),
                None => {
                    return Err(DecodeError::InvalidShape);
                },
            },
            None => None,
        };
        Ok(JsonRpcResponse { jsonrpc: raw.jsonrpc, result, error: raw.error, id: raw.id })
    }
}

/// Decoding the JSON form of a typed request gives the request back, whatever
/// its method and id, where its parameters are faithful.
pub proof fn lemma_typed_request_round_trip<P: Payload>(r: TypedRequestV<P::Model>)
    requires
        P::faithful(r.params),
    ensures
        parse_typed_request::<P>(request_wire::<P>(r).render()) == Some(r),
{
    lemma_request_round_trip(request_wire::<P>(r));
    P::round_trip(r.params);
}

/// Decoding the JSON form of a typed response gives the response back, where
/// it holds either an error, or a faithful result whose JSON form is not
/// `null`.
pub proof fn lemma_typed_response_round_trip<P: Payload>(r: TypedResponseV<P::Model>)
    requires
        response_wire::<P>(r).well_formed(),
        r.result matches Some(m) ==> P::faithful(m),
    ensures
        parse_typed_response::<P>(response_wire::<P>(r).render()) == Some(r),
{
    lemma_response_round_trip(response_wire::<P>(r));
    if r.result is Some {
        P::round_trip(r.result->Some_0);
    }
}

} // verus!
