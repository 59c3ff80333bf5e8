//! What the two sides declare in the handshake: the parameters of the
//! `initialize` request, which describe the client, and its result, which
//! describes the server.

use vstd::prelude::*;
use crate::json::{
    get_optional, get_optional_bool, get_optional_str, get_str, optional_bool_value,
    optional_str_value, value_get, value_insert, value_is_object, value_model, value_null,
    value_object, value_string, JsonV,
};
use crate::jsonrpc::DecodeError;
use crate::types::optional_text_view;

verus! {

/// What a client says about its roots.
#[derive(Clone, Copy, Debug, PartialEq, Eq)]
pub struct ClientRootsCapabilities {
    pub list_changed: Option<bool>,
}

/// What a client says about sampling: nothing yet.
#[derive(Clone, Copy, Debug, PartialEq, Eq)]
pub struct ClientSamplingCapabilities {}

/// What a client declares that it can do.
#[derive(Clone, Debug, PartialEq)]
pub struct ClientCapabilities {
    pub roots: Option<ClientRootsCapabilities>,
    pub sampling: Option<ClientSamplingCapabilities>,
    pub experimental: Option<serde_json::Value>,
}

/// The name and version of a client.
#[derive(Clone, Debug, PartialEq)]
pub struct ClientInfo {
    pub name: String,
    pub version: String,
}

/// The parameters of the `initialize` request.
#[derive(Clone, Debug, PartialEq)]
pub struct InitializeParams {
    pub protocol_version: String,
    pub capabilities: ClientCapabilities,
    pub client_info: ClientInfo,
}

/// A client's capabilities, as a mathematical value.
pub ghost struct ClientCapabilitiesV {
    pub roots: Option<ClientRootsCapabilities>,
    pub sampling: Option<ClientSamplingCapabilities>,
    pub experimental: Option<JsonV>,
}

/// A client's name and version, as a mathematical value.
pub ghost struct ClientInfoV {
    pub name: Seq<char>,
    pub version: Seq<char>,
}

/// The parameters of `initialize`, as a mathematical value.
pub ghost struct InitializeParamsV {
    pub protocol_version: Seq<char>,
    pub capabilities: ClientCapabilitiesV,
    pub client_info: ClientInfoV,
}

impl View for ClientCapabilities {
    type V = ClientCapabilitiesV;

    open spec fn view(&self) -> ClientCapabilitiesV {
        ClientCapabilitiesV {
            roots: self.roots,
            sampling: self.sampling,
            experimental: match self.experimental {
                Some(v) => Some(value_model(v)),
                None => None,
            },
        }
    }
}

impl View for ClientInfo {
    type V = ClientInfoV;

    open spec fn view(&self) -> ClientInfoV {
        ClientInfoV { name: self.name@, version: self.version@ }
    }
}

impl View for InitializeParams {
    type V = InitializeParamsV;

    open spec fn view(&self) -> InitializeParamsV {
        InitializeParamsV {
            protocol_version: self.protocol_version@,
            capabilities: self.capabilities@,
            client_info: self.client_info@,
        }
    }
}

/// The JSON form of a document that may be missing: `null` in its place.
pub open spec fn render_optional(doc: Option<JsonV>) -> JsonV {
    match doc {
        Some(d) => d,
        None => JsonV::Null,
    }
}

impl ClientRootsCapabilities {
    /// The JSON form of the declaration.
    pub open spec fn render(self) -> JsonV {
        JsonV::empty_object().with("listChanged"@, JsonV::from_optional_boolean(self.list_changed))
    }

    /// The declaration that a document holds.
    pub open spec fn parse(doc: JsonV) -> Option<ClientRootsCapabilities> {
        match doc.optional_boolean("listChanged"@) {
            Some(list_changed) if doc is Object => Some(ClientRootsCapabilities { list_changed }),
            _ => None,
        }
    }

    /// The JSON form of this declaration.
    pub fn to_value(&self) -> (out: serde_json::Value)
        ensures
            value_model(out) == self.render(),
    {
        let mut out = value_object();
        value_insert(&mut out, "listChanged", optional_bool_value(self.list_changed));
        out
    }

    /// Reads the declaration.
    pub fn from_value(v: &serde_json::Value) -> (r: Result<ClientRootsCapabilities, DecodeError>)
        ensures
            match r {
                Ok(c) => ClientRootsCapabilities::parse(value_model(*v)) == Some(c),
                Err(e) => e == DecodeError::InvalidShape && ClientRootsCapabilities::parse(
                    value_model(*v),
                ) is None,
            },
    {
        if !value_is_object(v) {
            return Err(DecodeError::InvalidShape);
        }
        match get_optional_bool(v, "listChanged") {
            Some(list_changed) => Ok(ClientRootsCapabilities { list_changed }),
            None => Err(DecodeError::InvalidShape),
        }
    }
}

impl ClientSamplingCapabilities {
    /// The JSON form of the declaration: an object without members.
    pub open spec fn render(self) -> JsonV {
        JsonV::empty_object()
    }

    /// The declaration that a document holds: any object will do.
    pub open spec fn parse(doc: JsonV) -> Option<ClientSamplingCapabilities> {
        if doc is Object {
            Some(ClientSamplingCapabilities {  })
        } else {
            None
        }
    }

    /// The JSON form of this declaration.
    pub fn to_value(&self) -> (out: serde_json::Value)
        ensures
            value_model(out) == self.render(),
    {
        value_object()
    }

    /// Reads the declaration.
    pub fn from_value(v: &serde_json::Value) -> (r: Result<
        ClientSamplingCapabilities,
        DecodeError,
    >)
        ensures
            match r {
                Ok(c) => ClientSamplingCapabilities::parse(value_model(*v)) == Some(c),
                Err(e) => e == DecodeError::InvalidShape && ClientSamplingCapabilities::parse(
                    value_model(*v),
                ) is None,
            },
    {
        if value_is_object(v) {
            Ok(ClientSamplingCapabilities {  })
        } else {
            Err(DecodeError::InvalidShape)
        }
    }
}

impl ClientCapabilitiesV {
    /// The JSON form of the capabilities; `null` stands for each part that is
    /// missing.
    pub open spec fn render(self) -> JsonV {
        JsonV::empty_object().with(
            "roots"@,
            match self.roots {
                Some(r) => r.render(),
                None => JsonV::Null,
            },
        ).with(
            "sampling"@,
            match self.sampling {
                Some(s) => s.render(),
                None => JsonV::Null,
            },
        ).with("experimental"@, render_optional(self.experimental))
    }

    /// The capabilities that a document holds. Each part may be missing.
    pub open spec fn parse(doc: JsonV) -> Option<ClientCapabilitiesV> {
        let roots = match doc.optional_member("roots"@) {
            Some(d) => match ClientRootsCapabilities::parse(d) {
                Some(r) => Some(Some(r)),
                None => None,
            },
            None => Some(None),
        };
        let sampling = match doc.optional_member("sampling"@) {
            Some(d) => match ClientSamplingCapabilities::parse(d) {
                Some(s) => Some(Some(s)),
                None => None,
            },
            None => Some(None),
        };
        match (roots, sampling) {
            (Some(roots), Some(sampling)) if doc is Object => Some(
                ClientCapabilitiesV {
                    roots,
                    sampling,
                    experimental: doc.optional_member("experimental"@),
                },
            ),
            _ => None,
        }
    }

    /// Whether the capabilities are what reading their JSON form gives: an
    /// experimental part, where there is one, is not `null`.
    pub open spec fn well_formed(self) -> bool {
        !(self.experimental matches Some(JsonV::Null))
    }
}

impl ClientCapabilities {
    /// The JSON form of these capabilities.
    pub fn to_value(&self) -> (out: serde_json::Value)
        ensures
            value_model(out) == self@.render(),
    {
        let mut out = value_object();
        let roots = match &self.roots {
            Some(r) => r.to_value(),
            None => value_null(),
        };
        value_insert(&mut out, "roots", roots);
        let sampling = match &self.sampling {
            Some(s) => s.to_value(),
            None => value_null(),
        };
        value_insert(&mut out, "sampling", sampling);
        let experimental = match &self.experimental {
            Some(e) => e.clone(),
            None => value_null(),
        };
        value_insert(&mut out, "experimental", experimental);
        out
    }

    /// Reads the capabilities.
    pub fn from_value(v: &serde_json::Value) -> (r: Result<ClientCapabilities, DecodeError>)
        ensures
            match r {
                Ok(c) => ClientCapabilitiesV::parse(value_model(*v)) == Some(c@),
                Err(e) => e == DecodeError::InvalidShape && ClientCapabilitiesV::parse(
                    value_model(*v),
                ) is None,
            },
    {
        if !value_is_object(v) {
            return Err(DecodeError::InvalidShape);
        }
        let roots = match get_optional(v, "roots") {
            Some(d) => match ClientRootsCapabilities::from_value(d) {
                Ok(r) => Some(r),
                Err(e) => {
                    return Err(e);
                },
            },
            None => None,
        };
        let sampling = match get_optional(v, "sampling") {
            Some(d) => match ClientSamplingCapabilities::from_value(d) {
                Ok(s) => Some(s),
                Err(e) => {
                    return Err(e);
                },
            },
            None => None,
        };
        let experimental = match get_optional(v, "experimental") {
            Some(d) => Some(d.clone()),
            None => None,
        };
        Ok(ClientCapabilities { roots, sampling, experimental })
    }
}

impl ClientInfoV {
    /// The JSON form of the client's name and version.
    pub open spec fn render(self) -> JsonV {
        JsonV::empty_object().with("name"@, JsonV::Str(self.name)).with(
            "version"@,
            JsonV::Str(self.version),
        )
    }

    /// The name and version that a document holds.
    pub open spec fn parse(doc: JsonV) -> Option<ClientInfoV> {
        match (doc.text_member("name"@), doc.text_member("version"@)) {
            (Some(name), Some(version)) => Some(ClientInfoV { name, version }),
            _ => None,
        }
    }
}

impl ClientInfo {
    /// The JSON form of this name and version.
    pub fn to_value(&self) -> (out: serde_json::Value)
        ensures
            value_model(out) == self@.render(),
    {
        let mut out = value_object();
        value_insert(&mut out, "name", value_string(self.name.as_str()));
        value_insert(&mut out, "version", value_string(self.version.as_str()));
        out
    }

    /// Reads a name and version.
    pub fn from_value(v: &serde_json::Value) -> (r: Result<ClientInfo, DecodeError>)
        ensures
            match r {
                Ok(c) => ClientInfoV::parse(value_model(*v)) == Some(c@),
                Err(e) => e == DecodeError::InvalidShape && ClientInfoV::parse(value_model(*v))
                    is None,
            },
    {
        match (get_str(v, "name"), get_str(v, "version")) {
            (Some(name), Some(version)) => Ok(
                ClientInfo { name: name.to_owned(), version: version.to_owned() },
            ),
            _ => Err(DecodeError::InvalidShape),
        }
    }
}

impl InitializeParamsV {
    /// The JSON form of the parameters.
    pub open spec fn render(self) -> JsonV {
        JsonV::empty_object().with("protocolVersion"@, JsonV::Str(self.protocol_version)).with(
            "capabilities"@,
            self.capabilities.render(),
        ).with("clientInfo"@, self.client_info.render())
    }

    /// The parameters that a document holds.
    pub open spec fn parse(doc: JsonV) -> Option<InitializeParamsV> {
        match (
            doc.text_member("protocolVersion"@),
            doc.member("capabilities"@),
            doc.member("clientInfo"@),
        ) {
            (Some(protocol_version), Some(c), Some(i)) => match (
                ClientCapabilitiesV::parse(c),
                ClientInfoV::parse(i),
            ) {
                (Some(capabilities), Some(client_info)) => Some(
                    InitializeParamsV { protocol_version, capabilities, client_info },
                ),
                _ => None,
            },
            _ => None,
        }
    }
}

impl InitializeParams {
    /// The JSON form of these parameters.
    pub fn to_value(&self) -> (out: serde_json::Value)
        ensures
            value_model(out) == self@.render(),
    {
        let mut out = value_object();
        value_insert(&mut out, "protocolVersion", value_string(self.protocol_version.as_str()));
        value_insert(&mut out, "capabilities", self.capabilities.to_value());
        value_insert(&mut out, "clientInfo", self.client_info.to_value());
        out
    }

    /// Reads the parameters.
    pub fn from_value(v: &serde_json::Value) -> (r: Result<InitializeParams, DecodeError>)
        ensures
            match r {
                Ok(p) => InitializeParamsV::parse(value_model(*v)) == Some(p@),
                Err(e) => e == DecodeError::InvalidShape && InitializeParamsV::parse(
                    value_model(*v),
                ) is None,
            },
    {
        let protocol_version = match get_str(v, "protocolVersion") {
            Some(s) => s,
            None => {
                return Err(DecodeError::InvalidShape);
            },
        };
        let capabilities = match value_get(v, "capabilities") {
            Some(c) => match ClientCapabilities::from_value(c) {
                Ok(c) => c,
                Err(e) => {
                    return Err(e);
                },
            },
            None => {
                return Err(DecodeError::InvalidShape);
            },
        };
        let client_info = match value_get(v, "clientInfo") {
            Some(i) => match ClientInfo::from_value(i) {
                Ok(i) => i,
                Err(e) => {
                    return Err(e);
                },
            },
            None => {
                return Err(DecodeError::InvalidShape);
            },
        };
        Ok(InitializeParams { protocol_version: protocol_version.to_owned(), capabilities, client_info })
    }
}

/// The member names of the client's declaration differ from one another.
pub proof fn lemma_client_keys()
    ensures
        "roots"@ != "sampling"@,
        "roots"@ != "experimental"@,
        "sampling"@ != "experimental"@,
        "name"@ != "version"@,
        "protocolVersion"@ != "capabilities"@,
        "protocolVersion"@ != "clientInfo"@,
        "capabilities"@ != "clientInfo"@,
{
    reveal_strlit("roots");
    reveal_strlit("sampling");
    reveal_strlit("experimental");
    reveal_strlit("name");
    reveal_strlit("version");
    reveal_strlit("protocolVersion");
    reveal_strlit("capabilities");
    reveal_strlit("clientInfo");
    assert("roots"@.len() == 5);
    assert("sampling"@.len() == 8);
    assert("experimental"@.len() == 12);
    assert("name"@.len() == 4);
    assert("version"@.len() == 7);
    assert("protocolVersion"@.len() == 15);
    assert("capabilities"@.len() == 12);
    assert("clientInfo"@.len() == 10);
}

/// Decoding the JSON form of a declaration about roots gives it back.
pub proof fn lemma_client_roots_round_trip(c: ClientRootsCapabilities)
    ensures
        ClientRootsCapabilities::parse(c.render()) == Some(c),
{
}

/// Decoding the JSON form of a client's capabilities gives them back.
pub proof fn lemma_client_capabilities_round_trip(c: ClientCapabilitiesV)
    requires
        c.well_formed(),
    ensures
        ClientCapabilitiesV::parse(c.render()) == Some(c),
{
    lemma_client_keys();
    if c.roots is Some {
        lemma_client_roots_round_trip(c.roots->Some_0);
    }
}

/// Decoding the JSON form of a client's name and version gives them back.
pub proof fn lemma_client_info_round_trip(i: ClientInfoV)
    ensures
        ClientInfoV::parse(i.render()) == Some(i),
{
    lemma_client_keys();
}

/// Decoding the JSON form of the parameters of `initialize` gives them back.
pub proof fn lemma_initialize_params_round_trip(p: InitializeParamsV)
    requires
        p.capabilities.well_formed(),
    ensures
        InitializeParamsV::parse(p.render()) == Some(p),
{
    lemma_client_keys();
    lemma_client_capabilities_round_trip(p.capabilities);
    lemma_client_info_round_trip(p.client_info);
}

/// What a server says about logging: nothing yet.
#[derive(Clone, Copy, Debug, PartialEq, Eq)]
pub struct ServerLoggingCapabilities {}

/// What a server says about prompts.
#[derive(Clone, Copy, Debug, PartialEq, Eq)]
pub struct ServerPromptsCapabilities {
    pub list_changed: Option<bool>,
}

/// What a server says about resources.
#[derive(Clone, Copy, Debug, PartialEq, Eq)]
pub struct ServerResourcesCapabilities {
    pub subscribe: Option<bool>,
    pub list_changed: Option<bool>,
}

/// What a server says about tools.
#[derive(Clone, Copy, Debug, PartialEq, Eq)]
pub struct ServerToolsCapabilities {
    pub list_changed: Option<bool>,
}

/// What a server declares that it can do.
#[derive(Clone, Debug, PartialEq)]
pub struct ServerCapabilities {
    pub logging: Option<ServerLoggingCapabilities>,
    pub prompts: Option<ServerPromptsCapabilities>,
    pub resources: Option<ServerResourcesCapabilities>,
    pub tools: Option<ServerToolsCapabilities>,
    pub experimental: Option<serde_json::Value>,
}

/// The name and version of a server.
#[derive(Clone, Debug, PartialEq)]
pub struct ServerInfo {
    pub name: String,
    pub version: String,
}

/// The result of the `initialize` request.
#[derive(Clone, Debug, PartialEq)]
pub struct InitializeResult {
    pub protocol_version: String,
    pub capabilities: ServerCapabilities,
    pub server_info: ServerInfo,
    pub instructions: Option<String>,
}

/// A server's capabilities, as a mathematical value.
pub ghost struct ServerCapabilitiesV {
    pub logging: Option<ServerLoggingCapabilities>,
    pub prompts: Option<ServerPromptsCapabilities>,
    pub resources: Option<ServerResourcesCapabilities>,
    pub tools: Option<ServerToolsCapabilities>,
    pub experimental: Option<JsonV>,
}

/// A server's name and version, as a mathematical value.
pub ghost struct ServerInfoV {
    pub name: Seq<char>,
    pub version: Seq<char>,
}

/// The result of `initialize`, as a mathematical value.
pub ghost struct InitializeResultV {
    pub protocol_version: Seq<char>,
    pub capabilities: ServerCapabilitiesV,
    pub server_info: ServerInfoV,
    pub instructions: Option<Seq<char>>,
}

impl View for ServerCapabilities {
    type V = ServerCapabilitiesV;

    open spec fn view(&self) -> ServerCapabilitiesV {
        ServerCapabilitiesV {
            logging: self.logging,
            prompts: self.prompts,
            resources: self.resources,
            tools: self.tools,
            experimental: match self.experimental {
                Some(v) => Some(value_model(v)),
                None => None,
            },
        }
    }
}

impl View for ServerInfo {
    type V = ServerInfoV;

    open spec fn view(&self) -> ServerInfoV {
        ServerInfoV { name: self.name@, version: self.version@ }
    }
}

impl View for InitializeResult {
    type V = InitializeResultV;

    open spec fn view(&self) -> InitializeResultV {
        InitializeResultV {
            protocol_version: self.protocol_version@,
            capabilities: self.capabilities@,
            server_info: self.server_info@,
            instructions: optional_text_view(self.instructions),
        }
    }
}

impl ServerLoggingCapabilities {
    /// The JSON form of the declaration: an object without members.
    pub open spec fn render(self) -> JsonV {
        JsonV::empty_object()
    }

    /// The declaration that a document holds: any object will do.
    pub open spec fn parse(doc: JsonV) -> Option<ServerLoggingCapabilities> {
        if doc is Object {
            Some(ServerLoggingCapabilities {  })
        } else {
            None
        }
    }

    /// The JSON form of this declaration.
    pub fn to_value(&self) -> (out: serde_json::Value)
        ensures
            value_model(out) == self.render(),
    {
        value_object()
    }

    /// Reads the declaration.
    pub fn from_value(v: &serde_json::Value) -> (r: Result<ServerLoggingCapabilities, DecodeError>)
        ensures
            match r {
                Ok(c) => ServerLoggingCapabilities::parse(value_model(*v)) == Some(c),
                Err(e) => e == DecodeError::InvalidShape && ServerLoggingCapabilities::parse(
                    value_model(*v),
                ) is None,
            },
    {
        if value_is_object(v) {
            Ok(ServerLoggingCapabilities {  })
        } else {
            Err(DecodeError::InvalidShape)
        }
    }
}

impl ServerPromptsCapabilities {
    /// The JSON form of the declaration.
    pub open spec fn render(self) -> JsonV {
        JsonV::empty_object().with("listChanged"@, JsonV::from_optional_boolean(self.list_changed))
    }

    /// The declaration that a document holds.
    pub open spec fn parse(doc: JsonV) -> Option<ServerPromptsCapabilities> {
        match doc.optional_boolean("listChanged"@) {
            Some(list_changed) if doc is Object => Some(
                ServerPromptsCapabilities { list_changed },
            ),
            _ => None,
        }
    }

    /// The JSON form of this declaration.
    pub fn to_value(&self) -> (out: serde_json::Value)
        ensures
            value_model(out) == self.render(),
    {
        let mut out = value_object();
        value_insert(&mut out, "listChanged", optional_bool_value(self.list_changed));
        out
    }

    /// Reads the declaration.
    pub fn from_value(v: &serde_json::Value) -> (r: Result<ServerPromptsCapabilities, DecodeError>)
        ensures
            match r {
                Ok(c) => ServerPromptsCapabilities::parse(value_model(*v)) == Some(c),
                Err(e) => e == DecodeError::InvalidShape && ServerPromptsCapabilities::parse(
                    value_model(*v),
                ) is None,
            },
    {
        if !value_is_object(v) {
            return Err(DecodeError::InvalidShape);
        }
        match get_optional_bool(v, "listChanged") {
            Some(list_changed) => Ok(ServerPromptsCapabilities { list_changed }),
            None => Err(DecodeError::InvalidShape),
        }
    }
}

impl ServerResourcesCapabilities {
    /// The JSON form of the declaration.
    pub open spec fn render(self) -> JsonV {
        JsonV::empty_object().with(
            "subscribe"@,
            JsonV::from_optional_boolean(self.subscribe),
        ).with("listChanged"@, JsonV::from_optional_boolean(self.list_changed))
    }

    /// The declaration that a document holds.
    pub open spec fn parse(doc: JsonV) -> Option<ServerResourcesCapabilities> {
        match (doc.optional_boolean("subscribe"@), doc.optional_boolean("listChanged"@)) {
            (Some(subscribe), Some(list_changed)) if doc is Object => Some(
                ServerResourcesCapabilities { subscribe, list_changed },
            ),
            _ => None,
        }
    }

    /// The JSON form of this declaration.
    pub fn to_value(&self) -> (out: serde_json::Value)
        ensures
            value_model(out) == self.render(),
    {
        let mut out = value_object();
        value_insert(&mut out, "subscribe", optional_bool_value(self.subscribe));
        value_insert(&mut out, "listChanged", optional_bool_value(self.list_changed));
        out
    }

    /// Reads the declaration.
    pub fn from_value(v: &serde_json::Value) -> (r: Result<
        ServerResourcesCapabilities,
        DecodeError,
    >)
        ensures
            match r {
                Ok(c) => ServerResourcesCapabilities::parse(value_model(*v)) == Some(c),
                Err(e) => e == DecodeError::InvalidShape && ServerResourcesCapabilities::parse(
                    value_model(*v),
                ) is None,
            },
    {
        if !value_is_object(v) {
            return Err(DecodeError::InvalidShape);
        }
        match (get_optional_bool(v, "subscribe"), get_optional_bool(v, "listChanged")) {
            (Some(subscribe), Some(list_changed)) => Ok(
                ServerResourcesCapabilities { subscribe, list_changed },
            ),
            _ => Err(DecodeError::InvalidShape),
        }
    }
}

impl ServerToolsCapabilities {
    /// The JSON form of the declaration.
    pub open spec fn render(self) -> JsonV {
        JsonV::empty_object().with("listChanged"@, JsonV::from_optional_boolean(self.list_changed))
    }

    /// The declaration that a document holds.
    pub open spec fn parse(doc: JsonV) -> Option<ServerToolsCapabilities> {
        match doc.optional_boolean("listChanged"@) {
            Some(list_changed) if doc is Object => Some(ServerToolsCapabilities { list_changed }),
            _ => None,
        }
    }

    /// The JSON form of this declaration.
    pub fn to_value(&self) -> (out: serde_json::Value)
        ensures
            value_model(out) == self.render(),
    {
        let mut out = value_object();
        value_insert(&mut out, "listChanged", optional_bool_value(self.list_changed));
        out
    }

    /// Reads the declaration.
    pub fn from_value(v: &serde_json::Value) -> (r: Result<ServerToolsCapabilities, DecodeError>)
        ensures
            match r {
                Ok(c) => ServerToolsCapabilities::parse(value_model(*v)) == Some(c),
                Err(e) => e == DecodeError::InvalidShape && ServerToolsCapabilities::parse(
                    value_model(*v),
                ) is None,
            },
    {
        if !value_is_object(v) {
            return Err(DecodeError::InvalidShape);
        }
        match get_optional_bool(v, "listChanged") {
            Some(list_changed) => Ok(ServerToolsCapabilities { list_changed }),
            None => Err(DecodeError::InvalidShape),
        }
    }
}

impl ServerCapabilitiesV {
    /// The JSON form of the capabilities; `null` stands for each part that is
    /// missing.
    pub open spec fn render(self) -> JsonV {
        JsonV::empty_object().with(
            "logging"@,
            match self.logging {
                Some(c) => c.render(),
                None => JsonV::Null,
            },
        ).with(
            "prompts"@,
            match self.prompts {
                Some(c) => c.render(),
                None => JsonV::Null,
            },
        ).with(
            "resources"@,
            match self.resources {
                Some(c) => c.render(),
                None => JsonV::Null,
            },
        ).with(
            "tools"@,
            match self.tools {
                Some(c) => c.render(),
                None => JsonV::Null,
            },
        ).with("experimental"@, render_optional(self.experimental))
    }

    /// The capabilities that a document holds. Each part may be missing.
    pub open spec fn parse(doc: JsonV) -> Option<ServerCapabilitiesV> {
        let logging = match doc.optional_member("logging"@) {
            Some(d) => match ServerLoggingCapabilities::parse(d) {
                Some(c) => Some(Some(c)),
                None => None,
            },
            None => Some(None),
        };
        let prompts = match doc.optional_member("prompts"@) {
            Some(d) => match ServerPromptsCapabilities::parse(d) {
                Some(c) => Some(Some(c)),
                None => None,
            },
            None => Some(None),
        };
        let resources = match doc.optional_member("resources"@) {
            Some(d) => match ServerResourcesCapabilities::parse(d) {
                Some(c) => Some(Some(c)),
                None => None,
            },
            None => Some(None),
        };
        let tools = match doc.optional_member("tools"@) {
            Some(d) => match ServerToolsCapabilities::parse(d) {
                Some(c) => Some(Some(c)),
                None => None,
            },
            None => Some(None),
        };
        match (logging, prompts, resources, tools) {
            (Some(logging), Some(prompts), Some(resources), Some(tools)) if doc is Object => Some(
                ServerCapabilitiesV {
                    logging,
                    prompts,
                    resources,
                    tools,
                    experimental: doc.optional_member("experimental"@),
                },
            ),
            _ => None,
        }
    }

    /// Whether the capabilities are what reading their JSON form gives: an
    /// experimental part, where there is one, is not `null`.
    pub open spec fn well_formed(self) -> bool {
        !(self.experimental matches Some(JsonV::Null))
    }
}

impl ServerCapabilities {
    /// The JSON form of these capabilities.
    pub fn to_value(&self) -> (out: serde_json::Value)
        ensures
            value_model(out) == self@.render(),
    {
        let mut out = value_object();
        let logging = match &self.logging {
            Some(c) => c.to_value(),
            None => value_null(),
        };
        value_insert(&mut out, "logging", logging);
        let prompts = match &self.prompts {
            Some(c) => c.to_value(),
            None => value_null(),
        };
        value_insert(&mut out, "prompts", prompts);
        let resources = match &self.resources {
            Some(c) => c.to_value(),
            None => value_null(),
        };
        value_insert(&mut out, "resources", resources);
        let tools = match &self.tools {
            Some(c) => c.to_value(),
            None => value_null(),
        };
        value_insert(&mut out, "tools", tools);
        let experimental = match &self.experimental {
            Some(e) => e.clone(),
            None => value_null(),
        };
        value_insert(&mut out, "experimental", experimental);
        out
    }

    /// Reads the capabilities.
    pub fn from_value(v: &serde_json::Value) -> (r: Result<ServerCapabilities, DecodeError>)
        ensures
            match r {
                Ok(c) => ServerCapabilitiesV::parse(value_model(*v)) == Some(c@),
                Err(e) => e == DecodeError::InvalidShape && ServerCapabilitiesV::parse(
                    value_model(*v),
                ) is None,
            },
    {
        if !value_is_object(v) {
            return Err(DecodeError::InvalidShape);
        }
        let logging = match get_optional(v, "logging") {
            Some(d) => match ServerLoggingCapabilities::from_value(d) {
                Ok(c) => Some(c),
                Err(e) => {
                    return Err(e);
                },
            },
            None => None,
        };
        let prompts = match get_optional(v, "prompts") {
            Some(d) => match ServerPromptsCapabilities::from_value(d) {
                Ok(c) => Some(c),
                Err(e) => {
                    return Err(e);
                },
            },
            None => None,
        };
        let resources = match get_optional(v, "resources") {
            Some(d) => match ServerResourcesCapabilities::from_value(d) {
                Ok(c) => Some(c),
                Err(e) => {
                    return Err(e);
                },
            },
            None => None,
        };
        let tools = match get_optional(v, "tools") {
            Some(d) => match ServerToolsCapabilities::from_value(d) {
                Ok(c) => Some(c),
                Err(e) => {
                    return Err(e);
                },
            },
            None => None,
        };
        let experimental = match get_optional(v, "experimental") {
            Some(d) => Some(d.clone()),
            None => None,
        };
        Ok(ServerCapabilities { logging, prompts, resources, tools, experimental })
    }
}

impl ServerInfoV {
    /// The JSON form of the server's name and version.
    pub open spec fn render(self) -> JsonV {
        JsonV::empty_object().with("name"@, JsonV::Str(self.name)).with(
            "version"@,
            JsonV::Str(self.version),
        )
    }

    /// The name and version that a document holds.
    pub open spec fn parse(doc: JsonV) -> Option<ServerInfoV> {
        match (doc.text_member("name"@), doc.text_member("version"@)) {
            (Some(name), Some(version)) => Some(ServerInfoV { name, version }),
            _ => None,
        }
    }
}

impl ServerInfo {
    /// The JSON form of this name and version.
    pub fn to_value(&self) -> (out: serde_json::Value)
        ensures
            value_model(out) == self@.render(),
    {
        let mut out = value_object();
        value_insert(&mut out, "name", value_string(self.name.as_str()));
        value_insert(&mut out, "version", value_string(self.version.as_str()));
        out
    }

    /// Reads a name and version.
    pub fn from_value(v: &serde_json::Value) -> (r: Result<ServerInfo, DecodeError>)
        ensures
            match r {
                Ok(c) => ServerInfoV::parse(value_model(*v)) == Some(c@),
                Err(e) => e == DecodeError::InvalidShape && ServerInfoV::parse(value_model(*v))
                    is None,
            },
    {
        match (get_str(v, "name"), get_str(v, "version")) {
            (Some(name), Some(version)) => Ok(
                ServerInfo { name: name.to_owned(), version: version.to_owned() },
            ),
            _ => Err(DecodeError::InvalidShape),
        }
    }
}

impl InitializeResultV {
    /// The JSON form of the result.
    pub open spec fn render(self) -> JsonV {
        JsonV::empty_object().with("protocolVersion"@, JsonV::Str(self.protocol_version)).with(
            "capabilities"@,
            self.capabilities.render(),
        ).with("serverInfo"@, self.server_info.render()).with(
            "instructions"@,
            JsonV::from_optional_text(self.instructions),
        )
    }

    /// The result that a document holds.
    pub open spec fn parse(doc: JsonV) -> Option<InitializeResultV> {
        match (
            doc.text_member("protocolVersion"@),
            doc.member("capabilities"@),
            doc.member("serverInfo"@),
            doc.optional_text("instructions"@),
        ) {
            (Some(protocol_version), Some(c), Some(i), Some(instructions)) => match (
                ServerCapabilitiesV::parse(c),
                ServerInfoV::parse(i),
            ) {
                (Some(capabilities), Some(server_info)) => Some(
                    InitializeResultV { protocol_version, capabilities, server_info, instructions },
                ),
                _ => None,
            },
            _ => None,
        }
    }
}

impl InitializeResult {
    /// The JSON form of this result.
    pub fn to_value(&self) -> (out: serde_json::Value)
        ensures
            value_model(out) == self@.render(),
    {
        let mut out = value_object();
        value_insert(&mut out, "protocolVersion", value_string(self.protocol_version.as_str()));
        value_insert(&mut out, "capabilities", self.capabilities.to_value());
        value_insert(&mut out, "serverInfo", self.server_info.to_value());
        value_insert(&mut out, "instructions", optional_str_value(&self.instructions));
        out
    }

    /// Reads the result.
    pub fn from_value(v: &serde_json::Value) -> (r: Result<InitializeResult, DecodeError>)
        ensures
            match r {
                Ok(p) => InitializeResultV::parse(value_model(*v)) == Some(p@),
                Err(e) => e == DecodeError::InvalidShape && InitializeResultV::parse(
                    value_model(*v),
                ) is None,
            },
    {
        let protocol_version = match get_str(v, "protocolVersion") {
            Some(s) => s,
            None => {
                return Err(DecodeError::InvalidShape);
            },
        };
        let capabilities = match value_get(v, "capabilities") {
            Some(c) => match ServerCapabilities::from_value(c) {
                Ok(c) => c,
                Err(e) => {
                    return Err(e);
                },
            },
            None => {
                return Err(DecodeError::InvalidShape);
            },
        };
        let server_info = match value_get(v, "serverInfo") {
            Some(i) => match ServerInfo::from_value(i) {
                Ok(i) => i,
                Err(e) => {
                    return Err(e);
                },
            },
            None => {
                return Err(DecodeError::InvalidShape);
            },
        };
        let instructions = match get_optional_str(v, "instructions") {
            Some(Some(s)) => Some(s.to_owned()),
            Some(None) => None,
            None => {
                return Err(DecodeError::InvalidShape);
            },
        };
        Ok(
            InitializeResult {
                protocol_version: protocol_version.to_owned(),
                capabilities,
                server_info,
                instructions,
            },
        )
    }
}

/// The member names of the server's declaration differ from one another.
pub proof fn lemma_server_keys()
    ensures
        "subscribe"@ != "listChanged"@,
        "logging"@ != "prompts"@,
        "logging"@ != "resources"@,
        "logging"@ != "tools"@,
        "logging"@ != "experimental"@,
        "prompts"@ != "resources"@,
        "prompts"@ != "tools"@,
        "prompts"@ != "experimental"@,
        "resources"@ != "tools"@,
        "resources"@ != "experimental"@,
        "tools"@ != "experimental"@,
        "name"@ != "version"@,
        "protocolVersion"@ != "capabilities"@,
        "protocolVersion"@ != "serverInfo"@,
        "protocolVersion"@ != "instructions"@,
        "capabilities"@ != "serverInfo"@,
        "capabilities"@ != "instructions"@,
        "serverInfo"@ != "instructions"@,
{
    reveal_strlit("subscribe");
    reveal_strlit("listChanged");
    reveal_strlit("logging");
    reveal_strlit("prompts");
    reveal_strlit("resources");
    reveal_strlit("tools");
    reveal_strlit("experimental");
    reveal_strlit("name");
    reveal_strlit("version");
    reveal_strlit("protocolVersion");
    reveal_strlit("capabilities");
    reveal_strlit("serverInfo");
    reveal_strlit("instructions");
    assert("subscribe"@.len() == 9);
    assert("listChanged"@.len() == 11);
    assert("logging"@.len() == 7 && "logging"@[0] == 'l');
    assert("prompts"@.len() == 7 && "prompts"@[0] == 'p');
    assert("resources"@.len() == 9);
    assert("tools"@.len() == 5);
    assert("experimental"@.len() == 12);
    assert("name"@.len() == 4);
    assert("version"@.len() == 7);
    assert("protocolVersion"@.len() == 15);
    assert("capabilities"@.len() == 12 && "capabilities"@[0] == 'c');
    assert("serverInfo"@.len() == 10);
    assert("instructions"@.len() == 12 && "instructions"@[0] == 'i');
}

/// Decoding the JSON form of a server's capabilities gives them back.
pub proof fn lemma_server_capabilities_round_trip(c: ServerCapabilitiesV)
    requires
        c.well_formed(),
    ensures
        ServerCapabilitiesV::parse(c.render()) == Some(c),
{
    lemma_server_keys();
}

/// Decoding the JSON form of a server's name and version gives them back.
pub proof fn lemma_server_info_round_trip(i: ServerInfoV)
    ensures
        ServerInfoV::parse(i.render()) == Some(i),
{
    lemma_server_keys();
}

/// Decoding the JSON form of the result of `initialize` gives it back.
pub proof fn lemma_initialize_result_round_trip(r: InitializeResultV)
    requires
        r.capabilities.well_formed(),
    ensures
        InitializeResultV::parse(r.render()) == Some(r),
{
    lemma_server_keys();
    lemma_server_capabilities_round_trip(r.capabilities);
    lemma_server_info_round_trip(r.server_info);
}

} // verus!
