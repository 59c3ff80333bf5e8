//! Tools: their definitions, the parameters and results of listing and
//! calling them, and the interface that a tool implements.

use vstd::prelude::*;
use crate::json::{
    get_i64, get_optional_str, get_str, optional_str_value, value_array, value_as_array,
    value_as_bool, value_bool, value_get, value_i64, value_insert, value_is_object,
    value_model, value_object, value_remove, value_string, models, JsonV,
};
use crate::jsonrpc::DecodeError;

verus! {

/// The parameters of the arithmetic demonstration method.
#[derive(Clone, Copy, Debug, PartialEq, Eq, Structural)]
pub struct AddParams {
    pub a: i64,
    pub b: i64,
}

/// The definition of a tool.
#[derive(Clone, Debug, PartialEq)]
pub struct Tool {
    pub name: String,
    pub description: String,
    pub input_schema: serde_json::Value,
}

/// The parameters of listing the tools.
#[derive(Clone, Debug, PartialEq)]
pub struct ToolsListParams {
    pub cursor: Option<String>,
}

/// The result of listing the tools.
#[derive(Clone, Debug, PartialEq)]
pub struct ToolsListResult {
    pub tools: Vec<Tool>,
    pub next_cursor: Option<String>,
}

/// The parameters of calling a tool.
#[derive(Clone, Debug, PartialEq)]
pub struct ToolsCallParams {
    pub name: String,
    pub arguments: serde_json::Value,
}

/// One item of a tool's output: its type, and the members that belong to
/// items of that type.
#[derive(Clone, Debug, PartialEq)]
pub struct ToolContent {
    pub content_type: String,
    pub content: serde_json::Value,
}

/// The result of calling a tool.
#[derive(Clone, Debug, PartialEq)]
pub struct ToolsCallResult {
    pub content: Vec<ToolContent>,
    pub is_error: bool,
}

/// What a tool offers: its definition, and its execution on given arguments.
///
/// A tool may say in `may_define` and `may_return` what it gives; a tool that
/// says nothing may give anything.
pub trait ToolImplementation {
    /// Whether `tool` is a definition that the tool may give of itself.
    open spec fn may_define(&self, tool: ToolV) -> bool {
        true
    }

    /// Whether `result` is a result that the tool may return for `arguments`.
    open spec fn may_return(&self, arguments: JsonV, result: ToolsCallResultV) -> bool {
        true
    }

    /// The definition of the tool: name, description and input schema.
    fn get_tool(&self) -> (r: Tool)
        ensures
            self.may_define(r@),
    ;

    /// Runs the tool. A failure is reported in the result, with its error
    /// flag set.
    fn call(&self, arguments: serde_json::Value) -> (r: ToolsCallResult)
        ensures
            self.may_return(value_model(arguments), r@),
    ;
}

/// A boxed tool is a tool, so that tools of different types can stand in one
/// registry. It gives what the tool in the box gives.
impl ToolImplementation for Box<dyn ToolImplementation> {
    open spec fn may_define(&self, tool: ToolV) -> bool {
        (**self).may_define(tool)
    }

    open spec fn may_return(&self, arguments: JsonV, result: ToolsCallResultV) -> bool {
        (**self).may_return(arguments, result)
    }

    fn get_tool(&self) -> (r: Tool) {
        (**self).get_tool()
    }

    fn call(&self, arguments: serde_json::Value) -> (r: ToolsCallResult) {
        (**self).call(arguments)
    }
}

/// A tool definition, as a mathematical value.
pub ghost struct ToolV {
    pub name: Seq<char>,
    pub description: Seq<char>,
    pub input_schema: JsonV,
}

/// The parameters of `tools/list`, as a mathematical value.
pub ghost struct ToolsListParamsV {
    pub cursor: Option<Seq<char>>,
}

/// The result of `tools/list`, as a mathematical value.
pub ghost struct ToolsListResultV {
    pub tools: Seq<ToolV>,
    pub next_cursor: Option<Seq<char>>,
}

/// The parameters of `tools/call`, as a mathematical value.
pub ghost struct ToolsCallParamsV {
    pub name: Seq<char>,
    pub arguments: JsonV,
}

/// An output item, as a mathematical value.
pub ghost struct ToolContentV {
    pub content_type: Seq<char>,
    pub content: JsonV,
}

/// The result of `tools/call`, as a mathematical value.
pub ghost struct ToolsCallResultV {
    pub content: Seq<ToolContentV>,
    pub is_error: bool,
}

/// A text that may be missing, as a mathematical value.
pub open spec fn optional_text_view(text: Option<String>) -> Option<Seq<char>> {
    match text {
        Some(s) => Some(s@),
        None => None,
    }
}

impl View for Tool {
    type V = ToolV;

    open spec fn view(&self) -> ToolV {
        ToolV {
            name: self.name@,
            description: self.description@,
            input_schema: value_model(self.input_schema),
        }
    }
}

impl View for ToolsListParams {
    type V = ToolsListParamsV;

    open spec fn view(&self) -> ToolsListParamsV {
        ToolsListParamsV { cursor: optional_text_view(self.cursor) }
    }
}

/// The definitions of a sequence of tools, item by item.
pub open spec fn tool_views(tools: Seq<Tool>) -> Seq<ToolV> {
    Seq::new(tools.len(), |i: int| tools[i]@)
}

impl View for ToolsListResult {
    type V = ToolsListResultV;

    open spec fn view(&self) -> ToolsListResultV {
        ToolsListResultV {
            tools: tool_views(self.tools@),
            next_cursor: optional_text_view(self.next_cursor),
        }
    }
}

impl View for ToolsCallParams {
    type V = ToolsCallParamsV;

    open spec fn view(&self) -> ToolsCallParamsV {
        ToolsCallParamsV { name: self.name@, arguments: value_model(self.arguments) }
    }
}

impl View for ToolContent {
    type V = ToolContentV;

    open spec fn view(&self) -> ToolContentV {
        ToolContentV { content_type: self.content_type@, content: value_model(self.content) }
    }
}

/// The items of a sequence of tool output, item by item.
pub open spec fn content_views(items: Seq<ToolContent>) -> Seq<ToolContentV> {
    Seq::new(items.len(), |i: int| items[i]@)
}

impl View for ToolsCallResult {
    type V = ToolsCallResultV;

    open spec fn view(&self) -> ToolsCallResultV {
        ToolsCallResultV { content: content_views(self.content@), is_error: self.is_error }
    }
}

impl AddParams {
    /// The JSON form of the parameters.
    pub open spec fn render(self) -> JsonV {
        JsonV::empty_object().with("a"@, JsonV::Int(self.a as int)).with(
            "b"@,
            JsonV::Int(self.b as int),
        )
    }

    /// The parameters that a document holds.
    pub open spec fn parse(doc: JsonV) -> Option<AddParams> {
        match (doc.signed_member("a"@), doc.signed_member("b"@)) {
            (Some(a), Some(b)) => Some(AddParams { a, b }),
            _ => None,
        }
    }

    /// The JSON form of these parameters.
    pub fn to_value(&self) -> (out: serde_json::Value)
        ensures
            value_model(out) == self.render(),
    {
        let mut out = value_object();
        value_insert(&mut out, "a", value_i64(self.a));
        value_insert(&mut out, "b", value_i64(self.b));
        out
    }

    /// Reads the parameters.
    pub fn from_value(v: &serde_json::Value) -> (r: Result<AddParams, DecodeError>)
        ensures
            match r {
                Ok(p) => AddParams::parse(value_model(*v)) == Some(p),
                Err(e) => e == DecodeError::InvalidShape && AddParams::parse(value_model(*v))
                    is None,
            },
    {
        match (get_i64(v, "a"), get_i64(v, "b")) {
            (Some(a), Some(b)) => Ok(AddParams { a, b }),
            _ => Err(DecodeError::InvalidShape),
        }
    }
}

impl ToolV {
    /// The JSON form of a tool definition.
    pub open spec fn render(self) -> JsonV {
        JsonV::empty_object().with("name"@, JsonV::Str(self.name)).with(
            "description"@,
            JsonV::Str(self.description),
        ).with("inputSchema"@, self.input_schema)
    }

    /// The tool definition that a document holds.
    pub open spec fn parse(doc: JsonV) -> Option<ToolV> {
        match (
            doc.text_member("name"@),
            doc.text_member("description"@),
            doc.member("inputSchema"@),
        ) {
            (Some(name), Some(description), Some(input_schema)) => Some(
                ToolV { name, description, input_schema },
            ),
            _ => None,
        }
    }
}

impl Tool {
    /// A copy of this definition.
    pub fn duplicate(&self) -> (r: Tool)
        ensures
            r@ == self@,
    {
        Tool {
            name: self.name.clone(),
            description: self.description.clone(),
            input_schema: self.input_schema.clone(),
        }
    }

    /// The JSON form of this definition.
    pub fn to_value(&self) -> (out: serde_json::Value)
        ensures
            value_model(out) == self@.render(),
    {
        let mut out = value_object();
        value_insert(&mut out, "name", value_string(self.name.as_str()));
        value_insert(&mut out, "description", value_string(self.description.as_str()));
        value_insert(&mut out, "inputSchema", self.input_schema.clone());
        out
    }

    /// Reads a tool definition.
    pub fn from_value(v: &serde_json::Value) -> (r: Result<Tool, DecodeError>)
        ensures
            match r {
                Ok(t) => ToolV::parse(value_model(*v)) == Some(t@),
                Err(e) => e == DecodeError::InvalidShape && ToolV::parse(value_model(*v)) is None,
            },
    {
        match (get_str(v, "name"), get_str(v, "description"), value_get(v, "inputSchema")) {
            (Some(name), Some(description), Some(schema)) => Ok(
                Tool {
                    name: name.to_owned(),
                    description: description.to_owned(),
                    input_schema: schema.clone(),
                },
            ),
            _ => Err(DecodeError::InvalidShape),
        }
    }
}

impl ToolsListParamsV {
    /// The JSON form of the parameters.
    pub open spec fn render(self) -> JsonV {
        JsonV::empty_object().with("cursor"@, JsonV::from_optional_text(self.cursor))
    }

    /// The parameters that a document holds. The cursor may be missing.
    pub open spec fn parse(doc: JsonV) -> Option<ToolsListParamsV> {
        match doc.optional_text("cursor"@) {
            Some(cursor) if doc is Object => Some(ToolsListParamsV { cursor }),
            _ => None,
        }
    }
}

impl ToolsListParams {
    /// The JSON form of these parameters.
    pub fn to_value(&self) -> (out: serde_json::Value)
        ensures
            value_model(out) == self@.render(),
    {
        let mut out = value_object();
        value_insert(&mut out, "cursor", optional_str_value(&self.cursor));
        out
    }

    /// Reads the parameters.
    pub fn from_value(v: &serde_json::Value) -> (r: Result<ToolsListParams, DecodeError>)
        ensures
            match r {
                Ok(p) => ToolsListParamsV::parse(value_model(*v)) == Some(p@),
                Err(e) => e == DecodeError::InvalidShape && ToolsListParamsV::parse(
                    value_model(*v),
                ) is None,
            },
    {
        if !value_is_object(v) {
            return Err(DecodeError::InvalidShape);
        }
        match get_optional_str(v, "cursor") {
            Some(Some(cursor)) => Ok(ToolsListParams { cursor: Some(cursor.to_owned()) }),
            Some(None) => Ok(ToolsListParams { cursor: None }),
            None => Err(DecodeError::InvalidShape),
        }
    }
}

/// The JSON forms of a sequence of tool definitions, item by item.
pub open spec fn render_tools(tools: Seq<ToolV>) -> Seq<JsonV> {
    Seq::new(tools.len(), |i: int| tools[i].render())
}

/// The tool definitions that a sequence of documents holds, where each holds
/// one.
pub open spec fn parse_tools(docs: Seq<JsonV>) -> Option<Seq<ToolV>> {
    if forall|i: int| 0 <= i < docs.len() ==> (#[trigger] ToolV::parse(docs[i])) is Some {
        Some(Seq::new(docs.len(), |i: int| ToolV::parse(docs[i])->Some_0))
    } else {
        None
    }
}

impl ToolsListResultV {
    /// The JSON form of the result.
    pub open spec fn render(self) -> JsonV {
        JsonV::empty_object().with("tools"@, JsonV::Array(render_tools(self.tools))).with(
            "nextCursor"@,
            JsonV::from_optional_text(self.next_cursor),
        )
    }

    /// The result that a document holds.
    pub open spec fn parse(doc: JsonV) -> Option<ToolsListResultV> {
        match (doc.member("tools"@), doc.optional_text("nextCursor"@)) {
            (Some(JsonV::Array(docs)), Some(next_cursor)) => match parse_tools(docs) {
                Some(tools) => Some(ToolsListResultV { tools, next_cursor }),
                None => None,
            },
            _ => None,
        }
    }
}

/// The JSON forms of the definitions in `tools`, in order.
pub fn tools_to_values(tools: &Vec<Tool>) -> (out: Vec<serde_json::Value>)
    ensures
        models(out@) == render_tools(tool_views(tools@)),
{
    let mut out: Vec<serde_json::Value> = Vec::new();
    let mut i: usize = 0;
    while i < tools.len()
        invariant
            i <= tools.len(),
            out.len() == i,
            forall|j: int| 0 <= j < i ==> value_model(#[trigger] out@[j]) == tools@[j]@.render(),
        decreases tools.len() - i,
    {
        out.push(tools[i].to_value());
        i += 1;
    }
    assert(models(out@) =~= render_tools(tool_views(tools@)));
    out
}

impl ToolsListResult {
    /// The JSON form of this result.
    pub fn to_value(&self) -> (out: serde_json::Value)
        ensures
            value_model(out) == self@.render(),
    {
        let mut out = value_object();
        value_insert(&mut out, "tools", value_array(tools_to_values(&self.tools)));
        value_insert(&mut out, "nextCursor", optional_str_value(&self.next_cursor));
        out
    }

    /// Reads the result.
    pub fn from_value(v: &serde_json::Value) -> (r: Result<ToolsListResult, DecodeError>)
        ensures
            match r {
                Ok(p) => ToolsListResultV::parse(value_model(*v)) == Some(p@),
                Err(e) => e == DecodeError::InvalidShape && ToolsListResultV::parse(
                    value_model(*v),
                ) is None,
            },
    {
        let docs = match value_get(v, "tools") {
            Some(item) => match value_as_array(item) {
                Some(docs) => docs,
                None => {
                    return Err(DecodeError::InvalidShape);
                },
            },
            None => {
                return Err(DecodeError::InvalidShape);
            },
        };
        let next_cursor = match get_optional_str(v, "nextCursor") {
            Some(Some(cursor)) => Some(cursor.to_owned()),
            Some(None) => None,
            None => {
                return Err(DecodeError::InvalidShape);
            },
        };
        let mut tools: Vec<Tool> = Vec::new();
        let mut i: usize = 0;
        while i < docs.len()
            invariant
                i <= docs.len(),
                tools.len() == i,
                value_model(*v).member("tools"@) == Some(JsonV::Array(models(docs@))),
                forall|j: int|
                    0 <= j < i ==> ToolV::parse(value_model(#[trigger] docs@[j])) == Some(
                        tools@[j]@,
                    ),
            decreases docs.len() - i,
        {
            match Tool::from_value(&docs[i]) {
                Ok(tool) => {
                    tools.push(tool);
                },
                Err(e) => {
                    assert(ToolV::parse(models(docs@)[i as int]) is None);
                    return Err(e);
                },
            }
            i += 1;
        }
        proof {
            assert forall|j: int| 0 <= j < models(docs@).len() implies (#[trigger] ToolV::parse(
                models(docs@)[j],
            )) is Some by {
                assert(ToolV::parse(value_model(docs@[j])) is Some);
            }
            assert(parse_tools(models(docs@))->Some_0 =~= tool_views(tools@));
        }
        Ok(ToolsListResult { tools, next_cursor })
    }
}

impl ToolsCallParamsV {
    /// The JSON form of the parameters.
    pub open spec fn render(self) -> JsonV {
        JsonV::empty_object().with("name"@, JsonV::Str(self.name)).with(
            "arguments"@,
            self.arguments,
        )
    }

    /// The parameters that a document holds.
    pub open spec fn parse(doc: JsonV) -> Option<ToolsCallParamsV> {
        match (doc.text_member("name"@), doc.member("arguments"@)) {
            (Some(name), Some(arguments)) => Some(ToolsCallParamsV { name, arguments }),
            _ => None,
        }
    }
}

impl ToolsCallParams {
    /// The JSON form of these parameters.
    pub fn to_value(&self) -> (out: serde_json::Value)
        ensures
            value_model(out) == self@.render(),
    {
        let mut out = value_object();
        value_insert(&mut out, "name", value_string(self.name.as_str()));
        value_insert(&mut out, "arguments", self.arguments.clone());
        out
    }

    /// Reads the parameters.
    pub fn from_value(v: &serde_json::Value) -> (r: Result<ToolsCallParams, DecodeError>)
        ensures
            match r {
                Ok(p) => ToolsCallParamsV::parse(value_model(*v)) == Some(p@),
                Err(e) => e == DecodeError::InvalidShape && ToolsCallParamsV::parse(
                    value_model(*v),
                ) is None,
            },
    {
        match (get_str(v, "name"), value_get(v, "arguments")) {
            (Some(name), Some(arguments)) => Ok(
                ToolsCallParams { name: name.to_owned(), arguments: arguments.clone() },
            ),
            _ => Err(DecodeError::InvalidShape),
        }
    }
}

impl ToolContentV {
    /// Whether the item has a JSON form: its members are an object.
    pub open spec fn encodable(self) -> bool {
        self.content is Object
    }

    /// Whether the item is what reading its JSON form gives: its members are
    /// an object, none of them named `type`.
    pub open spec fn well_formed(self) -> bool {
        self.content is Object && self.content.member("type"@) is None
    }

    /// The JSON form of an item: its members, and its type as the member
    /// `type`.
    pub open spec fn render(self) -> JsonV {
        self.content.with("type"@, JsonV::Str(self.content_type))
    }

    /// The item that a document holds.
    pub open spec fn parse(doc: JsonV) -> Option<ToolContentV> {
        match doc.text_member("type"@) {
            Some(content_type) => Some(
                ToolContentV { content_type, content: doc.without("type"@) },
            ),
            None => None,
        }
    }

    /// The item of type `text` with this text.
    pub open spec fn text(text: Seq<char>) -> ToolContentV {
        ToolContentV {
            content_type: "text"@,
            content: JsonV::empty_object().with("text"@, JsonV::Str(text)),
        }
    }
}

impl ToolContent {
    /// The JSON form of this item, if it has one.
    pub fn to_value(&self) -> (r: Option<serde_json::Value>)
        ensures
            match r {
                Some(out) => self@.encodable() && value_model(out) == self@.render(),
                None => !self@.encodable(),
            },
    {
        if !value_is_object(&self.content) {
            return None;
        }
        let mut out = self.content.clone();
        value_insert(&mut out, "type", value_string(self.content_type.as_str()));
        Some(out)
    }

    /// Reads an item.
    pub fn from_value(v: &serde_json::Value) -> (r: Result<ToolContent, DecodeError>)
        ensures
            match r {
                Ok(c) => ToolContentV::parse(value_model(*v)) == Some(c@),
                Err(e) => e == DecodeError::InvalidShape && ToolContentV::parse(value_model(*v))
                    is None,
            },
    {
        match get_str(v, "type") {
            Some(content_type) => {
                let mut content = v.clone();
                value_remove(&mut content, "type");
                Ok(ToolContent { content_type: content_type.to_owned(), content })
            },
            None => Err(DecodeError::InvalidShape),
        }
    }
}

/// The JSON forms of a sequence of output items, item by item.
pub open spec fn render_contents(items: Seq<ToolContentV>) -> Seq<JsonV> {
    Seq::new(items.len(), |i: int| items[i].render())
}

/// The output items that a sequence of documents holds, where each holds one.
pub open spec fn parse_contents(docs: Seq<JsonV>) -> Option<Seq<ToolContentV>> {
    if forall|i: int| 0 <= i < docs.len() ==> (#[trigger] ToolContentV::parse(docs[i])) is Some {
        Some(Seq::new(docs.len(), |i: int| ToolContentV::parse(docs[i])->Some_0))
    } else {
        None
    }
}

impl ToolsCallResultV {
    /// Whether the result has a JSON form: each of its items has one.
    pub open spec fn encodable(self) -> bool {
        forall|i: int| 0 <= i < self.content.len() ==> (#[trigger] self.content[i]).encodable()
    }

    /// Whether the result is what reading its JSON form gives.
    pub open spec fn well_formed(self) -> bool {
        forall|i: int| 0 <= i < self.content.len() ==> (#[trigger] self.content[i]).well_formed()
    }

    /// The JSON form of a result.
    pub open spec fn render(self) -> JsonV {
        JsonV::empty_object().with("content"@, JsonV::Array(render_contents(self.content))).with(
            "isError"@,
            JsonV::Bool(self.is_error),
        )
    }

    /// The result that a document holds.
    pub open spec fn parse(doc: JsonV) -> Option<ToolsCallResultV> {
        match (doc.member("content"@), doc.member("isError"@)) {
            (Some(JsonV::Array(docs)), Some(JsonV::Bool(is_error))) => match parse_contents(docs) {
                Some(content) => Some(ToolsCallResultV { content, is_error }),
                None => None,
            },
            _ => None,
        }
    }

    /// The result that reports a failure in words.
    pub open spec fn failure(message: Seq<char>) -> ToolsCallResultV {
        ToolsCallResultV { content: seq![ToolContentV::text(message)], is_error: true }
    }

    /// The result as it is reported to the caller: the result itself, or,
    /// where it has no JSON form, a failure that says so.
    pub open spec fn reported(self) -> ToolsCallResultV {
        if self.encodable() {
            self
        } else {
            ToolsCallResultV::failure("Tool returned content that cannot be encoded"@)
        }
    }
}

impl ToolsCallResult {
    /// The JSON form of this result, if it has one.
    pub fn to_value(&self) -> (r: Option<serde_json::Value>)
        ensures
            match r {
                Some(out) => self@.encodable() && value_model(out) == self@.render(),
                None => !self@.encodable(),
            },
    {
        let mut items: Vec<serde_json::Value> = Vec::new();
        let mut i: usize = 0;
        while i < self.content.len()
            invariant
                i <= self.content.len(),
                items.len() == i,
                forall|j: int| 0 <= j < i ==> (#[trigger] self.content@[j])@.encodable(),
                forall|j: int|
                    0 <= j < i ==> value_model(#[trigger] items@[j]) == self.content@[j]@.render(),
            decreases self.content.len() - i,
        {
            match self.content[i].to_value() {
                Some(item) => {
                    items.push(item);
                },
                None => {
                    assert(!self@.content[i as int].encodable());
                    return None;
                },
            }
            i += 1;
        }
        proof {
            assert(models(items@) =~= render_contents(self@.content));
            assert forall|j: int| 0 <= j < self@.content.len() implies (
            #[trigger] self@.content[j]).encodable() by {
                assert(self.content@[j]@.encodable());
            }
        }
        let mut out = value_object();
        value_insert(&mut out, "content", value_array(items));
        value_insert(&mut out, "isError", value_bool(self.is_error));
        Some(out)
    }

    /// The JSON form of this result as it is reported to the caller.
    pub fn to_reported_value(&self) -> (out: serde_json::Value)
        ensures
            value_model(out) == self@.reported().render(),
    {
        match self.to_value() {
            Some(out) => out,
            None => {
                let failure = error_content(
                    "Tool returned content that cannot be encoded".to_owned(),
                );
                match failure.to_value() {
                    Some(out) => out,
                    None => {
                        assert(failure@.content[0].encodable());
                        vstd::pervasive::unreached()
                    },
                }
            },
        }
    }

    /// Reads a result.
    pub fn from_value(v: &serde_json::Value) -> (r: Result<ToolsCallResult, DecodeError>)
        ensures
            match r {
                Ok(p) => ToolsCallResultV::parse(value_model(*v)) == Some(p@),
                Err(e) => e == DecodeError::InvalidShape && ToolsCallResultV::parse(
                    value_model(*v),
                ) is None,
            },
    {
        let docs = match value_get(v, "content") {
            Some(item) => match value_as_array(item) {
                Some(docs) => docs,
                None => {
                    return Err(DecodeError::InvalidShape);
                },
            },
            None => {
                return Err(DecodeError::InvalidShape);
            },
        };
        let is_error = match value_get(v, "isError") {
            Some(item) => match value_as_bool(item) {
                Some(b) => b,
                None => {
                    return Err(DecodeError::InvalidShape);
                },
            },
            None => {
                return Err(DecodeError::InvalidShape);
            },
        };
        let mut content: Vec<ToolContent> = Vec::new();
        let mut i: usize = 0;
        while i < docs.len()
            invariant
                i <= docs.len(),
                content.len() == i,
                value_model(*v).member("content"@) == Some(JsonV::Array(models(docs@))),
                forall|j: int|
                    0 <= j < i ==> ToolContentV::parse(value_model(#[trigger] docs@[j])) == Some(
                        content@[j]@,
                    ),
            decreases docs.len() - i,
        {
            match ToolContent::from_value(&docs[i]) {
                Ok(item) => {
                    content.push(item);
                },
                Err(e) => {
                    assert(ToolContentV::parse(models(docs@)[i as int]) is None);
                    return Err(e);
                },
            }
            i += 1;
        }
        proof {
            assert forall|j: int| 0 <= j < models(docs@).len() implies (
            #[trigger] ToolContentV::parse(models(docs@)[j])) is Some by {
                assert(ToolContentV::parse(value_model(docs@[j])) is Some);
            }
            assert(parse_contents(models(docs@))->Some_0 =~= content_views(content@));
        }
        Ok(ToolsCallResult { content, is_error })
    }
}

/// An output item of type `text`.
pub fn text_content(text: String) -> (r: ToolContent)
    ensures
        r@ == ToolContentV::text(text@),
{
    let mut content = value_object();
    value_insert(&mut content, "text", value_string(text.as_str()));
    ToolContent { content_type: "text".to_owned(), content }
}

/// The result that reports a failure: one text item, the error flag set.
pub fn error_content(message: String) -> (r: ToolsCallResult)
    ensures
        r@ == ToolsCallResultV::failure(message@),
{
    let mut content: Vec<ToolContent> = Vec::new();
    content.push(text_content(message));
    let r = ToolsCallResult { content, is_error: true };
    assert(r@.content =~= seq![ToolContentV::text(message@)]);
    r
}

/// The result that carries these items, the error flag clear.
pub fn success_content(content: Vec<ToolContent>) -> (r: ToolsCallResult)
    ensures
        r.content == content,
        !r.is_error,
{
    ToolsCallResult { content, is_error: false }
}

/// The member names of the tool types differ from one another.
pub proof fn lemma_tool_keys()
    ensures
        "a"@ != "b"@,
        "name"@ != "description"@,
        "name"@ != "inputSchema"@,
        "description"@ != "inputSchema"@,
        "tools"@ != "nextCursor"@,
        "name"@ != "arguments"@,
        "content"@ != "isError"@,
        "text"@ != "type"@,
{
    reveal_strlit("a");
    reveal_strlit("b");
    reveal_strlit("name");
    reveal_strlit("description");
    reveal_strlit("inputSchema");
    reveal_strlit("tools");
    reveal_strlit("nextCursor");
    reveal_strlit("arguments");
    reveal_strlit("content");
    reveal_strlit("isError");
    reveal_strlit("text");
    reveal_strlit("type");
    assert("a"@[0] == 'a' && "b"@[0] == 'b');
    assert("name"@.len() == 4);
    assert("description"@.len() == 11 && "description"@[0] == 'd');
    assert("inputSchema"@.len() == 11 && "inputSchema"@[0] == 'i');
    assert("tools"@.len() == 5);
    assert("nextCursor"@.len() == 10);
    assert("arguments"@.len() == 9);
    assert("content"@.len() == 7 && "content"@[0] == 'c');
    assert("isError"@.len() == 7 && "isError"@[0] == 'i');
    assert("text"@[1] == 'e' && "type"@[1] == 'y');
}

/// Decoding the JSON form of the parameters of `add` gives them back.
pub proof fn lemma_add_params_round_trip(p: AddParams)
    ensures
        AddParams::parse(p.render()) == Some(p),
{
    lemma_tool_keys();
}

/// Decoding the JSON form of a tool definition gives it back.
pub proof fn lemma_tool_round_trip(t: ToolV)
    ensures
        ToolV::parse(t.render()) == Some(t),
{
    lemma_tool_keys();
}

/// Decoding the JSON form of the parameters of `tools/list` gives them back.
pub proof fn lemma_tools_list_params_round_trip(p: ToolsListParamsV)
    ensures
        ToolsListParamsV::parse(p.render()) == Some(p),
{
}

/// Decoding the JSON form of the result of `tools/list` gives it back: the
/// same definitions in the same order.
pub proof fn lemma_tools_list_result_round_trip(r: ToolsListResultV)
    ensures
        ToolsListResultV::parse(r.render()) == Some(r),
{
    lemma_tool_keys();
    let docs = render_tools(r.tools);
    assert forall|i: int| 0 <= i < docs.len() implies (#[trigger] ToolV::parse(docs[i])) == Some(
        r.tools[i],
    ) by {
        lemma_tool_round_trip(r.tools[i]);
    }
    assert(parse_tools(docs)->Some_0 =~= r.tools);
}

/// Decoding the JSON form of the parameters of `tools/call` gives them back.
pub proof fn lemma_tools_call_params_round_trip(p: ToolsCallParamsV)
    ensures
        ToolsCallParamsV::parse(p.render()) == Some(p),
{
    lemma_tool_keys();
}

/// Decoding the JSON form of an output item gives it back, where its members
/// are an object without a member `type`.
pub proof fn lemma_tool_content_round_trip(c: ToolContentV)
    requires
        c.well_formed(),
    ensures
        ToolContentV::parse(c.render()) == Some(c),
{
    let members = c.content->Object_0;
    assert(members.insert("type"@, JsonV::Str(c.content_type)).remove("type"@) =~= members);
}

/// A text item is well formed.
pub proof fn lemma_text_well_formed(text: Seq<char>)
    ensures
        ToolContentV::text(text).well_formed(),
        ToolsCallResultV::failure(text).well_formed(),
        ToolsCallResultV::failure(text).encodable(),
{
    lemma_tool_keys();
}

/// Decoding the JSON form of the result of `tools/call` gives it back, where
/// its items are well formed.
pub proof fn lemma_tools_call_result_round_trip(r: ToolsCallResultV)
    requires
        r.well_formed(),
    ensures
        ToolsCallResultV::parse(r.render()) == Some(r),
{
    lemma_tool_keys();
    let docs = render_contents(r.content);
    assert forall|i: int| 0 <= i < docs.len() implies (#[trigger] ToolContentV::parse(docs[i]))
        == Some(r.content[i]) by {
        lemma_tool_content_round_trip(r.content[i]);
    }
    assert(parse_contents(docs)->Some_0 =~= r.content);
}

} // verus!
