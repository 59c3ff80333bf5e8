//! Two example tools: one that greets by name, and one that reports the time
//! it is given.

use vstd::prelude::*;
use crate::json::{
    get_str, value_array, value_bool, value_insert, value_model, value_object, value_string,
    models, JsonV,
};
use crate::jsonrpc::ResponseV;
use crate::protocol::{lemma_tool_call, received, request};
use crate::registry::{has_name, position_of, ToolRegistry};
use crate::server::{call_answered_by, call_reply, step, ServerState};
use crate::types::ToolsCallParamsV;
use crate::text::{between, decimal_text, push_decimal};
use crate::types::lemma_text_well_formed;
use crate::types::{
    error_content, success_content, text_content, Tool, ToolContentV, ToolImplementation, ToolV,
    ToolsCallResult, ToolsCallResultV,
};

verus! {

/// The tool that greets by name.
pub struct GreetTool;

/// The input schema of the greeting tool: an object with the required string
/// `name`.
pub open spec fn greet_schema() -> JsonV {
    JsonV::empty_object().with("type"@, JsonV::Str("object"@)).with(
        "properties"@,
        JsonV::empty_object().with(
            "name"@,
            JsonV::empty_object().with("type"@, JsonV::Str("string"@)).with(
                "description"@,
                JsonV::Str("The name to greet"@),
            ),
        ),
    ).with("required"@, JsonV::Array(seq![JsonV::Str("name"@)]))
}

/// The definition of the greeting tool.
pub open spec fn greet_definition() -> ToolV {
    ToolV {
        name: "greet"@,
        description: "Generate a greeting message for a given name"@,
        input_schema: greet_schema(),
    }
}

/// The greeting for `name`.
pub open spec fn greeting_for(name: Seq<char>) -> Seq<char> {
    "Hello, "@ + name + "! Welcome to the MCP server."@
}

/// What the greeting tool returns: the greeting for the string argument
/// `name`, or a failure where there is no such argument.
pub open spec fn greet_result(arguments: JsonV) -> ToolsCallResultV {
    match arguments.text_member("name"@) {
        Some(name) => ToolsCallResultV {
            content: seq![ToolContentV::text(greeting_for(name))],
            is_error: false,
        },
        None => ToolsCallResultV::failure("Missing required parameter 'name'"@),
    }
}

/// The definition of the greeting tool.
pub fn greet_tool() -> (r: Tool)
    ensures
        r@ == greet_definition(),
{
    let mut name = value_object();
    value_insert(&mut name, "type", value_string("string"));
    value_insert(&mut name, "description", value_string("The name to greet"));
    let mut properties = value_object();
    value_insert(&mut properties, "name", name);
    let mut required: Vec<serde_json::Value> = Vec::new();
    required.push(value_string("name"));
    assert(models(required@) =~= seq![JsonV::Str("name"@)]);
    let mut schema = value_object();
    value_insert(&mut schema, "type", value_string("object"));
    value_insert(&mut schema, "properties", properties);
    value_insert(&mut schema, "required", value_array(required));
    Tool {
        name: "greet".to_owned(),
        description: "Generate a greeting message for a given name".to_owned(),
        input_schema: schema,
    }
}

/// Runs the greeting tool.
pub fn greet(arguments: &serde_json::Value) -> (r: ToolsCallResult)
    ensures
        r@ == greet_result(value_model(*arguments)),
{
    match get_str(arguments, "name") {
        Some(name) => {
            let mut content = Vec::new();
            content.push(text_content(between("Hello, ", name, "! Welcome to the MCP server.")));
            let r = success_content(content);
            assert(r@.content =~= seq![ToolContentV::text(greeting_for(name@))]);
            r
        },
        None => error_content("Missing required parameter 'name'".to_owned()),
    }
}

impl ToolImplementation for GreetTool {
    /// The greeting tool gives one definition of itself.
    open spec fn may_define(&self, tool: ToolV) -> bool {
        tool == greet_definition()
    }

    /// The greeting tool returns one result for given arguments.
    open spec fn may_return(&self, arguments: JsonV, result: ToolsCallResultV) -> bool {
        result == greet_result(arguments)
    }

    fn get_tool(&self) -> (r: Tool)
        ensures
            r@ == greet_definition(),
    {
        greet_tool()
    }

    fn call(&self, arguments: serde_json::Value) -> (r: ToolsCallResult)
        ensures
            r@ == greet_result(value_model(arguments)),
    {
        greet(&arguments)
    }
}

/// The input schema of the clock tool: an object without members.
pub open spec fn get_time_schema() -> JsonV {
    JsonV::empty_object().with("type"@, JsonV::Str("object"@)).with(
        "properties"@,
        JsonV::empty_object(),
    ).with("additionalProperties"@, JsonV::Bool(false))
}

/// The definition of the clock tool.
pub open spec fn get_time_definition() -> ToolV {
    ToolV {
        name: "get_time"@,
        description: "Get the current system time"@,
        input_schema: get_time_schema(),
    }
}

/// What the clock tool returns for a reading of the clock, in seconds since
/// the Unix epoch: the reading in words, or a failure where the clock could
/// not be read.
pub open spec fn time_result(now: Option<u64>) -> ToolsCallResultV {
    match now {
        Some(seconds) => ToolsCallResultV {
            content: seq![
                ToolContentV::text("Current Unix timestamp: "@ + decimal_text(seconds as nat)),
            ],
            is_error: false,
        },
        None => ToolsCallResultV::failure("Failed to get system time"@),
    }
}

/// The definition of the clock tool.
pub fn get_time_tool() -> (r: Tool)
    ensures
        r@ == get_time_definition(),
{
    let mut schema = value_object();
    value_insert(&mut schema, "type", value_string("object"));
    value_insert(&mut schema, "properties", value_object());
    value_insert(&mut schema, "additionalProperties", value_bool(false));
    Tool {
        name: "get_time".to_owned(),
        description: "Get the current system time".to_owned(),
        input_schema: schema,
    }
}

/// The result of the clock tool for a reading of the clock.
pub fn time_report(now: Option<u64>) -> (r: ToolsCallResult)
    ensures
        r@ == time_result(now),
{
    match now {
        Some(seconds) => {
            let mut text = "Current Unix timestamp: ".to_owned();
            push_decimal(seconds, &mut text);
            let mut content = Vec::new();
            content.push(text_content(text));
            let r = success_content(content);
            assert(r@.content =~= seq![
                ToolContentV::text("Current Unix timestamp: "@ + decimal_text(seconds as nat)),
            ]);
            r
        },
        None => error_content("Failed to get system time".to_owned()),
    }
}

/// Called with a name, the greeting tool succeeds: its result holds the
/// greeting as its one text item, its error flag is clear, and the result is
/// sent as it is.
pub proof fn lemma_greet_by_name(arguments: JsonV, name: Seq<char>, id: u64)
    requires
        arguments.text_member("name"@) == Some(name),
    ensures
        greet_result(arguments) == (ToolsCallResultV {
            content: seq![ToolContentV::text(greeting_for(name))],
            is_error: false,
        }),
        call_reply(id, greet_result(arguments)) == ResponseV::success(
            id,
            greet_result(arguments).render(),
        ),
        ToolsCallResultV::parse(greet_result(arguments).render()) == Some(greet_result(arguments)),
{
    lemma_text_well_formed(greeting_for(name));
    crate::types::lemma_tools_call_result_round_trip(greet_result(arguments));
}

/// After the handshake, a call of the greeting tool is answered with the
/// result of the greeting tool for the arguments of the call, and with
/// nothing else.
pub proof fn lemma_greet_call(
    registry: ToolRegistry<GreetTool>,
    call: ToolsCallParamsV,
    id: u64,
    response: ResponseV,
)
    requires
        has_name(registry@, call.name),
    ensures
        step(
            ServerState::Initialized,
            registry@,
            received(request("tools/call"@, call.render(), id)),
        ).1.answered_by(registry, response) <==> response == call_reply(
            id,
            greet_result(call.arguments),
        ),
{
    lemma_tool_call(registry@, call, id);
    let index = position_of(registry@, call.name);
    let tool = registry.implementation(index as int);
    if response == call_reply(id, greet_result(call.arguments)) {
        assert(tool.may_return(call.arguments, greet_result(call.arguments)));
        assert(call_answered_by(registry, id, index, call.arguments, response));
    }
    if call_answered_by(registry, id, index, call.arguments, response) {
        let result = choose|result: ToolsCallResultV|
            #[trigger] tool.may_return(call.arguments, result) && response == call_reply(
                id,
                result,
            );
        assert(result == greet_result(call.arguments));
    }
}

} // verus!
