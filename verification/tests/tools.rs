use mcp_core::registry::{RegistryError, ToolRegistry};
use mcp_core::text::push_decimal;
use mcp_core::tools::{get_time_tool, greet, greet_tool, time_report, GreetTool};
use mcp_core::types::{
    error_content, success_content, text_content, Tool, ToolImplementation, ToolsCallResult,
};
use serde_json::Value;

fn json(text: &str) -> Value {
    serde_json::from_str(text).unwrap()
}

struct Named(&'static str);

impl ToolImplementation for Named {
    fn get_tool(&self) -> Tool {
        Tool { name: self.0.to_string(), description: String::new(), input_schema: Value::Null }
    }

    fn call(&self, arguments: Value) -> ToolsCallResult {
        success_content(vec![text_content(format!("{}:{}", self.0, arguments))])
    }
}

#[test]
fn greet_tool_is_defined() {
    let tool = greet_tool();
    assert_eq!(tool.name, "greet");
    assert_eq!(tool.description, "Generate a greeting message for a given name");
    assert_eq!(
        tool.input_schema,
        json(
            r#"{"type":"object","properties":{"name":{"type":"string","description":"The name to greet"}},"required":["name"]}"#
        )
    );
    assert_eq!(GreetTool.get_tool(), tool);
}

#[test]
fn greet_tool_greets_by_name() {
    let result = greet(&json(r#"{"name":"World"}"#));
    assert_eq!(result, success_content(vec![text_content("Hello, World! Welcome to the MCP server.".to_string())]));
    assert!(!result.is_error);
    assert_eq!(GreetTool.call(json(r#"{"name":""}"#)).content[0].content, json(r#"{"text":"Hello, ! Welcome to the MCP server."}"#));
}

#[test]
fn greet_tool_reports_a_missing_name() {
    for arguments in ["{}", r#"{"name":5}"#, r#"{"Name":"x"}"#, "null", r#"["name"]"#] {
        assert_eq!(
            greet(&json(arguments)),
            error_content("Missing required parameter 'name'".to_string()),
            "{}",
            arguments
        );
    }
}

#[test]
fn clock_tool_is_defined() {
    let tool = get_time_tool();
    assert_eq!(tool.name, "get_time");
    assert_eq!(tool.description, "Get the current system time");
    assert_eq!(tool.input_schema, json(r#"{"type":"object","properties":{},"additionalProperties":false}"#));
}

#[test]
fn clock_tool_reports_the_reading() {
    assert_eq!(
        time_report(Some(1700000000)),
        success_content(vec![text_content("Current Unix timestamp: 1700000000".to_string())])
    );
    assert_eq!(
        time_report(Some(0)),
        success_content(vec![text_content("Current Unix timestamp: 0".to_string())])
    );
    assert_eq!(
        time_report(Some(u64::MAX)),
        success_content(vec![text_content("Current Unix timestamp: 18446744073709551615".to_string())])
    );
    assert_eq!(time_report(None), error_content("Failed to get system time".to_string()));
}

#[test]
fn numbers_are_written_as_text() {
    let mut out = "n=".to_string();
    push_decimal(9, &mut out);
    push_decimal(10, &mut out);
    push_decimal(1234567890, &mut out);
    assert_eq!(out, "n=9101234567890");
}

#[test]
fn registry_keeps_the_order_of_registration() {
    let mut registry: ToolRegistry<Named> = ToolRegistry::new();
    assert_eq!(registry.len(), 0);
    assert_eq!(registry.find("a"), None);
    assert_eq!(registry.register(Named("b")), Ok(()));
    assert_eq!(registry.register(Named("a")), Ok(()));
    assert_eq!(registry.register(Named("c")), Ok(()));
    assert_eq!(registry.len(), 3);
    let names: Vec<String> = registry.definitions().into_iter().map(|t| t.name).collect();
    assert_eq!(names, vec!["b", "a", "c"]);
    assert_eq!(registry.find("a"), Some(1));
    assert_eq!(registry.find("c"), Some(2));
    assert_eq!(registry.find("d"), None);
    assert_eq!(registry.definition(0).name, "b");
    registry.names_are_distinct();
}

#[test]
fn registry_refuses_a_name_twice() {
    let mut registry: ToolRegistry<Named> = ToolRegistry::new();
    assert_eq!(registry.register(Named("a")), Ok(()));
    assert_eq!(registry.register(Named("a")), Err(RegistryError::DuplicateName));
    let other = Tool { name: "a".to_string(), description: "other".to_string(), input_schema: json("{}") };
    assert_eq!(registry.register_definition(other, Named("z")), Err(RegistryError::DuplicateName));
    assert_eq!(registry.len(), 1);
    assert_eq!(registry.definition(0).description, "");
    let renamed = Tool { name: "b".to_string(), description: "as b".to_string(), input_schema: json("{}") };
    assert_eq!(registry.register_definition(renamed, Named("z")), Ok(()));
    assert_eq!(registry.find("b"), Some(1));
    assert_eq!(registry.find("z"), None);
}

#[test]
fn registry_runs_the_tool_at_an_index() {
    let mut registry: ToolRegistry<Named> = ToolRegistry::new();
    registry.register(Named("x")).unwrap();
    registry.register(Named("y")).unwrap();
    assert_eq!(registry.invoke(1, json("[1]")), success_content(vec![text_content("y:[1]".to_string())]));
    assert_eq!(registry.invoke(0, json("{}")), success_content(vec![text_content("x:{}".to_string())]));
}
