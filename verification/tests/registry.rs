//! Tests of the tool registry and the argument helpers.

use k8s_mcp::mcp::json::{JsonNumber, JsonValue};
use k8s_mcp::tools::registry::{
    error_result, get_boolean_arg, get_integer_arg, get_optional_integer_arg,
    get_optional_string_arg, get_string_arg, text_result, ToolRegistry,
};
use k8s_mcp::Error;

/// A simple test tool for registry tests.
struct TestTool {
    name: String,
    is_write: bool,
}

impl TestTool {
    fn new(name: &str) -> Self {
        TestTool { name: name.to_string(), is_write: false }
    }

    fn write_tool(name: &str) -> Self {
        TestTool { name: name.to_string(), is_write: true }
    }
}

fn register(registry: &mut ToolRegistry<TestTool>, tool: TestTool) {
    let name = tool.name.clone();
    let is_write = tool.is_write;
    registry.register(name, is_write, tool);
}

fn string(s: &str) -> JsonValue {
    JsonValue::String(s.to_string())
}

fn number(n: u64) -> JsonValue {
    JsonValue::Number(JsonNumber::PosInt(n))
}

#[test]
fn registry_test_registry_new() {
    let registry: ToolRegistry<TestTool> = ToolRegistry::new();
    assert!(registry.is_empty());
    assert_eq!(registry.len(), 0);
}

#[test]
fn registry_test_registry_default() {
    let registry: ToolRegistry<TestTool> = ToolRegistry::default();
    assert!(registry.is_empty());
}

#[test]
fn registry_test_registry_register() {
    let mut registry = ToolRegistry::new();
    register(&mut registry, TestTool::new("test-tool"));

    assert!(!registry.is_empty());
    assert_eq!(registry.len(), 1);
}

#[test]
fn registry_test_registry_register_multiple() {
    let mut registry = ToolRegistry::new();
    register(&mut registry, TestTool::new("tool-1"));
    register(&mut registry, TestTool::new("tool-2"));
    register(&mut registry, TestTool::new("tool-3"));

    assert_eq!(registry.len(), 3);
}

#[test]
fn registry_test_registry_list_tools() {
    let mut registry = ToolRegistry::new();
    register(&mut registry, TestTool::new("tool-a"));
    register(&mut registry, TestTool::new("tool-b"));

    let tools = registry.handlers();
    assert_eq!(tools.len(), 2);

    let names: Vec<&str> = tools.iter().map(|t| t.name.as_str()).collect();
    assert!(names.contains(&"tool-a"));
    assert!(names.contains(&"tool-b"));
}

#[test]
fn registry_test_registry_is_write_tool() {
    let mut registry = ToolRegistry::new();
    register(&mut registry, TestTool::new("read-tool"));
    register(&mut registry, TestTool::write_tool("write-tool"));

    assert!(!registry.is_write_tool("read-tool"));
    assert!(registry.is_write_tool("write-tool"));
    assert!(!registry.is_write_tool("unknown-tool"));
}

#[test]
fn registry_reregistering_replaces_the_handler() {
    let mut registry = ToolRegistry::new();
    register(&mut registry, TestTool::new("tool"));
    register(&mut registry, TestTool::write_tool("tool"));

    assert_eq!(registry.len(), 1);
    assert!(registry.get("tool").unwrap().is_write);
    assert!(registry.is_write_tool("tool"));
}

#[test]
fn registry_lookup_unknown_tool() {
    let registry: ToolRegistry<TestTool> = ToolRegistry::new();
    match registry.lookup("unknown-tool") {
        Err(Error::Tool(m)) => assert_eq!(m, "Unknown tool: unknown-tool"),
        _ => panic!("expected an unknown-tool error"),
    }
}

#[test]
fn registry_test_get_string_arg_present() {
    let args = vec![("name".to_string(), string("test-value"))];
    let result = get_string_arg(&args, "name").unwrap();
    assert_eq!(result, "test-value");
}

#[test]
fn registry_test_get_string_arg_missing() {
    let args: Vec<(String, JsonValue)> = Vec::new();
    let result = get_string_arg(&args, "name");
    assert!(result.is_err());
    assert_eq!(
        result.unwrap_err().message(),
        "JSON-RPC error: code=-32602, message=Missing required parameter: name"
    );
}

#[test]
fn registry_test_get_string_arg_wrong_type() {
    let args = vec![("count".to_string(), number(42))];
    let result = get_string_arg(&args, "count");
    assert!(result.is_err());
}

#[test]
fn registry_test_get_optional_string_arg_present() {
    let args = vec![("namespace".to_string(), string("default"))];
    let result = get_optional_string_arg(&args, "namespace");
    assert_eq!(result, Some("default".to_string()));
}

#[test]
fn registry_test_get_optional_string_arg_missing() {
    let args: Vec<(String, JsonValue)> = Vec::new();
    let result = get_optional_string_arg(&args, "namespace");
    assert!(result.is_none());
}

#[test]
fn registry_test_get_optional_string_arg_wrong_type() {
    let args = vec![("flag".to_string(), JsonValue::Bool(true))];
    let result = get_optional_string_arg(&args, "flag");
    assert!(result.is_none());
}

#[test]
fn registry_test_get_integer_arg_present() {
    let args = vec![("count".to_string(), number(42))];
    let result = get_integer_arg(&args, "count").unwrap();
    assert_eq!(result, 42);
}

#[test]
fn registry_test_get_integer_arg_missing() {
    let args: Vec<(String, JsonValue)> = Vec::new();
    let result = get_integer_arg(&args, "count");
    assert!(result.is_err());
}

#[test]
fn registry_test_get_integer_arg_wrong_type() {
    let args = vec![("count".to_string(), string("not-a-number"))];
    let result = get_integer_arg(&args, "count");
    assert!(result.is_err());
}

#[test]
fn registry_integer_arg_negative_and_too_large() {
    let args = vec![
        ("neg".to_string(), JsonValue::Number(JsonNumber::NegInt(-5))),
        ("big".to_string(), number(u64::MAX)),
        ("float".to_string(), JsonValue::Number(JsonNumber::Float("1.5".to_string()))),
    ];
    assert_eq!(get_optional_integer_arg(&args, "neg"), Some(-5));
    assert_eq!(get_optional_integer_arg(&args, "big"), None);
    assert_eq!(get_optional_integer_arg(&args, "float"), None);
}

#[test]
fn registry_test_get_optional_integer_arg_present() {
    let args = vec![("limit".to_string(), number(100))];
    let result = get_optional_integer_arg(&args, "limit");
    assert_eq!(result, Some(100));
}

#[test]
fn registry_test_get_optional_integer_arg_missing() {
    let args: Vec<(String, JsonValue)> = Vec::new();
    let result = get_optional_integer_arg(&args, "limit");
    assert!(result.is_none());
}

#[test]
fn registry_test_get_boolean_arg_present() {
    let args = vec![("enabled".to_string(), JsonValue::Bool(true))];
    let result = get_boolean_arg(&args, "enabled", false);
    assert!(result);
}

#[test]
fn registry_test_get_boolean_arg_missing_default() {
    let args: Vec<(String, JsonValue)> = Vec::new();

    let result = get_boolean_arg(&args, "enabled", true);
    assert!(result);

    let result = get_boolean_arg(&args, "enabled", false);
    assert!(!result);
}

#[test]
fn registry_test_get_boolean_arg_wrong_type() {
    let args = vec![("enabled".to_string(), string("yes"))];
    let result = get_boolean_arg(&args, "enabled", false);
    assert!(!result);
}

#[test]
fn registry_test_text_result() {
    let result = text_result("Hello, world!");

    assert!(!result.is_error.unwrap_or(true));
    assert_eq!(result.content.len(), 1);
}

#[test]
fn registry_test_error_result() {
    let result = error_result("Something went wrong");

    assert!(result.is_error.unwrap_or(false));
    assert_eq!(result.content.len(), 1);
}

#[test]
fn test_text_result() {
    let result = text_result("Hello, world!");

    assert!(!result.is_error.unwrap_or(true));
    assert_eq!(result.content.len(), 1);
    match &result.content[0] {
        k8s_mcp::mcp::protocol::Content::Text { text } => assert_eq!(text, "Hello, world!"),
        other => panic!("unexpected content {:?}", other),
    }
}

#[test]
fn test_error_result() {
    let result = error_result("Something went wrong");

    assert!(result.is_error.unwrap_or(false));
    assert_eq!(result.content.len(), 1);
    match &result.content[0] {
        k8s_mcp::mcp::protocol::Content::Text { text } => assert_eq!(text, "Something went wrong"),
        other => panic!("unexpected content {:?}", other),
    }
}
