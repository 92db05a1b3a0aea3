//! Tests of the pod logs tool.

use k8s_mcp::mcp::json::{JsonNumber, JsonValue};
use k8s_mcp::mcp::protocol::{PropertySchema, Tool};
use k8s_mcp::tools::definitions::PodsLogsTool;
use k8s_mcp::tools::registry::{get_boolean_arg, get_optional_integer_arg, get_optional_string_arg};

fn prop<'a>(tool: &'a Tool, key: &str) -> Option<&'a PropertySchema> {
    tool.input_schema
        .properties
        .as_ref()
        .and_then(|ps| ps.iter().find(|(k, _)| k == key).map(|(_, p)| p))
}

#[test]
fn test_pods_logs_tool_expected_name() {
    assert_eq!(PodsLogsTool::new(()).definition().name, "pods_log");
}

#[test]
fn test_pods_logs_tool_expected_params() {
    let tool = PodsLogsTool::new(()).definition();
    assert_eq!(tool.input_schema.required, Some(vec!["name".to_string()]));
    for key in ["name", "namespace", "container", "tailLines", "sinceSeconds", "previous"] {
        assert!(prop(&tool, key).is_some(), "missing {}", key);
    }
}

#[test]
fn test_pods_logs_tool_is_not_write() {
    assert!(!PodsLogsTool::new(()).is_write_tool());
}

#[test]
fn test_pods_logs_tool_output_format() {
    let tool = PodsLogsTool::new(()).definition();
    assert!(prop(&tool, "output").is_none());
}

#[test]
fn test_tail_parameter_validation() {
    let tool = PodsLogsTool::new(()).definition();
    assert_eq!(prop(&tool, "tailLines").unwrap().type_, Some("integer".to_string()));
    let args = vec![("tailLines".to_string(), JsonValue::Number(JsonNumber::PosInt(100)))];
    assert_eq!(get_optional_integer_arg(&args, "tailLines"), Some(100));
}

#[test]
fn test_since_parameter_format() {
    let tool = PodsLogsTool::new(()).definition();
    assert_eq!(prop(&tool, "sinceSeconds").unwrap().type_, Some("integer".to_string()));
    let args = vec![("sinceSeconds".to_string(), JsonValue::String("5m".to_string()))];
    assert_eq!(get_optional_integer_arg(&args, "sinceSeconds"), None);
}

#[test]
fn test_previous_parameter() {
    let tool = PodsLogsTool::new(()).definition();
    let previous = prop(&tool, "previous").unwrap();
    assert_eq!(previous.type_, Some("boolean".to_string()));
    assert!(matches!(previous.default, Some(JsonValue::Bool(false))));
    let none: Vec<(String, JsonValue)> = Vec::new();
    assert!(!get_boolean_arg(&none, "previous", false));
}

#[test]
fn test_container_parameter() {
    let tool = PodsLogsTool::new(()).definition();
    assert_eq!(prop(&tool, "container").unwrap().type_, Some("string".to_string()));
    let args = vec![("container".to_string(), JsonValue::String("sidecar".to_string()))];
    assert_eq!(get_optional_string_arg(&args, "container"), Some("sidecar".to_string()));
}
