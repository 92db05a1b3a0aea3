//! Tests of the events tool.

use k8s_mcp::format::{format_events_table, EventRow, OutputFormat};
use k8s_mcp::mcp::json::JsonValue;
use k8s_mcp::tools::definitions::EventsListTool;
use k8s_mcp::tools::operations::{output_format_arg, route_list, ResourceKind};

fn keys(tool: &k8s_mcp::mcp::protocol::Tool) -> Vec<String> {
    tool.input_schema
        .properties
        .as_ref()
        .map(|ps| ps.iter().map(|(k, _)| k.clone()).collect())
        .unwrap_or_default()
}

#[test]
fn test_events_list_tool_expected_name() {
    assert_eq!(EventsListTool::new(()).definition().name, "events_list");
}

#[test]
fn test_events_list_tool_expected_params() {
    let tool = EventsListTool::new(()).definition();
    assert_eq!(keys(&tool), vec!["namespace", "fieldSelector", "output"]);
    assert!(tool.input_schema.required.is_none());
}

#[test]
fn test_events_list_tool_is_not_write() {
    assert!(!EventsListTool::new(()).is_write_tool());
}

#[test]
fn test_events_list_tool_field_selectors() {
    let tool = EventsListTool::new(()).definition();
    let props = tool.input_schema.properties.unwrap();
    let (_, field) = props.iter().find(|(k, _)| k == "fieldSelector").unwrap();
    assert!(field.description.as_ref().unwrap().contains("involvedObject.name"));
    assert_eq!(route_list("v1", "Event"), Some(ResourceKind::Event));
}

#[test]
fn test_events_list_output_format() {
    let none: Vec<(String, JsonValue)> = Vec::new();
    assert_eq!(output_format_arg(&none), OutputFormat::Table);
    let yaml = vec![("output".to_string(), JsonValue::String("yaml".to_string()))];
    assert_eq!(output_format_arg(&yaml), OutputFormat::Yaml);
    let out = format_events_table(&Vec::<EventRow>::new(), 0);
    for title in ["LAST SEEN", "TYPE", "REASON", "OBJECT", "MESSAGE"] {
        assert!(out.contains(title));
    }
}
