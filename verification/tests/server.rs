//! Tests of the MCP server's request decisions.

use k8s_mcp::mcp::json::JsonValue;
use k8s_mcp::mcp::protocol::{Content, JsonRpcRequest, RequestId};
use k8s_mcp::mcp::server::{parse_error_reply, JsonRpcMessage, McpServer, RequestStep};
use k8s_mcp::tools::ToolRegistry;

fn request(id: Option<RequestId>, method: &str, params: Option<JsonValue>) -> JsonRpcRequest {
    JsonRpcRequest {
        jsonrpc: "2.0".to_string(),
        id,
        method: method.to_string(),
        params,
    }
}

fn registry() -> ToolRegistry<&'static str> {
    let mut registry = ToolRegistry::new();
    registry.register("pods_list".to_string(), false, "list handler");
    registry.register("pods_delete".to_string(), true, "delete handler");
    registry
}

fn handle(server: &mut McpServer, req: JsonRpcRequest) -> RequestStep {
    server.handle_request(req, &registry())
}

fn call_params(name: &str) -> Option<JsonValue> {
    Some(JsonValue::Object(vec![
        ("name".to_string(), JsonValue::String(name.to_string())),
        ("arguments".to_string(), JsonValue::Object(vec![("name".to_string(), JsonValue::String("web".to_string()))])),
    ]))
}

fn empty_params() -> Option<JsonValue> {
    Some(JsonValue::Object(Vec::new()))
}

fn expect_error(step: RequestStep) -> (Option<RequestId>, i32, String) {
    match step {
        RequestStep::Reply(JsonRpcMessage::Error(e)) => (e.id, e.error.code, e.error.message),
        other => panic!("expected an error reply, got {:?}", other),
    }
}

fn expect_result(step: RequestStep) -> (Option<RequestId>, JsonValue) {
    match step {
        RequestStep::Reply(JsonRpcMessage::Response(r)) => {
            assert_eq!(r.jsonrpc, "2.0");
            (r.id, r.result)
        }
        other => panic!("expected a response, got {:?}", other),
    }
}

fn empty_list_member(value: &JsonValue) -> Option<String> {
    match value {
        JsonValue::Object(members) if members.len() == 1 => match &members[0].1 {
            JsonValue::Array(items) if items.is_empty() => Some(members[0].0.clone()),
            _ => None,
        },
        _ => None,
    }
}

#[test]
fn server_new_identity() {
    let server = McpServer::new(false);
    assert_eq!(server.server_info().name, "k8s-mcp");
    assert_eq!(server.server_info().version, "0.7.0");
    assert!(!server.read_write());
    assert!(!server.is_initialized());
    assert!(McpServer::new(true).read_write());
}

#[test]
fn server_initialize_is_handed_on_with_params() {
    let mut server = McpServer::new(false);
    let step = handle(&mut server, request(Some(RequestId::Number(1)), "initialize", empty_params()));
    match step {
        RequestStep::Initialize { id, params } => {
            assert_eq!(id, Some(RequestId::Number(1)));
            assert!(matches!(params, Some(JsonValue::Object(_))));
        }
        other => panic!("unexpected step {:?}", other),
    }
}

#[test]
fn server_initialize_result_read_only() {
    let server = McpServer::new(false);
    let result = server.initialize_result();
    assert_eq!(result.protocol_version, "2024-11-05");
    assert_eq!(result.server_info.name, "k8s-mcp");
    assert_eq!(result.server_info.version, "0.7.0");
    assert_eq!(result.capabilities.tools.unwrap().list_changed, Some(false));
    let resources = result.capabilities.resources.unwrap();
    assert_eq!(resources.subscribe, Some(false));
    assert_eq!(resources.list_changed, Some(false));
    assert!(result.capabilities.logging.is_some());
    assert!(result.capabilities.prompts.is_none());
    let instructions = result.instructions.unwrap();
    assert!(instructions.contains("Read-only mode: enabled"));
    assert_eq!(
        instructions,
        "Kubernetes MCP Server - Read-only mode: enabled. Use tools to interact with your Kubernetes cluster."
    );
}

#[test]
fn server_initialize_result_read_write() {
    let server = McpServer::new(true);
    let instructions = server.initialize_result().instructions.unwrap();
    assert!(instructions.contains("Read-only mode: disabled"));
}

#[test]
fn server_initialized_notification_is_silent() {
    let mut server = McpServer::new(false);
    let step = handle(&mut server, request(None, "notifications/initialized", None));
    assert!(matches!(step, RequestStep::Silent));
    assert!(server.is_initialized());
}

#[test]
fn server_other_requests_leave_initialized_unset() {
    let mut server = McpServer::new(false);
    let _ = handle(&mut server, request(Some(RequestId::Number(1)), "ping", None));
    assert!(!server.is_initialized());
}

#[test]
fn server_ping_returns_empty_object() {
    let mut server = McpServer::new(false);
    let (id, result) = expect_result(handle(&mut server, request(Some(RequestId::Number(3)), "ping", None)));
    assert_eq!(id, Some(RequestId::Number(3)));
    assert!(matches!(result, JsonValue::Object(ref m) if m.is_empty()));
}

#[test]
fn server_tools_list_is_handed_on() {
    let mut server = McpServer::new(false);
    let step = handle(&mut server, request(Some(RequestId::Number(2)), "tools/list", None));
    assert!(matches!(step, RequestStep::ListTools { id: Some(RequestId::Number(2)) }));
}

#[test]
fn server_tools_call_with_params_is_handed_on() {
    let mut server = McpServer::new(false);
    let step = handle(&mut server, request(Some(RequestId::Number(4)), "tools/call", empty_params()));
    assert!(matches!(step, RequestStep::CallTool { id: Some(RequestId::Number(4)), .. }));
}

#[test]
fn server_tools_call_without_params_is_invalid() {
    let mut server = McpServer::new(false);
    let (id, code, message) =
        expect_error(handle(&mut server, request(Some(RequestId::Number(5)), "tools/call", None)));
    assert_eq!(id, Some(RequestId::Number(5)));
    assert_eq!(code, -32602);
    assert_eq!(message, "JSON-RPC error: code=-32602, message=Missing params");
}

#[test]
fn server_unknown_method_is_not_found() {
    let mut server = McpServer::new(false);
    let (id, code, message) =
        expect_error(handle(&mut server, request(Some(RequestId::Number(6)), "unknown/method", None)));
    assert_eq!(id, Some(RequestId::Number(6)));
    assert_eq!(code, -32601);
    assert_eq!(message, "JSON-RPC error: code=-32601, message=Method not found: unknown/method");
}

#[test]
fn server_resources_list_is_empty() {
    let mut server = McpServer::new(false);
    let (_, result) = expect_result(handle(&mut server, request(Some(RequestId::Number(7)), "resources/list", None)));
    assert_eq!(empty_list_member(&result), Some("resources".to_string()));
}

#[test]
fn server_resources_read_is_not_found() {
    let mut server = McpServer::new(false);
    let (_, code, message) =
        expect_error(handle(&mut server, request(Some(RequestId::Number(8)), "resources/read", empty_params())));
    assert_eq!(code, -32601);
    assert!(message.contains("resources/read"));
}

#[test]
fn server_prompts_list_is_empty() {
    let mut server = McpServer::new(false);
    let (_, result) = expect_result(handle(&mut server, request(Some(RequestId::Number(9)), "prompts/list", None)));
    assert_eq!(empty_list_member(&result), Some("prompts".to_string()));
}

#[test]
fn server_set_level_without_params_is_invalid() {
    let mut server = McpServer::new(false);
    let (_, code, _) = expect_error(handle(&mut server, request(Some(RequestId::Number(10)), "logging/setLevel", None)));
    assert_eq!(code, -32602);
}

#[test]
fn server_set_level_with_params_is_handed_on() {
    let mut server = McpServer::new(false);
    let step = handle(&mut server, request(Some(RequestId::Number(10)), "logging/setLevel", empty_params()));
    assert!(matches!(step, RequestStep::SetLevel { .. }));
}

#[test]
fn server_string_id_is_echoed() {
    let mut server = McpServer::new(false);
    let id = Some(RequestId::String("req-abc".to_string()));
    let (got, _) = expect_result(handle(&mut server, request(id.clone(), "ping", None)));
    assert_eq!(got, id);
}

#[test]
fn server_write_tool_refused_in_read_only_mode() {
    let server = McpServer::new(false);
    let refusal = server.decide_tool_call(true).unwrap();
    assert_eq!(refusal.is_error, Some(true));
    assert_eq!(refusal.content.len(), 1);
    match &refusal.content[0] {
        Content::Text { text } => assert_eq!(
            text,
            "Operation not permitted in read-only mode. Start with --read-write to enable mutations."
        ),
        other => panic!("unexpected content {:?}", other),
    }
    assert!(server.decide_tool_call(false).is_none());
}

#[test]
fn server_write_tool_allowed_in_read_write_mode() {
    let server = McpServer::new(true);
    assert!(server.decide_tool_call(true).is_none());
    assert!(server.decide_tool_call(false).is_none());
}

#[test]
fn server_parse_error_reply_has_no_id() {
    match parse_error_reply("expected value") {
        JsonRpcMessage::Error(e) => {
            assert!(e.id.is_none());
            assert_eq!(e.error.code, -32700);
            assert_eq!(e.error.message, "Parse error: expected value");
        }
        other => panic!("unexpected reply {:?}", other),
    }
}

#[test]
fn server_write_tool_call_refused_before_running_in_read_only_mode() {
    let mut server = McpServer::new(false);
    match handle(&mut server, request(Some(RequestId::Number(11)), "tools/call", call_params("pods_delete"))) {
        RequestStep::RefuseTool { id, result } => {
            assert_eq!(id, Some(RequestId::Number(11)));
            assert_eq!(result.is_error, Some(true));
            match &result.content[0] {
                Content::Text { text } => assert!(text.contains("read-only")),
                other => panic!("unexpected content {:?}", other),
            }
        }
        other => panic!("expected a refusal, got {:?}", other),
    }
    let step = handle(&mut server, request(Some(RequestId::Number(12)), "tools/call", call_params("pods_list")));
    assert!(matches!(step, RequestStep::CallTool { .. }));
}

#[test]
fn server_write_tool_call_runs_in_read_write_mode() {
    let mut server = McpServer::new(true);
    let step = handle(&mut server, request(Some(RequestId::Number(13)), "tools/call", call_params("pods_delete")));
    assert!(matches!(step, RequestStep::CallTool { id: Some(RequestId::Number(13)), .. }));
}

#[test]
fn server_malformed_tool_call_is_handed_on() {
    let mut server = McpServer::new(false);
    let params = Some(JsonValue::Object(vec![("name".to_string(), JsonValue::Number(k8s_mcp::mcp::json::JsonNumber::PosInt(1)))]));
    let step = handle(&mut server, request(Some(RequestId::Number(14)), "tools/call", params));
    assert!(matches!(step, RequestStep::CallTool { .. }));
}
