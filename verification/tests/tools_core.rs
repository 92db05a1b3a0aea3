//! Tests of the get, list and delete tools: definitions and decisions.

use k8s_mcp::format::OutputFormat;
use k8s_mcp::mcp::json::{JsonNumber, JsonValue};
use k8s_mcp::mcp::protocol::{PropertySchema, Tool};
use k8s_mcp::tools::definitions::{
    DeleteResourceTool, DeploymentsDeleteTool, DeploymentsGetTool, DeploymentsListTool,
    GetResourceTool, ListResourcesTool, NamespacesDeleteTool, NamespacesGetTool,
    NamespacesListTool, NodesGetTool, NodesListTool, PodsDeleteTool, PodsGetTool, PodsListTool,
    ServicesGetTool, ServicesListTool,
};
use k8s_mcp::tools::operations::{
    delete_grace_period, deleted_message, grace_period_arg, output_format_arg,
    parse_list_request, pods_list_scope, list_scope, ListScope, redact_secret, resource_deleted_message,
    resource_kind, route_delete, route_get, route_list, ResourceKind,
};

fn prop<'a>(tool: &'a Tool, key: &str) -> Option<&'a PropertySchema> {
    tool.input_schema
        .properties
        .as_ref()
        .and_then(|ps| ps.iter().find(|(k, _)| k == key).map(|(_, p)| p))
}

fn required(tool: &Tool) -> Vec<String> {
    tool.input_schema.required.clone().unwrap_or_default()
}

fn keys(tool: &Tool) -> Vec<String> {
    tool.input_schema
        .properties
        .as_ref()
        .map(|ps| ps.iter().map(|(k, _)| k.clone()).collect())
        .unwrap_or_default()
}

fn default_text(p: &PropertySchema) -> Option<String> {
    match &p.default {
        Some(JsonValue::String(s)) => Some(s.clone()),
        _ => None,
    }
}

#[test]
fn test_get_resource_tool_definition() {
    let tool = GetResourceTool::new((), ()).definition();
    assert_eq!(tool.name, "resources_get");
    assert_eq!(required(&tool), vec!["apiVersion", "kind", "name"]);
    assert!(prop(&tool, "namespace").is_some());
    assert!(!required(&tool).contains(&"namespace".to_string()));
}

#[test]
fn test_pods_get_tool_definition_structure() {
    let tool = PodsGetTool::new(()).definition();
    assert_eq!(tool.name, "pods_get");
    assert_eq!(required(&tool), vec!["name"]);
    assert_eq!(keys(&tool), vec!["name", "namespace"]);
}

#[test]
fn test_deployments_get_tool_definition_structure() {
    let tool = DeploymentsGetTool::new(()).definition();
    assert_eq!(tool.name, "deployments_get");
    assert_eq!(required(&tool), vec!["name"]);
    assert_eq!(keys(&tool), vec!["name", "namespace"]);
}

#[test]
fn test_services_get_tool_definition_structure() {
    let tool = ServicesGetTool::new(()).definition();
    assert_eq!(tool.name, "services_get");
    assert_eq!(required(&tool), vec!["name"]);
    assert_eq!(keys(&tool), vec!["name", "namespace"]);
}

#[test]
fn test_nodes_get_tool_definition_structure() {
    let tool = NodesGetTool::new(()).definition();
    assert_eq!(tool.name, "nodes_get");
    assert_eq!(required(&tool), vec!["name"]);
    assert!(prop(&tool, "namespace").is_none());
}

#[test]
fn test_namespaces_get_tool_definition_structure() {
    let tool = NamespacesGetTool::new(()).definition();
    assert_eq!(tool.name, "namespaces_get");
    assert_eq!(required(&tool), vec!["name"]);
    assert!(prop(&tool, "namespace").is_none());
}

#[test]
fn test_list_resources_tool_expected_params() {
    let tool = ListResourcesTool::new((), ()).definition();
    assert_eq!(
        keys(&tool),
        vec!["apiVersion", "kind", "namespace", "labelSelector", "fieldSelector", "limit", "output"]
    );
    assert_eq!(default_text(prop(&tool, "apiVersion").unwrap()), Some("v1".to_string()));
    assert_eq!(default_text(prop(&tool, "kind").unwrap()), Some("Pod".to_string()));
    assert_eq!(default_text(prop(&tool, "output").unwrap()), Some("table".to_string()));
    assert!(tool.input_schema.required.is_none());
}

#[test]
fn test_pods_list_tool_expected_params() {
    let tool = PodsListTool::new(()).definition();
    assert_eq!(keys(&tool), vec!["namespace", "labelSelector", "fieldSelector", "all_namespaces", "output"]);
    assert!(matches!(prop(&tool, "all_namespaces").unwrap().default, Some(JsonValue::Bool(false))));
    assert_eq!(default_text(prop(&tool, "output").unwrap()), Some("table".to_string()));
}

#[test]
fn test_deployments_list_tool_expected_params() {
    let tool = DeploymentsListTool::new(()).definition();
    assert_eq!(keys(&tool), vec!["namespace", "labelSelector", "output"]);
    assert_eq!(default_text(prop(&tool, "output").unwrap()), Some("table".to_string()));
}

#[test]
fn test_services_list_tool_expected_params() {
    let tool = ServicesListTool::new(()).definition();
    assert_eq!(keys(&tool), vec!["namespace", "labelSelector", "output"]);
    assert_eq!(default_text(prop(&tool, "output").unwrap()), Some("table".to_string()));
}

#[test]
fn test_nodes_list_tool_expected_params() {
    let tool = NodesListTool::new(()).definition();
    assert_eq!(keys(&tool), vec!["labelSelector", "output"]);
    assert!(prop(&tool, "namespace").is_none());
}

#[test]
fn test_namespaces_list_tool_expected_params() {
    let tool = NamespacesListTool::new(()).definition();
    assert_eq!(keys(&tool), vec!["output"]);
    assert!(prop(&tool, "namespace").is_none());
}

#[test]
fn test_delete_resource_tool_expected_params() {
    let tool = DeleteResourceTool::new((), ()).definition();
    assert_eq!(tool.name, "resources_delete");
    assert_eq!(keys(&tool), vec!["apiVersion", "kind", "name", "namespace", "gracePeriodSeconds", "force"]);
    assert_eq!(required(&tool), vec!["apiVersion", "kind", "name"]);
}

#[test]
fn test_pods_delete_tool_expected_params() {
    let tool = PodsDeleteTool::new(()).definition();
    assert_eq!(keys(&tool), vec!["name", "namespace", "gracePeriodSeconds", "force"]);
    assert_eq!(required(&tool), vec!["name"]);
}

#[test]
fn test_deployments_delete_tool_expected_params() {
    let tool = DeploymentsDeleteTool::new(()).definition();
    assert_eq!(keys(&tool), vec!["name", "namespace", "gracePeriodSeconds", "force"]);
    assert_eq!(required(&tool), vec!["name"]);
}

#[test]
fn test_namespaces_delete_tool_expected_params() {
    let tool = NamespacesDeleteTool::new(()).definition();
    assert_eq!(keys(&tool), vec!["name", "gracePeriodSeconds", "force"]);
    assert_eq!(required(&tool), vec!["name"]);
    assert!(prop(&tool, "namespace").is_none());
}

#[test]
fn test_delete_tools_are_write_tools() {
    assert!(DeleteResourceTool::new((), ()).is_write_tool());
    assert!(PodsDeleteTool::new(()).is_write_tool());
    assert!(DeploymentsDeleteTool::new(()).is_write_tool());
    assert!(NamespacesDeleteTool::new(()).is_write_tool());
    assert!(!PodsGetTool::new(()).is_write_tool());
    assert!(!ListResourcesTool::new((), ()).is_write_tool());
}

#[test]
fn test_output_format_values() {
    let tool = PodsListTool::new(()).definition();
    assert_eq!(
        prop(&tool, "output").unwrap().enum_.clone().unwrap(),
        vec!["table", "json", "yaml"]
    );
    let args = vec![("output".to_string(), JsonValue::String("JSON".to_string()))];
    assert_eq!(output_format_arg(&args), OutputFormat::Json);
    let none: Vec<(String, JsonValue)> = Vec::new();
    assert_eq!(output_format_arg(&none), OutputFormat::Table);
}

#[test]
fn test_supported_api_versions() {
    let tool = GetResourceTool::new((), ()).definition();
    assert_eq!(
        prop(&tool, "apiVersion").unwrap().enum_.clone().unwrap(),
        vec!["v1", "apps/v1", "batch/v1", "networking.k8s.io/v1"]
    );
}

#[test]
fn test_supported_resource_kinds() {
    let core = [
        ("Pod", ResourceKind::Pod),
        ("Service", ResourceKind::Service),
        ("ConfigMap", ResourceKind::ConfigMap),
        ("Secret", ResourceKind::Secret),
        ("Namespace", ResourceKind::Namespace),
        ("Node", ResourceKind::Node),
        ("PersistentVolumeClaim", ResourceKind::PersistentVolumeClaim),
        ("PersistentVolume", ResourceKind::PersistentVolume),
        ("Event", ResourceKind::Event),
    ];
    for (kind, expected) in core {
        assert_eq!(resource_kind("v1", kind), Some(expected));
    }
    assert_eq!(resource_kind("apps/v1", "Deployment"), Some(ResourceKind::Deployment));
    assert_eq!(resource_kind("apps/v1", "StatefulSet"), Some(ResourceKind::StatefulSet));
    assert_eq!(resource_kind("apps/v1", "DaemonSet"), Some(ResourceKind::DaemonSet));
    assert_eq!(resource_kind("apps/v1", "ReplicaSet"), Some(ResourceKind::ReplicaSet));
    assert_eq!(resource_kind("batch/v1", "Job"), Some(ResourceKind::Job));
    assert_eq!(resource_kind("batch/v1", "CronJob"), Some(ResourceKind::CronJob));
    assert_eq!(resource_kind("networking.k8s.io/v1", "Ingress"), Some(ResourceKind::Ingress));
    assert_eq!(resource_kind("v1", "Deployment"), None);
}

#[test]
fn test_routing_by_tool() {
    assert_eq!(route_get("v1", "Event"), None);
    assert_eq!(route_list("v1", "Event"), Some(ResourceKind::Event));
    assert_eq!(route_get("example.com/v1", "Widget"), None);
    assert_eq!(route_delete("apps/v1", "Deployment"), Some(ResourceKind::Deployment));
    assert_eq!(route_delete("v1", "Node"), Some(ResourceKind::Node));
    assert_eq!(route_delete("v1", "PersistentVolume"), Some(ResourceKind::PersistentVolume));
    assert_eq!(route_delete("v1", "Event"), Some(ResourceKind::Event));
    // Any other type is deleted through the adaptive API.
    assert_eq!(route_delete("storage.k8s.io/v1", "StorageClass"), None);
    assert_eq!(route_delete("example.com/v1", "Widget"), None);
}

#[test]
fn test_secret_redaction() {
    let secret = JsonValue::Object(vec![
        ("kind".to_string(), JsonValue::String("Secret".to_string())),
        (
            "data".to_string(),
            JsonValue::Object(vec![
                ("password".to_string(), JsonValue::String("c2VjcmV0".to_string())),
                ("user".to_string(), JsonValue::String("YWRtaW4=".to_string())),
            ]),
        ),
        ("stringData".to_string(), JsonValue::Object(vec![("token".to_string(), JsonValue::String("t".to_string()))])),
    ]);
    match redact_secret(secret) {
        JsonValue::Object(m) => {
            assert_eq!(m.len(), 3);
            assert!(matches!(&m[0].1, JsonValue::String(s) if s == "Secret"));
            match &m[1].1 {
                JsonValue::Object(inner) => {
                    assert_eq!(inner[0].0, "password");
                    assert!(matches!(&inner[0].1, JsonValue::String(s) if s == "REDACTED"));
                    assert!(matches!(&inner[1].1, JsonValue::String(s) if s == "REDACTED"));
                }
                _ => panic!("data stays an object"),
            }
            match &m[2].1 {
                JsonValue::Object(inner) => assert!(matches!(&inner[0].1, JsonValue::String(s) if s == "REDACTED")),
                _ => panic!("stringData stays an object"),
            }
        }
        _ => panic!("a secret stays an object"),
    }
}

#[test]
fn test_delete_parameters_and_messages() {
    assert_eq!(delete_grace_period(true, Some(30)), Some(0));
    assert_eq!(delete_grace_period(false, Some(30)), Some(30));
    assert_eq!(delete_grace_period(false, None), None);
    let args = vec![("gracePeriodSeconds".to_string(), JsonValue::Number(JsonNumber::PosInt(15)))];
    assert_eq!(grace_period_arg(&args), Some(15));
    assert_eq!(deleted_message("Pod", "web"), "Pod web deleted successfully");
    assert_eq!(resource_deleted_message("Job", "nightly"), "Resource Job/nightly deleted successfully");
}

#[test]
fn test_list_request_defaults() {
    let none: Vec<(String, JsonValue)> = Vec::new();
    let req = parse_list_request(&none);
    assert_eq!(req.api_version, "v1");
    assert_eq!(req.kind, "Pod");
    assert_eq!(req.limit, None);
    assert_eq!(req.format, OutputFormat::Table);
    let args = vec![
        ("kind".to_string(), JsonValue::String("Deployment".to_string())),
        ("limit".to_string(), JsonValue::Number(JsonNumber::PosInt(5))),
        ("all_namespaces".to_string(), JsonValue::Bool(true)),
        ("namespace".to_string(), JsonValue::String("prod".to_string())),
    ];
    let req = parse_list_request(&args);
    assert_eq!(req.kind, "Deployment");
    assert_eq!(req.limit, Some(5));
    assert_eq!(req.namespace, Some("prod".to_string()));
    assert_eq!(pods_list_scope(&args), ListScope::AllNamespaces);
    let only_ns = vec![("namespace".to_string(), JsonValue::String("prod".to_string()))];
    assert_eq!(pods_list_scope(&only_ns), ListScope::Namespace("prod".to_string()));
    assert_eq!(pods_list_scope(&Vec::new()), ListScope::DefaultNamespace);
}

#[test]
fn list_scope_without_namespace_is_every_namespace() {
    assert_eq!(list_scope(None), ListScope::AllNamespaces);
    assert_eq!(list_scope(Some("kube-system".to_string())), ListScope::Namespace("kube-system".to_string()));
}
