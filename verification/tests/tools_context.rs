//! Tests of the context tools.

use k8s_mcp::k8s::config::{list_contexts, ContextEntry, KubeconfigContexts, NamedContextEntry};
use k8s_mcp::k8s::ContextInfo;
use k8s_mcp::mcp::json::JsonValue;
use k8s_mcp::tools::context::{contexts_table, current_context_report, minified_selection};
use k8s_mcp::tools::definitions::{ConfigurationViewTool, ContextCurrentTool, ContextsListTool};
use k8s_mcp::k8s::K8sConfig;

fn entry(name: &str, cluster: &str, user: Option<&str>, namespace: Option<&str>) -> NamedContextEntry {
    NamedContextEntry {
        name: name.to_string(),
        context: Some(ContextEntry {
            cluster: cluster.to_string(),
            user: user.map(|u| u.to_string()),
            namespace: namespace.map(|n| n.to_string()),
        }),
    }
}

fn kubeconfig() -> KubeconfigContexts {
    KubeconfigContexts {
        current_context: Some("prod".to_string()),
        contexts: vec![
            entry("dev", "dev-cluster", Some("dev-user"), None),
            entry("prod", "prod-cluster", Some("admin"), Some("web")),
        ],
    }
}

#[test]
fn test_contexts_list_tool_expected_name() {
    assert_eq!(ContextsListTool::new(K8sConfig::new()).definition().name, "contexts_list");
}

#[test]
fn test_contexts_list_tool_expected_params() {
    let tool = ContextsListTool::new(K8sConfig::new()).definition();
    assert!(tool.input_schema.properties.is_none());
}

#[test]
fn test_contexts_list_tool_is_not_write() {
    assert!(!ContextsListTool::new(K8sConfig::new()).is_write_tool());
}

#[test]
fn test_contexts_list_tool_output() {
    let k = kubeconfig();
    let contexts = list_contexts(&k);
    assert_eq!(contexts.len(), 2);
    assert_eq!(contexts[1].is_current, Some(true));
    assert_eq!(contexts[0].is_current, Some(false));
    let out = contexts_table(&contexts, &k.current_context);
    for title in ["NAME", "CLUSTER", "AUTHINFO", "NAMESPACE", "CURRENT"] {
        assert!(out.contains(title));
    }
    assert!(out.contains("prod-cluster"));
    assert!(out.contains("dev-user"));
    assert!(out.contains("*"));
}

#[test]
fn test_context_current_tool_expected_name() {
    assert_eq!(ContextCurrentTool::new((), K8sConfig::new()).definition().name, "context_current");
}

#[test]
fn test_context_current_tool_expected_params() {
    assert!(ContextCurrentTool::new((), K8sConfig::new()).definition().input_schema.properties.is_none());
}

#[test]
fn test_context_current_tool_is_not_write() {
    assert!(!ContextCurrentTool::new((), K8sConfig::new()).is_write_tool());
}

#[test]
fn test_context_current_tool_output() {
    match current_context_report(Some("prod".to_string()), "web".to_string()) {
        JsonValue::Object(m) => {
            assert_eq!(m[0].0, "currentContext");
            assert!(matches!(&m[0].1, JsonValue::String(s) if s == "prod"));
            assert_eq!(m[1].0, "defaultNamespace");
            assert!(matches!(&m[1].1, JsonValue::String(s) if s == "web"));
        }
        _ => panic!("expected an object"),
    }
    match current_context_report(None, "default".to_string()) {
        JsonValue::Object(m) => assert!(matches!(m[0].1, JsonValue::Null)),
        _ => panic!("expected an object"),
    }
}

#[test]
fn test_configuration_view_tool_expected_name() {
    assert_eq!(ConfigurationViewTool::new(K8sConfig::new()).definition().name, "configuration_view");
}

#[test]
fn test_configuration_view_tool_expected_params() {
    let tool = ConfigurationViewTool::new(K8sConfig::new()).definition();
    let props = tool.input_schema.properties.unwrap();
    assert_eq!(props.len(), 1);
    assert_eq!(props[0].0, "minified");
    assert_eq!(props[0].1.type_, Some("boolean".to_string()));
    assert!(matches!(props[0].1.default, Some(JsonValue::Bool(true))));
}

#[test]
fn test_configuration_view_tool_is_not_write() {
    assert!(!ConfigurationViewTool::new(K8sConfig::new()).is_write_tool());
}

#[test]
fn test_configuration_view_tool_output() {
    let k = kubeconfig();
    let clusters = vec!["dev-cluster".to_string(), "prod-cluster".to_string()];
    let users = vec!["admin".to_string(), "dev-user".to_string()];
    let sel = minified_selection(&k.current_context, &k.contexts, &clusters, &users);
    assert_eq!(sel.contexts, vec![1]);
}

#[test]
fn test_configuration_view_minified() {
    let k = kubeconfig();
    let clusters = vec!["dev-cluster".to_string(), "prod-cluster".to_string(), "other".to_string()];
    let users = vec!["admin".to_string(), "dev-user".to_string()];
    let sel = minified_selection(&k.current_context, &k.contexts, &clusters, &users);
    assert_eq!(sel.contexts, vec![1]);
    assert_eq!(sel.clusters, vec![1]);
    assert_eq!(sel.users, vec![0]);
}

#[test]
fn test_configuration_view_full() {
    let k = KubeconfigContexts { current_context: None, contexts: kubeconfig().contexts };
    let clusters = vec!["dev-cluster".to_string()];
    let users = vec!["dev-user".to_string()];
    let sel = minified_selection(&k.current_context, &k.contexts, &clusters, &users);
    assert!(sel.contexts.is_empty());
    assert!(sel.clusters.is_empty());
    assert!(sel.users.is_empty());
}

#[test]
fn test_context_info_structure() {
    let info = ContextInfo {
        name: "ctx".to_string(),
        cluster: Some("c".to_string()),
        user: None,
        namespace: Some("ns".to_string()),
        is_current: Some(false),
    };
    assert_eq!(info.name, "ctx");
    assert_eq!(info.cluster.as_deref(), Some("c"));
    assert!(info.user.is_none());
    assert_eq!(info.namespace.as_deref(), Some("ns"));
    assert_eq!(info.is_current, Some(false));
}

#[test]
fn context_test_context_info_serialization() {
    let k = KubeconfigContexts {
        current_context: None,
        contexts: vec![NamedContextEntry { name: "bare".to_string(), context: None }],
    };
    let contexts = list_contexts(&k);
    assert_eq!(contexts[0].name, "bare");
    assert!(contexts[0].cluster.is_none());
    assert!(contexts[0].user.is_none());
    assert!(contexts[0].namespace.is_none());
    assert_eq!(contexts[0].is_current, Some(false));
}
