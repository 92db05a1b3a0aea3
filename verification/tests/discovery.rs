//! Unit tests for k8s/discovery.rs.

use k8s_mcp::k8s::discovery::shortcuts::common_resources;
use k8s_mcp::k8s::{ApiDiscovery, ApiResourceInfo};

#[test]
fn discovery_test_api_discovery_new() {
    let discovery = ApiDiscovery::new();

    assert!(!discovery.is_discovered());
    assert!(discovery.is_empty());
    assert_eq!(discovery.len(), 0);
}

#[test]
fn test_api_discovery_default() {
    let discovery = ApiDiscovery::default();

    assert!(!discovery.is_discovered());
    assert!(discovery.is_empty());
}

#[test]
fn test_api_discovery_list_empty() {
    let discovery = ApiDiscovery::new();
    let list = discovery.list();

    assert!(list.is_empty());
}

#[test]
fn test_api_discovery_get_empty() {
    let discovery = ApiDiscovery::new();

    assert!(discovery.get("", "v1", "Pod").is_none());
    assert!(discovery.get("apps", "v1", "Deployment").is_none());
}

#[test]
fn test_api_discovery_resolve_empty() {
    let discovery = ApiDiscovery::new();

    assert!(discovery.resolve("pod").is_none());
    assert!(discovery.resolve("Pod").is_none());
    assert!(discovery.resolve("pods").is_none());
}

#[test]
fn test_api_discovery_list_by_category_empty() {
    let discovery = ApiDiscovery::new();
    let list = discovery.list_by_category("all");

    assert!(list.is_empty());
}

#[test]
fn discovery_test_common_resources() {

    let resources = common_resources();

    assert!(!resources.is_empty());

    // Check that we have expected resource kinds
    let kinds: Vec<&str> = resources.iter().map(|r| r.kind.as_str()).collect();
    assert!(kinds.contains(&"Pod"));
    assert!(kinds.contains(&"Deployment"));
    assert!(kinds.contains(&"Service"));
    assert!(kinds.contains(&"ConfigMap"));
    assert!(kinds.contains(&"Secret"));
    assert!(kinds.contains(&"Namespace"));
    assert!(kinds.contains(&"Node"));
    assert!(kinds.contains(&"StatefulSet"));
    assert!(kinds.contains(&"DaemonSet"));
    assert!(kinds.contains(&"Job"));
    assert!(kinds.contains(&"CronJob"));
    assert!(kinds.contains(&"Ingress"));
}

#[test]
fn test_common_resources_namespaced() {

    let resources = common_resources();

    // Check namespaced resources
    let pod = resources.iter().find(|r| r.kind == "Pod").unwrap();
    assert!(pod.namespaced);

    let deployment = resources.iter().find(|r| r.kind == "Deployment").unwrap();
    assert!(deployment.namespaced);

    // Check cluster-scoped resources
    let node = resources.iter().find(|r| r.kind == "Node").unwrap();
    assert!(!node.namespaced);

    let namespace = resources.iter().find(|r| r.kind == "Namespace").unwrap();
    assert!(!namespace.namespaced);
}

#[test]
fn discovery_test_common_resources_short_names() {

    let resources = common_resources();

    let pod = resources.iter().find(|r| r.kind == "Pod").unwrap();
    assert!(pod.short_names.contains(&"po".to_string()));

    let deployment = resources.iter().find(|r| r.kind == "Deployment").unwrap();
    assert!(deployment.short_names.contains(&"deploy".to_string()));

    let service = resources.iter().find(|r| r.kind == "Service").unwrap();
    assert!(service.short_names.contains(&"svc".to_string()));

    let namespace = resources.iter().find(|r| r.kind == "Namespace").unwrap();
    assert!(namespace.short_names.contains(&"ns".to_string()));
}

#[test]
fn test_common_resources_api_versions() {

    let resources = common_resources();

    let pod = resources.iter().find(|r| r.kind == "Pod").unwrap();
    assert_eq!(pod.api_version, "v1");
    assert_eq!(pod.group, "");

    let deployment = resources.iter().find(|r| r.kind == "Deployment").unwrap();
    assert_eq!(deployment.api_version, "v1");
    assert_eq!(deployment.group, "apps");

    let ingress = resources.iter().find(|r| r.kind == "Ingress").unwrap();
    assert_eq!(ingress.api_version, "v1");
    assert_eq!(ingress.group, "networking.k8s.io");
}

#[test]
fn test_common_resources_verbs() {

    let resources = common_resources();

    let pod = resources.iter().find(|r| r.kind == "Pod").unwrap();
    assert!(pod.verbs.contains(&"get".to_string()));
    assert!(pod.verbs.contains(&"list".to_string()));
    assert!(pod.verbs.contains(&"create".to_string()));
    assert!(pod.verbs.contains(&"delete".to_string()));

    let node = resources.iter().find(|r| r.kind == "Node").unwrap();
    assert!(node.verbs.contains(&"get".to_string()));
    assert!(node.verbs.contains(&"list".to_string()));
    // Nodes cannot be created directly via API
    assert!(!node.verbs.contains(&"create".to_string()));
}

#[test]
fn test_common_resources_categories() {

    let resources = common_resources();

    let pod = resources.iter().find(|r| r.kind == "Pod").unwrap();
    assert!(pod.categories.contains(&"all".to_string()));

    let deployment = resources.iter().find(|r| r.kind == "Deployment").unwrap();
    assert!(deployment.categories.contains(&"all".to_string()));

    // Secrets are not in the "all" category
    let secret = resources.iter().find(|r| r.kind == "Secret").unwrap();
    assert!(!secret.categories.contains(&"all".to_string()));
}

#[test]
fn test_api_resource_info_debug() {
    let info = ApiResourceInfo {
        name: "deployments".to_string(),
        singular: "deployment".to_string(),
        kind: "Deployment".to_string(),
        api_version: "v1".to_string(),
        group: "apps".to_string(),
        namespaced: true,
        short_names: vec!["deploy".to_string()],
        verbs: vec![],
        categories: vec![],
    };

    let debug_output = format!("{:?}", info);
    assert!(debug_output.contains("deployments"));
    assert!(debug_output.contains("Deployment"));
    assert!(debug_output.contains("apps"));
}

#[test]
fn test_api_discovery_new() {
    let discovery = ApiDiscovery::new();

    assert!(!discovery.is_discovered());
    assert!(discovery.is_empty());
    assert_eq!(discovery.len(), 0);
}

#[test]
fn test_common_resources() {

    let resources = common_resources();

    assert!(!resources.is_empty());

    // Check that we have expected resource kinds
    let kinds: Vec<&str> = resources.iter().map(|r| r.kind.as_str()).collect();
    assert!(kinds.contains(&"Pod"));
    assert!(kinds.contains(&"Deployment"));
    assert!(kinds.contains(&"Service"));
    assert!(kinds.contains(&"ConfigMap"));
    assert!(kinds.contains(&"Secret"));
    assert!(kinds.contains(&"Namespace"));
    assert!(kinds.contains(&"Node"));
    assert!(kinds.contains(&"StatefulSet"));
    assert!(kinds.contains(&"DaemonSet"));
    assert!(kinds.contains(&"Job"));
    assert!(kinds.contains(&"CronJob"));
    assert!(kinds.contains(&"Ingress"));
}

fn discovered(group: &str, version: &str, plural: &str, kind: &str, namespaced: bool) -> k8s_mcp::k8s::discovery::DiscoveredResource {
    k8s_mcp::k8s::discovery::DiscoveredResource {
        group: group.to_string(),
        version: version.to_string(),
        plural: plural.to_string(),
        kind: kind.to_string(),
        namespaced,
    }
}

#[test]
fn discovery_record_then_lookup() {
    let mut discovery = ApiDiscovery::new();
    assert!(!discovery.is_discovered());
    discovery.record(&vec![
        discovered("apps", "v1", "deployments", "Deployment", true),
        discovered("example.com", "v1alpha1", "widgets", "Widget", false),
    ]);
    assert!(discovery.is_discovered());
    assert_eq!(discovery.len(), 2);

    let by_key = discovery.get("example.com", "v1alpha1", "Widget").unwrap();
    assert_eq!(by_key.name, "widgets");
    assert_eq!(by_key.singular, "widget");
    assert!(!by_key.namespaced);

    assert_eq!(discovery.resolve("widgets").unwrap().kind, "Widget");
    assert_eq!(discovery.resolve("WIDGETS").unwrap().kind, "Widget");
    assert_eq!(discovery.resolve("widget").unwrap().kind, "Widget");
    assert_eq!(discovery.resolve("Deployment").unwrap().name, "deployments");
    assert!(discovery.resolve("gadgets").is_none());
    assert!(discovery.get("example.com", "v1", "Widget").is_none());
}

#[test]
fn discovery_record_replaces_same_resource() {
    let mut discovery = ApiDiscovery::new();
    discovery.record(&vec![
        discovered("example.com", "v1", "widgets", "Widget", true),
        discovered("example.com", "v1", "widgets", "Widget", false),
    ]);
    assert_eq!(discovery.len(), 1);
    assert!(!discovery.get("example.com", "v1", "Widget").unwrap().namespaced);
}

#[test]
fn discovery_record_starts_afresh() {
    let mut discovery = ApiDiscovery::new();
    discovery.record(&vec![discovered("example.com", "v1", "widgets", "Widget", true)]);
    discovery.record(&vec![discovered("example.com", "v1", "gadgets", "Gadget", true)]);
    assert_eq!(discovery.len(), 1);
    assert!(discovery.resolve("widgets").is_none());
    assert!(discovery.resolve("gadgets").is_some());
}
