//! Tests of the adaptive resource decisions.

use k8s_mcp::k8s::adaptive::{get_resource_info, get_scope_description, is_known_core_resource, is_namespaced};
use k8s_mcp::k8s::parse_api_version;

#[test]
fn test_is_known_core_resource_pod() {
    let gvk = parse_api_version("v1", "Pod");
    assert!(is_known_core_resource(&gvk));
}

#[test]
fn test_is_known_core_resource_deployment() {
    let gvk = parse_api_version("apps/v1", "Deployment");
    assert!(is_known_core_resource(&gvk));
}

#[test]
fn test_is_known_core_resource_unknown() {
    let gvk = parse_api_version("custom.io/v1", "CustomResource");
    assert!(!is_known_core_resource(&gvk));
}

#[test]
fn test_is_known_core_resource_all_common_types() {
    // Core v1
    assert!(is_known_core_resource(&parse_api_version("v1", "Pod")));
    assert!(is_known_core_resource(&parse_api_version("v1", "Service")));
    assert!(is_known_core_resource(&parse_api_version(
        "v1",
        "ConfigMap"
    )));
    assert!(is_known_core_resource(&parse_api_version("v1", "Secret")));
    assert!(is_known_core_resource(&parse_api_version(
        "v1",
        "Namespace"
    )));
    assert!(is_known_core_resource(&parse_api_version("v1", "Node")));
    assert!(is_known_core_resource(&parse_api_version("v1", "Event")));

    // Apps v1
    assert!(is_known_core_resource(&parse_api_version(
        "apps/v1",
        "Deployment"
    )));
    assert!(is_known_core_resource(&parse_api_version(
        "apps/v1",
        "StatefulSet"
    )));
    assert!(is_known_core_resource(&parse_api_version(
        "apps/v1",
        "DaemonSet"
    )));
    assert!(is_known_core_resource(&parse_api_version(
        "apps/v1",
        "ReplicaSet"
    )));

    // Batch v1
    assert!(is_known_core_resource(&parse_api_version(
        "batch/v1", "Job"
    )));
    assert!(is_known_core_resource(&parse_api_version(
        "batch/v1", "CronJob"
    )));

    // Networking v1
    assert!(is_known_core_resource(&parse_api_version(
        "networking.k8s.io/v1",
        "Ingress"
    )));
}

#[test]
fn test_is_known_core_resource_crd_types() {
    // CRDs should not be known core resources
    assert!(!is_known_core_resource(&parse_api_version(
        "custom.io/v1",
        "CustomResource"
    )));
    assert!(!is_known_core_resource(&parse_api_version(
        "monitoring.coreos.com/v1",
        "Prometheus"
    )));
    assert!(!is_known_core_resource(&parse_api_version(
        "argoproj.io/v1alpha1",
        "Workflow"
    )));
}

#[test]
fn test_get_scope_description() {
    assert_eq!(get_scope_description(true), "namespaced");
    assert_eq!(get_scope_description(false), "cluster-scoped");
}

#[test]
fn test_parse_api_version_core() {
    let gvk = parse_api_version("v1", "Pod");
    assert_eq!(gvk.group, "");
    assert_eq!(gvk.version, "v1");
    assert_eq!(gvk.kind, "Pod");
}

#[test]
fn test_parse_api_version_grouped() {
    let gvk = parse_api_version("apps/v1", "Deployment");
    assert_eq!(gvk.group, "apps");
    assert_eq!(gvk.version, "v1");
    assert_eq!(gvk.kind, "Deployment");
}

#[test]
fn test_parse_api_version_long_group() {
    let gvk = parse_api_version("networking.k8s.io/v1", "Ingress");
    assert_eq!(gvk.group, "networking.k8s.io");
    assert_eq!(gvk.version, "v1");
    assert_eq!(gvk.kind, "Ingress");
}

#[test]
fn test_gvk_from_parse_api_version() {
    // Test that the GVK produced by parse_api_version works with is_known_core_resource
    let pod_gvk = parse_api_version("v1", "Pod");
    assert!(is_known_core_resource(&pod_gvk));

    let deploy_gvk = parse_api_version("apps/v1", "Deployment");
    assert!(is_known_core_resource(&deploy_gvk));

    let custom_gvk = parse_api_version("custom.io/v1", "Thing");
    assert!(!is_known_core_resource(&custom_gvk));
}

fn gvk(group: &str, version: &str, kind: &str) -> k8s_mcp::k8s::GroupVersionKind {
    k8s_mcp::k8s::GroupVersionKind {
        group: group.to_string(),
        version: version.to_string(),
        kind: kind.to_string(),
    }
}

#[test]
fn adaptive_resource_info_falls_back_to_builtin_records() {
    let discovery = k8s_mcp::k8s::ApiDiscovery::new();
    let info = get_resource_info(&discovery, &gvk("", "v1", "Pod")).unwrap();
    assert_eq!(info.name, "pods");
    assert!(info.namespaced);
    let node = get_resource_info(&discovery, &gvk("", "v1", "Node")).unwrap();
    assert!(!node.namespaced);
    assert!(!is_namespaced(&discovery, &gvk("", "v1", "Node")));
    assert!(is_namespaced(&discovery, &gvk("apps", "v1", "Deployment")));
}

#[test]
fn adaptive_unknown_resource_is_namespaced() {
    let discovery = k8s_mcp::k8s::ApiDiscovery::new();
    let unknown = gvk("example.com", "v1", "Widget");
    assert!(get_resource_info(&discovery, &unknown).is_none());
    assert!(is_namespaced(&discovery, &unknown));
}

#[test]
fn adaptive_discovered_record_takes_precedence() {
    let mut discovery = k8s_mcp::k8s::ApiDiscovery::new();
    discovery.record(&vec![
        k8s_mcp::k8s::discovery::DiscoveredResource {
            group: "example.com".to_string(),
            version: "v1".to_string(),
            plural: "widgets".to_string(),
            kind: "Widget".to_string(),
            namespaced: false,
        },
        k8s_mcp::k8s::discovery::DiscoveredResource {
            group: "".to_string(),
            version: "v1".to_string(),
            plural: "pods".to_string(),
            kind: "Pod".to_string(),
            namespaced: false,
        },
    ]);
    let widget = get_resource_info(&discovery, &gvk("example.com", "v1", "Widget")).unwrap();
    assert_eq!(widget.name, "widgets");
    assert_eq!(widget.singular, "widget");
    assert!(!is_namespaced(&discovery, &gvk("example.com", "v1", "Widget")));
    // The discovered record for pods overrides the built-in one.
    assert!(!is_namespaced(&discovery, &gvk("", "v1", "Pod")));
}

#[test]
fn adaptive_builtin_storage_resources() {
    let discovery = k8s_mcp::k8s::ApiDiscovery::new();
    let pvc = get_resource_info(&discovery, &gvk("", "v1", "PersistentVolumeClaim")).unwrap();
    assert_eq!(pvc.name, "persistentvolumeclaims");
    assert!(pvc.short_names.contains(&"pvc".to_string()));
    assert!(is_namespaced(&discovery, &gvk("", "v1", "PersistentVolumeClaim")));
    let pv = get_resource_info(&discovery, &gvk("", "v1", "PersistentVolume")).unwrap();
    assert_eq!(pv.name, "persistentvolumes");
    assert!(!is_namespaced(&discovery, &gvk("", "v1", "PersistentVolume")));
    assert!(is_known_core_resource(&gvk("", "v1", "PersistentVolume")));
}
