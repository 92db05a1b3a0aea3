//! Tests of the client's configuration and connection-state answers.

use k8s_mcp::k8s::client::resolve_namespace;
use k8s_mcp::k8s::K8sConfig;

/// Test that K8sConfig builder produces expected configuration.
#[test]
fn test_config_builder_for_client() {
    let config = K8sConfig::new()
        .with_context("test-context")
        .with_kubeconfig("/path/to/config");

    assert_eq!(config.context, Some("test-context".to_string()));
    assert_eq!(
        config.kubeconfig_path.clone().map(std::path::PathBuf::from),
        Some(std::path::PathBuf::from("/path/to/config"))
    );
}

/// Test default configuration values.
#[test]
fn test_default_config() {
    let config = K8sConfig::default();

    assert!(config.kubeconfig_path.is_none());
    assert!(config.context.is_none());
    assert!(config.cluster_url.is_none());
}

/// Test configuration cloning.
#[test]
fn client_test_config_clone() {
    let config = K8sConfig::new()
        .with_context("my-context")
        .with_cluster_url("https://cluster.example.com");

    let cloned = config.clone();

    assert_eq!(config.context, cloned.context);
    assert_eq!(config.cluster_url, cloned.cluster_url);
}

/// Test configuration with all options.
#[test]
fn test_config_with_all_options() {
    let config = K8sConfig::new()
        .with_kubeconfig("/custom/kubeconfig")
        .with_context("custom-context")
        .with_cluster_url("https://custom.cluster.local");

    assert_eq!(
        config.kubeconfig_path.clone().map(std::path::PathBuf::from),
        Some(std::path::PathBuf::from("/custom/kubeconfig"))
    );
    assert_eq!(config.context, Some("custom-context".to_string()));
    assert_eq!(
        config.cluster_url,
        Some("https://custom.cluster.local".to_string())
    );
}

/// Test configuration debug output.
#[test]
fn client_test_config_debug() {
    let config = K8sConfig::new().with_context("debug-test");
    let debug_str = format!("{:?}", config);

    assert!(debug_str.contains("debug-test"));
}


#[test]
fn test_resolve_namespace_with_provided() {
    let result = resolve_namespace(Some("custom"), "default");
    assert_eq!(result, "custom");
}

#[test]
fn test_resolve_namespace_with_default() {
    let result = resolve_namespace(None, "default");
    assert_eq!(result, "default");
}

/// Test kubeconfig options creation.
#[test]
fn test_kubeconfig_options() {
    let config = K8sConfig::new().with_context("production");
    let options = config.kubeconfig_options();

    assert_eq!(options.context, Some("production".to_string()));
    assert_eq!(options.cluster, None);
    assert_eq!(options.user, None);
}
