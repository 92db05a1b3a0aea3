//! Tests of error messages and JSON-RPC codes.

use k8s_mcp::Error;

#[test]
fn test_version_mismatch_error() {
    let error = Error::VersionMismatch {
        current: "v1.28.0".to_string(),
        required: "v1.30.0".to_string(),
    };

    let message = error.message();
    assert!(message.contains("v1.28.0"));
    assert!(message.contains("v1.30.0"));
    assert!(message.contains("version mismatch"));
}

#[test]
fn test_feature_not_available_error() {
    let error = Error::FeatureNotAvailable {
        feature: "PodSecurityPolicies".to_string(),
        required_major: 1,
        required_minor: 25,
        current_major: 1,
        current_minor: 22,
    };

    let message = error.message();
    assert!(message.contains("PodSecurityPolicies"));
    assert!(message.contains("v1.25"));
    assert!(message.contains("v1.22"));
}

#[test]
fn test_resource_scope_mismatch_error() {
    let error = Error::ResourceScopeMismatch {
        kind: "Namespace".to_string(),
        expected_scope: "cluster-scoped".to_string(),
        actual_scope: "namespaced".to_string(),
    };

    let message = error.message();
    assert!(message.contains("Namespace"));
    assert!(message.contains("cluster-scoped"));
    assert!(message.contains("namespaced"));
}

#[test]
fn test_error_display() {
    // Test that all error variants implement Display correctly
    let errors: Vec<Error> = vec![
        Error::Protocol("test".to_string()),
        Error::Config("test config".to_string()),
        Error::Tool("test tool".to_string()),
        Error::ReadOnlyMode,
        Error::NoContext,
        Error::NoClusterConnection,
        Error::VersionMismatch {
            current: "v1".to_string(),
            required: "v2".to_string(),
        },
        Error::FeatureNotAvailable {
            feature: "test".to_string(),
            required_major: 1,
            required_minor: 30,
            current_major: 1,
            current_minor: 28,
        },
        Error::ResourceScopeMismatch {
            kind: "Test".to_string(),
            expected_scope: "cluster".to_string(),
            actual_scope: "namespace".to_string(),
        },
    ];

    for error in errors {
        // Just ensure to_string() doesn't panic
        let _ = error.message();
    }
}

#[test]
fn test_json_rpc_code_for_non_json_rpc_errors() {
    // Non-JSON-RPC errors should return internal error code
    assert_eq!(Error::NoContext.json_rpc_code(), -32603);
    assert_eq!(Error::ReadOnlyMode.json_rpc_code(), -32603);
    assert_eq!(
        Error::VersionMismatch {
            current: "v1".to_string(),
            required: "v2".to_string()
        }
        .json_rpc_code(),
        -32603
    );
}

#[test]
fn test_is_json_rpc_error() {
    assert!(Error::json_rpc_invalid_params("test".to_string()).is_json_rpc_error());
    assert!(!Error::NoContext.is_json_rpc_error());
    assert!(!Error::ReadOnlyMode.is_json_rpc_error());
}

#[test]
fn error_resource_not_found_shows_namespace_debug_text() {
    let error = Error::ResourceNotFound {
        kind: "Pod".to_string(),
        name: "web".to_string(),
        namespace: Some("default".to_string()),
    };
    assert_eq!(error.message(), "Resource not found: Pod/web in namespace Some(\"default\")");

    let cluster_wide = Error::ResourceNotFound {
        kind: "Node".to_string(),
        name: "n1".to_string(),
        namespace: None,
    };
    assert_eq!(cluster_wide.message(), "Resource not found: Node/n1 in namespace None");
}

#[test]
fn error_json_rpc_codes() {
    assert_eq!(Error::json_rpc_invalid_request("bad".to_string()).json_rpc_code(), -32600);
    assert_eq!(Error::json_rpc_method_not_found("x").json_rpc_code(), -32601);
    assert_eq!(Error::json_rpc_invalid_params("p".to_string()).json_rpc_code(), -32602);
    assert_eq!(Error::json_rpc_internal("i".to_string()).json_rpc_code(), -32603);
    assert_eq!(Error::NoContext.json_rpc_code(), -32603);
    assert!(Error::json_rpc_method_not_found("x").is_json_rpc_error());
    assert!(!Error::ReadOnlyMode.is_json_rpc_error());
    assert_eq!(
        Error::json_rpc_method_not_found("tools/x").message(),
        "JSON-RPC error: code=-32601, message=Method not found: tools/x"
    );
}
