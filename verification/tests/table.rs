//! Tests of the resource tables.

use k8s_mcp::format::{
    format_configmaps_table, format_cronjobs_table, format_deployments_table, format_duration,
    format_events_table, format_ingresses_table, format_jobs_table, format_namespaces_table,
    format_nodes_table, format_pods_table, format_pvcs_table, format_pvs_table,
    format_secrets_table, format_services_table, get_age, ClaimRow, ConfigMapRow,
    ContainerStatusRow, CronJobRow, DeploymentRow, EventRow, IngressAddressRow, IngressRow, JobRow,
    NamespaceRow, NodeConditionRow, NodeRow, PodRow, PvRow, PvcRow, SecretRow, ServicePortRow,
    ServiceRow,
};
use k8s_mcp::format::table::{get_node_roles, get_pod_ready, get_pod_restarts, get_pod_status};

const NOW: i64 = 1_700_000_000;

// ============================================================================
// Pod Table Tests
// ============================================================================

fn create_test_pod(name: &str, namespace: &str, phase: &str) -> PodRow {
    PodRow {
        name: name.to_string(),
        namespace: Some(namespace.to_string()),
        created: None,
        phase: Some(phase.to_string()),
        container_statuses: None,
    }
}

#[test]
fn test_format_pods_table_empty() {
    let pods: Vec<PodRow> = vec![];
    let output = format_pods_table(&pods, NOW);

    assert!(output.contains("NAME"));
    assert!(output.contains("READY"));
    assert!(output.contains("STATUS"));
}

#[test]
fn test_format_pods_table_single() {
    let pods = vec![create_test_pod("test-pod", "default", "Running")];
    let output = format_pods_table(&pods, NOW);

    assert!(output.contains("test-pod"));
    assert!(output.contains("Running"));
}

#[test]
fn test_format_pods_table_multiple() {
    let pods = vec![
        create_test_pod("pod-1", "ns-1", "Running"),
        create_test_pod("pod-2", "ns-2", "Pending"),
    ];
    let output = format_pods_table(&pods, NOW);

    assert!(output.contains("pod-1"));
    assert!(output.contains("pod-2"));
}

#[test]
fn test_pod_cells() {
    let mut pod = create_test_pod("p", "default", "Running");
    assert_eq!(get_pod_ready(&pod), "0/0");
    assert_eq!(get_pod_restarts(&pod), "0");
    assert_eq!(get_pod_status(&pod), "Running");
    pod.container_statuses = Some(vec![
        ContainerStatusRow { ready: true, restart_count: 2, terminated_exit_code: None },
        ContainerStatusRow { ready: false, restart_count: 3, terminated_exit_code: Some(0) },
        ContainerStatusRow { ready: false, restart_count: 0, terminated_exit_code: Some(137) },
    ]);
    assert_eq!(get_pod_ready(&pod), "1/3");
    assert_eq!(get_pod_restarts(&pod), "5");
    assert_eq!(get_pod_status(&pod), "Error:137");
    pod.phase = None;
    pod.container_statuses = Some(vec![]);
    assert_eq!(get_pod_status(&pod), "Unknown");
}

// ============================================================================
// Deployment Table Tests
// ============================================================================

fn create_test_deployment(name: &str, namespace: &str) -> DeploymentRow {
    DeploymentRow {
        name: name.to_string(),
        namespace: Some(namespace.to_string()),
        created: None,
        replicas: Some(1),
        ready_replicas: Some(1),
        updated_replicas: Some(1),
        available_replicas: Some(1),
    }
}

#[test]
fn test_format_deployments_table_empty() {
    let deployments: Vec<DeploymentRow> = vec![];
    let output = format_deployments_table(&deployments, NOW);

    assert!(output.contains("NAME"));
    assert!(output.contains("READY"));
}

#[test]
fn test_format_deployments_table_single() {
    let deployments = vec![create_test_deployment("my-app", "production")];
    let output = format_deployments_table(&deployments, NOW);

    assert!(output.contains("my-app"));
    assert!(output.contains("production"));
    assert!(output.contains("1/1"));
}

// ============================================================================
// Service Table Tests
// ============================================================================

fn create_test_service(name: &str, namespace: &str) -> ServiceRow {
    ServiceRow {
        name: name.to_string(),
        namespace: Some(namespace.to_string()),
        created: None,
        service_type: Some("ClusterIP".to_string()),
        cluster_ip: Some("10.0.0.1".to_string()),
        has_status: false,
        load_balancer_ips: None,
        ports: vec![ServicePortRow { port: 80, protocol: Some("TCP".to_string()) }],
    }
}

#[test]
fn test_format_services_table_empty() {
    let services: Vec<ServiceRow> = vec![];
    let output = format_services_table(&services, NOW);

    assert!(output.contains("NAME"));
    assert!(output.contains("TYPE"));
}

#[test]
fn test_format_services_table_single() {
    let services = vec![create_test_service("my-service", "default")];
    let output = format_services_table(&services, NOW);

    assert!(output.contains("my-service"));
    assert!(output.contains("80/TCP"));
    assert!(output.contains("<none>"));
}

#[test]
fn test_format_services_ports_and_ips() {
    let mut svc = create_test_service("lb", "default");
    svc.has_status = true;
    svc.load_balancer_ips = Some(vec![Some("1.2.3.4".to_string()), None, Some("5.6.7.8".to_string())]);
    svc.ports = vec![
        ServicePortRow { port: 443, protocol: None },
        ServicePortRow { port: 53, protocol: Some("UDP".to_string()) },
    ];
    let output = format_services_table(&vec![svc], NOW);
    assert!(output.contains("1.2.3.4,,5.6.7.8"));
    assert!(output.contains("443/TCP,53/UDP"));
}

// ============================================================================
// ConfigMap Table Tests
// ============================================================================

fn create_test_configmap(name: &str, namespace: &str) -> ConfigMapRow {
    ConfigMapRow { name: name.to_string(), namespace: Some(namespace.to_string()), created: None, data_count: 0 }
}

#[test]
fn test_format_configmaps_table_empty() {
    let configmaps: Vec<ConfigMapRow> = vec![];
    let output = format_configmaps_table(&configmaps, NOW);

    assert!(output.contains("NAME"));
    assert!(output.contains("DATA"));
}

#[test]
fn test_format_configmaps_table_single() {
    let configmaps = vec![create_test_configmap("my-config", "default")];
    let output = format_configmaps_table(&configmaps, NOW);

    assert!(output.contains("my-config"));
}

// ============================================================================
// Secret Table Tests
// ============================================================================

fn create_test_secret(name: &str, namespace: &str) -> SecretRow {
    SecretRow {
        name: name.to_string(),
        namespace: Some(namespace.to_string()),
        created: None,
        secret_type: Some("Opaque".to_string()),
        data_count: 0,
    }
}

#[test]
fn test_format_secrets_table_empty() {
    let secrets: Vec<SecretRow> = vec![];
    let output = format_secrets_table(&secrets, NOW);

    assert!(output.contains("NAME"));
    assert!(output.contains("TYPE"));
}

#[test]
fn test_format_secrets_table_single() {
    let secrets = vec![create_test_secret("my-secret", "default")];
    let output = format_secrets_table(&secrets, NOW);

    assert!(output.contains("my-secret"));
    assert!(output.contains("Opaque"));
}

// ============================================================================
// Namespace Table Tests
// ============================================================================

fn create_test_namespace(name: &str) -> NamespaceRow {
    NamespaceRow { name: name.to_string(), created: None, phase: Some("Active".to_string()) }
}

#[test]
fn test_format_namespaces_table_empty() {
    let namespaces: Vec<NamespaceRow> = vec![];
    let output = format_namespaces_table(&namespaces, NOW);

    assert!(output.contains("NAME"));
    assert!(output.contains("STATUS"));
}

#[test]
fn test_format_namespaces_table_single() {
    let namespaces = vec![create_test_namespace("my-namespace")];
    let output = format_namespaces_table(&namespaces, NOW);

    assert!(output.contains("my-namespace"));
    assert!(output.contains("Active"));
}

// ============================================================================
// Node Table Tests
// ============================================================================

fn create_test_node(name: &str, ready: bool) -> NodeRow {
    NodeRow {
        name: name.to_string(),
        created: None,
        conditions: Some(vec![NodeConditionRow {
            condition_type: "Ready".to_string(),
            status: if ready { "True" } else { "False" }.to_string(),
        }]),
        labels: None,
        kubelet_version: Some("v1.32.0".to_string()),
    }
}

#[test]
fn test_format_nodes_table_empty() {
    let nodes: Vec<NodeRow> = vec![];
    let output = format_nodes_table(&nodes, NOW);

    assert!(output.contains("NAME"));
    assert!(output.contains("STATUS"));
}

#[test]
fn test_format_nodes_table_single() {
    let nodes = vec![create_test_node("node-1", true)];
    let output = format_nodes_table(&nodes, NOW);

    assert!(output.contains("node-1"));
    assert!(output.contains("Ready"));
    assert!(output.contains("v1.32.0"));
}

#[test]
fn test_format_nodes_table_not_ready() {
    let nodes = vec![create_test_node("node-2", false)];
    let output = format_nodes_table(&nodes, NOW);

    assert!(output.contains("NotReady"));
}

#[test]
fn test_node_roles() {
    let mut node = create_test_node("n", true);
    assert_eq!(get_node_roles(&node), "<none>");
    node.labels = Some(vec![
        ("kubernetes.io/hostname".to_string(), "n".to_string()),
        ("kubernetes.io/role".to_string(), "worker".to_string()),
        ("node-role.kubernetes.io/control-plane".to_string(), "".to_string()),
        ("node-role.kubernetes.io/node-role.kubernetes.io/x".to_string(), "".to_string()),
    ]);
    assert_eq!(get_node_roles(&node), "worker,control-plane,x");
    node.labels = Some(vec![("a".to_string(), "b".to_string())]);
    assert_eq!(get_node_roles(&node), "<none>");
}

// ============================================================================
// Other tables
// ============================================================================

#[test]
fn test_format_jobs_table_duration() {
    let job = JobRow {
        name: "backup".to_string(),
        namespace: Some("ops".to_string()),
        created: Some(NOW - 7200),
        succeeded: Some(1),
        completions: None,
        completion_time: Some(NOW - 7200 + 90),
    };
    let output = format_jobs_table(&vec![job], NOW);
    assert!(output.contains("1/1"));
    assert!(output.contains("1m"));
    assert!(output.contains("2h"));
}

#[test]
fn test_format_cronjobs_table() {
    let cj = CronJobRow {
        name: "nightly".to_string(),
        namespace: None,
        created: Some(NOW - 3 * 86400),
        schedule: Some("0 0 * * *".to_string()),
        suspend: None,
        active: 2,
        last_schedule: None,
    };
    let output = format_cronjobs_table(&vec![cj], NOW);
    assert!(output.contains("0 0 * * *"));
    assert!(output.contains("false"));
    assert!(output.contains("N/A"));
    assert!(output.contains("3d"));
}

#[test]
fn test_format_ingresses_table() {
    let ing = IngressRow {
        name: "web".to_string(),
        namespace: Some("default".to_string()),
        created: None,
        class_name: None,
        rule_hosts: Some(vec![Some("a.example.com".to_string()), None, Some("b.example.com".to_string())]),
        addresses: Some(vec![
            IngressAddressRow { ip: None, hostname: Some("lb.example.com".to_string()) },
            IngressAddressRow { ip: Some("9.9.9.9".to_string()), hostname: Some("ignored".to_string()) },
        ]),
        tls_count: Some(1),
    };
    let output = format_ingresses_table(&vec![ing], NOW);
    assert!(output.contains("a.example.com,b.example.com"));
    assert!(output.contains("lb.example.com,9.9.9.9"));
    assert!(output.contains("80, 443"));
    assert!(output.contains("<none>"));
    assert!(!output.contains("ignored"));
}

#[test]
fn test_format_pvcs_and_pvs_tables() {
    let pvc = PvcRow {
        name: "data".to_string(),
        namespace: Some("default".to_string()),
        created: None,
        status_phase: Some(Some("Bound".to_string())),
        volume_name: None,
        capacity: Some("10Gi".to_string()),
        access_modes: vec!["ReadWriteOnce".to_string()],
        storage_class: None,
    };
    let output = format_pvcs_table(&vec![pvc], NOW);
    assert!(output.contains("Some(\"Bound\")"));
    assert!(output.contains("10Gi"));
    let pv = PvRow {
        name: "pv-1".to_string(),
        created: None,
        capacity: None,
        access_modes: vec![],
        reclaim_policy: None,
        status_phase: Some(None),
        claim: Some(ClaimRow { namespace: Some("default".to_string()), name: Some("data".to_string()) }),
        storage_class: Some("fast".to_string()),
    };
    let output = format_pvs_table(&vec![pv], NOW);
    assert!(output.contains("default/data"));
    assert!(output.contains("Unknown"));
    assert!(output.contains("None"));
    assert!(output.contains("fast"));
}

#[test]
fn test_format_events_table_truncates() {
    let long = "x".repeat(70);
    let ev = EventRow {
        last_seen: Some(NOW - 30),
        event_type: Some("Warning".to_string()),
        reason: Some("BackOff".to_string()),
        object_kind: Some("Pod".to_string()),
        object_name: Some("web-1".to_string()),
        message: Some(long),
    };
    let output = format_events_table(&vec![ev], NOW);
    assert!(output.contains(&format!("{}...", "x".repeat(57))));
    assert!(!output.contains(&"x".repeat(58)));
    assert!(output.contains("Pod/web-1"));
    assert!(output.contains("30s"));
}

#[test]
fn test_format_duration_units() {
    assert_eq!(format_duration(0), "0s");
    assert_eq!(format_duration(59), "59s");
    assert_eq!(format_duration(60), "1m");
    assert_eq!(format_duration(3600), "1h");
    assert_eq!(format_duration(86400), "1d");
    assert_eq!(format_duration(365 * 86400), "365d");
    assert_eq!(format_duration(366 * 86400), "1y");
    assert_eq!(format_duration(-90), "-30s");
}

#[test]
fn test_get_age() {
    assert_eq!(get_age(None, NOW), "N/A");
    assert_eq!(get_age(Some(NOW - 120), NOW), "2m");
}
