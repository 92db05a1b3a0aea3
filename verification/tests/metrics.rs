//! Tests of CPU and memory quantity parsing and byte formatting.

use k8s_mcp::k8s::metrics::format_bytes;
use k8s_mcp::k8s::{NodeMetrics, PodMetrics};

/// CPU in millicores: the library's answer for suffixed quantities, and a
/// plain number of cores read as a float and multiplied by 1000.
fn parse_cpu(s: &str) -> u64 {
    match k8s_mcp::k8s::metrics::parse_cpu(s) {
        Some(m) => m,
        None => {
            let value: f64 = s.parse().unwrap_or(0.0);
            (value * 1000.0) as u64
        }
    }
}

fn parse_memory(s: &str) -> u64 {
    assert!(k8s_mcp::k8s::metrics::memory_fits(s));
    k8s_mcp::k8s::metrics::parse_memory(s)
}

#[test]
fn test_parse_cpu() {
    assert_eq!(parse_cpu("100m"), 100);
    assert_eq!(parse_cpu("1"), 1000);
    assert_eq!(parse_cpu("500m"), 500);
    assert_eq!(parse_cpu("1000000n"), 1);
    assert_eq!(parse_cpu("1000u"), 1);
    assert_eq!(parse_cpu(""), 0);
}

#[test]
fn test_parse_memory() {
    assert_eq!(parse_memory("1Ki"), 1024);
    assert_eq!(parse_memory("1Mi"), 1024 * 1024);
    assert_eq!(parse_memory("1Gi"), 1024 * 1024 * 1024);
    assert_eq!(parse_memory("1000"), 1000);
    assert_eq!(parse_memory(""), 0);
}

#[test]
fn test_parse_cpu_library_marks_plain_cores() {
    assert_eq!(k8s_mcp::k8s::metrics::parse_cpu("2"), None);
    assert_eq!(k8s_mcp::k8s::metrics::parse_cpu("250m"), Some(250));
    assert_eq!(k8s_mcp::k8s::metrics::parse_cpu("xm"), Some(0));
}

#[test]
fn test_memory_overflow_detected() {
    assert!(!k8s_mcp::k8s::metrics::memory_fits("99999999999999999Gi"));
    assert!(k8s_mcp::k8s::metrics::memory_fits("16Gi"));
}

#[test]
fn test_format_bytes_units() {
    assert_eq!(format_bytes(512), "512B");
    assert_eq!(format_bytes(2048), "2Ki");
    assert_eq!(format_bytes(5 * 1024 * 1024), "5Mi");
    assert_eq!(format_bytes(3 * 1024 * 1024 * 1024), "3Gi");
}

#[test]
fn test_parse_cpu_millicores() {
    // Test millicores (m suffix)
    assert_eq!(parse_cpu("100m"), 100);
    assert_eq!(parse_cpu("500m"), 500);
    assert_eq!(parse_cpu("1000m"), 1000);
    assert_eq!(parse_cpu("1m"), 1);
    assert_eq!(parse_cpu("0m"), 0);
}

#[test]
fn test_parse_cpu_cores() {
    // Test plain numbers (cores)
    assert_eq!(parse_cpu("1"), 1000);
    assert_eq!(parse_cpu("2"), 2000);
    assert_eq!(parse_cpu("0.5"), 500);
    assert_eq!(parse_cpu("0.1"), 100);
    assert_eq!(parse_cpu("0.001"), 1);
}

#[test]
fn test_parse_cpu_nanocores() {
    // Test nanocores (n suffix)
    assert_eq!(parse_cpu("1000000n"), 1); // 1,000,000 nanocores = 1 millicore
    assert_eq!(parse_cpu("5000000n"), 5);
    assert_eq!(parse_cpu("1000000000n"), 1000); // 1 billion nanocores = 1 core = 1000 millicores
}

#[test]
fn test_parse_cpu_microcores() {
    // Test microcores (u suffix)
    assert_eq!(parse_cpu("1000u"), 1); // 1000 microcores = 1 millicore
    assert_eq!(parse_cpu("5000u"), 5);
    assert_eq!(parse_cpu("1000000u"), 1000); // 1 million microcores = 1 core
}

#[test]
fn test_parse_cpu_edge_cases() {
    // Empty string
    assert_eq!(parse_cpu(""), 0);

    // Zero
    assert_eq!(parse_cpu("0"), 0);

    // Very small values
    assert_eq!(parse_cpu("0.0001"), 0);
}

/// Test memory quantity parsing with various formats.
#[test]
fn test_parse_memory_kibibytes() {
    // Test Ki (kibibytes)
    assert_eq!(parse_memory("1Ki"), 1024);
    assert_eq!(parse_memory("2Ki"), 2048);
    assert_eq!(parse_memory("1024Ki"), 1024 * 1024);
}

#[test]
fn test_parse_memory_mebibytes() {
    // Test Mi (mebibytes)
    assert_eq!(parse_memory("1Mi"), 1024 * 1024);
    assert_eq!(parse_memory("2Mi"), 2 * 1024 * 1024);
    assert_eq!(parse_memory("100Mi"), 100 * 1024 * 1024);
}

#[test]
fn test_parse_memory_gibibytes() {
    // Test Gi (gibibytes)
    assert_eq!(parse_memory("1Gi"), 1024 * 1024 * 1024);
    assert_eq!(parse_memory("2Gi"), 2 * 1024 * 1024 * 1024);
}

#[test]
fn test_parse_memory_kilobytes() {
    // Test K (kilobytes - decimal)
    assert_eq!(parse_memory("1K"), 1000);
    assert_eq!(parse_memory("10K"), 10000);
}

#[test]
fn test_parse_memory_megabytes() {
    // Test M (megabytes - decimal)
    assert_eq!(parse_memory("1M"), 1000 * 1000);
    assert_eq!(parse_memory("10M"), 10 * 1000 * 1000);
}

#[test]
fn test_parse_memory_gigabytes() {
    // Test G (gigabytes - decimal)
    assert_eq!(parse_memory("1G"), 1000 * 1000 * 1000);
    assert_eq!(parse_memory("2G"), 2 * 1000 * 1000 * 1000);
}

#[test]
fn test_parse_memory_plain_bytes() {
    // Test plain numbers (bytes)
    assert_eq!(parse_memory("1000"), 1000);
    assert_eq!(parse_memory("1024"), 1024);
    assert_eq!(parse_memory("1048576"), 1048576);
}

#[test]
fn test_parse_memory_edge_cases() {
    // Empty string
    assert_eq!(parse_memory(""), 0);

    // Zero
    assert_eq!(parse_memory("0"), 0);
}

#[test]
fn test_parse_memory_comparison() {
    // Compare binary vs decimal units
    let kib = parse_memory("1Ki");
    let kb = parse_memory("1K");
    assert!(kib > kb); // 1024 > 1000

    let mib = parse_memory("1Mi");
    let mb = parse_memory("1M");
    assert!(mib > mb); // 1048576 > 1000000
}

#[test]
fn test_node_metrics_struct() {
    let metrics = NodeMetrics {
        name: "node-1".to_string(),
        cpu_allocatable: 4000,
        memory_allocatable: 16 * 1024 * 1024 * 1024,
        cpu_usage: Some(2000),
        memory_usage: Some(8 * 1024 * 1024 * 1024),
        cpu_percent: Some(50),
        memory_percent: Some(50),
    };

    assert_eq!(metrics.name, "node-1");
    assert_eq!(metrics.cpu_allocatable, 4000);
    assert_eq!(metrics.memory_allocatable, 16 * 1024 * 1024 * 1024);
    assert_eq!(metrics.cpu_usage, Some(2000));
    assert_eq!(metrics.memory_usage, Some(8 * 1024 * 1024 * 1024));
    assert_eq!(metrics.cpu_percent, Some(50));
    assert_eq!(metrics.memory_percent, Some(50));
}

#[test]
fn test_pod_metrics_struct() {
    let metrics = PodMetrics {
        name: "my-pod".to_string(),
        namespace: "default".to_string(),
        cpu_usage: Some(100),
        memory_usage: Some(256 * 1024 * 1024),
    };

    assert_eq!(metrics.name, "my-pod");
    assert_eq!(metrics.namespace, "default");
    assert_eq!(metrics.cpu_usage, Some(100));
    assert_eq!(metrics.memory_usage, Some(256 * 1024 * 1024));
}


#[test]
fn metrics_memory_units_multiply() {
    for n in [0u64, 1, 3, 512, 4096] {
        let d = n.to_string();
        assert_eq!(parse_memory(&d), n);
        assert_eq!(parse_memory(&format!("{}Ki", d)), n * 1024);
        assert_eq!(parse_memory(&format!("{}Mi", d)), n * 1024 * 1024);
        assert_eq!(parse_memory(&format!("{}Gi", d)), n * 1024 * 1024 * 1024);
        assert_eq!(parse_memory(&format!("{}K", d)), n * 1000);
        assert_eq!(parse_memory(&format!("{}M", d)), n * 1000 * 1000);
        assert_eq!(parse_memory(&format!("{}G", d)), n * 1000 * 1000 * 1000);
    }
}
