//! Kubernetes models: versions, metrics quantities, discovery and configuration.

pub mod adaptive;
pub mod client;
pub mod config;
pub mod discovery;
pub mod metrics;
pub mod resources;
pub mod version;

pub use version::K8sVersion;
pub use metrics::{NodeMetrics, PodMetrics};
pub use resources::{parse_api_version, parse_gvk, GroupVersionKind, PatchStrategy};
pub use discovery::{ApiDiscovery, ApiResourceInfo};
pub use adaptive::{get_scope_description, is_known_core_resource};
pub use config::{ContextInfo, K8sConfig};
