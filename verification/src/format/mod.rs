//! Output formatting for Kubernetes resources.

pub mod table;

use crate::text::{lower_key, str_eq, to_lowercase};
use vstd::prelude::*;

pub use table::{
    format_configmaps_table, format_cronjobs_table, format_daemonsets_table,
    format_deployments_table, format_duration, format_events_table, format_ingresses_table,
    format_jobs_table, format_namespaces_table, format_nodes_table, format_pods_table,
    format_pvcs_table, format_pvs_table, format_replicasets_table, format_secrets_table,
    format_services_table, format_statefulsets_table, get_age, ClaimRow, ConfigMapRow,
    ContainerStatusRow, CronJobRow, DaemonSetRow, DeploymentRow, EventRow, IngressAddressRow,
    IngressRow, JobRow, NamespaceRow, NodeConditionRow, NodeRow, PodRow, PvRow, PvcRow,
    ReplicaSetRow, ScaledRow, SecretRow, ServicePortRow, ServiceRow, StatefulSetRow, TableRow,
};

verus! {

/// Output format for resources.
#[derive(Debug, Clone, Copy, PartialEq, Eq, Structural)]
pub enum OutputFormat {
    /// Human-readable table format
    Table,
    /// JSON format
    Json,
    /// YAML format
    Yaml,
}

impl Default for OutputFormat {
    fn default() -> (r: Self)
        ensures
            r == OutputFormat::Table,
    {
        OutputFormat::Table
    }
}

/// The format a name selects, compared without regard to case: "json" and
/// "yaml" select those formats, anything else selects the table.
pub open spec fn format_for_name(name: Seq<char>) -> OutputFormat {
    if lower_key(name) == "json"@ {
        OutputFormat::Json
    } else if lower_key(name) == "yaml"@ {
        OutputFormat::Yaml
    } else {
        OutputFormat::Table
    }
}

impl OutputFormat {
    /// The format a name selects, compared without regard to case.
    pub fn from_name(s: &str) -> (r: OutputFormat)
        ensures
            r == format_for_name(s@),
    {
        let lower = to_lowercase(s);
        if str_eq(lower.as_str(), "json") {
            OutputFormat::Json
        } else if str_eq(lower.as_str(), "yaml") {
            OutputFormat::Yaml
        } else {
            OutputFormat::Table
        }
    }
}

impl<'a> From<&'a str> for OutputFormat {
    fn from(s: &'a str) -> (r: OutputFormat) {
        OutputFormat::from_name(s)
    }
}

impl<'a> vstd::std_specs::convert::FromSpecImpl<&'a str> for OutputFormat {
    open spec fn obeys_from_spec() -> bool {
        true
    }

    open spec fn from_spec(s: &'a str) -> OutputFormat {
        format_for_name(s@)
    }
}

} // verus!
