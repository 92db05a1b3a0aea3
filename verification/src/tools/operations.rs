//! Decisions of the get, list and delete tools: which typed API a resource
//! type goes to, how a secret is shown, how a deletion is parameterised, and
//! what the tools report.

use crate::error::Error;
use crate::format::{format_for_name, OutputFormat};
use crate::mcp::json::JsonValue;
use crate::tools::registry::{boolean_arg, integer_arg, string_arg};
use crate::tools::registry::{get_boolean_arg, get_optional_integer_arg, get_optional_string_arg};
use crate::text::{concat2, owned, str_eq, string_from_chars, chars_of, push_all};
use vstd::prelude::*;

verus! {

/// The resource types with a typed API.
#[derive(Debug, Clone, Copy, PartialEq, Eq, Structural)]
pub enum ResourceKind {
    Pod,
    Service,
    ConfigMap,
    Secret,
    Namespace,
    Node,
    PersistentVolumeClaim,
    PersistentVolume,
    Event,
    Deployment,
    StatefulSet,
    DaemonSet,
    ReplicaSet,
    Job,
    CronJob,
    Ingress,
}

/// The typed resource an API version and kind name.
pub open spec fn typed_kind(api_version: Seq<char>, kind: Seq<char>) -> Option<ResourceKind> {
    if api_version == "v1"@ {
        if kind == "Pod"@ {
            Some(ResourceKind::Pod)
        } else if kind == "Service"@ {
            Some(ResourceKind::Service)
        } else if kind == "ConfigMap"@ {
            Some(ResourceKind::ConfigMap)
        } else if kind == "Secret"@ {
            Some(ResourceKind::Secret)
        } else if kind == "Namespace"@ {
            Some(ResourceKind::Namespace)
        } else if kind == "Node"@ {
            Some(ResourceKind::Node)
        } else if kind == "PersistentVolumeClaim"@ {
            Some(ResourceKind::PersistentVolumeClaim)
        } else if kind == "PersistentVolume"@ {
            Some(ResourceKind::PersistentVolume)
        } else if kind == "Event"@ {
            Some(ResourceKind::Event)
        } else {
            None
        }
    } else if api_version == "apps/v1"@ {
        if kind == "Deployment"@ {
            Some(ResourceKind::Deployment)
        } else if kind == "StatefulSet"@ {
            Some(ResourceKind::StatefulSet)
        } else if kind == "DaemonSet"@ {
            Some(ResourceKind::DaemonSet)
        } else if kind == "ReplicaSet"@ {
            Some(ResourceKind::ReplicaSet)
        } else {
            None
        }
    } else if api_version == "batch/v1"@ {
        if kind == "Job"@ {
            Some(ResourceKind::Job)
        } else if kind == "CronJob"@ {
            Some(ResourceKind::CronJob)
        } else {
            None
        }
    } else if api_version == "networking.k8s.io/v1"@ {
        if kind == "Ingress"@ {
            Some(ResourceKind::Ingress)
        } else {
            None
        }
    } else {
        None
    }
}

/// The typed resource an API version and kind name.
pub fn resource_kind(api_version: &str, kind: &str) -> (r: Option<ResourceKind>)
    ensures
        r == typed_kind(api_version@, kind@),
{
    if str_eq(api_version, "v1") {
        if str_eq(kind, "Pod") {
            Some(ResourceKind::Pod)
        } else if str_eq(kind, "Service") {
            Some(ResourceKind::Service)
        } else if str_eq(kind, "ConfigMap") {
            Some(ResourceKind::ConfigMap)
        } else if str_eq(kind, "Secret") {
            Some(ResourceKind::Secret)
        } else if str_eq(kind, "Namespace") {
            Some(ResourceKind::Namespace)
        } else if str_eq(kind, "Node") {
            Some(ResourceKind::Node)
        } else if str_eq(kind, "PersistentVolumeClaim") {
            Some(ResourceKind::PersistentVolumeClaim)
        } else if str_eq(kind, "PersistentVolume") {
            Some(ResourceKind::PersistentVolume)
        } else if str_eq(kind, "Event") {
            Some(ResourceKind::Event)
        } else {
            None
        }
    } else if str_eq(api_version, "apps/v1") {
        if str_eq(kind, "Deployment") {
            Some(ResourceKind::Deployment)
        } else if str_eq(kind, "StatefulSet") {
            Some(ResourceKind::StatefulSet)
        } else if str_eq(kind, "DaemonSet") {
            Some(ResourceKind::DaemonSet)
        } else if str_eq(kind, "ReplicaSet") {
            Some(ResourceKind::ReplicaSet)
        } else {
            None
        }
    } else if str_eq(api_version, "batch/v1") {
        if str_eq(kind, "Job") {
            Some(ResourceKind::Job)
        } else if str_eq(kind, "CronJob") {
            Some(ResourceKind::CronJob)
        } else {
            None
        }
    } else if str_eq(api_version, "networking.k8s.io/v1") {
        if str_eq(kind, "Ingress") {
            Some(ResourceKind::Ingress)
        } else {
            None
        }
    } else {
        None
    }
}

/// Whether the get tool reads a kind through its typed API (events go
/// through the adaptive API).
pub open spec fn typed_for_get(k: ResourceKind) -> bool {
    k != ResourceKind::Event
}

/// Whether a kind lives outside namespaces.
pub open spec fn cluster_scoped(k: ResourceKind) -> bool {
    k == ResourceKind::Namespace || k == ResourceKind::Node || k == ResourceKind::PersistentVolume
}

/// The typed API the get tool uses for a resource type; `None` sends the
/// request to the adaptive API.
pub fn route_get(api_version: &str, kind: &str) -> (r: Option<ResourceKind>)
    ensures
        r == match typed_kind(api_version@, kind@) {
            Some(k) => if typed_for_get(k) {
                Some(k)
            } else {
                None
            },
            None => None,
        },
{
    match resource_kind(api_version, kind) {
        Some(ResourceKind::Event) => None,
        other => other,
    }
}

/// The typed API the list tool uses for a resource type; `None` sends the
/// request to the adaptive API.
pub fn route_list(api_version: &str, kind: &str) -> (r: Option<ResourceKind>)
    ensures
        r == typed_kind(api_version@, kind@),
{
    resource_kind(api_version, kind)
}

/// The typed API the delete tool uses for a resource type; `None` sends the
/// request to the adaptive API, so that any resource type the cluster serves
/// can be deleted and only the cluster decides whether a deletion fails.
pub fn route_delete(api_version: &str, kind: &str) -> (r: Option<ResourceKind>)
    ensures
        r == typed_kind(api_version@, kind@),
{
    resource_kind(api_version, kind)
}

/// Whether a kind lives outside namespaces.
pub fn is_cluster_scoped(k: ResourceKind) -> (r: bool)
    ensures
        r == cluster_scoped(k),
{
    k == ResourceKind::Namespace || k == ResourceKind::Node || k == ResourceKind::PersistentVolume
}

// ---------------------------------------------------------------------------
// Secrets
// ---------------------------------------------------------------------------

/// Whether a member is one whose values a secret hides.
pub open spec fn secret_field(key: Seq<char>) -> bool {
    key == "data"@ || key == "stringData"@
}

/// Whether `after` is `before` with every value replaced by "REDACTED".
pub open spec fn all_redacted(before: Seq<(String, JsonValue)>, after: Seq<(String, JsonValue)>) -> bool {
    &&& after.len() == before.len()
    &&& forall|j: int| 0 <= j < after.len() ==> (#[trigger] after[j]).0@ == before[j].0@ && (after[j].1 matches JsonValue::String(s)
        && s@ == "REDACTED"@)
}

/// Whether member `after` is member `before` as a secret shows it: the
/// entries of `data` and `stringData` objects redacted, anything else kept.
pub open spec fn member_shown(before: (String, JsonValue), after: (String, JsonValue)) -> bool {
    &&& after.0@ == before.0@
    &&& if secret_field(before.0@) && before.1 is Object {
        match (before.1, after.1) {
            (JsonValue::Object(b), JsonValue::Object(a)) => all_redacted(b@, a@),
            _ => false,
        }
    } else {
        after.1 == before.1
    }
}

/// Whether `after` is the secret `before` as the get tool shows it.
pub open spec fn secret_shown(before: JsonValue, after: JsonValue) -> bool {
    match before {
        JsonValue::Object(b) => after matches JsonValue::Object(a) && a@.len() == b@.len() && forall|i: int|
            0 <= i < a@.len() ==> member_shown(b@[i], #[trigger] a@[i]),
        _ => after == before,
    }
}

fn redact_all(members: &Vec<(String, JsonValue)>) -> (r: Vec<(String, JsonValue)>)
    ensures
        all_redacted(members@, r@),
{
    let mut r: Vec<(String, JsonValue)> = Vec::new();
    let mut i: usize = 0;
    while i < members.len()
        invariant
            i <= members@.len(),
            r@.len() == i,
            forall|j: int| 0 <= j < i ==> (#[trigger] r@[j]).0@ == members@[j].0@ && (r@[j].1 matches JsonValue::String(s)
                && s@ == "REDACTED"@),
        decreases members@.len() - i,
    {
        r.push((members[i].0.clone(), JsonValue::String(owned("REDACTED"))));
        i = i + 1;
    }
    r
}

/// A secret as the get tool shows it: the values under `data` and
/// `stringData` are replaced by "REDACTED".
pub fn redact_secret(value: JsonValue) -> (r: JsonValue)
    ensures
        secret_shown(value, r),
{
    match value {
        JsonValue::Object(members) => {
            let ghost given = members@;
            let mut rest = members;
            let mut out: Vec<(String, JsonValue)> = Vec::new();
            while rest.len() > 0
                invariant
                    out@.len() + rest@.len() == given.len(),
                    rest@ == given.skip(out@.len() as int),
                    forall|i: int| 0 <= i < out@.len() ==> member_shown(given[i], #[trigger] out@[i]),
                decreases rest@.len(),
            {
                let ghost k = out@.len() as int;
                assert(rest@[0] == given[k]);
                let (key, v) = rest.remove(0);
                assert(rest@ =~= given.skip(k + 1));
                let is_secret = str_eq(key.as_str(), "data") || str_eq(key.as_str(), "stringData");
                let shown = match v {
                    JsonValue::Object(inner) => {
                        if is_secret {
                            JsonValue::Object(redact_all(&inner))
                        } else {
                            JsonValue::Object(inner)
                        }
                    },
                    other => other,
                };
                out.push((key, shown));
            }
            JsonValue::Object(out)
        },
        other => other,
    }
}

// ---------------------------------------------------------------------------
// Deletion
// ---------------------------------------------------------------------------

/// The grace period a deletion uses: none left when forced, else the one
/// asked for (truncated to 32 bits), else the default.
pub fn delete_grace_period(force: bool, grace_period_seconds: Option<i64>) -> (r: Option<u32>)
    ensures
        r == if force {
            Some(0u32)
        } else {
            match grace_period_seconds {
                Some(s) => Some(s as u32),
                None => None,
            }
        },
{
    if force {
        Some(0)
    } else {
        match grace_period_seconds {
            Some(s) => Some(s as u32),
            None => None,
        }
    }
}

/// The grace period a delete request's arguments ask for: `force` and
/// `gracePeriodSeconds`.
pub fn grace_period_arg(args: &Vec<(String, JsonValue)>) -> (r: Option<u32>)
    ensures
        r == if boolean_arg(args@, "force"@) == Some(true) {
            Some(0u32)
        } else {
            match integer_arg(args@, "gracePeriodSeconds"@) {
                Some(s) => Some(s as u32),
                None => None,
            }
        },
{
    let force = get_boolean_arg(args, "force", false);
    let grace = get_optional_integer_arg(args, "gracePeriodSeconds");
    delete_grace_period(force, grace)
}

/// "<what> <name> deleted successfully".
pub fn deleted_message(what: &str, name: &str) -> (r: String)
    ensures
        r@ == what@ + " "@ + name@ + " deleted successfully"@,
{
    let mut v = chars_of(what);
    push_all(&mut v, " ");
    push_all(&mut v, name);
    push_all(&mut v, " deleted successfully");
    string_from_chars(v.as_slice())
}

/// The report of the generic delete tool: "Resource <kind>/<name> deleted
/// successfully".
pub fn resource_deleted_message(kind: &str, name: &str) -> (r: String)
    ensures
        r@ == "Resource "@ + kind@ + "/"@ + name@ + " deleted successfully"@,
{
    let mut v = chars_of("Resource ");
    push_all(&mut v, kind);
    push_all(&mut v, "/");
    push_all(&mut v, name);
    push_all(&mut v, " deleted successfully");
    string_from_chars(v.as_slice())
}

// ---------------------------------------------------------------------------
// Listing
// ---------------------------------------------------------------------------

/// The output format an `output` argument selects, the table without one.
pub open spec fn output_format_of(args: Seq<(String, JsonValue)>) -> OutputFormat {
    match string_arg(args, "output"@) {
        Some(o) => format_for_name(o),
        None => OutputFormat::Table,
    }
}

/// The output format the `output` argument selects.
pub fn output_format_arg(args: &Vec<(String, JsonValue)>) -> (r: OutputFormat)
    ensures
        r == output_format_of(args@),
{
    match get_optional_string_arg(args, "output") {
        Some(o) => OutputFormat::from_name(o.as_str()),
        None => OutputFormat::Table,
    }
}

/// What the list tool is asked for.
#[derive(Debug, Clone)]
pub struct ListRequest {
    pub api_version: String,
    pub kind: String,
    pub namespace: Option<String>,
    pub label_selector: Option<String>,
    pub field_selector: Option<String>,
    pub limit: Option<u32>,
    pub format: OutputFormat,
}

/// An optional string argument as an optional text.
pub open spec fn opt_view(o: Option<String>) -> Option<Seq<char>> {
    match o {
        Some(s) => Some(s@),
        None => None,
    }
}

/// The list tool's request from its arguments: API version "v1" and kind
/// "Pod" unless given, the selectors and namespace as given, the limit
/// truncated to 32 bits, and the output format.
pub fn parse_list_request(args: &Vec<(String, JsonValue)>) -> (r: ListRequest)
    ensures
        r.api_version@ == match string_arg(args@, "apiVersion"@) {
            Some(v) => v,
            None => "v1"@,
        },
        r.kind@ == match string_arg(args@, "kind"@) {
            Some(k) => k,
            None => "Pod"@,
        },
        opt_view(r.namespace) == string_arg(args@, "namespace"@),
        opt_view(r.label_selector) == string_arg(args@, "labelSelector"@),
        opt_view(r.field_selector) == string_arg(args@, "fieldSelector"@),
        r.limit == match integer_arg(args@, "limit"@) {
            Some(l) => Some(l as u32),
            None => None,
        },
        r.format == output_format_of(args@),
{
    let api_version = match get_optional_string_arg(args, "apiVersion") {
        Some(v) => v,
        None => owned("v1"),
    };
    let kind = match get_optional_string_arg(args, "kind") {
        Some(k) => k,
        None => owned("Pod"),
    };
    let limit = match get_optional_integer_arg(args, "limit") {
        Some(l) => Some(l as u32),
        None => None,
    };
    ListRequest {
        api_version,
        kind,
        namespace: get_optional_string_arg(args, "namespace"),
        label_selector: get_optional_string_arg(args, "labelSelector"),
        field_selector: get_optional_string_arg(args, "fieldSelector"),
        limit,
        format: output_format_arg(args),
    }
}

/// Where a listing looks.
#[derive(Debug, Clone, PartialEq, Eq)]
pub enum ListScope {
    /// Every namespace.
    AllNamespaces,
    /// The given namespace.
    Namespace(String),
    /// The client's default namespace.
    DefaultNamespace,
}

/// Whether a scope is the given namespace.
pub open spec fn is_namespace_scope(s: ListScope, ns: Seq<char>) -> bool {
    s matches ListScope::Namespace(n) && n@ == ns
}

/// Where the resources and events list tools look: the namespace given, or
/// every namespace when none is given.
pub fn list_scope(namespace: Option<String>) -> (r: ListScope)
    ensures
        match namespace {
            Some(ns) => is_namespace_scope(r, ns@),
            None => r is AllNamespaces,
        },
{
    match namespace {
        Some(ns) => ListScope::Namespace(ns),
        None => ListScope::AllNamespaces,
    }
}

/// Where a request for one object, or a listing whose tool falls back on
/// the default namespace, looks: the namespace given, else the default.
pub fn namespace_or_default(namespace: Option<String>) -> (r: ListScope)
    ensures
        match namespace {
            Some(ns) => is_namespace_scope(r, ns@),
            None => r is DefaultNamespace,
        },
{
    match namespace {
        Some(ns) => ListScope::Namespace(ns),
        None => ListScope::DefaultNamespace,
    }
}

/// Where the pods list tool looks: every namespace when `all_namespaces` is
/// set, else the namespace given, else the default namespace.
pub fn pods_list_scope(args: &Vec<(String, JsonValue)>) -> (r: ListScope)
    ensures
        if boolean_arg(args@, "all_namespaces"@) == Some(true) {
            r is AllNamespaces
        } else {
            match string_arg(args@, "namespace"@) {
                Some(ns) => is_namespace_scope(r, ns),
                None => r is DefaultNamespace,
            }
        },
{
    if get_boolean_arg(args, "all_namespaces", false) {
        ListScope::AllNamespaces
    } else {
        match get_optional_string_arg(args, "namespace") {
            Some(ns) => ListScope::Namespace(ns),
            None => ListScope::DefaultNamespace,
        }
    }
}

} // verus!
