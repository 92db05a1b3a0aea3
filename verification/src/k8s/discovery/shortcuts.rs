//! Built-in resource table for quick access without a cluster.

use crate::k8s::discovery::{ApiResourceInfo, InfoView};
use crate::text::{owned, strings_view};
use vstd::prelude::*;

verus! {

/// The verbs of a resource that also supports `deletecollection`.
pub open spec fn verbs_with_collection() -> Seq<Seq<char>> {
    seq!["create"@, "delete"@, "deletecollection"@, "get"@, "list"@, "patch"@, "update"@, "watch"@]
}

/// The verbs of an ordinary read/write resource.
pub open spec fn verbs_standard() -> Seq<Seq<char>> {
    seq!["create"@, "delete"@, "get"@, "list"@, "patch"@, "update"@, "watch"@]
}

/// The verbs of a resource that can be read and changed but not created or deleted.
pub open spec fn verbs_read_update() -> Seq<Seq<char>> {
    seq!["get"@, "list"@, "patch"@, "update"@, "watch"@]
}

/// One entry of the built-in table: a `v1` resource with a single short name,
/// listed under the category "all" or under none.
pub open spec fn table_entry(
    name: &str,
    singular: &str,
    kind: &str,
    group: &str,
    namespaced: bool,
    short: &str,
    verbs: Seq<Seq<char>>,
    in_all: bool,
) -> InfoView {
    InfoView {
        name: name@,
        singular: singular@,
        kind: kind@,
        api_version: "v1"@,
        group: group@,
        namespaced,
        short_names: seq![short@],
        verbs,
        categories: if in_all { seq!["all"@] } else { Seq::empty() },
    }
}

/// The built-in resources, in order.
pub open spec fn common_resource_table() -> Seq<InfoView> {
    seq![
        table_entry("pods", "pod", "Pod", "", true, "po", verbs_with_collection(), true),
        table_entry("services", "service", "Service", "", true, "svc", verbs_standard(), true),
        table_entry("configmaps", "configmap", "ConfigMap", "", true, "cm", verbs_standard(), true),
        table_entry("secrets", "secret", "Secret", "", true, "secret", verbs_standard(), false),
        table_entry("namespaces", "namespace", "Namespace", "", false, "ns", verbs_standard(), false),
        table_entry("nodes", "node", "Node", "", false, "no", verbs_read_update(), false),
        table_entry("events", "event", "Event", "", true, "ev", verbs_standard(), false),
        table_entry(
            "persistentvolumeclaims",
            "persistentvolumeclaim",
            "PersistentVolumeClaim",
            "",
            true,
            "pvc",
            verbs_with_collection(),
            false,
        ),
        table_entry("persistentvolumes", "persistentvolume", "PersistentVolume", "", false, "pv", verbs_with_collection(), false),
        table_entry("deployments", "deployment", "Deployment", "apps", true, "deploy", verbs_with_collection(), true),
        table_entry("statefulsets", "statefulset", "StatefulSet", "apps", true, "sts", verbs_with_collection(), true),
        table_entry("daemonsets", "daemonset", "DaemonSet", "apps", true, "ds", verbs_standard(), true),
        table_entry("replicasets", "replicaset", "ReplicaSet", "apps", true, "rs", verbs_with_collection(), true),
        table_entry("jobs", "job", "Job", "batch", true, "job", verbs_with_collection(), true),
        table_entry("cronjobs", "cronjob", "CronJob", "batch", true, "cj", verbs_with_collection(), true),
        table_entry("ingresses", "ingress", "Ingress", "networking.k8s.io", true, "ing", verbs_standard(), true),
    ]
}

fn string_list(items: &[&str]) -> (r: Vec<String>)
    ensures
        r@.len() == items@.len(),
        forall|i: int| 0 <= i < items@.len() ==> #[trigger] r@[i]@ == items@[i]@,
{
    let mut r: Vec<String> = Vec::new();
    let mut i: usize = 0;
    while i < items.len()
        invariant
            i <= items@.len(),
            r@.len() == i,
            forall|j: int| 0 <= j < i ==> #[trigger] r@[j]@ == items@[j]@,
        decreases items@.len() - i,
    {
        r.push(owned(items[i]));
        i = i + 1;
    }
    r
}

fn collection_verbs() -> (r: Vec<String>)
    ensures
        strings_view(r@) == verbs_with_collection(),
{
    let items: [&str; 8] = ["create", "delete", "deletecollection", "get", "list", "patch", "update", "watch"];
    let r = string_list(&items);
    assert(strings_view(r@) =~= verbs_with_collection());
    r
}

fn standard_verbs() -> (r: Vec<String>)
    ensures
        strings_view(r@) == verbs_standard(),
{
    let items: [&str; 7] = ["create", "delete", "get", "list", "patch", "update", "watch"];
    let r = string_list(&items);
    assert(strings_view(r@) =~= verbs_standard());
    r
}

fn read_update_verbs() -> (r: Vec<String>)
    ensures
        strings_view(r@) == verbs_read_update(),
{
    let items: [&str; 5] = ["get", "list", "patch", "update", "watch"];
    let r = string_list(&items);
    assert(strings_view(r@) =~= verbs_read_update());
    r
}

fn entry(
    name: &str,
    singular: &str,
    kind: &str,
    group: &str,
    namespaced: bool,
    short: &str,
    verbs: Vec<String>,
    in_all: bool,
) -> (r: ApiResourceInfo)
    ensures
        r.info() == table_entry(name, singular, kind, group, namespaced, short, strings_view(verbs@), in_all),
{
    let mut short_names: Vec<String> = Vec::new();
    short_names.push(owned(short));
    let mut categories: Vec<String> = Vec::new();
    if in_all {
        categories.push(owned("all"));
    }
    let r = ApiResourceInfo {
        name: owned(name),
        singular: owned(singular),
        kind: owned(kind),
        api_version: owned("v1"),
        group: owned(group),
        namespaced,
        short_names,
        verbs,
        categories,
    };
    assert(r.info().short_names =~= seq![short@]);
    assert(r.info().categories =~= (if in_all { seq!["all"@] } else { Seq::<Seq<char>>::empty() }));
    r
}

/// The built-in resources: the core `v1` types (persistent volume claims and
/// persistent volumes among them), the `apps`, `batch` and
/// `networking.k8s.io` workload types, each with its short name, verbs and
/// categories.
pub fn common_resources() -> (r: Vec<ApiResourceInfo>)
    ensures
        r@.len() == common_resource_table().len(),
        forall|i: int| 0 <= i < r@.len() ==> #[trigger] r@[i].info() == common_resource_table()[i],
{
    let mut r: Vec<ApiResourceInfo> = Vec::new();
    r.push(entry("pods", "pod", "Pod", "", true, "po", collection_verbs(), true));
    r.push(entry("services", "service", "Service", "", true, "svc", standard_verbs(), true));
    r.push(entry("configmaps", "configmap", "ConfigMap", "", true, "cm", standard_verbs(), true));
    r.push(entry("secrets", "secret", "Secret", "", true, "secret", standard_verbs(), false));
    r.push(entry("namespaces", "namespace", "Namespace", "", false, "ns", standard_verbs(), false));
    r.push(entry("nodes", "node", "Node", "", false, "no", read_update_verbs(), false));
    r.push(entry("events", "event", "Event", "", true, "ev", standard_verbs(), false));
    r.push(entry(
        "persistentvolumeclaims",
        "persistentvolumeclaim",
        "PersistentVolumeClaim",
        "",
        true,
        "pvc",
        collection_verbs(),
        false,
    ));
    r.push(entry("persistentvolumes", "persistentvolume", "PersistentVolume", "", false, "pv", collection_verbs(), false));
    r.push(entry("deployments", "deployment", "Deployment", "apps", true, "deploy", collection_verbs(), true));
    r.push(entry("statefulsets", "statefulset", "StatefulSet", "apps", true, "sts", collection_verbs(), true));
    r.push(entry("daemonsets", "daemonset", "DaemonSet", "apps", true, "ds", standard_verbs(), true));
    r.push(entry("replicasets", "replicaset", "ReplicaSet", "apps", true, "rs", collection_verbs(), true));
    r.push(entry("jobs", "job", "Job", "batch", true, "job", collection_verbs(), true));
    r.push(entry("cronjobs", "cronjob", "CronJob", "batch", true, "cj", collection_verbs(), true));
    r.push(entry("ingresses", "ingress", "Ingress", "networking.k8s.io", true, "ing", standard_verbs(), true));
    r
}

} // verus!
