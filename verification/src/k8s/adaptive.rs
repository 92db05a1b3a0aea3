//! Decisions of the adaptive resource layer: which record describes a
//! resource type and whether it lives in a namespace.

use crate::k8s::discovery::shortcuts::{common_resource_table, common_resources};
use crate::k8s::discovery::{find_position, find_resource, infos_view, ApiDiscovery, ApiResourceInfo, DiscoveryView, InfoView};
use crate::k8s::resources::GroupVersionKind;
use vstd::prelude::*;

verus! {

/// Whether a resource type is one of the built-in resources.
pub open spec fn known_core(g: Seq<char>, v: Seq<char>, k: Seq<char>) -> bool {
    find_resource(common_resource_table(), g, v, k) is Some
}

/// What is known of a resource type: the discovered record when discovery has
/// one, else the built-in record, else nothing.
pub open spec fn known_info(d: DiscoveryView, g: Seq<char>, v: Seq<char>, k: Seq<char>) -> Option<InfoView> {
    match find_resource(d.resources, g, v, k) {
        Some(i) => Some(d.resources[i]),
        None => match find_resource(common_resource_table(), g, v, k) {
            Some(i) => Some(common_resource_table()[i]),
            None => None,
        },
    }
}

/// A resource type is namespaced when its known record says so; an unknown
/// type is taken to be namespaced.
pub open spec fn namespaced_scope(d: DiscoveryView, g: Seq<char>, v: Seq<char>, k: Seq<char>) -> bool {
    match known_info(d, g, v, k) {
        Some(info) => info.namespaced,
        None => true,
    }
}

/// Whether the group/version/kind is one of the built-in resources.
pub fn is_known_core_resource(gvk: &GroupVersionKind) -> (r: bool)
    ensures
        r == known_core(gvk.group@, gvk.version@, gvk.kind@),
{
    let common = common_resources();
    assert(infos_view(common@) =~= common_resource_table());
    find_position(&common, gvk.group.as_str(), gvk.version.as_str(), gvk.kind.as_str()).is_some()
}

/// The scope of a resource in words.
pub fn get_scope_description(namespaced: bool) -> (r: &'static str)
    ensures
        r@ == (if namespaced { "namespaced"@ } else { "cluster-scoped"@ }),
{
    if namespaced {
        "namespaced"
    } else {
        "cluster-scoped"
    }
}

/// Whether a resource type is namespaced, by the discovery cache, then by the
/// built-in resources; unknown types are namespaced.
pub fn is_namespaced(discovery: &ApiDiscovery, gvk: &GroupVersionKind) -> (r: bool)
    ensures
        r == namespaced_scope(discovery.view(), gvk.group@, gvk.version@, gvk.kind@),
{
    match get_resource_info(discovery, gvk) {
        Some(info) => info.namespaced,
        None => true,
    }
}

/// The record describing a resource type, by the discovery cache, then by the
/// built-in resources.
pub fn get_resource_info(discovery: &ApiDiscovery, gvk: &GroupVersionKind) -> (r: Option<ApiResourceInfo>)
    ensures
        match known_info(discovery.view(), gvk.group@, gvk.version@, gvk.kind@) {
            Some(info) => r matches Some(x) && x.info() == info,
            None => r is None,
        },
{
    match discovery.get(gvk.group.as_str(), gvk.version.as_str(), gvk.kind.as_str()) {
        Some(info) => Some(info.duplicate()),
        None => {
            let common = common_resources();
            assert(infos_view(common@) =~= common_resource_table());
            match find_position(&common, gvk.group.as_str(), gvk.version.as_str(), gvk.kind.as_str()) {
                Some(p) => {
                    assert(common_resource_table()[p as int] == common@[p as int].info());
                    Some(common[p].duplicate())
                },
                None => None,
            }
        },
    }
}

} // verus!
