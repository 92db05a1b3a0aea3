//! The context tools: listing contexts, the current context, and which parts
//! of a kubeconfig a minified view keeps.

use crate::format::table::{header_of, render_table, rendered_table, rows_view, text_or, or_empty};
use crate::k8s::config::{ContextInfo, NamedContextEntry};
use crate::mcp::json::JsonValue;
use crate::text::{owned, str_eq, strings_view};
use vstd::prelude::*;

verus! {

/// The cells of one context in the contexts table.
pub open spec fn context_cells(c: ContextInfo, current: Option<String>) -> Seq<Seq<char>> {
    seq![
        c.name@,
        or_empty(c.cluster),
        or_empty(c.user),
        or_empty(c.namespace),
        if current matches Some(cur) && cur@ == c.name@ { "*"@ } else { Seq::empty() },
    ]
}

/// The header of the contexts table.
pub open spec fn contexts_header() -> Seq<Seq<char>> {
    seq!["NAME"@, "CLUSTER"@, "AUTHINFO"@, "NAMESPACE"@, "CURRENT"@]
}

/// The contexts as a table, the current one marked with "*".
pub fn contexts_table(contexts: &Vec<ContextInfo>, current: &Option<String>) -> (r: String)
    ensures
        r@ == rendered_table(contexts_header(), contexts@.map_values(|c: ContextInfo| context_cells(c, *current))),
{
    let titles: [&str; 5] = ["NAME", "CLUSTER", "AUTHINFO", "NAMESPACE", "CURRENT"];
    let header = header_of(&titles);
    assert(strings_view(header@) =~= contexts_header());
    proof {
        reveal_strlit("");
    }
    let mut rows: Vec<Vec<String>> = Vec::new();
    let mut i: usize = 0;
    while i < contexts.len()
        invariant
            i <= contexts@.len(),
            ""@ == Seq::<char>::empty(),
            rows_view(rows@) == contexts@.subrange(0, i as int).map_values(|c: ContextInfo| context_cells(c, *current)),
        decreases contexts@.len() - i,
    {
        let c = &contexts[i];
        let is_current = match current {
            Some(cur) => str_eq(cur.as_str(), c.name.as_str()),
            None => false,
        };
        let mut row: Vec<String> = Vec::new();
        row.push(c.name.clone());
        row.push(text_or(&c.cluster, ""));
        row.push(text_or(&c.user, ""));
        row.push(text_or(&c.namespace, ""));
        row.push(if is_current { owned("*") } else { owned("") });
        let ghost cells = context_cells(*c, *current);
        assert(strings_view(row@)[0] == cells[0]);
        assert(strings_view(row@)[1] == cells[1]);
        assert(strings_view(row@)[2] == cells[2]);
        assert(strings_view(row@)[3] == cells[3]);
        assert(strings_view(row@)[4] == cells[4]);
        assert(strings_view(row@) =~= cells);
        let ghost prev = rows@;
        rows.push(row);
        assert(rows_view(rows@) =~= rows_view(prev).push(cells));
        i = i + 1;
        assert(contexts@.subrange(0, i as int).map_values(|c: ContextInfo| context_cells(c, *current)) =~= contexts@.subrange(
            0,
            i - 1,
        ).map_values(|c: ContextInfo| context_cells(c, *current)).push(cells));
    }
    assert(contexts@.subrange(0, contexts@.len() as int) =~= contexts@);
    render_table(&header, &rows)
}

/// Whether a value is the current-context report: an object with
/// `currentContext` (the context, or null) and `defaultNamespace`.
pub open spec fn is_current_context_report(v: JsonValue, current: Option<String>, namespace: Seq<char>) -> bool {
    v matches JsonValue::Object(m) && m@.len() == 2 && m@[0].0@ == "currentContext"@ && match current {
        Some(c) => m@[0].1 matches JsonValue::String(s) && s@ == c@,
        None => m@[0].1 is Null,
    } && m@[1].0@ == "defaultNamespace"@ && (m@[1].1 matches JsonValue::String(s) && s@ == namespace)
}

/// The current context and default namespace as a JSON object.
pub fn current_context_report(current: Option<String>, default_namespace: String) -> (r: JsonValue)
    ensures
        is_current_context_report(r, current, default_namespace@),
{
    let ctx = match current {
        Some(c) => JsonValue::String(c),
        None => JsonValue::Null,
    };
    let mut members: Vec<(String, JsonValue)> = Vec::new();
    members.push((owned("currentContext"), ctx));
    members.push((owned("defaultNamespace"), JsonValue::String(default_namespace)));
    JsonValue::Object(members)
}

/// Which parts of a kubeconfig a minified view keeps: the positions of the
/// contexts named like the current one, of the clusters those contexts use,
/// and of the users they use.
pub struct MinifiedSelection {
    pub contexts: Vec<usize>,
    pub clusters: Vec<usize>,
    pub users: Vec<usize>,
}

/// Whether a context is the current one.
pub open spec fn is_current_context(c: NamedContextEntry, current: Option<String>) -> bool {
    current matches Some(cur) && cur@ == c.name@
}

/// Whether a kept context uses the cluster `name`.
pub open spec fn cluster_used(cs: Seq<NamedContextEntry>, current: Option<String>, name: Seq<char>) -> bool {
    exists|k: int| 0 <= k < cs.len() && is_current_context(#[trigger] cs[k], current) && (cs[k].context matches Some(cx)
        && cx.cluster@ == name)
}

/// Whether a kept context uses the user `name`.
pub open spec fn user_used(cs: Seq<NamedContextEntry>, current: Option<String>, name: Seq<char>) -> bool {
    exists|k: int| 0 <= k < cs.len() && is_current_context(#[trigger] cs[k], current) && (cs[k].context matches Some(cx)
        && (cx.user matches Some(u) && u@ == name))
}

/// The positions in `0..n`, in order, at which `keep` holds.
pub open spec fn kept_positions(n: int, keep: spec_fn(int) -> bool) -> Seq<int>
    decreases n,
{
    if n <= 0 {
        Seq::empty()
    } else if keep(n - 1) {
        kept_positions(n - 1, keep).push(n - 1)
    } else {
        kept_positions(n - 1, keep)
    }
}

/// The positions, as integers.
pub open spec fn positions(v: Seq<usize>) -> Seq<int> {
    v.map_values(|p: usize| p as int)
}

fn keeps_cluster(cs: &Vec<NamedContextEntry>, current: &Option<String>, name: &str) -> (r: bool)
    ensures
        r == cluster_used(cs@, *current, name@),
{
    let mut k: usize = 0;
    while k < cs.len()
        invariant
            k <= cs@.len(),
            forall|j: int| 0 <= j < k ==> !(is_current_context(#[trigger] cs@[j], *current) && (cs@[j].context matches Some(cx)
                && cx.cluster@ == name@)),
        decreases cs@.len() - k,
    {
        let c = &cs[k];
        let is_cur = match current {
            Some(cur) => str_eq(cur.as_str(), c.name.as_str()),
            None => false,
        };
        if is_cur {
            if let Some(cx) = &c.context {
                if str_eq(cx.cluster.as_str(), name) {
                    assert(is_current_context(cs@[k as int], *current));
                    return true;
                }
            }
        }
        k = k + 1;
    }
    false
}

fn keeps_user(cs: &Vec<NamedContextEntry>, current: &Option<String>, name: &str) -> (r: bool)
    ensures
        r == user_used(cs@, *current, name@),
{
    let mut k: usize = 0;
    while k < cs.len()
        invariant
            k <= cs@.len(),
            forall|j: int| 0 <= j < k ==> !(is_current_context(#[trigger] cs@[j], *current) && (cs@[j].context matches Some(cx)
                && (cx.user matches Some(u) && u@ == name@))),
        decreases cs@.len() - k,
    {
        let c = &cs[k];
        let is_cur = match current {
            Some(cur) => str_eq(cur.as_str(), c.name.as_str()),
            None => false,
        };
        if is_cur {
            if let Some(cx) = &c.context {
                if let Some(u) = &cx.user {
                    if str_eq(u.as_str(), name) {
                        assert(is_current_context(cs@[k as int], *current));
                        return true;
                    }
                }
            }
        }
        k = k + 1;
    }
    false
}

/// The parts of a kubeconfig a minified view keeps: the contexts named like
/// the current context, the clusters and the users those contexts use.
pub fn minified_selection(
    current: &Option<String>,
    contexts: &Vec<NamedContextEntry>,
    cluster_names: &Vec<String>,
    user_names: &Vec<String>,
) -> (r: MinifiedSelection)
    ensures
        positions(r.contexts@) == kept_positions(
            contexts@.len() as int,
            |k: int| is_current_context(contexts@[k], *current),
        ),
        positions(r.clusters@) == kept_positions(
            cluster_names@.len() as int,
            |k: int| cluster_used(contexts@, *current, cluster_names@[k]@),
        ),
        positions(r.users@) == kept_positions(
            user_names@.len() as int,
            |k: int| user_used(contexts@, *current, user_names@[k]@),
        ),
{
    let ghost keep_ctx = |k: int| is_current_context(contexts@[k], *current);
    let ghost keep_cluster = |k: int| cluster_used(contexts@, *current, cluster_names@[k]@);
    let ghost keep_user = |k: int| user_used(contexts@, *current, user_names@[k]@);
    let mut kept_contexts: Vec<usize> = Vec::new();
    let mut i: usize = 0;
    while i < contexts.len()
        invariant
            i <= contexts@.len(),
            keep_ctx == (|k: int| is_current_context(contexts@[k], *current)),
            positions(kept_contexts@) == kept_positions(i as int, keep_ctx),
        decreases contexts@.len() - i,
    {
        let is_cur = match current {
            Some(cur) => str_eq(cur.as_str(), contexts[i].name.as_str()),
            None => false,
        };
        if is_cur {
            kept_contexts.push(i);
        }
        i = i + 1;
        assert(positions(kept_contexts@) =~= kept_positions(i as int, keep_ctx));
    }
    let mut kept_clusters: Vec<usize> = Vec::new();
    let mut j: usize = 0;
    while j < cluster_names.len()
        invariant
            j <= cluster_names@.len(),
            keep_cluster == (|k: int| cluster_used(contexts@, *current, cluster_names@[k]@)),
            positions(kept_clusters@) == kept_positions(j as int, keep_cluster),
        decreases cluster_names@.len() - j,
    {
        if keeps_cluster(contexts, current, cluster_names[j].as_str()) {
            kept_clusters.push(j);
        }
        j = j + 1;
        assert(positions(kept_clusters@) =~= kept_positions(j as int, keep_cluster));
    }
    let mut kept_users: Vec<usize> = Vec::new();
    let mut u: usize = 0;
    while u < user_names.len()
        invariant
            u <= user_names@.len(),
            keep_user == (|k: int| user_used(contexts@, *current, user_names@[k]@)),
            positions(kept_users@) == kept_positions(u as int, keep_user),
        decreases user_names@.len() - u,
    {
        if keeps_user(contexts, current, user_names[u].as_str()) {
            kept_users.push(u);
        }
        u = u + 1;
        assert(positions(kept_users@) =~= kept_positions(u as int, keep_user));
    }
    MinifiedSelection { contexts: kept_contexts, clusters: kept_clusters, users: kept_users }
}

} // verus!
