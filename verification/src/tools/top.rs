//! The resource usage tools: how node and pod metrics are combined and shown.

use crate::format::table::{header_of, render_table, rendered_table, rows_view};
use crate::k8s::metrics::{bytes_text, format_bytes, NodeMetrics, PodMetrics};
use crate::text::{concat2, decimal, owned, strings_view, u64_to_string};
use vstd::prelude::*;

verus! {

/// A CPU amount in millicores with its unit, "N/A" when unknown.
pub open spec fn cpu_text(c: Option<u64>) -> Seq<char> {
    match c {
        Some(m) => decimal(m as nat) + "m"@,
        None => "N/A"@,
    }
}

/// A percentage with its sign, "N/A" when unknown.
pub open spec fn percent_text(p: Option<u32>) -> Seq<char> {
    match p {
        Some(n) => decimal(n as nat) + "%"@,
        None => "N/A"@,
    }
}

/// A byte count in binary units, "N/A" when unknown.
pub open spec fn memory_text(m: Option<u64>) -> Seq<char> {
    match m {
        Some(b) => bytes_text(b as nat),
        None => "N/A"@,
    }
}

fn cpu_cell(c: Option<u64>) -> (r: String)
    ensures
        r@ == cpu_text(c),
{
    match c {
        Some(m) => concat2(u64_to_string(m).as_str(), "m"),
        None => owned("N/A"),
    }
}

fn percent_cell(p: Option<u32>) -> (r: String)
    ensures
        r@ == percent_text(p),
{
    match p {
        Some(n) => concat2(u64_to_string(n as u64).as_str(), "%"),
        None => owned("N/A"),
    }
}

fn memory_cell(m: Option<u64>) -> (r: String)
    ensures
        r@ == memory_text(m),
{
    match m {
        Some(b) => format_bytes(b),
        None => owned("N/A"),
    }
}

/// The cells of one node in the node usage table.
pub open spec fn node_usage_cells(m: NodeMetrics) -> Seq<Seq<char>> {
    seq![m.name@, cpu_text(m.cpu_usage), percent_text(m.cpu_percent), memory_text(m.memory_usage), percent_text(m.memory_percent)]
}

/// The cells of one pod in the pod usage table.
pub open spec fn pod_usage_cells(m: PodMetrics) -> Seq<Seq<char>> {
    seq![m.name@, m.namespace@, cpu_text(m.cpu_usage), memory_text(m.memory_usage)]
}

/// The header of the node usage table.
pub open spec fn node_usage_header() -> Seq<Seq<char>> {
    seq!["NAME"@, "CPU(cores)"@, "CPU%"@, "MEMORY(bytes)"@, "MEMORY%"@]
}

/// The header of the pod usage table.
pub open spec fn pod_usage_header() -> Seq<Seq<char>> {
    seq!["NAME"@, "NAMESPACE"@, "CPU(cores)"@, "MEMORY(bytes)"@]
}

/// Node usage as a table: CPU in millicores and memory in binary units, with
/// their shares of what the node can allocate.
pub fn top_nodes_table(metrics: &Vec<NodeMetrics>) -> (r: String)
    ensures
        r@ == rendered_table(node_usage_header(), metrics@.map_values(|m: NodeMetrics| node_usage_cells(m))),
{
    let titles: [&str; 5] = ["NAME", "CPU(cores)", "CPU%", "MEMORY(bytes)", "MEMORY%"];
    let header = header_of(&titles);
    assert(strings_view(header@) =~= node_usage_header());
    let mut rows: Vec<Vec<String>> = Vec::new();
    let mut i: usize = 0;
    while i < metrics.len()
        invariant
            i <= metrics@.len(),
            rows_view(rows@) == metrics@.subrange(0, i as int).map_values(|m: NodeMetrics| node_usage_cells(m)),
        decreases metrics@.len() - i,
    {
        let m = &metrics[i];
        let mut row: Vec<String> = Vec::new();
        row.push(m.name.clone());
        row.push(cpu_cell(m.cpu_usage));
        row.push(percent_cell(m.cpu_percent));
        row.push(memory_cell(m.memory_usage));
        row.push(percent_cell(m.memory_percent));
        let ghost cells = node_usage_cells(*m);
        assert(strings_view(row@) =~= cells);
        let ghost prev = rows@;
        rows.push(row);
        assert(rows_view(rows@) =~= rows_view(prev).push(cells));
        i = i + 1;
        assert(metrics@.subrange(0, i as int).map_values(|m: NodeMetrics| node_usage_cells(m)) =~= metrics@.subrange(
            0,
            i - 1,
        ).map_values(|m: NodeMetrics| node_usage_cells(m)).push(cells));
    }
    assert(metrics@.subrange(0, metrics@.len() as int) =~= metrics@);
    render_table(&header, &rows)
}

/// Pod usage as a table: CPU in millicores and memory in binary units.
pub fn top_pods_table(metrics: &Vec<PodMetrics>) -> (r: String)
    ensures
        r@ == rendered_table(pod_usage_header(), metrics@.map_values(|m: PodMetrics| pod_usage_cells(m))),
{
    let titles: [&str; 4] = ["NAME", "NAMESPACE", "CPU(cores)", "MEMORY(bytes)"];
    let header = header_of(&titles);
    assert(strings_view(header@) =~= pod_usage_header());
    let mut rows: Vec<Vec<String>> = Vec::new();
    let mut i: usize = 0;
    while i < metrics.len()
        invariant
            i <= metrics@.len(),
            rows_view(rows@) == metrics@.subrange(0, i as int).map_values(|m: PodMetrics| pod_usage_cells(m)),
        decreases metrics@.len() - i,
    {
        let m = &metrics[i];
        let mut row: Vec<String> = Vec::new();
        row.push(m.name.clone());
        row.push(m.namespace.clone());
        row.push(cpu_cell(m.cpu_usage));
        row.push(memory_cell(m.memory_usage));
        let ghost cells = pod_usage_cells(*m);
        assert(strings_view(row@) =~= cells);
        let ghost prev = rows@;
        rows.push(row);
        assert(rows_view(rows@) =~= rows_view(prev).push(cells));
        i = i + 1;
        assert(metrics@.subrange(0, i as int).map_values(|m: PodMetrics| pod_usage_cells(m)) =~= metrics@.subrange(
            0,
            i - 1,
        ).map_values(|m: PodMetrics| pod_usage_cells(m)).push(cells));
    }
    assert(metrics@.subrange(0, metrics@.len() as int) =~= metrics@);
    render_table(&header, &rows)
}

/// The sum of the values.
pub open spec fn total(v: Seq<u64>) -> int
    decreases v.len(),
{
    if v.len() == 0 {
        0
    } else {
        total(v.drop_last()) + v.last()
    }
}

/// Whether every running sum of the values fits in a `u64`.
pub open spec fn sums_fit(v: Seq<u64>) -> bool {
    forall|k: int| 0 <= k <= v.len() ==> #[trigger] total(v.take(k)) <= u64::MAX
}

/// The total usage of a pod: the sum over its containers.
pub fn pod_usage_total(values: &Vec<u64>) -> (r: u64)
    requires
        sums_fit(values@),
    ensures
        r == total(values@),
{
    let mut sum: u64 = 0;
    let mut i: usize = 0;
    assert(values@.take(0) =~= Seq::<u64>::empty());
    while i < values.len()
        invariant
            i <= values@.len(),
            sums_fit(values@),
            sum == total(values@.take(i as int)),
        decreases values@.len() - i,
    {
        assert(values@.take(i + 1).drop_last() =~= values@.take(i as int));
        assert(total(values@.take(i + 1)) <= u64::MAX);
        sum = sum + values[i];
        i = i + 1;
    }
    assert(values@.take(values@.len() as int) =~= values@);
    sum
}

/// The key pod metrics are found under: "namespace/name".
pub fn pod_metrics_key(namespace: &str, name: &str) -> (r: String)
    ensures
        r@ == namespace@ + "/"@ + name@,
{
    let head = concat2(namespace, "/");
    concat2(head.as_str(), name)
}

} // verus!
