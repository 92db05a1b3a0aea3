//! Table formatting for Kubernetes resources.
//!
//! Each resource kind has a row type holding the fields its table reads, a
//! spec function giving the text of each cell, and a function that renders
//! the header and rows with `comfy_table`.

use crate::error::{debug_option, debug_option_text};
use crate::text::{
    chars_of, concat2, decimal, i64_to_string, join, join_strings, owned, signed_decimal, starts_with,
    starts_with_at, str_eq, string_from_chars, strings_view, trim_start_chars, trim_start_pattern,
    char_utf8_width, utf8_len, utf8_width,
    u64_to_string,
};
use vstd::prelude::*;

verus! {

// ---------------------------------------------------------------------------
// Rendering
// ---------------------------------------------------------------------------

/// The text `comfy_table` renders for a table with the given header and rows
/// in its default style.
pub uninterp spec fn rendered_table(header: Seq<Seq<char>>, rows: Seq<Seq<Seq<char>>>) -> Seq<char>;

/// The cell texts of a list of rows.
pub open spec fn rows_view(rows: Seq<Vec<String>>) -> Seq<Seq<Seq<char>>> {
    rows.map_values(|r: Vec<String>| strings_view(r@))
}

/// Renders a table with `comfy_table::Table`: a new table, the header set,
/// the rows added in order, and the result of `to_string`.
#[verifier::external_body]
pub(crate) fn render_table(header: &Vec<String>, rows: &Vec<Vec<String>>) -> (r: String)
    ensures
        r@ == rendered_table(strings_view(header@), rows_view(rows@)),
{
    let mut table = comfy_table::Table::new();
    table.set_header(header.clone());
    table.add_rows(rows.clone());
    table.to_string()
}

/// A header row from its column titles.
pub(crate) fn header_of(titles: &[&str]) -> (r: Vec<String>)
    ensures
        strings_view(r@) == titles@.map_values(|t: &str| t@),
{
    let mut r: Vec<String> = Vec::new();
    let mut i: usize = 0;
    while i < titles.len()
        invariant
            i <= titles@.len(),
            strings_view(r@) == titles@.subrange(0, i as int).map_values(|t: &str| t@),
        decreases titles@.len() - i,
    {
        let ghost prev = r@;
        let t = owned(titles[i]);
        r.push(t);
        assert(strings_view(r@) =~= strings_view(prev).push(t@));
        assert(titles@.subrange(0, i + 1).map_values(|t: &str| t@) =~= titles@.subrange(0, i as int).map_values(
            |t: &str| t@,
        ).push(titles@[i as int]@));
        i = i + 1;
    }
    assert(titles@.subrange(0, titles@.len() as int) =~= titles@);
    r
}

/// A resource kind that can be shown as one row of a table.
pub trait TableRow: Sized {
    /// The texts of the row's cells at time `now` (seconds since the epoch).
    spec fn cells(&self, now: i64) -> Seq<Seq<char>>;

    /// Whether the row can be rendered at time `now`.
    spec fn row_ok(&self, now: i64) -> bool;

    /// The row's cells at time `now`.
    fn row(&self, now: i64) -> (r: Vec<String>)
        requires
            self.row_ok(now),
        ensures
            strings_view(r@) == self.cells(now),
    ;
}

/// The cell texts of all items at time `now`.
pub open spec fn table_cells<R: TableRow>(items: Seq<R>, now: i64) -> Seq<Seq<Seq<char>>> {
    items.map_values(|x: R| x.cells(now))
}

/// Whether every item can be rendered at time `now`.
pub open spec fn all_rows_ok<R: TableRow>(items: Seq<R>, now: i64) -> bool {
    forall|i: int| 0 <= i < items.len() ==> #[trigger] items[i].row_ok(now)
}

fn build_table<R: TableRow>(titles: &[&str], items: &Vec<R>, now: i64) -> (r: String)
    requires
        all_rows_ok(items@, now),
    ensures
        r@ == rendered_table(titles@.map_values(|t: &str| t@), table_cells(items@, now)),
{
    let header = header_of(titles);
    let mut rows: Vec<Vec<String>> = Vec::new();
    let mut i: usize = 0;
    while i < items.len()
        invariant
            i <= items@.len(),
            all_rows_ok(items@, now),
            rows_view(rows@) == table_cells(items@.subrange(0, i as int), now),
        decreases items@.len() - i,
    {
        let ghost prev = rows@;
        let row = items[i].row(now);
        let ghost cells = strings_view(row@);
        rows.push(row);
        assert(rows_view(rows@) =~= rows_view(prev).push(cells));
        assert(table_cells(items@.subrange(0, i + 1), now) =~= table_cells(items@.subrange(0, i as int), now).push(
            items@[i as int].cells(now),
        ));
        i = i + 1;
    }
    assert(items@.subrange(0, items@.len() as int) =~= items@);
    render_table(&header, &rows)
}

// ---------------------------------------------------------------------------
// Cell texts
// ---------------------------------------------------------------------------

/// An optional text, or `d` when absent.
pub open spec fn or_text(o: Option<String>, d: Seq<char>) -> Seq<char> {
    match o {
        Some(s) => s@,
        None => d,
    }
}

/// An optional text, or the empty text when absent.
pub open spec fn or_empty(o: Option<String>) -> Seq<char> {
    or_text(o, Seq::empty())
}

/// An optional count, or `d` when absent.
pub open spec fn count_or(o: Option<i32>, d: int) -> int {
    match o {
        Some(n) => n as int,
        None => d,
    }
}

/// `a/b` in decimal.
pub open spec fn ratio_text(a: int, b: int) -> Seq<char> {
    signed_decimal(a) + "/"@ + signed_decimal(b)
}

/// `format!("{:?}", o)` of an optional string.
pub open spec fn debug_text(o: Option<String>) -> Seq<char> {
    debug_option_text(
        match o {
            Some(s) => Some(s@),
            None => None,
        },
    )
}

pub(crate) fn text_or(o: &Option<String>, d: &str) -> (r: String)
    ensures
        r@ == or_text(*o, d@),
{
    match o {
        Some(s) => s.clone(),
        None => owned(d),
    }
}

fn i32_text(x: i32) -> (r: String)
    ensures
        r@ == signed_decimal(x as int),
{
    i64_to_string(x as i64)
}

fn usize_text(n: usize) -> (r: String)
    ensures
        r@ == decimal(n as nat),
{
    u64_to_string(n as u64)
}

fn count_text(o: Option<i32>, d: i32) -> (r: String)
    ensures
        r@ == signed_decimal(count_or(o, d as int)),
{
    match o {
        Some(n) => i32_text(n),
        None => i32_text(d),
    }
}

fn ratio(a: i32, b: i32) -> (r: String)
    ensures
        r@ == ratio_text(a as int, b as int),
{
    let left = concat2(i32_text(a).as_str(), "/");
    concat2(left.as_str(), i32_text(b).as_str())
}

pub(crate) fn bool_text(b: bool) -> (r: String)
    ensures
        r@ == (if b { "true"@ } else { "false"@ }),
{
    if b {
        owned("true")
    } else {
        owned("false")
    }
}

fn debug_or(o: &Option<Option<String>>) -> (r: String)
    ensures
        r@ == match *o {
            Some(p) => debug_text(p),
            None => "Unknown"@,
        },
{
    match o {
        Some(p) => debug_option(p),
        None => owned("Unknown"),
    }
}

// ---------------------------------------------------------------------------
// Durations and ages
// ---------------------------------------------------------------------------

/// Integer division rounding toward zero, as Rust's `/` does.
pub open spec fn trunc_div(a: int, b: int) -> int {
    if a >= 0 {
        a / b
    } else {
        -((-a) / b)
    }
}

/// The remainder that goes with `trunc_div`, as Rust's `%` does.
pub open spec fn trunc_rem(a: int, b: int) -> int {
    a - b * trunc_div(a, b)
}

/// A duration of `t` seconds in its largest whole unit: years (only past
/// 365 days), days, hours, minutes or seconds.
pub open spec fn duration_text(t: int) -> Seq<char> {
    let days = trunc_div(t, 86400);
    let hours = trunc_div(trunc_rem(t, 86400), 3600);
    let minutes = trunc_div(trunc_rem(t, 3600), 60);
    let seconds = trunc_rem(t, 60);
    if days > 365 {
        signed_decimal(trunc_div(days, 365)) + "y"@
    } else if days > 0 {
        signed_decimal(days) + "d"@
    } else if hours > 0 {
        signed_decimal(hours) + "h"@
    } else if minutes > 0 {
        signed_decimal(minutes) + "m"@
    } else {
        signed_decimal(seconds) + "s"@
    }
}

/// Formats a duration given in whole seconds in a human-readable way.
pub fn format_duration(total_seconds: i64) -> (r: String)
    ensures
        r@ == duration_text(total_seconds as int),
{
    let t = total_seconds;
    if t < 0 {
        let mag: u64 = if t == i64::MIN {
            9223372036854775808u64
        } else {
            (-t) as u64
        };
        let s = mag % 60;
        assert(trunc_rem(t as int, 60) == -(s as int));
        assert(trunc_div(t as int, 86400) <= 0);
        assert(trunc_div(trunc_rem(t as int, 86400), 3600) <= 0);
        assert(trunc_div(trunc_rem(t as int, 3600), 60) <= 0);
        let digits = u64_to_string(s);
        if s == 0 {
            assert(signed_decimal(0) == decimal(0));
            concat2(digits.as_str(), "s")
        } else {
            let neg = concat2("-", digits.as_str());
            proof {
                reveal_strlit("-");
            }
            assert(neg@ == signed_decimal(-(s as int)));
            concat2(neg.as_str(), "s")
        }
    } else {
        let u = t as u64;
        let days = u / 86400;
        let hours = (u % 86400) / 3600;
        let minutes = (u % 3600) / 60;
        let seconds = u % 60;
        if days > 365 {
            concat2(u64_to_string(days / 365).as_str(), "y")
        } else if days > 0 {
            concat2(u64_to_string(days).as_str(), "d")
        } else if hours > 0 {
            concat2(u64_to_string(hours).as_str(), "h")
        } else if minutes > 0 {
            concat2(u64_to_string(minutes).as_str(), "m")
        } else {
            concat2(u64_to_string(seconds).as_str(), "s")
        }
    }
}

/// Whether `t` (seconds since the epoch) lies in the range of timestamps
/// that the Kubernetes API types can hold.
pub open spec fn valid_time(t: i64) -> bool {
    -377705116800 <= t <= 253402207200
}

/// The age of an object created at `created`, as seen at `now`; "N/A" when
/// the creation time is unknown.
pub open spec fn age_text(created: Option<i64>, now: i64) -> Seq<char> {
    match created {
        Some(c) => duration_text(now - c),
        None => "N/A"@,
    }
}

/// Whether the age of an object created at `created` can be computed at `now`.
pub open spec fn age_ok(created: Option<i64>, now: i64) -> bool {
    valid_time(now) && match created {
        Some(c) => valid_time(c),
        None => true,
    }
}

/// The age of an object created at `created` (seconds since the epoch), as
/// seen at `now`.
pub fn get_age(created: Option<i64>, now: i64) -> (r: String)
    requires
        age_ok(created, now),
    ensures
        r@ == age_text(created, now),
{
    match created {
        Some(c) => format_duration(now - c),
        None => owned("N/A"),
    }
}

} // verus!

verus! {

// ---------------------------------------------------------------------------
// Pods
// ---------------------------------------------------------------------------

/// What a pod's table row reads of one container status.
#[derive(Debug, Clone, Copy)]
pub struct ContainerStatusRow {
    /// Whether the container is ready
    pub ready: bool,
    /// How many times the container restarted
    pub restart_count: i32,
    /// Exit code of the container, when it terminated
    pub terminated_exit_code: Option<i32>,
}

/// What the pods table reads of a pod.
#[derive(Debug, Clone)]
pub struct PodRow {
    pub name: String,
    pub namespace: Option<String>,
    /// Creation time, in seconds since the epoch
    pub created: Option<i64>,
    pub phase: Option<String>,
    pub container_statuses: Option<Vec<ContainerStatusRow>>,
}

/// The number of ready containers.
pub open spec fn ready_count(s: Seq<ContainerStatusRow>) -> nat {
    s.filter(|c: ContainerStatusRow| c.ready).len()
}

/// "ready/total" for the containers, "0/0" when the pod reports none.
pub open spec fn pod_ready_text(cs: Option<Vec<ContainerStatusRow>>) -> Seq<char> {
    match cs {
        Some(v) => decimal(ready_count(v@)) + "/"@ + decimal(v@.len()),
        None => "0/0"@,
    }
}

/// The exit code of the first container that terminated with a non-zero code.
pub open spec fn first_failure(s: Seq<ContainerStatusRow>) -> Option<i32>
    decreases s.len(),
{
    if s.len() == 0 {
        None
    } else {
        match s[0].terminated_exit_code {
            Some(code) => if code != 0 {
                Some(code)
            } else {
                first_failure(s.drop_first())
            },
            None => first_failure(s.drop_first()),
        }
    }
}

/// "Error:<code>" for the first container that failed, else the pod's phase,
/// else "Unknown".
pub open spec fn pod_status_text(phase: Option<String>, cs: Option<Vec<ContainerStatusRow>>) -> Seq<char> {
    let failure = match cs {
        Some(v) => first_failure(v@),
        None => None,
    };
    match failure {
        Some(code) => "Error:"@ + signed_decimal(code as int),
        None => or_text(phase, "Unknown"@),
    }
}

/// The sum of the restart counts.
pub open spec fn restart_sum(s: Seq<ContainerStatusRow>) -> int
    decreases s.len(),
{
    if s.len() == 0 {
        0
    } else {
        restart_sum(s.drop_last()) + s.last().restart_count
    }
}

/// Whether the running sum of the restart counts stays within `i32`.
pub open spec fn restarts_fit(cs: Option<Vec<ContainerStatusRow>>) -> bool {
    match cs {
        Some(v) => forall|k: int|
            0 <= k <= v@.len() ==> i32::MIN <= #[trigger] restart_sum(v@.take(k)) <= i32::MAX,
        None => true,
    }
}

/// The total restart count, "0" when the pod reports no containers.
pub open spec fn pod_restarts_text(cs: Option<Vec<ContainerStatusRow>>) -> Seq<char> {
    match cs {
        Some(v) => signed_decimal(restart_sum(v@)),
        None => "0"@,
    }
}

/// Pod ready status: ready containers over all containers.
pub fn get_pod_ready(pod: &PodRow) -> (r: String)
    ensures
        r@ == pod_ready_text(pod.container_statuses),
{
    match &pod.container_statuses {
        Some(v) => {
            let mut ready: usize = 0;
            let mut i: usize = 0;
            while i < v.len()
                invariant
                    i <= v@.len(),
                    ready == ready_count(v@.take(i as int)),
                    ready <= i,
                decreases v@.len() - i,
            {
                proof {
                    let s = v@.take(i + 1);
                    assert(s.drop_last() =~= v@.take(i as int));
                    reveal_with_fuel(Seq::filter, 1);
                }
                if v[i].ready {
                    ready = ready + 1;
                }
                i = i + 1;
            }
            assert(v@.take(v@.len() as int) =~= v@);
            let left = concat2(usize_text(ready).as_str(), "/");
            concat2(left.as_str(), usize_text(v.len()).as_str())
        },
        None => owned("0/0"),
    }
}

/// Pod status: the first container failure, else the phase.
pub fn get_pod_status(pod: &PodRow) -> (r: String)
    ensures
        r@ == pod_status_text(pod.phase, pod.container_statuses),
{
    if let Some(v) = &pod.container_statuses {
        let mut i: usize = 0;
        assert(v@.skip(0) =~= v@);
        while i < v.len()
            invariant
                i <= v@.len(),
                pod.container_statuses == Some(*v),
                first_failure(v@) == first_failure(v@.skip(i as int)),
            decreases v@.len() - i,
        {
            let ghost rest = v@.skip(i as int);
            assert(rest[0] == v@[i as int]);
            assert(rest.drop_first() =~= v@.skip(i + 1));
            if let Some(code) = v[i].terminated_exit_code {
                if code != 0 {
                    assert(first_failure(rest) == Some(code));
                    assert(first_failure(v@) == Some(code));
                    let t = i32_text(code);
                    let r = concat2("Error:", t.as_str());
                    assert(r@ == "Error:"@ + signed_decimal(code as int));
                    return r;
                }
            }
            i = i + 1;
        }
        assert(v@.skip(v@.len() as int) =~= Seq::<ContainerStatusRow>::empty());
    }
    text_or(&pod.phase, "Unknown")
}

/// Pod restart count: the sum over its containers.
pub fn get_pod_restarts(pod: &PodRow) -> (r: String)
    requires
        restarts_fit(pod.container_statuses),
    ensures
        r@ == pod_restarts_text(pod.container_statuses),
{
    match &pod.container_statuses {
        Some(v) => {
            let mut total: i32 = 0;
            let mut i: usize = 0;
            let ghost vs = v@;
            assert(v@.take(0) =~= Seq::<ContainerStatusRow>::empty());
            assert(forall|k: int| 0 <= k <= vs.len() ==> i32::MIN <= #[trigger] restart_sum(vs.take(k)) <= i32::MAX);
            while i < v.len()
                invariant
                    i <= v@.len(),
                    vs == v@,
                    forall|k: int| 0 <= k <= vs.len() ==> i32::MIN <= #[trigger] restart_sum(vs.take(k)) <= i32::MAX,
                    total == restart_sum(v@.take(i as int)),
                decreases v@.len() - i,
            {
                assert(v@.take(i + 1).drop_last() =~= v@.take(i as int));
                assert(i32::MIN <= restart_sum(v@.take(i + 1)) <= i32::MAX);
                total = total + v[i].restart_count;
                i = i + 1;
            }
            assert(v@.take(v@.len() as int) =~= v@);
            i32_text(total)
        },
        None => owned("0"),
    }
}

impl TableRow for PodRow {
    open spec fn cells(&self, now: i64) -> Seq<Seq<char>> {
        seq![
            self.name@,
            pod_ready_text(self.container_statuses),
            pod_status_text(self.phase, self.container_statuses),
            pod_restarts_text(self.container_statuses),
            age_text(self.created, now),
            or_empty(self.namespace),
        ]
    }

    open spec fn row_ok(&self, now: i64) -> bool {
        age_ok(self.created, now) && restarts_fit(self.container_statuses)
    }

    fn row(&self, now: i64) -> (r: Vec<String>) {
        let mut r: Vec<String> = Vec::new();
        r.push(self.name.clone());
        r.push(get_pod_ready(self));
        r.push(get_pod_status(self));
        r.push(get_pod_restarts(self));
        r.push(get_age(self.created, now));
        r.push(text_or(&self.namespace, ""));
        proof {
            reveal_strlit("");
        }
        assert(strings_view(r@)[0] == self.cells(now)[0]);
        assert(strings_view(r@)[1] == self.cells(now)[1]);
        assert(strings_view(r@)[2] == self.cells(now)[2]);
        assert(strings_view(r@)[3] == self.cells(now)[3]);
        assert(strings_view(r@)[4] == self.cells(now)[4]);
        assert(strings_view(r@)[5] == self.cells(now)[5]);
        assert(strings_view(r@) =~= self.cells(now));
        r
    }
}

/// The header of the pods table.
pub open spec fn pods_header() -> Seq<Seq<char>> {
    seq!["NAME"@, "READY"@, "STATUS"@, "RESTARTS"@, "AGE"@, "NAMESPACE"@]
}

/// Formats a list of pods as a table, with ages as seen at `now`.
pub fn format_pods_table(pods: &Vec<PodRow>, now: i64) -> (r: String)
    requires
        all_rows_ok(pods@, now),
    ensures
        r@ == rendered_table(pods_header(), table_cells(pods@, now)),
{
    let titles: [&str; 6] = ["NAME", "READY", "STATUS", "RESTARTS", "AGE", "NAMESPACE"];
    assert(titles@.map_values(|t: &str| t@) =~= pods_header());
    build_table(&titles, pods, now)
}

} // verus!

verus! {

// ---------------------------------------------------------------------------
// Shared list helpers
// ---------------------------------------------------------------------------

/// The texts of the present entries, in order.
pub open spec fn present_texts(v: Seq<Option<String>>) -> Seq<Seq<char>>
    decreases v.len(),
{
    if v.len() == 0 {
        Seq::empty()
    } else {
        let rest = present_texts(v.drop_last());
        match v.last() {
            Some(s) => rest.push(s@),
            None => rest,
        }
    }
}

/// The texts of all entries, absent ones as the empty text.
pub open spec fn or_empty_texts(v: Seq<Option<String>>) -> Seq<Seq<char>> {
    v.map_values(|o: Option<String>| or_empty(o))
}

fn present_all(v: &Vec<Option<String>>) -> (r: Vec<String>)
    ensures
        strings_view(r@) == present_texts(v@),
{
    let mut r: Vec<String> = Vec::new();
    let mut i: usize = 0;
    while i < v.len()
        invariant
            i <= v@.len(),
            strings_view(r@) == present_texts(v@.take(i as int)),
        decreases v@.len() - i,
    {
        let ghost prev = r@;
        assert(v@.take(i + 1).drop_last() =~= v@.take(i as int));
        assert(v@.take(i + 1).last() == v@[i as int]);
        match &v[i] {
            Some(s) => {
                r.push(s.clone());
                assert(strings_view(r@) =~= strings_view(prev).push(s@));
            },
            None => {},
        }
        i = i + 1;
    }
    assert(v@.take(v@.len() as int) =~= v@);
    r
}

fn or_empty_all(v: &Vec<Option<String>>) -> (r: Vec<String>)
    ensures
        strings_view(r@) == or_empty_texts(v@),
{
    let mut r: Vec<String> = Vec::new();
    let mut i: usize = 0;
    proof {
        reveal_strlit("");
    }
    while i < v.len()
        invariant
            i <= v@.len(),
            ""@ == Seq::<char>::empty(),
            strings_view(r@) == or_empty_texts(v@.take(i as int)),
        decreases v@.len() - i,
    {
        let ghost prev = r@;
        let t = text_or(&v[i], "");
        r.push(t);
        assert(strings_view(r@) =~= strings_view(prev).push(t@));
        assert(or_empty_texts(v@.take(i + 1)) =~= or_empty_texts(v@.take(i as int)).push(or_empty(v@[i as int])));
        i = i + 1;
    }
    assert(v@.take(v@.len() as int) =~= v@);
    r
}

// ---------------------------------------------------------------------------
// Deployments, stateful sets, daemon sets, replica sets
// ---------------------------------------------------------------------------

/// What the deployments table reads of a deployment.
#[derive(Debug, Clone)]
pub struct DeploymentRow {
    pub name: String,
    pub namespace: Option<String>,
    pub created: Option<i64>,
    pub replicas: Option<i32>,
    pub ready_replicas: Option<i32>,
    pub updated_replicas: Option<i32>,
    pub available_replicas: Option<i32>,
}

impl TableRow for DeploymentRow {
    open spec fn cells(&self, now: i64) -> Seq<Seq<char>> {
        seq![
            self.name@,
            ratio_text(count_or(self.ready_replicas, 0), count_or(self.replicas, 0)),
            signed_decimal(count_or(self.updated_replicas, 0)),
            signed_decimal(count_or(self.available_replicas, 0)),
            age_text(self.created, now),
            or_empty(self.namespace),
        ]
    }

    open spec fn row_ok(&self, now: i64) -> bool {
        age_ok(self.created, now)
    }

    fn row(&self, now: i64) -> (r: Vec<String>) {
        let ready = match self.ready_replicas { Some(n) => n, None => 0 };
        let total = match self.replicas { Some(n) => n, None => 0 };
        let mut r: Vec<String> = Vec::new();
        r.push(self.name.clone());
        r.push(ratio(ready, total));
        r.push(count_text(self.updated_replicas, 0));
        r.push(count_text(self.available_replicas, 0));
        r.push(get_age(self.created, now));
        r.push(text_or(&self.namespace, ""));
        proof {
            reveal_strlit("");
        }
        assert(strings_view(r@)[0] == self.cells(now)[0]);
        assert(strings_view(r@)[1] == self.cells(now)[1]);
        assert(strings_view(r@)[2] == self.cells(now)[2]);
        assert(strings_view(r@)[3] == self.cells(now)[3]);
        assert(strings_view(r@)[4] == self.cells(now)[4]);
        assert(strings_view(r@)[5] == self.cells(now)[5]);
        assert(strings_view(r@) =~= self.cells(now));
        r
    }
}

/// The header of the deployments table.
pub open spec fn deployments_header() -> Seq<Seq<char>> {
    seq!["NAME"@, "READY"@, "UP-TO-DATE"@, "AVAILABLE"@, "AGE"@, "NAMESPACE"@]
}

/// Formats a list of deployments as a table.
pub fn format_deployments_table(deployments: &Vec<DeploymentRow>, now: i64) -> (r: String)
    requires
        all_rows_ok(deployments@, now),
    ensures
        r@ == rendered_table(deployments_header(), table_cells(deployments@, now)),
{
    let titles: [&str; 6] = ["NAME", "READY", "UP-TO-DATE", "AVAILABLE", "AGE", "NAMESPACE"];
    assert(titles@.map_values(|t: &str| t@) =~= deployments_header());
    build_table(&titles, deployments, now)
}

/// What the stateful sets table reads of a stateful set.
#[derive(Debug, Clone)]
pub struct StatefulSetRow {
    pub name: String,
    pub namespace: Option<String>,
    pub created: Option<i64>,
    pub replicas: Option<i32>,
    pub ready_replicas: Option<i32>,
}

impl TableRow for StatefulSetRow {
    open spec fn cells(&self, now: i64) -> Seq<Seq<char>> {
        seq![
            self.name@,
            ratio_text(count_or(self.ready_replicas, 0), count_or(self.replicas, 0)),
            age_text(self.created, now),
            or_empty(self.namespace),
        ]
    }

    open spec fn row_ok(&self, now: i64) -> bool {
        age_ok(self.created, now)
    }

    fn row(&self, now: i64) -> (r: Vec<String>) {
        let ready = match self.ready_replicas { Some(n) => n, None => 0 };
        let total = match self.replicas { Some(n) => n, None => 0 };
        let mut r: Vec<String> = Vec::new();
        r.push(self.name.clone());
        r.push(ratio(ready, total));
        r.push(get_age(self.created, now));
        r.push(text_or(&self.namespace, ""));
        proof {
            reveal_strlit("");
        }
        assert(strings_view(r@)[0] == self.cells(now)[0]);
        assert(strings_view(r@)[1] == self.cells(now)[1]);
        assert(strings_view(r@)[2] == self.cells(now)[2]);
        assert(strings_view(r@)[3] == self.cells(now)[3]);
        assert(strings_view(r@) =~= self.cells(now));
        r
    }
}

/// The header of the stateful sets table.
pub open spec fn statefulsets_header() -> Seq<Seq<char>> {
    seq!["NAME"@, "READY"@, "AGE"@, "NAMESPACE"@]
}

/// Formats a list of stateful sets as a table.
pub fn format_statefulsets_table(statefulsets: &Vec<StatefulSetRow>, now: i64) -> (r: String)
    requires
        all_rows_ok(statefulsets@, now),
    ensures
        r@ == rendered_table(statefulsets_header(), table_cells(statefulsets@, now)),
{
    let titles: [&str; 4] = ["NAME", "READY", "AGE", "NAMESPACE"];
    assert(titles@.map_values(|t: &str| t@) =~= statefulsets_header());
    build_table(&titles, statefulsets, now)
}

/// What the daemon sets and replica sets tables read: desired, current and
/// ready counts.
#[derive(Debug, Clone)]
pub struct ScaledRow {
    pub name: String,
    pub namespace: Option<String>,
    pub created: Option<i64>,
    pub desired: Option<i32>,
    pub current: Option<i32>,
    pub ready: Option<i32>,
}

/// What the daemon sets table reads of a daemon set.
pub type DaemonSetRow = ScaledRow;

/// What the replica sets table reads of a replica set.
pub type ReplicaSetRow = ScaledRow;

impl TableRow for ScaledRow {
    open spec fn cells(&self, now: i64) -> Seq<Seq<char>> {
        seq![
            self.name@,
            signed_decimal(count_or(self.desired, 0)),
            signed_decimal(count_or(self.current, 0)),
            signed_decimal(count_or(self.ready, 0)),
            age_text(self.created, now),
            or_empty(self.namespace),
        ]
    }

    open spec fn row_ok(&self, now: i64) -> bool {
        age_ok(self.created, now)
    }

    fn row(&self, now: i64) -> (r: Vec<String>) {
        let mut r: Vec<String> = Vec::new();
        r.push(self.name.clone());
        r.push(count_text(self.desired, 0));
        r.push(count_text(self.current, 0));
        r.push(count_text(self.ready, 0));
        r.push(get_age(self.created, now));
        r.push(text_or(&self.namespace, ""));
        proof {
            reveal_strlit("");
        }
        assert(strings_view(r@)[0] == self.cells(now)[0]);
        assert(strings_view(r@)[1] == self.cells(now)[1]);
        assert(strings_view(r@)[2] == self.cells(now)[2]);
        assert(strings_view(r@)[3] == self.cells(now)[3]);
        assert(strings_view(r@)[4] == self.cells(now)[4]);
        assert(strings_view(r@)[5] == self.cells(now)[5]);
        assert(strings_view(r@) =~= self.cells(now));
        r
    }
}

/// The header of the daemon sets and replica sets tables.
pub open spec fn scaled_header() -> Seq<Seq<char>> {
    seq!["NAME"@, "DESIRED"@, "CURRENT"@, "READY"@, "AGE"@, "NAMESPACE"@]
}

/// Formats a list of daemon sets as a table.
pub fn format_daemonsets_table(daemonsets: &Vec<DaemonSetRow>, now: i64) -> (r: String)
    requires
        all_rows_ok(daemonsets@, now),
    ensures
        r@ == rendered_table(scaled_header(), table_cells(daemonsets@, now)),
{
    let titles: [&str; 6] = ["NAME", "DESIRED", "CURRENT", "READY", "AGE", "NAMESPACE"];
    assert(titles@.map_values(|t: &str| t@) =~= scaled_header());
    build_table(&titles, daemonsets, now)
}

/// Formats a list of replica sets as a table.
pub fn format_replicasets_table(replicasets: &Vec<ReplicaSetRow>, now: i64) -> (r: String)
    requires
        all_rows_ok(replicasets@, now),
    ensures
        r@ == rendered_table(scaled_header(), table_cells(replicasets@, now)),
{
    let titles: [&str; 6] = ["NAME", "DESIRED", "CURRENT", "READY", "AGE", "NAMESPACE"];
    assert(titles@.map_values(|t: &str| t@) =~= scaled_header());
    build_table(&titles, replicasets, now)
}

} // verus!

verus! {

// ---------------------------------------------------------------------------
// Services
// ---------------------------------------------------------------------------

/// One port of a service.
#[derive(Debug, Clone)]
pub struct ServicePortRow {
    pub port: i32,
    pub protocol: Option<String>,
}

/// What the services table reads of a service.
#[derive(Debug, Clone)]
pub struct ServiceRow {
    pub name: String,
    pub namespace: Option<String>,
    pub created: Option<i64>,
    pub service_type: Option<String>,
    pub cluster_ip: Option<String>,
    /// Whether the service reports a status
    pub has_status: bool,
    /// The IPs of the load balancer's ingress points, when it reports them
    pub load_balancer_ips: Option<Vec<Option<String>>>,
    pub ports: Vec<ServicePortRow>,
}

/// "port/protocol", with TCP when no protocol is given.
pub open spec fn port_text(p: ServicePortRow) -> Seq<char> {
    signed_decimal(p.port as int) + "/"@ + or_text(p.protocol, "TCP"@)
}

/// The ports of a service, separated by commas.
pub open spec fn ports_text(ps: Seq<ServicePortRow>) -> Seq<char> {
    join(ps.map_values(|p: ServicePortRow| port_text(p)), ","@)
}

/// The external IPs: "<none>" without a status, the load balancer's ingress
/// IPs separated by commas otherwise.
pub open spec fn external_ip_text(has_status: bool, ips: Option<Vec<Option<String>>>) -> Seq<char> {
    if !has_status {
        "<none>"@
    } else {
        match ips {
            Some(v) => join(or_empty_texts(v@), ","@),
            None => Seq::empty(),
        }
    }
}

fn service_ports(ps: &Vec<ServicePortRow>) -> (r: String)
    ensures
        r@ == ports_text(ps@),
{
    let mut parts: Vec<String> = Vec::new();
    let mut i: usize = 0;
    while i < ps.len()
        invariant
            i <= ps@.len(),
            strings_view(parts@) == ps@.take(i as int).map_values(|p: ServicePortRow| port_text(p)),
        decreases ps@.len() - i,
    {
        let ghost prev = parts@;
        let left = concat2(i32_text(ps[i].port).as_str(), "/");
        let proto = text_or(&ps[i].protocol, "TCP");
        let t = concat2(left.as_str(), proto.as_str());
        parts.push(t);
        assert(strings_view(parts@) =~= strings_view(prev).push(t@));
        assert(ps@.take(i + 1).map_values(|p: ServicePortRow| port_text(p)) =~= ps@.take(i as int).map_values(
            |p: ServicePortRow| port_text(p),
        ).push(port_text(ps@[i as int])));
        i = i + 1;
    }
    assert(ps@.take(ps@.len() as int) =~= ps@);
    join_strings(&parts, ",")
}

fn external_ips(has_status: bool, ips: &Option<Vec<Option<String>>>) -> (r: String)
    ensures
        r@ == external_ip_text(has_status, *ips),
{
    if !has_status {
        return owned("<none>");
    }
    match ips {
        Some(v) => {
            let parts = or_empty_all(v);
            join_strings(&parts, ",")
        },
        None => {
            proof {
                reveal_strlit("");
            }
            owned("")
        },
    }
}

impl TableRow for ServiceRow {
    open spec fn cells(&self, now: i64) -> Seq<Seq<char>> {
        seq![
            self.name@,
            or_empty(self.service_type),
            or_empty(self.cluster_ip),
            external_ip_text(self.has_status, self.load_balancer_ips),
            ports_text(self.ports@),
            age_text(self.created, now),
            or_empty(self.namespace),
        ]
    }

    open spec fn row_ok(&self, now: i64) -> bool {
        age_ok(self.created, now)
    }

    fn row(&self, now: i64) -> (r: Vec<String>) {
        let mut r: Vec<String> = Vec::new();
        r.push(self.name.clone());
        r.push(text_or(&self.service_type, ""));
        r.push(text_or(&self.cluster_ip, ""));
        r.push(external_ips(self.has_status, &self.load_balancer_ips));
        r.push(service_ports(&self.ports));
        r.push(get_age(self.created, now));
        r.push(text_or(&self.namespace, ""));
        proof {
            reveal_strlit("");
        }
        assert(strings_view(r@)[0] == self.cells(now)[0]);
        assert(strings_view(r@)[1] == self.cells(now)[1]);
        assert(strings_view(r@)[2] == self.cells(now)[2]);
        assert(strings_view(r@)[3] == self.cells(now)[3]);
        assert(strings_view(r@)[4] == self.cells(now)[4]);
        assert(strings_view(r@)[5] == self.cells(now)[5]);
        assert(strings_view(r@)[6] == self.cells(now)[6]);
        assert(strings_view(r@) =~= self.cells(now));
        r
    }
}

/// The header of the services table.
pub open spec fn services_header() -> Seq<Seq<char>> {
    seq!["NAME"@, "TYPE"@, "CLUSTER-IP"@, "EXTERNAL-IP"@, "PORT(S)"@, "AGE"@, "NAMESPACE"@]
}

/// Formats a list of services as a table.
pub fn format_services_table(services: &Vec<ServiceRow>, now: i64) -> (r: String)
    requires
        all_rows_ok(services@, now),
    ensures
        r@ == rendered_table(services_header(), table_cells(services@, now)),
{
    let titles: [&str; 7] = ["NAME", "TYPE", "CLUSTER-IP", "EXTERNAL-IP", "PORT(S)", "AGE", "NAMESPACE"];
    assert(titles@.map_values(|t: &str| t@) =~= services_header());
    build_table(&titles, services, now)
}

// ---------------------------------------------------------------------------
// Config maps, secrets, namespaces
// ---------------------------------------------------------------------------

/// What the config maps table reads of a config map.
#[derive(Debug, Clone)]
pub struct ConfigMapRow {
    pub name: String,
    pub namespace: Option<String>,
    pub created: Option<i64>,
    /// The number of data entries
    pub data_count: usize,
}

impl TableRow for ConfigMapRow {
    open spec fn cells(&self, now: i64) -> Seq<Seq<char>> {
        seq![self.name@, decimal(self.data_count as nat), age_text(self.created, now), or_empty(self.namespace)]
    }

    open spec fn row_ok(&self, now: i64) -> bool {
        age_ok(self.created, now)
    }

    fn row(&self, now: i64) -> (r: Vec<String>) {
        let mut r: Vec<String> = Vec::new();
        r.push(self.name.clone());
        r.push(usize_text(self.data_count));
        r.push(get_age(self.created, now));
        r.push(text_or(&self.namespace, ""));
        proof {
            reveal_strlit("");
        }
        assert(strings_view(r@)[0] == self.cells(now)[0]);
        assert(strings_view(r@)[1] == self.cells(now)[1]);
        assert(strings_view(r@)[2] == self.cells(now)[2]);
        assert(strings_view(r@)[3] == self.cells(now)[3]);
        assert(strings_view(r@) =~= self.cells(now));
        r
    }
}

/// The header of the config maps table.
pub open spec fn configmaps_header() -> Seq<Seq<char>> {
    seq!["NAME"@, "DATA"@, "AGE"@, "NAMESPACE"@]
}

/// Formats a list of config maps as a table.
pub fn format_configmaps_table(configmaps: &Vec<ConfigMapRow>, now: i64) -> (r: String)
    requires
        all_rows_ok(configmaps@, now),
    ensures
        r@ == rendered_table(configmaps_header(), table_cells(configmaps@, now)),
{
    let titles: [&str; 4] = ["NAME", "DATA", "AGE", "NAMESPACE"];
    assert(titles@.map_values(|t: &str| t@) =~= configmaps_header());
    build_table(&titles, configmaps, now)
}

/// What the secrets table reads of a secret.
#[derive(Debug, Clone)]
pub struct SecretRow {
    pub name: String,
    pub namespace: Option<String>,
    pub created: Option<i64>,
    pub secret_type: Option<String>,
    /// The number of data entries
    pub data_count: usize,
}

impl TableRow for SecretRow {
    open spec fn cells(&self, now: i64) -> Seq<Seq<char>> {
        seq![
            self.name@,
            or_empty(self.secret_type),
            decimal(self.data_count as nat),
            age_text(self.created, now),
            or_empty(self.namespace),
        ]
    }

    open spec fn row_ok(&self, now: i64) -> bool {
        age_ok(self.created, now)
    }

    fn row(&self, now: i64) -> (r: Vec<String>) {
        let mut r: Vec<String> = Vec::new();
        r.push(self.name.clone());
        r.push(text_or(&self.secret_type, ""));
        r.push(usize_text(self.data_count));
        r.push(get_age(self.created, now));
        r.push(text_or(&self.namespace, ""));
        proof {
            reveal_strlit("");
        }
        assert(strings_view(r@)[0] == self.cells(now)[0]);
        assert(strings_view(r@)[1] == self.cells(now)[1]);
        assert(strings_view(r@)[2] == self.cells(now)[2]);
        assert(strings_view(r@)[3] == self.cells(now)[3]);
        assert(strings_view(r@)[4] == self.cells(now)[4]);
        assert(strings_view(r@) =~= self.cells(now));
        r
    }
}

/// The header of the secrets table.
pub open spec fn secrets_header() -> Seq<Seq<char>> {
    seq!["NAME"@, "TYPE"@, "DATA"@, "AGE"@, "NAMESPACE"@]
}

/// Formats a list of secrets as a table.
pub fn format_secrets_table(secrets: &Vec<SecretRow>, now: i64) -> (r: String)
    requires
        all_rows_ok(secrets@, now),
    ensures
        r@ == rendered_table(secrets_header(), table_cells(secrets@, now)),
{
    let titles: [&str; 5] = ["NAME", "TYPE", "DATA", "AGE", "NAMESPACE"];
    assert(titles@.map_values(|t: &str| t@) =~= secrets_header());
    build_table(&titles, secrets, now)
}

/// What the namespaces table reads of a namespace.
#[derive(Debug, Clone)]
pub struct NamespaceRow {
    pub name: String,
    pub created: Option<i64>,
    pub phase: Option<String>,
}

impl TableRow for NamespaceRow {
    open spec fn cells(&self, now: i64) -> Seq<Seq<char>> {
        seq![self.name@, or_empty(self.phase), age_text(self.created, now)]
    }

    open spec fn row_ok(&self, now: i64) -> bool {
        age_ok(self.created, now)
    }

    fn row(&self, now: i64) -> (r: Vec<String>) {
        let mut r: Vec<String> = Vec::new();
        r.push(self.name.clone());
        r.push(text_or(&self.phase, ""));
        r.push(get_age(self.created, now));
        proof {
            reveal_strlit("");
        }
        assert(strings_view(r@)[0] == self.cells(now)[0]);
        assert(strings_view(r@)[1] == self.cells(now)[1]);
        assert(strings_view(r@)[2] == self.cells(now)[2]);
        assert(strings_view(r@) =~= self.cells(now));
        r
    }
}

/// The header of the namespaces table.
pub open spec fn namespaces_header() -> Seq<Seq<char>> {
    seq!["NAME"@, "STATUS"@, "AGE"@]
}

/// Formats a list of namespaces as a table.
pub fn format_namespaces_table(namespaces: &Vec<NamespaceRow>, now: i64) -> (r: String)
    requires
        all_rows_ok(namespaces@, now),
    ensures
        r@ == rendered_table(namespaces_header(), table_cells(namespaces@, now)),
{
    let titles: [&str; 3] = ["NAME", "STATUS", "AGE"];
    assert(titles@.map_values(|t: &str| t@) =~= namespaces_header());
    build_table(&titles, namespaces, now)
}

// ---------------------------------------------------------------------------
// Jobs and cron jobs
// ---------------------------------------------------------------------------

/// What the jobs table reads of a job.
#[derive(Debug, Clone)]
pub struct JobRow {
    pub name: String,
    pub namespace: Option<String>,
    pub created: Option<i64>,
    pub succeeded: Option<i32>,
    pub completions: Option<i32>,
    /// Completion time, in seconds since the epoch
    pub completion_time: Option<i64>,
}

/// The run time of a job: from creation to completion, "N/A" unless both
/// are known.
pub open spec fn job_duration_text(completion: Option<i64>, created: Option<i64>) -> Seq<char> {
    match completion {
        Some(end) => match created {
            Some(start) => duration_text(end - start),
            None => "N/A"@,
        },
        None => "N/A"@,
    }
}

impl TableRow for JobRow {
    open spec fn cells(&self, now: i64) -> Seq<Seq<char>> {
        seq![
            self.name@,
            ratio_text(count_or(self.succeeded, 0), count_or(self.completions, 1)),
            job_duration_text(self.completion_time, self.created),
            age_text(self.created, now),
            or_empty(self.namespace),
        ]
    }

    open spec fn row_ok(&self, now: i64) -> bool {
        age_ok(self.created, now) && match self.completion_time {
            Some(t) => valid_time(t),
            None => true,
        }
    }

    fn row(&self, now: i64) -> (r: Vec<String>) {
        let done = match self.succeeded { Some(n) => n, None => 0 };
        let wanted = match self.completions { Some(n) => n, None => 1 };
        let duration = match self.completion_time {
            Some(end) => match self.created {
                Some(start) => format_duration(end - start),
                None => owned("N/A"),
            },
            None => owned("N/A"),
        };
        let mut r: Vec<String> = Vec::new();
        r.push(self.name.clone());
        r.push(ratio(done, wanted));
        r.push(duration);
        r.push(get_age(self.created, now));
        r.push(text_or(&self.namespace, ""));
        proof {
            reveal_strlit("");
        }
        assert(strings_view(r@)[0] == self.cells(now)[0]);
        assert(strings_view(r@)[1] == self.cells(now)[1]);
        assert(strings_view(r@)[2] == self.cells(now)[2]);
        assert(strings_view(r@)[3] == self.cells(now)[3]);
        assert(strings_view(r@)[4] == self.cells(now)[4]);
        assert(strings_view(r@) =~= self.cells(now));
        r
    }
}

/// The header of the jobs table.
pub open spec fn jobs_header() -> Seq<Seq<char>> {
    seq!["NAME"@, "COMPLETIONS"@, "DURATION"@, "AGE"@, "NAMESPACE"@]
}

/// Formats a list of jobs as a table.
pub fn format_jobs_table(jobs: &Vec<JobRow>, now: i64) -> (r: String)
    requires
        all_rows_ok(jobs@, now),
    ensures
        r@ == rendered_table(jobs_header(), table_cells(jobs@, now)),
{
    let titles: [&str; 5] = ["NAME", "COMPLETIONS", "DURATION", "AGE", "NAMESPACE"];
    assert(titles@.map_values(|t: &str| t@) =~= jobs_header());
    build_table(&titles, jobs, now)
}

/// What the cron jobs table reads of a cron job.
#[derive(Debug, Clone)]
pub struct CronJobRow {
    pub name: String,
    pub namespace: Option<String>,
    pub created: Option<i64>,
    pub schedule: Option<String>,
    pub suspend: Option<bool>,
    /// The number of active jobs
    pub active: usize,
    /// Last schedule time, in seconds since the epoch
    pub last_schedule: Option<i64>,
}

impl TableRow for CronJobRow {
    open spec fn cells(&self, now: i64) -> Seq<Seq<char>> {
        seq![
            self.name@,
            or_empty(self.schedule),
            if self.suspend == Some(true) { "true"@ } else { "false"@ },
            decimal(self.active as nat),
            age_text(self.last_schedule, now),
            age_text(self.created, now),
            or_empty(self.namespace),
        ]
    }

    open spec fn row_ok(&self, now: i64) -> bool {
        age_ok(self.created, now) && age_ok(self.last_schedule, now)
    }

    fn row(&self, now: i64) -> (r: Vec<String>) {
        let suspended = match self.suspend { Some(b) => b, None => false };
        let mut r: Vec<String> = Vec::new();
        r.push(self.name.clone());
        r.push(text_or(&self.schedule, ""));
        r.push(bool_text(suspended));
        r.push(usize_text(self.active));
        r.push(get_age(self.last_schedule, now));
        r.push(get_age(self.created, now));
        r.push(text_or(&self.namespace, ""));
        proof {
            reveal_strlit("");
        }
        assert(strings_view(r@)[0] == self.cells(now)[0]);
        assert(strings_view(r@)[1] == self.cells(now)[1]);
        assert(strings_view(r@)[2] == self.cells(now)[2]);
        assert(strings_view(r@)[3] == self.cells(now)[3]);
        assert(strings_view(r@)[4] == self.cells(now)[4]);
        assert(strings_view(r@)[5] == self.cells(now)[5]);
        assert(strings_view(r@)[6] == self.cells(now)[6]);
        assert(strings_view(r@) =~= self.cells(now));
        r
    }
}

/// The header of the cron jobs table.
pub open spec fn cronjobs_header() -> Seq<Seq<char>> {
    seq!["NAME"@, "SCHEDULE"@, "SUSPEND"@, "ACTIVE"@, "LAST SCHEDULE"@, "AGE"@, "NAMESPACE"@]
}

/// Formats a list of cron jobs as a table.
pub fn format_cronjobs_table(cronjobs: &Vec<CronJobRow>, now: i64) -> (r: String)
    requires
        all_rows_ok(cronjobs@, now),
    ensures
        r@ == rendered_table(cronjobs_header(), table_cells(cronjobs@, now)),
{
    let titles: [&str; 7] = ["NAME", "SCHEDULE", "SUSPEND", "ACTIVE", "LAST SCHEDULE", "AGE", "NAMESPACE"];
    assert(titles@.map_values(|t: &str| t@) =~= cronjobs_header());
    build_table(&titles, cronjobs, now)
}

} // verus!

verus! {

// ---------------------------------------------------------------------------
// Nodes
// ---------------------------------------------------------------------------

/// One condition a node reports.
#[derive(Debug, Clone)]
pub struct NodeConditionRow {
    pub condition_type: String,
    pub status: String,
}

/// What the nodes table reads of a node.
#[derive(Debug, Clone)]
pub struct NodeRow {
    pub name: String,
    pub created: Option<i64>,
    pub conditions: Option<Vec<NodeConditionRow>>,
    /// The node's labels, in key order
    pub labels: Option<Vec<(String, String)>>,
    pub kubelet_version: Option<String>,
}

/// The first condition of type "Ready".
pub open spec fn first_ready(c: Seq<NodeConditionRow>) -> Option<NodeConditionRow>
    decreases c.len(),
{
    if c.len() == 0 {
        None
    } else if c[0].condition_type@ == "Ready"@ {
        Some(c[0])
    } else {
        first_ready(c.drop_first())
    }
}

/// "Ready" or "NotReady" by the first Ready condition, "Unknown" without one.
pub open spec fn node_status_text(conds: Option<Vec<NodeConditionRow>>) -> Seq<char> {
    match conds {
        Some(v) => match first_ready(v@) {
            Some(c) => if c.status@ == "True"@ {
                "Ready"@
            } else {
                "NotReady"@
            },
            None => "Unknown"@,
        },
        None => "Unknown"@,
    }
}

/// The label prefix that names a node role.
pub open spec fn role_prefix() -> Seq<char> {
    "node-role.kubernetes.io/"@
}

/// The roles one label names: the rest of a `node-role.kubernetes.io/` key,
/// and the value of a `kubernetes.io/role` key.
pub open spec fn label_roles(label: (String, String)) -> Seq<Seq<char>> {
    let by_prefix = if starts_with(label.0@, role_prefix()) {
        seq![trim_start_pattern(label.0@, role_prefix())]
    } else {
        Seq::empty()
    };
    let by_key = if label.0@ == "kubernetes.io/role"@ {
        seq![label.1@]
    } else {
        Seq::empty()
    };
    by_prefix + by_key
}

/// The roles named by the labels, in label order.
pub open spec fn node_roles(labels: Seq<(String, String)>) -> Seq<Seq<char>>
    decreases labels.len(),
{
    if labels.len() == 0 {
        Seq::empty()
    } else {
        node_roles(labels.drop_last()) + label_roles(labels.last())
    }
}

/// The roles separated by commas, "<none>" when there are none.
pub open spec fn node_roles_text(labels: Option<Vec<(String, String)>>) -> Seq<char> {
    match labels {
        Some(l) => if node_roles(l@).len() == 0 {
            "<none>"@
        } else {
            join(node_roles(l@), ","@)
        },
        None => "<none>"@,
    }
}

/// Node status by its Ready condition.
pub fn get_node_status(node: &NodeRow) -> (r: String)
    ensures
        r@ == node_status_text(node.conditions),
{
    match &node.conditions {
        Some(v) => {
            let mut i: usize = 0;
            assert(v@.skip(0) =~= v@);
            while i < v.len()
                invariant
                    i <= v@.len(),
                    node.conditions == Some(*v),
                    first_ready(v@) == first_ready(v@.skip(i as int)),
                decreases v@.len() - i,
            {
                let ghost rest = v@.skip(i as int);
                assert(rest[0] == v@[i as int]);
                assert(rest.drop_first() =~= v@.skip(i + 1));
                if str_eq(v[i].condition_type.as_str(), "Ready") {
                    if str_eq(v[i].status.as_str(), "True") {
                        return owned("Ready");
                    } else {
                        return owned("NotReady");
                    }
                }
                i = i + 1;
            }
            assert(v@.skip(v@.len() as int) =~= Seq::<NodeConditionRow>::empty());
            owned("Unknown")
        },
        None => owned("Unknown"),
    }
}

/// Node roles from its labels.
pub fn get_node_roles(node: &NodeRow) -> (r: String)
    ensures
        r@ == node_roles_text(node.labels),
{
    match &node.labels {
        Some(l) => {
            let prefix = chars_of("node-role.kubernetes.io/");
            proof {
                reveal_strlit("node-role.kubernetes.io/");
            }
            assert(prefix@.len() > 0);
            let mut roles: Vec<String> = Vec::new();
            let mut i: usize = 0;
            while i < l.len()
                invariant
                    i <= l@.len(),
                    prefix@ == role_prefix(),
                    prefix@.len() > 0,
                    strings_view(roles@) == node_roles(l@.take(i as int)),
                decreases l@.len() - i,
            {
                let ghost prev = roles@;
                let key = &l[i].0;
                let key_chars = chars_of(key.as_str());
                assert(key_chars@.subrange(0, key_chars@.len() as int) =~= key_chars@);
                if starts_with_at(&key_chars, &prefix, 0) {
                    let rest = trim_start_chars(&key_chars, &prefix);
                    roles.push(string_from_chars(rest.as_slice()));
                }
                let ghost mid = roles@;
                if str_eq(key.as_str(), "kubernetes.io/role") {
                    roles.push(l[i].1.clone());
                }
                proof {
                    let lab = l@[i as int];
                    assert(l@.take(i + 1).drop_last() =~= l@.take(i as int));
                    assert(l@.take(i + 1).last() == lab);
                    assert(strings_view(roles@) =~= strings_view(prev) + label_roles(lab));
                }
                i = i + 1;
            }
            assert(l@.take(l@.len() as int) =~= l@);
            if roles.len() == 0 {
                owned("<none>")
            } else {
                join_strings(&roles, ",")
            }
        },
        None => owned("<none>"),
    }
}

impl TableRow for NodeRow {
    open spec fn cells(&self, now: i64) -> Seq<Seq<char>> {
        seq![
            self.name@,
            node_status_text(self.conditions),
            node_roles_text(self.labels),
            age_text(self.created, now),
            or_empty(self.kubelet_version),
        ]
    }

    open spec fn row_ok(&self, now: i64) -> bool {
        age_ok(self.created, now)
    }

    fn row(&self, now: i64) -> (r: Vec<String>) {
        let mut r: Vec<String> = Vec::new();
        r.push(self.name.clone());
        r.push(get_node_status(self));
        r.push(get_node_roles(self));
        r.push(get_age(self.created, now));
        r.push(text_or(&self.kubelet_version, ""));
        proof {
            reveal_strlit("");
        }
        assert(strings_view(r@)[0] == self.cells(now)[0]);
        assert(strings_view(r@)[1] == self.cells(now)[1]);
        assert(strings_view(r@)[2] == self.cells(now)[2]);
        assert(strings_view(r@)[3] == self.cells(now)[3]);
        assert(strings_view(r@)[4] == self.cells(now)[4]);
        assert(strings_view(r@) =~= self.cells(now));
        r
    }
}

/// The header of the nodes table.
pub open spec fn nodes_header() -> Seq<Seq<char>> {
    seq!["NAME"@, "STATUS"@, "ROLES"@, "AGE"@, "VERSION"@]
}

/// Formats a list of nodes as a table.
pub fn format_nodes_table(nodes: &Vec<NodeRow>, now: i64) -> (r: String)
    requires
        all_rows_ok(nodes@, now),
    ensures
        r@ == rendered_table(nodes_header(), table_cells(nodes@, now)),
{
    let titles: [&str; 5] = ["NAME", "STATUS", "ROLES", "AGE", "VERSION"];
    assert(titles@.map_values(|t: &str| t@) =~= nodes_header());
    build_table(&titles, nodes, now)
}

} // verus!

verus! {

// ---------------------------------------------------------------------------
// Ingresses
// ---------------------------------------------------------------------------

/// One ingress point of a load balancer.
#[derive(Debug, Clone)]
pub struct IngressAddressRow {
    pub ip: Option<String>,
    pub hostname: Option<String>,
}

/// What the ingresses table reads of an ingress.
#[derive(Debug, Clone)]
pub struct IngressRow {
    pub name: String,
    pub namespace: Option<String>,
    pub created: Option<i64>,
    pub class_name: Option<String>,
    /// The host of each rule, when the ingress has rules
    pub rule_hosts: Option<Vec<Option<String>>>,
    /// The load balancer's ingress points, when it reports them
    pub addresses: Option<Vec<IngressAddressRow>>,
    /// The number of TLS entries, when the ingress has a TLS list
    pub tls_count: Option<usize>,
}

/// The address of an ingress point: its IP, else its host name.
pub open spec fn address_of(a: IngressAddressRow) -> Option<String> {
    match a.ip {
        Some(ip) => Some(ip),
        None => a.hostname,
    }
}

/// The hosts of the rules separated by commas, "*" without rules.
pub open spec fn hosts_text(hosts: Option<Vec<Option<String>>>) -> Seq<char> {
    match hosts {
        Some(v) => join(present_texts(v@), ","@),
        None => "*"@,
    }
}

/// The addresses separated by commas, "<none>" when none are reported.
pub open spec fn addresses_text(addresses: Option<Vec<IngressAddressRow>>) -> Seq<char> {
    match addresses {
        Some(v) => join(present_texts(v@.map_values(|a: IngressAddressRow| address_of(a))), ","@),
        None => "<none>"@,
    }
}

/// "80, 443" when the ingress has TLS entries, "80" otherwise.
pub open spec fn ingress_ports_text(tls_count: Option<usize>) -> Seq<char> {
    match tls_count {
        Some(n) => if n > 0 {
            "80, 443"@
        } else {
            "80"@
        },
        None => "80"@,
    }
}

fn ingress_addresses(addresses: &Option<Vec<IngressAddressRow>>) -> (r: String)
    ensures
        r@ == addresses_text(*addresses),
{
    match addresses {
        Some(v) => {
            let mut found: Vec<Option<String>> = Vec::new();
            let mut i: usize = 0;
            while i < v.len()
                invariant
                    i <= v@.len(),
                    found@ == v@.take(i as int).map_values(|a: IngressAddressRow| address_of(a)),
                decreases v@.len() - i,
            {
                let a = match &v[i].ip {
                    Some(ip) => Some(ip.clone()),
                    None => v[i].hostname.clone(),
                };
                found.push(a);
                assert(v@.take(i + 1).map_values(|a: IngressAddressRow| address_of(a)) =~= v@.take(
                    i as int,
                ).map_values(|a: IngressAddressRow| address_of(a)).push(address_of(v@[i as int])));
                i = i + 1;
            }
            assert(v@.take(v@.len() as int) =~= v@);
            let parts = present_all(&found);
            join_strings(&parts, ",")
        },
        None => owned("<none>"),
    }
}

impl TableRow for IngressRow {
    open spec fn cells(&self, now: i64) -> Seq<Seq<char>> {
        seq![
            self.name@,
            or_text(self.class_name, "<none>"@),
            hosts_text(self.rule_hosts),
            addresses_text(self.addresses),
            ingress_ports_text(self.tls_count),
            age_text(self.created, now),
            or_empty(self.namespace),
        ]
    }

    open spec fn row_ok(&self, now: i64) -> bool {
        age_ok(self.created, now)
    }

    fn row(&self, now: i64) -> (r: Vec<String>) {
        let hosts = match &self.rule_hosts {
            Some(v) => {
                let parts = present_all(v);
                join_strings(&parts, ",")
            },
            None => owned("*"),
        };
        let ports = match self.tls_count {
            Some(n) => if n > 0 {
                owned("80, 443")
            } else {
                owned("80")
            },
            None => owned("80"),
        };
        let mut r: Vec<String> = Vec::new();
        r.push(self.name.clone());
        r.push(text_or(&self.class_name, "<none>"));
        r.push(hosts);
        r.push(ingress_addresses(&self.addresses));
        r.push(ports);
        r.push(get_age(self.created, now));
        r.push(text_or(&self.namespace, ""));
        proof {
            reveal_strlit("");
        }
        assert(strings_view(r@)[0] == self.cells(now)[0]);
        assert(strings_view(r@)[1] == self.cells(now)[1]);
        assert(strings_view(r@)[2] == self.cells(now)[2]);
        assert(strings_view(r@)[3] == self.cells(now)[3]);
        assert(strings_view(r@)[4] == self.cells(now)[4]);
        assert(strings_view(r@)[5] == self.cells(now)[5]);
        assert(strings_view(r@)[6] == self.cells(now)[6]);
        assert(strings_view(r@) =~= self.cells(now));
        r
    }
}

/// The header of the ingresses table.
pub open spec fn ingresses_header() -> Seq<Seq<char>> {
    seq!["NAME"@, "CLASS"@, "HOSTS"@, "ADDRESS"@, "PORTS"@, "AGE"@, "NAMESPACE"@]
}

/// Formats a list of ingresses as a table.
pub fn format_ingresses_table(ingresses: &Vec<IngressRow>, now: i64) -> (r: String)
    requires
        all_rows_ok(ingresses@, now),
    ensures
        r@ == rendered_table(ingresses_header(), table_cells(ingresses@, now)),
{
    let titles: [&str; 7] = ["NAME", "CLASS", "HOSTS", "ADDRESS", "PORTS", "AGE", "NAMESPACE"];
    assert(titles@.map_values(|t: &str| t@) =~= ingresses_header());
    build_table(&titles, ingresses, now)
}

// ---------------------------------------------------------------------------
// Persistent volumes and claims
// ---------------------------------------------------------------------------

/// The access modes column: the first character of each mode's debug text,
/// which for a string is always its opening quote.
pub open spec fn access_modes_text(modes: Seq<String>) -> Seq<char> {
    Seq::new(modes.len(), |i: int| '"')
}

fn access_modes(modes: &Vec<String>) -> (r: String)
    ensures
        r@ == access_modes_text(modes@),
{
    let mut v: Vec<char> = Vec::new();
    let mut i: usize = 0;
    while i < modes.len()
        invariant
            i <= modes@.len(),
            v@ == Seq::new(i as nat, |j: int| '"'),
        decreases modes@.len() - i,
    {
        v.push('"');
        i = i + 1;
        assert(v@ =~= Seq::new(i as nat, |j: int| '"'));
    }
    string_from_chars(v.as_slice())
}

/// What the persistent volume claims table reads of a claim.
#[derive(Debug, Clone)]
pub struct PvcRow {
    pub name: String,
    pub namespace: Option<String>,
    pub created: Option<i64>,
    /// The phase, when the claim reports a status
    pub status_phase: Option<Option<String>>,
    pub volume_name: Option<String>,
    /// The storage capacity, when reported
    pub capacity: Option<String>,
    pub access_modes: Vec<String>,
    pub storage_class: Option<String>,
}

/// The status column of a claim or volume: the debug text of its phase,
/// "Unknown" without a status.
pub open spec fn phase_text(status_phase: Option<Option<String>>) -> Seq<char> {
    match status_phase {
        Some(p) => debug_text(p),
        None => "Unknown"@,
    }
}

impl TableRow for PvcRow {
    open spec fn cells(&self, now: i64) -> Seq<Seq<char>> {
        seq![
            self.name@,
            phase_text(self.status_phase),
            or_text(self.volume_name, "<none>"@),
            or_text(self.capacity, "<none>"@),
            access_modes_text(self.access_modes@),
            or_text(self.storage_class, "<none>"@),
            age_text(self.created, now),
            or_empty(self.namespace),
        ]
    }

    open spec fn row_ok(&self, now: i64) -> bool {
        age_ok(self.created, now)
    }

    fn row(&self, now: i64) -> (r: Vec<String>) {
        let mut r: Vec<String> = Vec::new();
        r.push(self.name.clone());
        r.push(debug_or(&self.status_phase));
        r.push(text_or(&self.volume_name, "<none>"));
        r.push(text_or(&self.capacity, "<none>"));
        r.push(access_modes(&self.access_modes));
        r.push(text_or(&self.storage_class, "<none>"));
        r.push(get_age(self.created, now));
        r.push(text_or(&self.namespace, ""));
        proof {
            reveal_strlit("");
        }
        assert(strings_view(r@)[0] == self.cells(now)[0]);
        assert(strings_view(r@)[1] == self.cells(now)[1]);
        assert(strings_view(r@)[2] == self.cells(now)[2]);
        assert(strings_view(r@)[3] == self.cells(now)[3]);
        assert(strings_view(r@)[4] == self.cells(now)[4]);
        assert(strings_view(r@)[5] == self.cells(now)[5]);
        assert(strings_view(r@)[6] == self.cells(now)[6]);
        assert(strings_view(r@)[7] == self.cells(now)[7]);
        assert(strings_view(r@) =~= self.cells(now));
        r
    }
}

/// The header of the persistent volume claims table.
pub open spec fn pvcs_header() -> Seq<Seq<char>> {
    seq!["NAME"@, "STATUS"@, "VOLUME"@, "CAPACITY"@, "ACCESS MODES"@, "STORAGECLASS"@, "AGE"@, "NAMESPACE"@]
}

/// Formats a list of persistent volume claims as a table.
pub fn format_pvcs_table(pvcs: &Vec<PvcRow>, now: i64) -> (r: String)
    requires
        all_rows_ok(pvcs@, now),
    ensures
        r@ == rendered_table(pvcs_header(), table_cells(pvcs@, now)),
{
    let titles: [&str; 8] = ["NAME", "STATUS", "VOLUME", "CAPACITY", "ACCESS MODES", "STORAGECLASS", "AGE", "NAMESPACE"];
    assert(titles@.map_values(|t: &str| t@) =~= pvcs_header());
    build_table(&titles, pvcs, now)
}

/// The claim a volume is bound to.
#[derive(Debug, Clone)]
pub struct ClaimRow {
    pub namespace: Option<String>,
    pub name: Option<String>,
}

/// What the persistent volumes table reads of a volume.
#[derive(Debug, Clone)]
pub struct PvRow {
    pub name: String,
    pub created: Option<i64>,
    pub capacity: Option<String>,
    pub access_modes: Vec<String>,
    /// The reclaim policy, when the volume has a spec
    pub reclaim_policy: Option<Option<String>>,
    /// The phase, when the volume reports a status
    pub status_phase: Option<Option<String>>,
    pub claim: Option<ClaimRow>,
    pub storage_class: Option<String>,
}

/// "namespace/name" of the bound claim, "<none>" when unbound.
pub open spec fn claim_text(claim: Option<ClaimRow>) -> Seq<char> {
    match claim {
        Some(c) => or_empty(c.namespace) + "/"@ + or_empty(c.name),
        None => "<none>"@,
    }
}

impl TableRow for PvRow {
    open spec fn cells(&self, now: i64) -> Seq<Seq<char>> {
        seq![
            self.name@,
            or_text(self.capacity, "<none>"@),
            access_modes_text(self.access_modes@),
            phase_text(self.reclaim_policy),
            phase_text(self.status_phase),
            claim_text(self.claim),
            or_text(self.storage_class, "<none>"@),
            age_text(self.created, now),
        ]
    }

    open spec fn row_ok(&self, now: i64) -> bool {
        age_ok(self.created, now)
    }

    fn row(&self, now: i64) -> (r: Vec<String>) {
        let claim = match &self.claim {
            Some(c) => {
                let left = concat2(text_or(&c.namespace, "").as_str(), "/");
                concat2(left.as_str(), text_or(&c.name, "").as_str())
            },
            None => owned("<none>"),
        };
        let mut r: Vec<String> = Vec::new();
        r.push(self.name.clone());
        r.push(text_or(&self.capacity, "<none>"));
        r.push(access_modes(&self.access_modes));
        r.push(debug_or(&self.reclaim_policy));
        r.push(debug_or(&self.status_phase));
        r.push(claim);
        r.push(text_or(&self.storage_class, "<none>"));
        r.push(get_age(self.created, now));
        proof {
            reveal_strlit("");
        }
        assert(strings_view(r@)[0] == self.cells(now)[0]);
        assert(strings_view(r@)[1] == self.cells(now)[1]);
        assert(strings_view(r@)[2] == self.cells(now)[2]);
        assert(strings_view(r@)[3] == self.cells(now)[3]);
        assert(strings_view(r@)[4] == self.cells(now)[4]);
        assert(strings_view(r@)[5] == self.cells(now)[5]);
        assert(strings_view(r@)[6] == self.cells(now)[6]);
        assert(strings_view(r@)[7] == self.cells(now)[7]);
        assert(strings_view(r@) =~= self.cells(now));
        r
    }
}

/// The header of the persistent volumes table.
pub open spec fn pvs_header() -> Seq<Seq<char>> {
    seq!["NAME"@, "CAPACITY"@, "ACCESS MODES"@, "RECLAIM POLICY"@, "STATUS"@, "CLAIM"@, "STORAGECLASS"@, "AGE"@]
}

/// Formats a list of persistent volumes as a table.
pub fn format_pvs_table(pvs: &Vec<PvRow>, now: i64) -> (r: String)
    requires
        all_rows_ok(pvs@, now),
    ensures
        r@ == rendered_table(pvs_header(), table_cells(pvs@, now)),
{
    let titles: [&str; 8] = ["NAME", "CAPACITY", "ACCESS MODES", "RECLAIM POLICY", "STATUS", "CLAIM", "STORAGECLASS", "AGE"];
    assert(titles@.map_values(|t: &str| t@) =~= pvs_header());
    build_table(&titles, pvs, now)
}

} // verus!

verus! {

// ---------------------------------------------------------------------------
// Events
// ---------------------------------------------------------------------------

/// What the events table reads of an event.
#[derive(Debug, Clone)]
pub struct EventRow {
    /// Last time the event was seen, in seconds since the epoch
    pub last_seen: Option<i64>,
    pub event_type: Option<String>,
    pub reason: Option<String>,
    pub object_kind: Option<String>,
    pub object_name: Option<String>,
    pub message: Option<String>,
}

/// The number of leading characters of `m` that take up exactly `n` bytes.
pub open spec fn prefix_for_bytes(m: Seq<char>, n: nat) -> int {
    choose|k: int| 0 <= k <= m.len() && utf8_len(m.take(k)) == n
}

/// Whether the first 57 bytes of `m` end on a character boundary, so that a
/// long message can be cut there.
pub open spec fn message_cuttable(m: Seq<char>) -> bool {
    utf8_len(m) <= 60 || exists|k: int| 0 <= k <= m.len() && utf8_len(m.take(k)) == 57
}

/// A message longer than 60 bytes cut to its first 57 bytes and "...".
pub open spec fn message_text(m: Seq<char>) -> Seq<char> {
    if utf8_len(m) > 60 {
        m.take(prefix_for_bytes(m, 57)) + "..."@
    } else {
        m
    }
}

/// The bytes of a prefix grow by the width of the next character.
pub proof fn lemma_utf8_len_take_step(m: Seq<char>, k: int)
    requires
        0 <= k < m.len(),
    ensures
        utf8_len(m.take(k + 1)) == utf8_len(m.take(k)) + utf8_width(m[k]),
{
    assert(m.take(k + 1).drop_last() =~= m.take(k));
}

/// A longer prefix takes up strictly more bytes.
pub proof fn lemma_utf8_len_take_strict(m: Seq<char>, a: int, b: int)
    requires
        0 <= a < b <= m.len(),
    ensures
        utf8_len(m.take(a)) < utf8_len(m.take(b)),
    decreases b - a,
{
    lemma_utf8_len_take_step(m, b - 1);
    if a < b - 1 {
        lemma_utf8_len_take_strict(m, a, b - 1);
    }
}

fn event_message(message: &Option<String>) -> (r: String)
    requires
        message_cuttable(or_empty(*message)),
    ensures
        r@ == message_text(or_empty(*message)),
{
    proof {
        reveal_strlit("");
    }
    let m = text_or(message, "");
    let v = chars_of(m.as_str());
    let ghost s = v@;
    assert(s.take(0) =~= Seq::<char>::empty());
    let mut bytes: usize = 0;
    let mut i: usize = 0;
    while i < v.len() && bytes <= 60
        invariant
            s == v@,
            i <= s.len(),
            bytes == utf8_len(s.take(i as int)),
            bytes <= 64,
        decreases s.len() - i,
    {
        proof {
            lemma_utf8_len_take_step(s, i as int);
        }
        bytes = bytes + char_utf8_width(v[i]);
        i = i + 1;
    }
    if bytes <= 60 {
        assert(i == s.len());
        assert(s.take(s.len() as int) =~= s);
        return m;
    }
    proof {
        assert(s.take(s.len() as int) =~= s);
        if i < s.len() {
            lemma_utf8_len_take_strict(s, i as int, s.len() as int);
        }
        assert(utf8_len(s) > 60);
    }
    let mut cut: usize = 0;
    let mut j: usize = 0;
    while cut < 57
        invariant
            s == v@,
            utf8_len(s) > 60,
            j <= s.len(),
            cut == utf8_len(s.take(j as int)),
            cut <= 60,
            j > 0 ==> utf8_len(s.take(j - 1)) < 57,
        decreases s.len() - j,
    {
        proof {
            if j == s.len() {
                assert(s.take(j as int) =~= s);
            }
            lemma_utf8_len_take_step(s, j as int);
        }
        cut = cut + char_utf8_width(v[j]);
        j = j + 1;
    }
    proof {
        assert(s == or_empty(*message));
        assert(exists|k: int| 0 <= k <= s.len() && utf8_len(s.take(k)) == 57);
        let k = choose|k: int| 0 <= k <= s.len() && utf8_len(s.take(k)) == 57;
        if k < j {
            if k < j - 1 {
                lemma_utf8_len_take_strict(s, k, j - 1);
            }
        } else if k > j {
            lemma_utf8_len_take_strict(s, j as int, k);
        }
        assert(k == j);
        assert(prefix_for_bytes(s, 57) == j);
    }
    let head = crate::text::slice_vec(&v, 0, j);
    assert(head@ =~= s.take(j as int));
    let head_text = string_from_chars(head.as_slice());
    concat2(head_text.as_str(), "...")
}

/// "kind/name" of the object an event is about.
pub open spec fn event_object_text(kind: Option<String>, name: Option<String>) -> Seq<char> {
    or_empty(kind) + "/"@ + or_empty(name)
}

impl TableRow for EventRow {
    open spec fn cells(&self, now: i64) -> Seq<Seq<char>> {
        seq![
            age_text(self.last_seen, now),
            or_empty(self.event_type),
            or_empty(self.reason),
            event_object_text(self.object_kind, self.object_name),
            message_text(or_empty(self.message)),
        ]
    }

    open spec fn row_ok(&self, now: i64) -> bool {
        age_ok(self.last_seen, now) && message_cuttable(or_empty(self.message))
    }

    fn row(&self, now: i64) -> (r: Vec<String>) {
        let left = concat2(text_or(&self.object_kind, "").as_str(), "/");
        let object = concat2(left.as_str(), text_or(&self.object_name, "").as_str());
        let mut r: Vec<String> = Vec::new();
        r.push(get_age(self.last_seen, now));
        r.push(text_or(&self.event_type, ""));
        r.push(text_or(&self.reason, ""));
        r.push(object);
        r.push(event_message(&self.message));
        proof {
            reveal_strlit("");
        }
        assert(strings_view(r@)[0] == self.cells(now)[0]);
        assert(strings_view(r@)[1] == self.cells(now)[1]);
        assert(strings_view(r@)[2] == self.cells(now)[2]);
        assert(strings_view(r@)[3] == self.cells(now)[3]);
        assert(strings_view(r@)[4] == self.cells(now)[4]);
        assert(strings_view(r@) =~= self.cells(now));
        r
    }
}

/// The header of the events table.
pub open spec fn events_header() -> Seq<Seq<char>> {
    seq!["LAST SEEN"@, "TYPE"@, "REASON"@, "OBJECT"@, "MESSAGE"@]
}

/// Formats a list of events as a table.
pub fn format_events_table(events: &Vec<EventRow>, now: i64) -> (r: String)
    requires
        all_rows_ok(events@, now),
    ensures
        r@ == rendered_table(events_header(), table_cells(events@, now)),
{
    let titles: [&str; 5] = ["LAST SEEN", "TYPE", "REASON", "OBJECT", "MESSAGE"];
    assert(titles@.map_values(|t: &str| t@) =~= events_header());
    build_table(&titles, events, now)
}

// ---------------------------------------------------------------------------
// Laws of the columns
// ---------------------------------------------------------------------------

proof fn lemma_first_ready_at(c: Seq<NodeConditionRow>, i: int)
    requires
        0 <= i < c.len(),
        c[i].condition_type@ == "Ready"@,
        forall|j: int| 0 <= j < i ==> (#[trigger] c[j]).condition_type@ != "Ready"@,
    ensures
        first_ready(c) == Some(c[i]),
    decreases i,
{
    if i > 0 {
        assert forall|j: int| 0 <= j < i - 1 implies (#[trigger] c.drop_first()[j]).condition_type@ != "Ready"@ by {
            assert(c.drop_first()[j] == c[j + 1]);
        }
        lemma_first_ready_at(c.drop_first(), i - 1);
    }
}

proof fn lemma_first_ready_none(c: Seq<NodeConditionRow>)
    requires
        forall|j: int| 0 <= j < c.len() ==> (#[trigger] c[j]).condition_type@ != "Ready"@,
    ensures
        first_ready(c) is None,
    decreases c.len(),
{
    if c.len() > 0 {
        assert forall|j: int| 0 <= j < c.len() - 1 implies (#[trigger] c.drop_first()[j]).condition_type@ != "Ready"@ by {
            assert(c.drop_first()[j] == c[j + 1]);
        }
        lemma_first_ready_none(c.drop_first());
    }
}

/// A node's status is read from its first condition of type "Ready": "Ready"
/// when that condition's status is "True", "NotReady" otherwise, whatever
/// the conditions before and after it say; a node without such a condition
/// or without conditions is "Unknown".
pub proof fn law_node_status_reads_ready_condition(conds: Vec<NodeConditionRow>, i: int)
    ensures
        (0 <= i < conds@.len() && conds@[i].condition_type@ == "Ready"@ && forall|j: int|
            0 <= j < i ==> (#[trigger] conds@[j]).condition_type@ != "Ready"@) ==> node_status_text(Some(conds))
            == if conds@[i].status@ == "True"@ {
            "Ready"@
        } else {
            "NotReady"@
        },
        (forall|j: int| 0 <= j < conds@.len() ==> (#[trigger] conds@[j]).condition_type@ != "Ready"@)
            ==> node_status_text(Some(conds)) == "Unknown"@,
        node_status_text(None) == "Unknown"@,
{
    if 0 <= i < conds@.len() && conds@[i].condition_type@ == "Ready"@ && forall|j: int|
        0 <= j < i ==> (#[trigger] conds@[j]).condition_type@ != "Ready"@ {
        lemma_first_ready_at(conds@, i);
    }
    if forall|j: int| 0 <= j < conds@.len() ==> (#[trigger] conds@[j]).condition_type@ != "Ready"@ {
        lemma_first_ready_none(conds@);
    }
}

/// A non-negative duration is shown in its largest unit that fits: seconds
/// below a minute, whole minutes below an hour, whole hours below a day,
/// whole days up to 365 days, and whole 365-day years past that; a negative
/// duration shows its seconds part, negated.
pub proof fn law_duration_units(t: int)
    ensures
        0 <= t < 60 ==> duration_text(t) == decimal(t as nat) + "s"@,
        60 <= t < 3600 ==> duration_text(t) == decimal((t / 60) as nat) + "m"@,
        3600 <= t < 86400 ==> duration_text(t) == decimal((t / 3600) as nat) + "h"@,
        86400 <= t && t / 86400 <= 365 ==> duration_text(t) == decimal((t / 86400) as nat) + "d"@,
        t / 86400 > 365 ==> duration_text(t) == decimal((t / 86400 / 365) as nat) + "y"@,
        t < 0 && (-t) % 60 == 0 ==> duration_text(t) == "0s"@,
        t < 0 && (-t) % 60 != 0 ==> duration_text(t) == "-"@ + decimal(((-t) % 60) as nat) + "s"@,
{
    reveal_strlit("s");
    reveal_strlit("m");
    reveal_strlit("h");
    reveal_strlit("d");
    reveal_strlit("y");
    reveal_strlit("0s");
    reveal_strlit("-");
    if t >= 0 {
        assert(trunc_rem(t, 86400) == t % 86400);
        assert(trunc_rem(t, 3600) == t % 3600);
        assert(trunc_rem(t, 60) == t % 60);
        if 3600 <= t < 86400 {
            assert(t % 86400 == t);
        }
        if 60 <= t < 3600 {
            assert(t % 3600 == t);
            assert(t / 86400 == 0);
            assert(t % 86400 == t);
            assert(t / 3600 == 0);
        }
        if 0 <= t < 60 {
            assert(t % 60 == t);
            assert(t % 3600 == t);
            assert(t % 86400 == t);
        }
    } else {
        let m = -t;
        assert(trunc_div(t, 60) == -(m / 60));
        assert(trunc_rem(t, 60) == -(m % 60));
        assert(trunc_div(t, 86400) <= 0);
        assert(trunc_rem(t, 86400) <= 0);
        assert(trunc_div(trunc_rem(t, 86400), 3600) <= 0);
        assert(trunc_rem(t, 3600) <= 0);
        assert(trunc_div(trunc_rem(t, 3600), 60) <= 0);
        if m % 60 == 0 {
            assert(decimal(0) =~= seq!['0']);
            assert(decimal(0) + "s"@ =~= "0s"@);
        }
    }
}

/// The READY column of a deployment is its ready replicas over its desired
/// replicas, each 0 when not reported; UP-TO-DATE and AVAILABLE show the
/// updated and available replicas. The ready count is read from
/// `ready_replicas` alone.
pub proof fn law_deployment_columns(d: DeploymentRow, now: i64)
    ensures
        d.cells(now)[1] == signed_decimal(
            match d.ready_replicas {
                Some(n) => n as int,
                None => 0,
            },
        ) + "/"@ + signed_decimal(
            match d.replicas {
                Some(n) => n as int,
                None => 0,
            },
        ),
        d.cells(now)[2] == signed_decimal(
            match d.updated_replicas {
                Some(n) => n as int,
                None => 0,
            },
        ),
        d.cells(now)[3] == signed_decimal(
            match d.available_replicas {
                Some(n) => n as int,
                None => 0,
            },
        ),
{
}

} // verus!
