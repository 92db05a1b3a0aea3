//! The API discovery tools: listing resources and API versions.

use crate::format::table::{bool_text, header_of, render_table, rendered_table, rows_view};
use crate::format::OutputFormat;
use crate::k8s::discovery::{info_refs_view, ApiResourceInfo, InfoView};
use crate::text::{concat2, insert_sorted, join, join_strings, str_eq, strictly_sorted, strings_view};
use vstd::prelude::*;

verus! {

/// The output format named exactly "json" or "yaml", the table otherwise.
pub open spec fn exact_format(name: Seq<char>) -> OutputFormat {
    if name == "json"@ {
        OutputFormat::Json
    } else if name == "yaml"@ {
        OutputFormat::Yaml
    } else {
        OutputFormat::Table
    }
}

/// The output format the API resources tool uses for its `output` argument,
/// compared exactly; the table without one.
pub fn listing_format(output: Option<&str>) -> (r: OutputFormat)
    ensures
        r == match output {
            Some(o) => exact_format(o@),
            None => OutputFormat::Table,
        },
{
    match output {
        Some(o) => if str_eq(o, "json") {
            OutputFormat::Json
        } else if str_eq(o, "yaml") {
            OutputFormat::Yaml
        } else {
            OutputFormat::Table
        },
        None => OutputFormat::Table,
    }
}

/// The resources in an API group, in order; all of them without a group.
pub fn filter_by_group<'a>(resources: &Vec<&'a ApiResourceInfo>, group: Option<&str>) -> (r: Vec<&'a ApiResourceInfo>)
    ensures
        info_refs_view(r@) == match group {
            Some(g) => info_refs_view(resources@).filter(|i: InfoView| i.group == g@),
            None => info_refs_view(resources@),
        },
{
    match group {
        None => {
            let mut r: Vec<&ApiResourceInfo> = Vec::new();
            let mut i: usize = 0;
            while i < resources.len()
                invariant
                    i <= resources@.len(),
                    info_refs_view(r@) == info_refs_view(resources@).subrange(0, i as int),
                decreases resources@.len() - i,
            {
                let x = resources[i];
                let ghost prev = r@;
                r.push(x);
                assert(r@ == prev.push(x));
                assert(info_refs_view(r@) =~= info_refs_view(prev).push(x.info()));
                i = i + 1;
                assert(info_refs_view(resources@).subrange(0, i as int) =~= info_refs_view(resources@).subrange(
                    0,
                    i - 1,
                ).push(x.info()));
            }
            assert(info_refs_view(resources@).subrange(0, resources@.len() as int) =~= info_refs_view(resources@));
            r
        },
        Some(g) => {
            let ghost pred = |i: InfoView| i.group == g@;
            let mut r: Vec<&ApiResourceInfo> = Vec::new();
            let mut i: usize = 0;
            while i < resources.len()
                invariant
                    i <= resources@.len(),
                    pred == (|i: InfoView| i.group == g@),
                    info_refs_view(r@) == info_refs_view(resources@).subrange(0, i as int).filter(pred),
                decreases resources@.len() - i,
            {
                let x = resources[i];
                proof {
                    let s = info_refs_view(resources@).subrange(0, i as int + 1);
                    assert(s.drop_last() =~= info_refs_view(resources@).subrange(0, i as int));
                    reveal_with_fuel(Seq::filter, 1);
                }
                if str_eq(x.group.as_str(), g) {
                    r.push(x);
                }
                i = i + 1;
                assert(info_refs_view(r@) =~= info_refs_view(resources@).subrange(0, i as int).filter(pred));
            }
            assert(info_refs_view(resources@).subrange(0, resources@.len() as int) =~= info_refs_view(resources@));
            r
        },
    }
}

/// The cells of one resource in the API resources table.
pub open spec fn resource_cells(i: InfoView) -> Seq<Seq<char>> {
    seq![
        i.name,
        join(i.short_names, ","@),
        i.group,
        if i.namespaced { "true"@ } else { "false"@ },
        i.kind,
        join(i.verbs, ","@),
    ]
}

/// The header of the API resources table.
pub open spec fn resources_header() -> Seq<Seq<char>> {
    seq!["NAME"@, "SHORTNAMES"@, "APIGROUP"@, "NAMESPACED"@, "KIND"@, "VERBS"@]
}

/// The API resources as a table: name, short names, group, scope, kind and
/// verbs of each.
pub fn api_resources_table(resources: &Vec<&ApiResourceInfo>) -> (r: String)
    ensures
        r@ == rendered_table(resources_header(), info_refs_view(resources@).map_values(|i: InfoView| resource_cells(i))),
{
    let titles: [&str; 6] = ["NAME", "SHORTNAMES", "APIGROUP", "NAMESPACED", "KIND", "VERBS"];
    let header = header_of(&titles);
    assert(strings_view(header@) =~= resources_header());
    let mut rows: Vec<Vec<String>> = Vec::new();
    let mut i: usize = 0;
    while i < resources.len()
        invariant
            i <= resources@.len(),
            rows_view(rows@) == info_refs_view(resources@).subrange(0, i as int).map_values(
                |i: InfoView| resource_cells(i),
            ),
        decreases resources@.len() - i,
    {
        let x = resources[i];
        let mut row: Vec<String> = Vec::new();
        row.push(x.name.clone());
        row.push(join_strings(&x.short_names, ","));
        row.push(x.group.clone());
        row.push(bool_text(x.namespaced));
        row.push(x.kind.clone());
        row.push(join_strings(&x.verbs, ","));
        assert(strings_view(row@) =~= resource_cells(x.info()));
        let ghost prev = rows@;
        rows.push(row);
        assert(rows_view(rows@) =~= rows_view(prev).push(resource_cells(x.info())));
        i = i + 1;
        assert(info_refs_view(resources@).subrange(0, i as int).map_values(|i: InfoView| resource_cells(i))
            =~= info_refs_view(resources@).subrange(0, i - 1).map_values(|i: InfoView| resource_cells(i)).push(
            resource_cells(x.info()),
        ));
    }
    assert(info_refs_view(resources@).subrange(0, resources@.len() as int) =~= info_refs_view(resources@));
    render_table(&header, &rows)
}

/// The group/version a resource is served under: its version alone in the
/// core group, "group/version" otherwise.
pub open spec fn group_version(i: InfoView) -> Seq<char> {
    if i.group.len() == 0 {
        i.api_version
    } else {
        i.group + "/"@ + i.api_version
    }
}

/// The distinct group/versions of the resources, in increasing order.
pub fn api_versions(resources: &Vec<&ApiResourceInfo>) -> (r: Vec<String>)
    ensures
        strictly_sorted(strings_view(r@)),
        strings_view(r@).to_set() == info_refs_view(resources@).map_values(|i: InfoView| group_version(i)).to_set(),
{
    let mut r: Vec<String> = Vec::new();
    let mut i: usize = 0;
    assert(info_refs_view(resources@).subrange(0, 0).map_values(|i: InfoView| group_version(i)).to_set() =~= Set::<
        Seq<char>,
    >::empty());
    assert(strings_view(r@).to_set() =~= Set::<Seq<char>>::empty());
    while i < resources.len()
        invariant
            i <= resources@.len(),
            strictly_sorted(strings_view(r@)),
            strings_view(r@).to_set() == info_refs_view(resources@).subrange(0, i as int).map_values(
                |i: InfoView| group_version(i),
            ).to_set(),
        decreases resources@.len() - i,
    {
        let x = resources[i];
        let gv = if x.group.as_str().is_empty() {
            x.api_version.clone()
        } else {
            let head = concat2(x.group.as_str(), "/");
            concat2(head.as_str(), x.api_version.as_str())
        };
        assert(gv@ == group_version(x.info()));
        let ghost before = info_refs_view(resources@).subrange(0, i as int).map_values(|i: InfoView| group_version(i));
        insert_sorted(&mut r, gv);
        i = i + 1;
        let ghost after = info_refs_view(resources@).subrange(0, i as int).map_values(|i: InfoView| group_version(i));
        assert(after =~= before.push(group_version(x.info())));
        proof {
            let g = group_version(x.info());
            assert forall|y: Seq<char>| after.to_set().contains(y) implies before.to_set().insert(g).contains(y) by {
                let k = choose|k: int| 0 <= k < after.len() && after[k] == y;
                if k < before.len() {
                    assert(before[k] == y);
                }
            }
            assert forall|y: Seq<char>| before.to_set().insert(g).contains(y) implies after.to_set().contains(y) by {
                if y == g {
                    assert(after[before.len() as int] == y);
                } else {
                    let k = choose|k: int| 0 <= k < before.len() && before[k] == y;
                    assert(after[k] == y);
                }
            }
            assert(after.to_set() =~= before.to_set().insert(g));
        }
    }
    assert(info_refs_view(resources@).subrange(0, resources@.len() as int) =~= info_refs_view(resources@));
    r
}

/// The group/versions as a one-column table.
pub fn api_versions_table(versions: &Vec<String>) -> (r: String)
    ensures
        r@ == rendered_table(seq!["GROUP/VERSION"@], strings_view(versions@).map_values(|v: Seq<char>| seq![v])),
{
    let titles: [&str; 1] = ["GROUP/VERSION"];
    let header = header_of(&titles);
    assert(strings_view(header@) =~= seq!["GROUP/VERSION"@]);
    let mut rows: Vec<Vec<String>> = Vec::new();
    let mut i: usize = 0;
    while i < versions.len()
        invariant
            i <= versions@.len(),
            rows_view(rows@) == strings_view(versions@.subrange(0, i as int)).map_values(|v: Seq<char>| seq![v]),
        decreases versions@.len() - i,
    {
        let mut row: Vec<String> = Vec::new();
        row.push(versions[i].clone());
        let ghost prev = rows@;
        let ghost cell = versions@[i as int]@;
        assert(strings_view(row@) =~= seq![cell]);
        rows.push(row);
        assert(rows_view(rows@) =~= rows_view(prev).push(seq![cell]));
        i = i + 1;
        assert(strings_view(versions@.subrange(0, i as int)).map_values(|v: Seq<char>| seq![v]) =~= strings_view(
            versions@.subrange(0, i - 1),
        ).map_values(|v: Seq<char>| seq![v]).push(seq![cell]));
    }
    assert(versions@.subrange(0, versions@.len() as int) =~= versions@);
    render_table(&header, &rows)
}

} // verus!
