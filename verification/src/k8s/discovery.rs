//! Kubernetes API discovery cache.

use crate::k8s::metrics::{trim_end_chars, trim_end_pattern};
use crate::k8s::resources::GroupVersionKind;
use crate::text::{strings_view, chars_of, lower_key, owned, str_eq, string_from_chars, to_lowercase};
use vstd::prelude::*;

pub mod shortcuts;

verus! {

/// Discovered API resource information: name, kind, API version and
/// capabilities of a Kubernetes API resource.
#[derive(Debug, Clone)]
pub struct ApiResourceInfo {
    /// Resource name (e.g., "pods")
    pub name: String,
    /// Singular name (e.g., "pod")
    pub singular: String,
    /// Resource kind (e.g., "Pod")
    pub kind: String,
    /// API version (e.g., "v1")
    pub api_version: String,
    /// API group (e.g., "", "apps", "batch")
    pub group: String,
    /// Whether the resource is namespaced
    pub namespaced: bool,
    /// Short names (e.g., ["po", "pod"])
    pub short_names: Vec<String>,
    /// Verbs available (e.g., ["get", "list", "create"])
    pub verbs: Vec<String>,
    /// Categories (e.g., ["all"])
    pub categories: Vec<String>,
}

/// The plain content of an `ApiResourceInfo`.
pub struct InfoView {
    pub name: Seq<char>,
    pub singular: Seq<char>,
    pub kind: Seq<char>,
    pub api_version: Seq<char>,
    pub group: Seq<char>,
    pub namespaced: bool,
    pub short_names: Seq<Seq<char>>,
    pub verbs: Seq<Seq<char>>,
    pub categories: Seq<Seq<char>>,
}

impl ApiResourceInfo {
    /// The plain content of this record.
    pub open spec fn info(&self) -> InfoView {
        InfoView {
            name: self.name@,
            singular: self.singular@,
            kind: self.kind@,
            api_version: self.api_version@,
            group: self.group@,
            namespaced: self.namespaced,
            short_names: strings_view(self.short_names@),
            verbs: strings_view(self.verbs@),
            categories: strings_view(self.categories@),
        }
    }

    /// A copy of this record with the same content.
    pub fn duplicate(&self) -> (r: ApiResourceInfo)
        ensures
            r.info() == self.info(),
    {
        ApiResourceInfo {
            name: self.name.clone(),
            singular: self.singular.clone(),
            kind: self.kind.clone(),
            api_version: self.api_version.clone(),
            group: self.group.clone(),
            namespaced: self.namespaced,
            short_names: clone_strings(&self.short_names),
            verbs: clone_strings(&self.verbs),
            categories: clone_strings(&self.categories),
        }
    }
}

/// A copy of a list of strings.
pub fn clone_strings(v: &Vec<String>) -> (r: Vec<String>)
    ensures
        r@ == v@,
{
    let mut r: Vec<String> = Vec::new();
    let mut i: usize = 0;
    while i < v.len()
        invariant
            i <= v.len(),
            r@ == v@.subrange(0, i as int),
        decreases v.len() - i,
    {
        r.push(v[i].clone());
        i = i + 1;
        assert(r@ =~= v@.subrange(0, i as int));
    }
    assert(v@.subrange(0, v@.len() as int) =~= v@);
    r
}

/// One resource as the cluster's discovery reports it.
#[derive(Debug, Clone)]
pub struct DiscoveredResource {
    pub group: String,
    pub version: String,
    pub plural: String,
    pub kind: String,
    pub namespaced: bool,
}

/// The plain content of the discovery cache: the resources in the order they
/// were first recorded, and two indexes from lowercase names to positions.
pub struct DiscoveryView {
    pub resources: Seq<InfoView>,
    pub short_names: Seq<(Seq<char>, int)>,
    pub kinds: Seq<(Seq<char>, int)>,
    pub discovered: bool,
}

/// API discovery cache: resources by (group, version, kind), and indexes by
/// lowercase plural name and by lowercase kind.
pub struct ApiDiscovery {
    resources: Vec<ApiResourceInfo>,
    short_names: Vec<(String, usize)>,
    kinds: Vec<(String, usize)>,
    discovered: bool,
}

/// Whether a record has the given group, version and kind.
pub open spec fn has_key(r: InfoView, group: Seq<char>, version: Seq<char>, kind: Seq<char>) -> bool {
    r.group == group && r.api_version == version && r.kind == kind
}

/// First position of the resource with the given group, version and kind.
pub open spec fn find_resource(rs: Seq<InfoView>, group: Seq<char>, version: Seq<char>, kind: Seq<char>) -> Option<int>
    decreases rs.len(),
{
    if rs.len() == 0 {
        None
    } else if has_key(rs[0], group, version, kind) {
        Some(0)
    } else {
        match find_resource(rs.drop_first(), group, version, kind) {
            Some(i) => Some(i + 1),
            None => None,
        }
    }
}

/// First position of `key` in an index.
pub open spec fn find_key(idx: Seq<(Seq<char>, int)>, key: Seq<char>) -> Option<int>
    decreases idx.len(),
{
    if idx.len() == 0 {
        None
    } else if idx[0].0 == key {
        Some(0)
    } else {
        match find_key(idx.drop_first(), key) {
            Some(i) => Some(i + 1),
            None => None,
        }
    }
}

/// An index with `key` mapped to `pos`: the entry is replaced when present,
/// appended otherwise.
pub open spec fn upsert(idx: Seq<(Seq<char>, int)>, key: Seq<char>, pos: int) -> Seq<(Seq<char>, int)> {
    match find_key(idx, key) {
        Some(j) => idx.update(j, (key, pos)),
        None => idx.push((key, pos)),
    }
}

/// The record kept for a discovered resource: its plural as name, the plural
/// with trailing `s`s removed as singular, and no short names, verbs or
/// categories.
pub open spec fn discovered_info(e: DiscoveredResource) -> InfoView {
    InfoView {
        name: e.plural@,
        singular: trim_end_pattern(e.plural@, seq!['s']),
        kind: e.kind@,
        api_version: e.version@,
        group: e.group@,
        namespaced: e.namespaced,
        short_names: Seq::empty(),
        verbs: Seq::empty(),
        categories: Seq::empty(),
    }
}

/// The cache after recording one discovered resource: the record for its
/// group/version/kind is replaced or added, and its lowercase kind and
/// lowercase plural are pointed at it.
pub open spec fn record_step(v: DiscoveryView, e: DiscoveredResource) -> DiscoveryView {
    let info = discovered_info(e);
    let (resources, pos) = match find_resource(v.resources, e.group@, e.version@, e.kind@) {
        Some(i) => (v.resources.update(i, info), i),
        None => (v.resources.push(info), v.resources.len() as int),
    };
    DiscoveryView {
        resources,
        short_names: upsert(v.short_names, lower_key(e.plural@), pos),
        kinds: upsert(v.kinds, lower_key(e.kind@), pos),
        discovered: v.discovered,
    }
}

/// The cache after recording a sequence of discovered resources in order.
pub open spec fn record_all(v: DiscoveryView, es: Seq<DiscoveredResource>) -> DiscoveryView
    decreases es.len(),
{
    if es.len() == 0 {
        v
    } else {
        record_step(record_all(v, es.drop_last()), es.last())
    }
}

/// The empty cache.
pub open spec fn empty_view(discovered: bool) -> DiscoveryView {
    DiscoveryView { resources: Seq::empty(), short_names: Seq::empty(), kinds: Seq::empty(), discovered }
}

/// Every index entry points at a recorded resource.
pub open spec fn indexes_valid(v: DiscoveryView) -> bool {
    &&& forall|j: int| 0 <= j < v.short_names.len() ==> 0 <= #[trigger] v.short_names[j].1 < v.resources.len()
    &&& forall|j: int| 0 <= j < v.kinds.len() ==> 0 <= #[trigger] v.kinds[j].1 < v.resources.len()
}

pub proof fn lemma_find_resource(rs: Seq<InfoView>, g: Seq<char>, ver: Seq<char>, k: Seq<char>)
    ensures
        match find_resource(rs, g, ver, k) {
            Some(i) => 0 <= i < rs.len() && has_key(rs[i], g, ver, k)
                && forall|j: int| 0 <= j < i ==> !has_key(#[trigger] rs[j], g, ver, k),
            None => forall|j: int| 0 <= j < rs.len() ==> !has_key(#[trigger] rs[j], g, ver, k),
        },
    decreases rs.len(),
{
    if rs.len() > 0 && !has_key(rs[0], g, ver, k) {
        lemma_find_resource(rs.drop_first(), g, ver, k);
        assert forall|j: int| 0 < j < rs.len() implies rs[j] == rs.drop_first()[j - 1] by {}
    }
}

pub proof fn lemma_find_key(idx: Seq<(Seq<char>, int)>, key: Seq<char>)
    ensures
        match find_key(idx, key) {
            Some(i) => 0 <= i < idx.len() && idx[i].0 == key && forall|j: int| 0 <= j < i ==> (#[trigger] idx[j]).0 != key,
            None => forall|j: int| 0 <= j < idx.len() ==> (#[trigger] idx[j]).0 != key,
        },
    decreases idx.len(),
{
    if idx.len() > 0 && idx[0].0 != key {
        lemma_find_key(idx.drop_first(), key);
        assert forall|j: int| 0 < j < idx.len() implies idx[j] == idx.drop_first()[j - 1] by {}
    }
}

proof fn lemma_record_step_valid(v: DiscoveryView, e: DiscoveredResource)
    requires
        indexes_valid(v),
    ensures
        indexes_valid(record_step(v, e)),
        record_step(v, e).discovered == v.discovered,
{
    lemma_find_resource(v.resources, e.group@, e.version@, e.kind@);
    lemma_find_key(v.short_names, lower_key(e.plural@));
    lemma_find_key(v.kinds, lower_key(e.kind@));
}

proof fn lemma_upsert_finds(idx: Seq<(Seq<char>, int)>, key: Seq<char>, pos: int)
    ensures
        find_key(upsert(idx, key, pos), key) matches Some(j) && upsert(idx, key, pos)[j].1 == pos,
{
    let u = upsert(idx, key, pos);
    lemma_find_key(idx, key);
    lemma_find_key(u, key);
    match find_key(idx, key) {
        Some(j) => {
            assert(u[j] == (key, pos));
            if let Some(k) = find_key(u, key) {
                if k < j {
                    assert(u[k] == idx[k]);
                }
            }
        },
        None => {
            assert(u[idx.len() as int] == (key, pos));
            if let Some(k) = find_key(u, key) {
                if k < idx.len() {
                    assert(u[k] == idx[k]);
                }
            }
        },
    }
}

proof fn lemma_record_step_finds(v: DiscoveryView, e: DiscoveredResource)
    ensures
        ({
            let r = record_step(v, e);
            &&& find_resource(r.resources, e.group@, e.version@, e.kind@) matches Some(i) && r.resources[i]
                == discovered_info(e)
            &&& find_key(r.short_names, lower_key(e.plural@)) matches Some(j) && r.resources[r.short_names[j].1]
                == discovered_info(e)
            &&& find_key(r.kinds, lower_key(e.kind@)) matches Some(j) && r.resources[r.kinds[j].1]
                == discovered_info(e)
        }),
{
    let r = record_step(v, e);
    let info = discovered_info(e);
    let (g, ver, k) = (e.group@, e.version@, e.kind@);
    lemma_find_resource(v.resources, g, ver, k);
    lemma_find_resource(r.resources, g, ver, k);
    let pos = match find_resource(v.resources, g, ver, k) {
        Some(i) => i,
        None => v.resources.len() as int,
    };
    assert(r.resources[pos] == info);
    assert(has_key(info, g, ver, k));
    if let Some(q) = find_resource(r.resources, g, ver, k) {
        if q < pos {
            assert(r.resources[q] == v.resources[q]);
        }
    }
    lemma_upsert_finds(v.short_names, lower_key(e.plural@), pos);
    lemma_upsert_finds(v.kinds, lower_key(e.kind@), pos);
}

/// What discovery recorded last is found again: after recording resources,
/// the last one is the record for its group, version and kind, and the
/// lowercase indexes lead from its plural and from its kind to that record.
pub proof fn law_record_then_lookup(v: DiscoveryView, es: Seq<DiscoveredResource>)
    requires
        es.len() > 0,
    ensures
        ({
            let r = record_all(v, es);
            let e = es.last();
            &&& find_resource(r.resources, e.group@, e.version@, e.kind@) matches Some(i) && r.resources[i]
                == discovered_info(e)
            &&& find_key(r.short_names, lower_key(e.plural@)) matches Some(j) && r.resources[r.short_names[j].1]
                == discovered_info(e)
            &&& find_key(r.kinds, lower_key(e.kind@)) matches Some(j) && r.resources[r.kinds[j].1]
                == discovered_info(e)
        }),
{
    lemma_record_step_finds(record_all(v, es.drop_last()), es.last());
}

/// Position of `key` in an index, scanning from the front.
fn index_lookup(idx: &Vec<(String, usize)>, key: &str) -> (r: Option<usize>)
    ensures
        match r {
            Some(p) => find_key(index_view(idx@), key@) == Some(p as int) && p < idx@.len(),
            None => find_key(index_view(idx@), key@) is None,
        },
{
    proof {
        lemma_find_key(index_view(idx@), key@);
    }
    let mut i: usize = 0;
    while i < idx.len()
        invariant
            i <= idx.len(),
            forall|j: int| 0 <= j < i ==> index_view(idx@)[j].0 != key@,
            match find_key(index_view(idx@), key@) {
                Some(j) => i <= j,
                None => true,
            },
        decreases idx.len() - i,
    {
        assert(index_view(idx@)[i as int].0 == idx@[i as int].0@);
        proof {
            lemma_find_key(index_view(idx@), key@);
        }
        if str_eq(idx[i].0.as_str(), key) {
            return Some(i);
        }
        i = i + 1;
    }
    None
}

/// The plain content of an index.
pub open spec fn index_view(idx: Seq<(String, usize)>) -> Seq<(Seq<char>, int)> {
    idx.map_values(|e: (String, usize)| (e.0@, e.1 as int))
}

/// The plain content of a list of records.
pub open spec fn infos_view(rs: Seq<ApiResourceInfo>) -> Seq<InfoView> {
    rs.map_values(|r: ApiResourceInfo| r.info())
}

/// The plain content of a list of references to records.
pub open spec fn info_refs_view(rs: Seq<&ApiResourceInfo>) -> Seq<InfoView> {
    rs.map_values(|r: &ApiResourceInfo| r.info())
}

fn upsert_index(idx: &mut Vec<(String, usize)>, key: String, pos: usize)
    ensures
        index_view(final(idx)@) == upsert(index_view(old(idx)@), key@, pos as int),
{
    proof {
        lemma_find_key(index_view(old(idx)@), key@);
    }
    match index_lookup(idx, key.as_str()) {
        Some(j) => {
            let ghost k = key@;
            assert(find_key(index_view(old(idx)@), k) == Some(j as int));
            idx.set(j, (key, pos));
            assert(index_view(idx@) =~= index_view(old(idx)@).update(j as int, (k, pos as int)));
            assert(index_view(idx@) == upsert(index_view(old(idx)@), k, pos as int));
        },
        None => {
            let ghost k = key@;
            assert(find_key(index_view(old(idx)@), k) is None);
            idx.push((key, pos));
            assert(index_view(idx@) =~= index_view(old(idx)@).push((k, pos as int)));
            assert(index_view(idx@) == upsert(index_view(old(idx)@), k, pos as int));
        },
    }
}

impl ApiDiscovery {
    /// The plain content of this cache.
    pub closed spec fn view(&self) -> DiscoveryView {
        DiscoveryView {
            resources: infos_view(self.resources@),
            short_names: index_view(self.short_names@),
            kinds: index_view(self.kinds@),
            discovered: self.discovered,
        }
    }

    /// Every index entry points at a recorded resource.
    pub closed spec fn wf(&self) -> bool {
        indexes_valid(self.view())
    }

    /// A new, empty cache on which discovery has not run.
    pub fn new() -> (r: ApiDiscovery)
        ensures
            r.wf(),
            r.view() == empty_view(false),
    {
        let r = ApiDiscovery { resources: Vec::new(), short_names: Vec::new(), kinds: Vec::new(), discovered: false };
        assert(r.view().resources =~= Seq::<InfoView>::empty());
        assert(r.view().short_names =~= Seq::<(Seq<char>, int)>::empty());
        assert(r.view().kinds =~= Seq::<(Seq<char>, int)>::empty());
        r
    }

    /// Replaces the cache with what discovery reported, in order, and marks
    /// discovery as run.
    pub fn record(&mut self, entries: &Vec<DiscoveredResource>)
        ensures
            final(self).wf(),
            final(self).view() == record_all(empty_view(true), entries@),
    {
        self.resources = Vec::new();
        self.short_names = Vec::new();
        self.kinds = Vec::new();
        self.discovered = true;
        assert(self.view().resources =~= Seq::<InfoView>::empty());
        assert(self.view().short_names =~= Seq::<(Seq<char>, int)>::empty());
        assert(self.view().kinds =~= Seq::<(Seq<char>, int)>::empty());
        let mut i: usize = 0;
        while i < entries.len()
            invariant
                i <= entries.len(),
                self.wf(),
                self.view() == record_all(empty_view(true), entries@.subrange(0, i as int)),
            decreases entries.len() - i,
        {
            let e = &entries[i];
            let ghost before = self.view();
            proof {
                lemma_find_resource(before.resources, e.group@, e.version@, e.kind@);
                lemma_record_step_valid(before, *e);
            }
            let plural_chars = chars_of(e.plural.as_str());
            let s_chars = chars_of("s");
            proof {
                reveal_strlit("s");
            }
            assert(s_chars@ =~= seq!['s']);
            let singular = trim_end_chars(&plural_chars, &s_chars);
            let info = ApiResourceInfo {
                name: e.plural.clone(),
                singular: string_from_chars(singular.as_slice()),
                kind: e.kind.clone(),
                api_version: e.version.clone(),
                group: e.group.clone(),
                namespaced: e.namespaced,
                short_names: Vec::new(),
                verbs: Vec::new(),
                categories: Vec::new(),
            };
            assert(strings_view(Seq::<String>::empty()) =~= Seq::<Seq<char>>::empty());
            assert(info.short_names@ =~= Seq::<String>::empty());
            assert(info.info().singular == trim_end_pattern(e.plural@, seq!['s']));
            assert(info.info() == discovered_info(*e));
            let pos = match self.position_of(e.group.as_str(), e.version.as_str(), e.kind.as_str()) {
                Some(p) => {
                    self.resources.set(p, info);
                    assert(infos_view(self.resources@) =~= before.resources.update(p as int, discovered_info(*e)));
                    p
                },
                None => {
                    let p = self.resources.len();
                    self.resources.push(info);
                    assert(infos_view(self.resources@) =~= before.resources.push(discovered_info(*e)));
                    p
                },
            };
            assert(infos_view(self.resources@) == record_step(before, *e).resources);
            upsert_index(&mut self.short_names, to_lowercase(e.plural.as_str()), pos);
            upsert_index(&mut self.kinds, to_lowercase(e.kind.as_str()), pos);
            assert(self.view() == record_step(before, *e));
            i = i + 1;
            proof {
                let es = entries@.subrange(0, i as int);
                assert(es.drop_last() =~= entries@.subrange(0, i - 1));
                assert(es.last() == *e);
            }
        }
        assert(entries@.subrange(0, entries@.len() as int) =~= entries@);
    }

    fn position_of(&self, group: &str, version: &str, kind: &str) -> (r: Option<usize>)
        ensures
            match r {
                Some(p) => find_resource(self.view().resources, group@, version@, kind@) == Some(p as int)
                    && p < self.view().resources.len(),
                None => find_resource(self.view().resources, group@, version@, kind@) is None,
            },
    {
        find_position(&self.resources, group, version, kind)
    }

    /// The resource with the given group, version and kind, if recorded.
    pub fn get(&self, group: &str, version: &str, kind: &str) -> (r: Option<&ApiResourceInfo>)
        ensures
            match find_resource(self.view().resources, group@, version@, kind@) {
                Some(i) => r matches Some(x) && x.info() == self.view().resources[i],
                None => r is None,
            },
    {
        assert(self.view().resources.len() == self.resources@.len());
        proof {
            lemma_find_resource(self.view().resources, group@, version@, kind@);
        }
        match self.position_of(group, version, kind) {
            Some(i) => {
                assert(self.view().resources[i as int] == self.resources@[i as int].info());
                Some(&self.resources[i])
            },
            None => None,
        }
    }

    /// The resource a name stands for: the name is lowercased and looked up
    /// first among plural names, then among kinds.
    pub fn resolve(&self, name: &str) -> (r: Option<&ApiResourceInfo>)
        requires
            self.wf(),
        ensures
            match find_key(self.view().short_names, lower_key(name@)) {
                Some(j) => r matches Some(x) && x.info() == self.view().resources[self.view().short_names[j].1],
                None => match find_key(self.view().kinds, lower_key(name@)) {
                    Some(j) => r matches Some(x) && x.info() == self.view().resources[self.view().kinds[j].1],
                    None => r is None,
                },
            },
    {
        let lower = to_lowercase(name);
        match index_lookup(&self.short_names, lower.as_str()) {
            Some(j) => {
                let p = self.short_names[j].1;
                proof {
                    assert(index_view(self.short_names@)[j as int].1 == p);
                }
                return Some(&self.resources[p]);
            },
            None => {},
        }
        match index_lookup(&self.kinds, lower.as_str()) {
            Some(j) => {
                let p = self.kinds[j].1;
                proof {
                    assert(index_view(self.kinds@)[j as int].1 == p);
                }
                Some(&self.resources[p])
            },
            None => None,
        }
    }

    /// All recorded resources.
    pub fn list(&self) -> (r: Vec<&ApiResourceInfo>)
        ensures
            info_refs_view(r@) == self.view().resources,
    {
        let mut r: Vec<&ApiResourceInfo> = Vec::new();
        let mut i: usize = 0;
        while i < self.resources.len()
            invariant
                i <= self.resources.len(),
                info_refs_view(r@) == infos_view(self.resources@).subrange(0, i as int),
            decreases self.resources.len() - i,
        {
            let ghost prev = r@;
            let x = &self.resources[i];
            r.push(x);
            assert(r@ == prev.push(x));
            assert(info_refs_view(r@) =~= info_refs_view(prev).push(x.info()));
            i = i + 1;
            assert(infos_view(self.resources@).subrange(0, i as int) =~= infos_view(self.resources@).subrange(0, i - 1).push(x.info()));
        }
        assert(infos_view(self.resources@).subrange(0, self.resources@.len() as int) =~= infos_view(self.resources@));
        r
    }

    /// The recorded resources that belong to a category.
    pub fn list_by_category(&self, category: &str) -> (r: Vec<&ApiResourceInfo>)
        ensures
            info_refs_view(r@) == self.view().resources.filter(|i: InfoView| i.categories.contains(category@)),
    {
        let mut r: Vec<&ApiResourceInfo> = Vec::new();
        let mut i: usize = 0;
        let ghost pred = |i: InfoView| i.categories.contains(category@);
        while i < self.resources.len()
            invariant
                i <= self.resources.len(),
                pred == (|i: InfoView| i.categories.contains(category@)),
                info_refs_view(r@) == infos_view(self.resources@).subrange(0, i as int).filter(pred),
            decreases self.resources.len() - i,
        {
            let res = &self.resources[i];
            let has = contains_string(&res.categories, category);
            proof {
                let s = infos_view(self.resources@).subrange(0, i as int + 1);
                assert(s.drop_last() =~= infos_view(self.resources@).subrange(0, i as int));
                reveal_with_fuel(Seq::filter, 1);
            }
            if has {
                r.push(res);
            }
            i = i + 1;
            assert(info_refs_view(r@) =~= infos_view(self.resources@).subrange(0, i as int).filter(pred));
        }
        assert(infos_view(self.resources@).subrange(0, self.resources@.len() as int) =~= infos_view(self.resources@));
        r
    }

    /// Whether discovery has been run.
    pub fn is_discovered(&self) -> (r: bool)
        ensures
            r == self.view().discovered,
    {
        self.discovered
    }

    /// The number of recorded resources.
    pub fn len(&self) -> (r: usize)
        ensures
            r == self.view().resources.len(),
    {
        self.resources.len()
    }

    /// Whether no resource is recorded.
    pub fn is_empty(&self) -> (r: bool)
        ensures
            r == (self.view().resources.len() == 0),
    {
        self.resources.len() == 0
    }
}

impl Default for ApiDiscovery {
    fn default() -> (r: ApiDiscovery)
        ensures
            r.wf(),
            r.view() == empty_view(false),
    {
        ApiDiscovery::new()
    }
}

/// Position of the first record in `list` with the given group, version and kind.
pub fn find_position(list: &Vec<ApiResourceInfo>, group: &str, version: &str, kind: &str) -> (r: Option<usize>)
    ensures
        match r {
            Some(p) => find_resource(infos_view(list@), group@, version@, kind@) == Some(p as int)
                && p < list@.len(),
            None => find_resource(infos_view(list@), group@, version@, kind@) is None,
        },
{
    proof {
        lemma_find_resource(infos_view(list@), group@, version@, kind@);
    }
    let mut i: usize = 0;
    while i < list.len()
        invariant
            i <= list.len(),
            forall|j: int| 0 <= j < i ==> !has_key(#[trigger] infos_view(list@)[j], group@, version@, kind@),
            match find_resource(infos_view(list@), group@, version@, kind@) {
                Some(j) => i <= j,
                None => true,
            },
        decreases list.len() - i,
    {
        let r = &list[i];
        assert(infos_view(list@)[i as int] == r.info());
        proof {
            lemma_find_resource(infos_view(list@), group@, version@, kind@);
        }
        if str_eq(r.group.as_str(), group) && str_eq(r.api_version.as_str(), version) && str_eq(r.kind.as_str(), kind) {
            return Some(i);
        }
        i = i + 1;
    }
    None
}

/// Whether a list of strings holds `s`.
pub fn contains_string(v: &Vec<String>, s: &str) -> (r: bool)
    ensures
        r == strings_view(v@).contains(s@),
{
    let mut i: usize = 0;
    while i < v.len()
        invariant
            i <= v.len(),
            forall|j: int| 0 <= j < i ==> v@[j]@ != s@,
        decreases v.len() - i,
    {
        if str_eq(v[i].as_str(), s) {
            assert(strings_view(v@)[i as int] == s@);
            return true;
        }
        i = i + 1;
    }
    assert forall|j: int| 0 <= j < strings_view(v@).len() implies strings_view(v@)[j] != s@ by {
        assert(strings_view(v@)[j] == v@[j]@);
    }
    false
}

} // verus!
