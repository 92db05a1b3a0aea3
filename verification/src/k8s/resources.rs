//! Group/version/kind handling for dynamic resources.

use crate::text::{after_char, before_char, chars_of, find_char, lemma_find_char, lemma_find_char_concat, string_from_chars, take_after, take_before, find_from};
use vstd::prelude::*;

verus! {

/// A resource type: API group, version and kind.
#[derive(Debug, Clone, PartialEq, Eq, Hash)]
pub struct GroupVersionKind {
    /// API group ("" for the core group)
    pub group: String,
    /// API version within the group
    pub version: String,
    /// Resource kind
    pub kind: String,
}

/// Patch strategy.
#[derive(Debug, Clone, Copy, PartialEq, Eq)]
pub enum PatchStrategy {
    /// JSON Merge Patch
    Merge,
    /// Strategic Merge Patch (deprecated for CRDs)
    Strategic,
    /// JSON Patch
    Json,
}

impl Default for PatchStrategy {
    fn default() -> (r: Self)
        ensures
            r == PatchStrategy::Merge,
    {
        PatchStrategy::Merge
    }
}

/// The group of an API version string: the text before its first `/`, or
/// the core group "" when it has none.
pub open spec fn api_version_group(api_version: Seq<char>) -> Seq<char> {
    if find_char(api_version, '/') is Some {
        before_char(api_version, '/')
    } else {
        Seq::empty()
    }
}

/// The version of an API version string: the text after its first `/`, or
/// the whole string when it has none.
pub open spec fn api_version_version(api_version: Seq<char>) -> Seq<char> {
    if find_char(api_version, '/') is Some {
        after_char(api_version, '/')
    } else {
        api_version
    }
}

/// Builds a group/version/kind from its three parts.
pub fn parse_gvk(group: &str, version: &str, kind: &str) -> (r: GroupVersionKind)
    ensures
        r.group@ == group@,
        r.version@ == version@,
        r.kind@ == kind@,
{
    GroupVersionKind {
        group: group.to_string(),
        version: version.to_string(),
        kind: kind.to_string(),
    }
}

/// Builds a group/version/kind from an API version string ("apps/v1", "v1")
/// and a kind.
pub fn parse_api_version(api_version: &str, kind: &str) -> (r: GroupVersionKind)
    ensures
        r.group@ == api_version_group(api_version@),
        r.version@ == api_version_version(api_version@),
        r.kind@ == kind@,
{
    let s = chars_of(api_version);
    assert(s@.subrange(0, s@.len() as int) =~= s@);
    proof {
        lemma_find_char(s@, '/');
    }
    let (group, version) = if find_from(&s, '/', 0).is_some() {
        let g = take_before(&s, '/');
        let v = take_after(&s, '/');
        (string_from_chars(g.as_slice()), string_from_chars(v.as_slice()))
    } else {
        let e: Vec<char> = Vec::new();
        assert(e@ =~= Seq::<char>::empty());
        (string_from_chars(e.as_slice()), string_from_chars(s.as_slice()))
    };
    GroupVersionKind { group, version, kind: kind.to_string() }
}

/// An API version string "group/version" with a non-empty group that holds
/// no `/` splits back into that group and version; one without a `/` is a
/// core-group version.
pub proof fn law_api_version_split(group: Seq<char>, version: Seq<char>)
    ensures
        find_char(group, '/') is None && group.len() > 0 ==> api_version_group(group + seq!['/'] + version) == group
            && api_version_version(group + seq!['/'] + version) == version,
        find_char(version, '/') is None ==> api_version_group(version) == Seq::<char>::empty()
            && api_version_version(version) == version,
{
    if find_char(group, '/') is None && group.len() > 0 {
        let s = group + seq!['/'] + version;
        assert(s =~= group + (seq!['/'] + version));
        lemma_find_char_concat(group, seq!['/'] + version, '/');
        assert(find_char(seq!['/'] + version, '/') == Some(0int));
        assert(before_char(s, '/') =~= group);
        assert(after_char(s, '/') =~= version);
    }
}

} // verus!
