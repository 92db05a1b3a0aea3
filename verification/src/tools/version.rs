//! The Kubernetes version tool: what it reports of the cluster's version.

use crate::k8s::version::K8sVersion;
use crate::mcp::json::{JsonNumber, JsonValue};
use crate::text::owned;
use vstd::prelude::*;

verus! {

/// Whether member `i` of `m` is `key` holding the text `text`.
pub open spec fn text_member(m: Seq<(String, JsonValue)>, i: int, key: Seq<char>, text: Seq<char>) -> bool {
    m[i].0@ == key && (m[i].1 matches JsonValue::String(s) && s@ == text)
}

/// Whether a value is the version report: the version's fields, or an error
/// and whether the client is connected when the version is unknown.
pub open spec fn is_version_report(v: JsonValue, version: Option<K8sVersion>, connected: bool) -> bool {
    match version {
        Some(ver) => v matches JsonValue::Object(m) && m@.len() == 9 && m@[0].0@ == "major"@ && m@[0].1
            == JsonValue::Number(JsonNumber::PosInt(ver.major as u64)) && m@[1].0@ == "minor"@ && m@[1].1
            == JsonValue::Number(JsonNumber::PosInt(ver.minor as u64)) && text_member(m@, 2, "gitVersion"@, ver.git_version@)
            && text_member(m@, 3, "platform"@, ver.platform@) && text_member(m@, 4, "gitCommit"@, ver.git_commit@)
            && text_member(m@, 5, "buildDate"@, ver.build_date@) && text_member(m@, 6, "goVersion"@, ver.go_version@)
            && text_member(m@, 7, "compiler"@, ver.compiler@) && text_member(
            m@,
            8,
            "shortVersion"@,
            crate::text::decimal(ver.major as nat) + seq!['.'] + crate::text::decimal(ver.minor as nat),
        ),
        None => v matches JsonValue::Object(m) && m@.len() == 2 && text_member(
            m@,
            0,
            "error"@,
            "Version not available. Ensure the cluster is connected."@,
        ) && m@[1].0@ == "connected"@ && m@[1].1 == JsonValue::Bool(connected),
    }
}

/// The version report as a JSON object.
pub fn version_report(version: &Option<K8sVersion>, connected: bool) -> (r: JsonValue)
    ensures
        is_version_report(r, *version, connected),
{
    let mut m: Vec<(String, JsonValue)> = Vec::new();
    match version {
        Some(v) => {
            m.push((owned("major"), JsonValue::Number(JsonNumber::PosInt(v.major as u64))));
            m.push((owned("minor"), JsonValue::Number(JsonNumber::PosInt(v.minor as u64))));
            m.push((owned("gitVersion"), JsonValue::String(v.git_version.clone())));
            m.push((owned("platform"), JsonValue::String(v.platform.clone())));
            m.push((owned("gitCommit"), JsonValue::String(v.git_commit.clone())));
            m.push((owned("buildDate"), JsonValue::String(v.build_date.clone())));
            m.push((owned("goVersion"), JsonValue::String(v.go_version.clone())));
            m.push((owned("compiler"), JsonValue::String(v.compiler.clone())));
            m.push((owned("shortVersion"), JsonValue::String(v.short_version())));
        },
        None => {
            m.push((owned("error"), JsonValue::String(owned("Version not available. Ensure the cluster is connected."))));
            m.push((owned("connected"), JsonValue::Bool(connected)));
        },
    }
    JsonValue::Object(m)
}

} // verus!
