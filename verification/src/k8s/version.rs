//! Kubernetes version information and comparison.

use crate::error::Error;
use crate::text::{find_char, before_char, after_char, lemma_find_char, lemma_find_char_concat, find_from, slice_vec, take_before, take_after, lemma_parse_unsigned_bound, lemma_decimal_digits, lemma_parse_decimal, chars_of, concat2, decimal, decimal_chars, digit_value, int_error_message, is_digit, parse_unsigned, parse_unsigned_chars, scan_digits, string_from_chars, IntParseError};
use vstd::prelude::*;

verus! {

/// Kubernetes version information, as the `/version` endpoint reports it.
#[derive(Debug, Clone, PartialEq, Eq)]
pub struct K8sVersion {
    /// Major version number (e.g., 1 for v1.32.0)
    pub major: u32,
    /// Minor version number (e.g., 32 for v1.32.0)
    pub minor: u32,
    /// Full git version string (e.g., "v1.32.0+abc123")
    pub git_version: String,
    /// Platform identifier (e.g., "linux/amd64")
    pub platform: String,
    /// Git commit hash
    pub git_commit: String,
    /// Build date
    pub build_date: String,
    /// Go version used to build Kubernetes
    pub go_version: String,
    /// Compiler used
    pub compiler: String,
}

/// The raw string fields of the `/version` response.
#[derive(Debug, Clone)]
pub struct VersionInfo {
    pub major: String,
    pub minor: String,
    pub git_version: String,
    pub git_commit: String,
    pub build_date: String,
    pub go_version: String,
    pub compiler: String,
    pub platform: String,
}

/// Whether version `(a_major, a_minor)` is at least `(major, minor)`.
pub open spec fn version_at_least(a_major: nat, a_minor: nat, major: nat, minor: nat) -> bool {
    a_major > major || (a_major == major && a_minor >= minor)
}

/// Whether version `(a_major, a_minor)` is below `(major, minor)`.
pub open spec fn version_less_than(a_major: nat, a_minor: nat, major: nat, minor: nat) -> bool {
    a_major < major || (a_major == major && a_minor < minor)
}

/// `s` with every leading `c` removed.
pub open spec fn trim_start_char(s: Seq<char>, c: char) -> Seq<char>
    decreases s.len(),
{
    if s.len() > 0 && s[0] == c {
        trim_start_char(s.drop_first(), c)
    } else {
        s
    }
}

/// The value of a `u32` parse of `s`, when it succeeds.
pub open spec fn parse_u32(s: Seq<char>) -> Option<nat> {
    match parse_unsigned(s, u32::MAX as nat) {
        Ok(v) => Some(v),
        Err(_) => None,
    }
}

/// Major and minor from a git version string such as "v1.32.0+abc": leading
/// `v`s are dropped, the text is split on `.`, there must be at least two
/// parts, the first part is the major, and the second, cut at its first `+`,
/// the minor.
pub open spec fn git_version_numbers(git_version: Seq<char>) -> Option<(nat, nat)> {
    let version = trim_start_char(git_version, 'v');
    if find_char(version, '.') is None {
        None
    } else {
        let major_part = before_char(version, '.');
        let minor_part = before_char(before_char(after_char(version, '.'), '.'), '+');
        match (parse_u32(major_part), parse_u32(minor_part)) {
            (Some(ma), Some(mi)) => Some((ma, mi)),
            _ => None,
        }
    }
}

fn parse_u32_chars(s: &Vec<char>) -> (r: Result<u32, IntParseError>)
    ensures
        match parse_unsigned(s@, u32::MAX as nat) {
            Ok(v) => v <= u32::MAX && r == Ok::<u32, IntParseError>(v as u32),
            Err(e) => r == Err::<u32, IntParseError>(e),
        },
{
    match parse_unsigned_chars(s.as_slice(), 4294967295u64) {
        Ok(v) => Ok(v as u32),
        Err(e) => Err(e),
    }
}

impl K8sVersion {
    /// Builds a version from the raw `/version` response: major and minor must
    /// parse as `u32`, the other fields are copied.
    pub fn from_version_info(info: &VersionInfo) -> (r: Result<K8sVersion, Error>)
        ensures
            match (parse_unsigned(info.major@, u32::MAX as nat), parse_unsigned(info.minor@, u32::MAX as nat)) {
                (Err(e), _) => r matches Err(Error::Protocol(m))
                    && m@ == "Invalid major version: "@ + int_error_message(e),
                (Ok(_), Err(e)) => r matches Err(Error::Protocol(m))
                    && m@ == "Invalid minor version: "@ + int_error_message(e),
                (Ok(ma), Ok(mi)) => r matches Ok(v) && v.major == ma && v.minor == mi
                    && v.git_version@ == info.git_version@ && v.platform@ == info.platform@
                    && v.git_commit@ == info.git_commit@ && v.build_date@ == info.build_date@
                    && v.go_version@ == info.go_version@ && v.compiler@ == info.compiler@,
            },
    {
        let major_chars = chars_of(info.major.as_str());
        let major = match parse_u32_chars(&major_chars) {
            Ok(v) => v,
            Err(e) => {
                return Err(Error::Protocol(concat2("Invalid major version: ", int_error_text(e))));
            },
        };
        let minor_chars = chars_of(info.minor.as_str());
        let minor = match parse_u32_chars(&minor_chars) {
            Ok(v) => v,
            Err(e) => {
                return Err(Error::Protocol(concat2("Invalid minor version: ", int_error_text(e))));
            },
        };
        Ok(K8sVersion {
            major,
            minor,
            git_version: info.git_version.clone(),
            platform: info.platform.clone(),
            git_commit: info.git_commit.clone(),
            build_date: info.build_date.clone(),
            go_version: info.go_version.clone(),
            compiler: info.compiler.clone(),
        })
    }

    /// Whether the cluster version is at least `major.minor`.
    pub fn is_at_least(&self, major: u32, minor: u32) -> (r: bool)
        ensures
            r == version_at_least(self.major as nat, self.minor as nat, major as nat, minor as nat),
    {
        self.major > major || (self.major == major && self.minor >= minor)
    }

    /// Whether the cluster version is below `major.minor`.
    pub fn is_less_than(&self, major: u32, minor: u32) -> (r: bool)
        ensures
            r == version_less_than(self.major as nat, self.minor as nat, major as nat, minor as nat),
    {
        self.major < major || (self.major == major && self.minor < minor)
    }

    /// The short version string "major.minor" (e.g. "1.32").
    pub fn short_version(&self) -> (r: String)
        ensures
            r@ == decimal(self.major as nat) + seq!['.'] + decimal(self.minor as nat),
    {
        let mut v = decimal_chars(self.major as u64);
        v.push('.');
        let m = decimal_chars(self.minor as u64);
        let mut i: usize = 0;
        let ghost start = v@;
        while i < m.len()
            invariant
                i <= m.len(),
                v@ == start + m@.subrange(0, i as int),
            decreases m.len() - i,
        {
            v.push(m[i]);
            i = i + 1;
            assert(m@.subrange(0, i as int) == m@.subrange(0, (i - 1) as int).push(m@[i - 1]));
        }
        assert(m@.subrange(0, m@.len() as int) == m@);
        string_from_chars(v.as_slice())
    }

    /// A copy of this version.
    pub fn duplicate(&self) -> (r: K8sVersion)
        ensures
            r == *self,
    {
        K8sVersion {
            major: self.major,
            minor: self.minor,
            git_version: self.git_version.clone(),
            platform: self.platform.clone(),
            git_commit: self.git_commit.clone(),
            build_date: self.build_date.clone(),
            go_version: self.go_version.clone(),
            compiler: self.compiler.clone(),
        }
    }

    /// The text this version displays as: its git version.
    pub fn to_display_string(&self) -> (r: String)
        ensures
            r@ == self.git_version@,
    {
        self.git_version.clone()
    }

    /// Parses a git version string such as "v1.32.0", "v1.32.0+abc123" or
    /// "1.32.0" into major and minor.
    pub fn parse_git_version(git_version: &str) -> (r: Option<(u32, u32)>)
        ensures
            match git_version_numbers(git_version@) {
                Some((ma, mi)) => r == Some((ma as u32, mi as u32)),
                None => r is None,
            },
    {
        let s = chars_of(git_version);
        let mut k: usize = 0;
        while k < s.len() && s[k] == 'v'
            invariant
                k <= s.len(),
                forall|j: int| 0 <= j < k ==> s@[j] == 'v',
            decreases s.len() - k,
        {
            k = k + 1;
        }
        proof {
            lemma_trim_start_char_suffix(s@, 'v', k as int);
        }
        let version = slice_vec(&s, k, s.len());
        assert(trim_start_char(version@, 'v') == version@) by {
            if version@.len() > 0 {
                assert(version@[0] == s@[k as int]);
            }
        }
        let ghost vs = version@;
        assert(vs == trim_start_char(git_version@, 'v'));
        assert(version@.subrange(0, version@.len() as int) == version@);
        if find_from(&version, '.', 0).is_none() {
            return None;
        }
        let major_part = take_before(&version, '.');
        let rest = take_after(&version, '.');
        let second = take_before(&rest, '.');
        let minor_part = take_before(&second, '+');
        let major = match parse_u32_chars(&major_part) {
            Ok(v) => v,
            Err(_) => {
                return None;
            },
        };
        let minor = match parse_u32_chars(&minor_part) {
            Ok(v) => v,
            Err(_) => {
                return None;
            },
        };
        proof {
            lemma_parse_unsigned_bound(major_part@, u32::MAX as nat);
            lemma_parse_unsigned_bound(minor_part@, u32::MAX as nat);
        }
        Some((major, minor))
    }
}

proof fn lemma_trim_start_char_suffix(s: Seq<char>, c: char, k: int)
    requires
        0 <= k <= s.len(),
        forall|j: int| 0 <= j < k ==> s[j] == c,
    ensures
        trim_start_char(s, c) == trim_start_char(s.subrange(k, s.len() as int), c),
    decreases k,
{
    if k > 0 {
        assert(s.drop_first() == s.subrange(1, s.len() as int));
        lemma_trim_start_char_suffix(s.drop_first(), c, k - 1);
        assert(s.drop_first().subrange(k - 1, s.drop_first().len() as int) == s.subrange(
            k,
            s.len() as int,
        ));
    } else {
        assert(s.subrange(0, s.len() as int) == s);
    }
}

/// A version is at least `major.minor` exactly when it is not below it.
pub proof fn law_at_least_iff_not_less_than(v: K8sVersion, major: u32, minor: u32)
    ensures
        version_at_least(v.major as nat, v.minor as nat, major as nat, minor as nat)
            <==> !version_less_than(v.major as nat, v.minor as nat, major as nat, minor as nat),
{
}

/// Every version is at least itself and not below itself.
pub proof fn law_version_reflexive(v: K8sVersion)
    ensures
        version_at_least(v.major as nat, v.minor as nat, v.major as nat, v.minor as nat),
        !version_less_than(v.major as nat, v.minor as nat, v.major as nat, v.minor as nat),
{
}

proof fn lemma_no_char_in_digits(s: Seq<char>, c: char)
    requires
        !is_digit(c),
        forall|i: int| 0 <= i < s.len() ==> is_digit(#[trigger] s[i]),
    ensures
        find_char(s, c) is None,
        before_char(s, c) == s,
{
    lemma_find_char(s, c);
    if find_char(s, c) is Some {
        let i = find_char(s, c)->0;
        assert(is_digit(s[i]));
    }
}

/// The short version string parses back, as a git version, to the same major
/// and minor.
pub proof fn law_short_version_round_trip(major: u32, minor: u32)
    ensures
        git_version_numbers(decimal(major as nat) + seq!['.'] + decimal(minor as nat)) == Some(
            (major as nat, minor as nat),
        ),
{
    let a = decimal(major as nat);
    let b = decimal(minor as nat);
    let s = a + seq!['.'] + b;
    lemma_decimal_digits(major as nat);
    lemma_decimal_digits(minor as nat);
    assert(s[0] == a[0]);
    assert(is_digit(a[0]));
    assert(trim_start_char(s, 'v') == s);
    lemma_no_char_in_digits(a, '.');
    lemma_no_char_in_digits(b, '.');
    lemma_no_char_in_digits(b, '+');
    assert(s =~= a + (seq!['.'] + b));
    lemma_find_char_concat(a, seq!['.'] + b, '.');
    assert(find_char(seq!['.'] + b, '.') == Some(0int));
    assert(find_char(s, '.') == Some(a.len() as int));
    assert(before_char(s, '.') =~= a);
    assert(after_char(s, '.') =~= b);
    lemma_parse_decimal(major as nat, u32::MAX as nat);
    lemma_parse_decimal(minor as nat, u32::MAX as nat);
}

/// A full git version "v<major>.<minor>.<patch>" parses to its major and
/// minor.
pub proof fn law_git_version_round_trip(major: u32, minor: u32, patch: u32)
    ensures
        git_version_numbers(
            seq!['v'] + decimal(major as nat) + seq!['.'] + decimal(minor as nat) + seq!['.'] + decimal(patch as nat),
        ) == Some((major as nat, minor as nat)),
{
    let a = decimal(major as nat);
    let b = decimal(minor as nat);
    let c = decimal(patch as nat);
    let rest = a + seq!['.'] + b + seq!['.'] + c;
    let s = seq!['v'] + a + seq!['.'] + b + seq!['.'] + c;
    lemma_decimal_digits(major as nat);
    lemma_decimal_digits(minor as nat);
    lemma_decimal_digits(patch as nat);
    assert(s =~= seq!['v'] + rest);
    assert(s.drop_first() =~= rest);
    assert(rest[0] == a[0]);
    assert(is_digit(a[0]));
    assert(trim_start_char(rest, 'v') == rest);
    assert(trim_start_char(s, 'v') == rest);
    lemma_no_char_in_digits(a, '.');
    lemma_no_char_in_digits(b, '.');
    lemma_no_char_in_digits(b, '+');
    let tail = b + seq!['.'] + c;
    assert(rest =~= a + (seq!['.'] + tail));
    lemma_find_char_concat(a, seq!['.'] + tail, '.');
    assert(find_char(seq!['.'] + tail, '.') == Some(0int));
    assert(find_char(rest, '.') == Some(a.len() as int));
    assert(before_char(rest, '.') =~= a);
    assert(after_char(rest, '.') =~= tail);
    assert(tail =~= b + (seq!['.'] + c));
    lemma_find_char_concat(b, seq!['.'] + c, '.');
    assert(find_char(seq!['.'] + c, '.') == Some(0int));
    assert(find_char(tail, '.') == Some(b.len() as int));
    assert(before_char(tail, '.') =~= b);
    lemma_parse_decimal(major as nat, u32::MAX as nat);
    lemma_parse_decimal(minor as nat, u32::MAX as nat);
}

/// The display text of each kind of integer parse failure.
pub fn int_error_text(e: IntParseError) -> (r: &'static str)
    ensures
        r@ == int_error_message(e),
{
    match e {
        IntParseError::Empty => {
            proof {
                reveal_strlit("cannot parse integer from empty string");
            }
            "cannot parse integer from empty string"
        },
        IntParseError::InvalidDigit => {
            proof {
                reveal_strlit("invalid digit found in string");
            }
            "invalid digit found in string"
        },
        IntParseError::PosOverflow => {
            proof {
                reveal_strlit("number too large to fit in target type");
            }
            "number too large to fit in target type"
        },
    }
}

} // verus!
