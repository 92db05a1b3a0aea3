//! Resource quantities for metrics: CPU and memory parsing, byte formatting.

use crate::text::{is_digit, lemma_decimal_digits, lemma_parse_decimal, lemma_parse_unsigned_bound, decimal, decimal_chars, parse_unsigned, parse_unsigned_chars, string_from_chars, chars_of, push_all};
use vstd::prelude::*;

verus! {

/// Node metrics.
#[derive(Debug, Clone)]
pub struct NodeMetrics {
    /// Node name.
    pub name: String,
    /// CPU allocatable in millicores.
    pub cpu_allocatable: u64,
    /// Memory allocatable in bytes.
    pub memory_allocatable: u64,
    /// CPU usage in millicores (if available).
    pub cpu_usage: Option<u64>,
    /// Memory usage in bytes (if available).
    pub memory_usage: Option<u64>,
    /// CPU usage percentage (if available).
    pub cpu_percent: Option<u32>,
    /// Memory usage percentage (if available).
    pub memory_percent: Option<u32>,
}

/// Pod metrics.
#[derive(Debug, Clone)]
pub struct PodMetrics {
    /// Pod name.
    pub name: String,
    /// Pod namespace.
    pub namespace: String,
    /// CPU usage in millicores (if available).
    pub cpu_usage: Option<u64>,
    /// Memory usage in bytes (if available).
    pub memory_usage: Option<u64>,
}

/// Whether `s` ends with `p`.
pub open spec fn ends_with(s: Seq<char>, p: Seq<char>) -> bool {
    s.len() >= p.len() && s.subrange(s.len() - p.len(), s.len() as int) == p
}

/// `s` with every trailing repetition of the non-empty pattern `p` removed,
/// as `str::trim_end_matches` does.
pub open spec fn trim_end_pattern(s: Seq<char>, p: Seq<char>) -> Seq<char>
    decreases s.len(),
{
    if p.len() > 0 && ends_with(s, p) {
        trim_end_pattern(s.subrange(0, s.len() - p.len()), p)
    } else {
        s
    }
}

/// A `u64` parse of `s`, or zero when it fails.
pub open spec fn parse_u64_or_zero(s: Seq<char>) -> nat {
    match parse_unsigned(s, u64::MAX as nat) {
        Ok(v) => v,
        Err(_) => 0,
    }
}

/// CPU quantity in millicores: empty is 0; `n` (nanocores) divides by a
/// million; `u` (microcores) by a thousand; `m` is millicores. A plain number
/// of cores is `None` here: it is read as a floating-point number.
pub open spec fn cpu_millicores(s: Seq<char>) -> Option<nat> {
    if s.len() == 0 {
        Some(0)
    } else if ends_with(s, seq!['n']) {
        Some(parse_u64_or_zero(trim_end_pattern(s, seq!['n'])) / 1_000_000)
    } else if ends_with(s, seq!['u']) {
        Some(parse_u64_or_zero(trim_end_pattern(s, seq!['u'])) / 1_000)
    } else if ends_with(s, seq!['m']) {
        Some(parse_u64_or_zero(trim_end_pattern(s, seq!['m'])))
    } else {
        None
    }
}

/// Memory quantity in bytes: binary suffixes `Ki`, `Mi`, `Gi`, decimal
/// suffixes `K`, `M`, `G`, otherwise a plain number of bytes; text that does
/// not parse counts as 0.
pub open spec fn memory_bytes(s: Seq<char>) -> nat {
    if s.len() == 0 {
        0
    } else if ends_with(s, "Ki"@) {
        parse_u64_or_zero(trim_end_pattern(s, "Ki"@)) * 1024
    } else if ends_with(s, "Mi"@) {
        parse_u64_or_zero(trim_end_pattern(s, "Mi"@)) * 1024 * 1024
    } else if ends_with(s, "Gi"@) {
        parse_u64_or_zero(trim_end_pattern(s, "Gi"@)) * 1024 * 1024 * 1024
    } else if ends_with(s, seq!['K']) {
        parse_u64_or_zero(trim_end_pattern(s, seq!['K'])) * 1000
    } else if ends_with(s, seq!['M']) {
        parse_u64_or_zero(trim_end_pattern(s, seq!['M'])) * 1000 * 1000
    } else if ends_with(s, seq!['G']) {
        parse_u64_or_zero(trim_end_pattern(s, seq!['G'])) * 1000 * 1000 * 1000
    } else {
        parse_u64_or_zero(s)
    }
}

/// Human-readable bytes: whole Gi, Mi or Ki when at least one such unit,
/// otherwise bytes with a `B`.
pub open spec fn bytes_text(bytes: nat) -> Seq<char> {
    let kb: nat = 1024;
    let mb: nat = kb * 1024;
    let gb: nat = mb * 1024;
    if bytes >= gb {
        decimal(bytes / gb) + "Gi"@
    } else if bytes >= mb {
        decimal(bytes / mb) + "Mi"@
    } else if bytes >= kb {
        decimal(bytes / kb) + "Ki"@
    } else {
        decimal(bytes) + seq!['B']
    }
}

/// Whether `s` ends with `p`.
pub fn ends_with_chars(s: &Vec<char>, p: &Vec<char>) -> (r: bool)
    ensures
        r == ends_with(s@, p@),
{
    if s.len() < p.len() {
        return false;
    }
    let off = s.len() - p.len();
    let mut i: usize = 0;
    while i < p.len()
        invariant
            off + p.len() == s.len(),
            i <= p.len(),
            forall|j: int| 0 <= j < i ==> s@[off + j] == p@[j],
        decreases p.len() - i,
    {
        if s[off + i] != p[i] {
            assert(s@.subrange(off as int, s@.len() as int)[i as int] != p@[i as int]);
            return false;
        }
        i = i + 1;
    }
    assert(s@.subrange(off as int, s@.len() as int) =~= p@);
    true
}

/// `s` with every trailing repetition of `p` removed.
pub fn trim_end_chars(s: &Vec<char>, p: &Vec<char>) -> (r: Vec<char>)
    requires
        p.len() > 0,
    ensures
        r@ == trim_end_pattern(s@, p@),
    decreases s.len(),
{
    if ends_with_chars(s, p) {
        let mut t = Vec::new();
        let n = s.len() - p.len();
        let mut i: usize = 0;
        while i < n
            invariant
                i <= n,
                n <= s.len(),
                t@ == s@.subrange(0, i as int),
            decreases n - i,
        {
            t.push(s[i]);
            i = i + 1;
            assert(t@ =~= s@.subrange(0, i as int));
        }
        trim_end_chars(&t, p)
    } else {
        let mut t = Vec::new();
        let mut i: usize = 0;
        while i < s.len()
            invariant
                i <= s.len(),
                t@ == s@.subrange(0, i as int),
            decreases s.len() - i,
        {
            t.push(s[i]);
            i = i + 1;
            assert(t@ =~= s@.subrange(0, i as int));
        }
        assert(t@ =~= s@);
        t
    }
}

/// A `u64` parse never passes `u64::MAX`.
pub proof fn lemma_parse_u64_or_zero_bound(s: Seq<char>)
    ensures
        parse_u64_or_zero(s) <= u64::MAX,
{
    lemma_parse_unsigned_bound(s, u64::MAX as nat);
}

/// A number written in decimal with a suffix of one or two letters keeps its
/// decimal digits once the suffix is trimmed.
proof fn lemma_trim_suffix(n: nat, p: Seq<char>)
    requires
        p.len() > 0,
        !is_digit(p.last()),
    ensures
        ends_with(decimal(n) + p, p),
        trim_end_pattern(decimal(n) + p, p) == decimal(n),
{
    let d = decimal(n);
    lemma_decimal_digits(n);
    let s = d + p;
    assert(s.subrange(s.len() - p.len(), s.len() as int) =~= p);
    assert(s.subrange(0, s.len() - p.len()) =~= d);
    assert(!ends_with(d, p)) by {
        if ends_with(d, p) {
            assert(d.subrange(d.len() - p.len(), d.len() as int).last() == d.last());
            assert(is_digit(d.last()));
        }
    }
    assert(trim_end_pattern(d, p) == d);
    assert(trim_end_pattern(s, p) == trim_end_pattern(s.subrange(0, s.len() - p.len()), p));
}

/// Whether `s` ends with a character other than `c`.
proof fn lemma_not_ends_with(s: Seq<char>, p: Seq<char>)
    requires
        s.len() > 0,
        p.len() > 0,
        s.last() != p.last(),
    ensures
        !ends_with(s, p),
{
    if ends_with(s, p) {
        assert(s.subrange(s.len() - p.len(), s.len() as int).last() == s.last());
    }
}

/// The units of a memory quantity: a decimal number of bytes means itself,
/// and the suffixes `Ki`, `Mi`, `Gi`, `K`, `M` and `G` multiply it by 1024,
/// 1024², 1024³, 1000, 1000² and 1000³.
pub proof fn law_memory_units(n: nat)
    requires
        n <= u64::MAX,
    ensures
        memory_bytes(decimal(n)) == n,
        memory_bytes(decimal(n) + "Ki"@) == n * 1024,
        memory_bytes(decimal(n) + "Mi"@) == n * 1024 * 1024,
        memory_bytes(decimal(n) + "Gi"@) == n * 1024 * 1024 * 1024,
        memory_bytes(decimal(n) + "K"@) == n * 1000,
        memory_bytes(decimal(n) + "M"@) == n * 1000 * 1000,
        memory_bytes(decimal(n) + "G"@) == n * 1000 * 1000 * 1000,
{
    let d = decimal(n);
    reveal_strlit("Ki");
    reveal_strlit("Mi");
    reveal_strlit("Gi");
    reveal_strlit("K");
    reveal_strlit("M");
    reveal_strlit("G");
    lemma_decimal_digits(n);
    lemma_parse_decimal(n, u64::MAX as nat);
    assert(is_digit(d.last()));
    lemma_not_ends_with(d, "Ki"@);
    lemma_not_ends_with(d, "Mi"@);
    lemma_not_ends_with(d, "Gi"@);
    lemma_not_ends_with(d, seq!['K']);
    lemma_not_ends_with(d, seq!['M']);
    lemma_not_ends_with(d, seq!['G']);
    lemma_trim_suffix(n, "Ki"@);
    lemma_trim_suffix(n, "Mi"@);
    lemma_trim_suffix(n, "Gi"@);
    assert("K"@ =~= seq!['K']);
    assert("M"@ =~= seq!['M']);
    assert("G"@ =~= seq!['G']);
    lemma_trim_suffix(n, seq!['K']);
    lemma_trim_suffix(n, seq!['M']);
    lemma_trim_suffix(n, seq!['G']);
    let k = d + seq!['K'];
    let m = d + seq!['M'];
    let g = d + seq!['G'];
    assert(k.last() == 'K' && m.last() == 'M' && g.last() == 'G');
    lemma_not_ends_with(k, "Ki"@);
    lemma_not_ends_with(k, "Mi"@);
    lemma_not_ends_with(k, "Gi"@);
    lemma_not_ends_with(m, "Ki"@);
    lemma_not_ends_with(m, "Mi"@);
    lemma_not_ends_with(m, "Gi"@);
    lemma_not_ends_with(m, seq!['K']);
    lemma_not_ends_with(g, "Ki"@);
    lemma_not_ends_with(g, "Mi"@);
    lemma_not_ends_with(g, "Gi"@);
    lemma_not_ends_with(g, seq!['K']);
    lemma_not_ends_with(g, seq!['M']);
    let mi = d + "Mi"@;
    let gi = d + "Gi"@;
    assert(mi.last() == 'i' && mi[mi.len() - 2] == 'M');
    assert(gi.last() == 'i' && gi[gi.len() - 2] == 'G');
    assert(!ends_with(mi, "Ki"@)) by {
        if ends_with(mi, "Ki"@) {
            assert(mi.subrange(mi.len() - 2, mi.len() as int)[0] == mi[mi.len() - 2]);
        }
    }
    assert(!ends_with(gi, "Ki"@)) by {
        if ends_with(gi, "Ki"@) {
            assert(gi.subrange(gi.len() - 2, gi.len() as int)[0] == gi[gi.len() - 2]);
        }
    }
    assert(!ends_with(gi, "Mi"@)) by {
        if ends_with(gi, "Mi"@) {
            assert(gi.subrange(gi.len() - 2, gi.len() as int)[0] == gi[gi.len() - 2]);
        }
    }
}

/// Bytes are shown in the largest binary unit of which there is at least
/// one whole: below 1024 as bytes, then whole Ki below 1024², whole Mi below
/// 1024³, and whole Gi from there; so the number shown is never 0 for a
/// non-zero count.
pub proof fn law_bytes_units(bytes: nat)
    ensures
        bytes < 1024 ==> bytes_text(bytes) == decimal(bytes) + "B"@,
        1024 <= bytes < 1024 * 1024 ==> bytes_text(bytes) == decimal(bytes / 1024) + "Ki"@ && bytes / 1024 >= 1,
        1024 * 1024 <= bytes < 1024 * 1024 * 1024 ==> bytes_text(bytes) == decimal(bytes / (1024 * 1024)) + "Mi"@
            && bytes / (1024 * 1024) >= 1,
        1024 * 1024 * 1024 <= bytes ==> bytes_text(bytes) == decimal(bytes / (1024 * 1024 * 1024)) + "Gi"@ && bytes
            / (1024 * 1024 * 1024) >= 1,
{
    reveal_strlit("B");
    assert("B"@ =~= seq!['B']);
}

proof fn lemma_fits(x: nat, k: nat)
    requires
        k > 0,
    ensures
        (x <= u64::MAX as nat / k) == (x * k <= u64::MAX),
{
    assert((x <= u64::MAX as nat / k) == (x * k <= u64::MAX)) by (nonlinear_arith)
        requires
            k > 0,
    {
    }
}

fn parse_u64_or_zero_chars(s: &Vec<char>) -> (r: u64)
    ensures
        r == parse_u64_or_zero(s@),
{
    match parse_unsigned_chars(s.as_slice(), u64::MAX) {
        Ok(v) => v,
        Err(_) => 0,
    }
}

fn suffix_trimmed(s: &Vec<char>, p: &str) -> (r: Option<u64>)
    requires
        p@.len() > 0,
    ensures
        ends_with(s@, p@) ==> (r matches Some(x) && x == parse_u64_or_zero(trim_end_pattern(s@, p@))),
        !ends_with(s@, p@) ==> r is None,
{
    let pv = chars_of(p);
    if ends_with_chars(s, &pv) {
        let t = trim_end_chars(s, &pv);
        Some(parse_u64_or_zero_chars(&t))
    } else {
        None
    }
}

/// Parses a CPU quantity into millicores. `None` means a plain number of
/// cores, which is read as a floating-point number and multiplied by 1000.
pub fn parse_cpu(s: &str) -> (r: Option<u64>)
    ensures
        match cpu_millicores(s@) {
            Some(m) => r matches Some(x) && x == m,
            None => r is None,
        },
{
    let v = chars_of(s);
    if v.len() == 0 {
        return Some(0);
    }
    proof {
        reveal_strlit("n");
        reveal_strlit("u");
        reveal_strlit("m");
    }
    assert("n"@ =~= seq!['n']);
    assert("u"@ =~= seq!['u']);
    assert("m"@ =~= seq!['m']);
    if let Some(x) = suffix_trimmed(&v, "n") {
        return Some(x / 1_000_000);
    }
    if let Some(x) = suffix_trimmed(&v, "u") {
        return Some(x / 1_000);
    }
    if let Some(x) = suffix_trimmed(&v, "m") {
        return Some(x);
    }
    None
}

/// Whether a memory quantity's byte count fits in a `u64`.
pub fn memory_fits(s: &str) -> (r: bool)
    ensures
        r == (memory_bytes(s@) <= u64::MAX),
{
    let v = chars_of(s);
    if v.len() == 0 {
        return true;
    }
    proof {
        reveal_strlit("Ki");
        reveal_strlit("Mi");
        reveal_strlit("Gi");
        reveal_strlit("K");
        reveal_strlit("M");
        reveal_strlit("G");
    }
    assert("K"@ =~= seq!['K']);
    assert("M"@ =~= seq!['M']);
    assert("G"@ =~= seq!['G']);
    if let Some(x) = suffix_trimmed(&v, "Ki") {
        proof {
            lemma_fits(x as nat, 1024);
            assert(x * 1024 == x * 1024);
        }
        return x <= u64::MAX / 1024;
    }
    if let Some(x) = suffix_trimmed(&v, "Mi") {
        proof {
            lemma_fits(x as nat, 1048576);
            assert(x * 1024 * 1024 == x * 1048576);
        }
        return x <= u64::MAX / (1024 * 1024);
    }
    if let Some(x) = suffix_trimmed(&v, "Gi") {
        proof {
            lemma_fits(x as nat, 1073741824);
            assert(x * 1024 * 1024 * 1024 == x * 1073741824);
        }
        return x <= u64::MAX / (1024 * 1024 * 1024);
    }
    if let Some(x) = suffix_trimmed(&v, "K") {
        proof {
            lemma_fits(x as nat, 1000);
            assert(x * 1000 == x * 1000);
        }
        return x <= u64::MAX / 1000;
    }
    if let Some(x) = suffix_trimmed(&v, "M") {
        proof {
            lemma_fits(x as nat, 1000000);
            assert(x * 1000 * 1000 == x * 1000000);
        }
        return x <= u64::MAX / (1000 * 1000);
    }
    if let Some(x) = suffix_trimmed(&v, "G") {
        proof {
            lemma_fits(x as nat, 1000000000);
            assert(x * 1000 * 1000 * 1000 == x * 1000000000);
        }
        return x <= u64::MAX / (1000 * 1000 * 1000);
    }
    proof {
        lemma_parse_u64_or_zero_bound(s@);
    }
    true
}

/// Parses a memory quantity into bytes. Byte counts past `u64::MAX`
/// overflow; `memory_fits` tells them apart.
pub fn parse_memory(s: &str) -> (r: u64)
    requires
        memory_bytes(s@) <= u64::MAX,
    ensures
        r == memory_bytes(s@),
{
    let v = chars_of(s);
    if v.len() == 0 {
        return 0;
    }
    proof {
        reveal_strlit("Ki");
        reveal_strlit("Mi");
        reveal_strlit("Gi");
        reveal_strlit("K");
        reveal_strlit("M");
        reveal_strlit("G");
    }
    assert("K"@ =~= seq!['K']);
    assert("M"@ =~= seq!['M']);
    assert("G"@ =~= seq!['G']);
    if let Some(x) = suffix_trimmed(&v, "Ki") {
        return x * 1024;
    }
    if let Some(x) = suffix_trimmed(&v, "Mi") {
        return x * 1024 * 1024;
    }
    if let Some(x) = suffix_trimmed(&v, "Gi") {
        return x * 1024 * 1024 * 1024;
    }
    if let Some(x) = suffix_trimmed(&v, "K") {
        return x * 1000;
    }
    if let Some(x) = suffix_trimmed(&v, "M") {
        return x * 1000 * 1000;
    }
    if let Some(x) = suffix_trimmed(&v, "G") {
        return x * 1000 * 1000 * 1000;
    }
    parse_u64_or_zero_chars(&v)
}

/// Formats a byte count in human-readable binary units.
pub fn format_bytes(bytes: u64) -> (r: String)
    ensures
        r@ == bytes_text(bytes as nat),
{
    let kb: u64 = 1024;
    let mb: u64 = kb * 1024;
    let gb: u64 = mb * 1024;
    let (n, unit) = if bytes >= gb {
        (bytes / gb, "Gi")
    } else if bytes >= mb {
        (bytes / mb, "Mi")
    } else if bytes >= kb {
        (bytes / kb, "Ki")
    } else {
        (bytes, "B")
    };
    proof {
        reveal_strlit("B");
    }
    assert("B"@ =~= seq!['B']);
    let mut v = decimal_chars(n);
    push_all(&mut v, unit);
    string_from_chars(v.as_slice())
}

} // verus!
