//! Text helpers: decimal rendering, integer parsing and a few std string calls.

use vstd::prelude::*;

verus! {

/// The lowercase form of a string as `str::to_lowercase` computes it.
pub uninterp spec fn lowercase(s: Seq<char>) -> Seq<char>;

/// Whether every character of `s` is ASCII.
pub open spec fn is_ascii_text(s: Seq<char>) -> bool {
    forall|i: int| 0 <= i < s.len() ==> (#[trigger] s[i] as u32) < 128
}

/// The ASCII lowercase form of a character: `A`..`Z` become `a`..`z`.
pub open spec fn ascii_lower_char(c: char) -> char {
    if 'A' <= c && c <= 'Z' {
        ((c as u32) + 32) as char
    } else {
        c
    }
}

/// The ASCII lowercase form of a string.
pub open spec fn ascii_lower(s: Seq<char>) -> Seq<char> {
    s.map_values(|c: char| ascii_lower_char(c))
}

/// The key a name is compared under without regard to case: its lowercase
/// form, which for ASCII text is its ASCII lowercase form.
pub open spec fn lower_key(s: Seq<char>) -> Seq<char> {
    if is_ascii_text(s) {
        ascii_lower(s)
    } else {
        lowercase(s)
    }
}

/// ASCII names that differ only in letter case have the same key, and the
/// key of a name's ASCII lowercase form is that form itself.
pub proof fn law_ascii_case_ignored(a: Seq<char>, b: Seq<char>)
    requires
        is_ascii_text(a),
        is_ascii_text(b),
        ascii_lower(a) == ascii_lower(b),
    ensures
        lower_key(a) == lower_key(b),
        lower_key(ascii_lower(a)) == lower_key(a),
{
    let l = ascii_lower(a);
    assert forall|i: int| 0 <= i < l.len() implies (#[trigger] l[i] as u32) < 128 by {
        assert(l[i] == ascii_lower_char(a[i]));
        assert((a[i] as u32) < 128);
    }
    assert(ascii_lower(l) =~= l);
}

/// Whether `c` is an ASCII decimal digit.
pub open spec fn is_digit(c: char) -> bool {
    '0' <= c && c <= '9'
}

/// The value of an ASCII decimal digit.
pub open spec fn digit_value(c: char) -> nat {
    (c as int - '0' as int) as nat
}

/// The ASCII digit for a value below ten.
pub open spec fn digit_char(d: nat) -> char {
    (d + '0' as nat) as char
}

/// The decimal representation of a natural number, without leading zeros.
pub open spec fn decimal(n: nat) -> Seq<char>
    decreases n,
{
    if n < 10 {
        seq![digit_char(n)]
    } else {
        decimal(n / 10).push(digit_char(n % 10))
    }
}

/// The decimal representation of an integer, with a leading `-` when negative.
pub open spec fn signed_decimal(i: int) -> Seq<char> {
    if i < 0 {
        seq!['-'] + decimal((-i) as nat)
    } else {
        decimal(i as nat)
    }
}

/// Why an integer could not be parsed, as `core::num::IntErrorKind` names it.
#[derive(Debug, Clone, Copy, PartialEq, Eq)]
pub enum IntParseError {
    Empty,
    InvalidDigit,
    PosOverflow,
}

/// Digits read left to right onto `acc`, failing on a non-digit or when the
/// value passes `max`: the order in which std checks each character.
pub open spec fn scan_digits(d: Seq<char>, acc: nat, max: nat) -> Result<nat, IntParseError>
    decreases d.len(),
{
    if d.len() == 0 {
        Ok(acc)
    } else if !is_digit(d[0]) {
        Err(IntParseError::InvalidDigit)
    } else if acc * 10 + digit_value(d[0]) > max {
        Err(IntParseError::PosOverflow)
    } else {
        scan_digits(d.drop_first(), acc * 10 + digit_value(d[0]), max)
    }
}

/// What `str::parse` gives for an unsigned integer type whose largest value is
/// `max`: an optional leading `+`, then one or more ASCII digits.
pub open spec fn parse_unsigned(s: Seq<char>, max: nat) -> Result<nat, IntParseError> {
    if s.len() == 0 {
        Err(IntParseError::Empty)
    } else if s.len() == 1 && (s[0] == '+' || s[0] == '-') {
        Err(IntParseError::InvalidDigit)
    } else if s[0] == '+' {
        scan_digits(s.drop_first(), 0, max)
    } else {
        scan_digits(s, 0, max)
    }
}

/// The message that `ParseIntError` displays for each kind.
pub open spec fn int_error_message(e: IntParseError) -> Seq<char> {
    match e {
        IntParseError::Empty => "cannot parse integer from empty string"@,
        IntParseError::InvalidDigit => "invalid digit found in string"@,
        IntParseError::PosOverflow => "number too large to fit in target type"@,
    }
}

/// Compares two string slices for equality.
#[verifier::external_body]
pub(crate) fn str_eq(a: &str, b: &str) -> (r: bool)
    ensures
        r == (a@ == b@),
{
    a == b
}

/// `str::to_lowercase`, whose result the spec function `lowercase` names;
/// on ASCII text it maps `A`..`Z` to `a`..`z` and keeps every other
/// character, as its documentation states.
#[verifier::external_body]
pub(crate) fn to_lowercase(s: &str) -> (r: String)
    ensures
        r@ == lowercase(s@),
        is_ascii_text(s@) ==> r@ == ascii_lower(s@),
{
    s.to_lowercase()
}

/// The characters of a string slice, collected by `str::chars`.
#[verifier::external_body]
pub(crate) fn chars_of(s: &str) -> (r: Vec<char>)
    ensures
        r@ == s@,
{
    s.chars().collect()
}

/// A `String` made of the given characters, collected by `FromIterator<char>`.
#[verifier::external_body]
pub(crate) fn string_from_chars(v: &[char]) -> (r: String)
    ensures
        r@ == v@,
{
    v.iter().collect()
}

/// A `String` holding a copy of a string slice, by `str::to_string`.
#[verifier::external_body]
pub(crate) fn owned(s: &str) -> (r: String)
    ensures
        r@ == s@,
{
    s.to_string()
}

/// A new `String` holding `a` followed by `b`.
pub fn concat2(a: &str, b: &str) -> (r: String)
    ensures
        r@ == a@ + b@,
{
    let mut v = chars_of(a);
    let w = chars_of(b);
    let mut i: usize = 0;
    while i < w.len()
        invariant
            i <= w.len(),
            w@ == b@,
            v@ == a@ + b@.subrange(0, i as int),
        decreases w.len() - i,
    {
        v.push(w[i]);
        i = i + 1;
        assert(b@.subrange(0, i as int) == b@.subrange(0, (i - 1) as int).push(b@[i - 1]));
    }
    assert(b@.subrange(0, b@.len() as int) == b@);
    string_from_chars(v.as_slice())
}

/// Appends the characters of `b` to the vector `v`.
pub fn push_all(v: &mut Vec<char>, b: &str)
    ensures
        final(v)@ == old(v)@ + b@,
{
    let w = chars_of(b);
    let mut i: usize = 0;
    while i < w.len()
        invariant
            i <= w.len(),
            w@ == b@,
            v@ == old(v)@ + b@.subrange(0, i as int),
        decreases w.len() - i,
    {
        v.push(w[i]);
        i = i + 1;
        assert(b@.subrange(0, i as int) == b@.subrange(0, (i - 1) as int).push(b@[i - 1]));
    }
    assert(b@.subrange(0, b@.len() as int) == b@);
}

/// The decimal digits of `n`.
pub fn decimal_chars(n: u64) -> (r: Vec<char>)
    ensures
        r@ == decimal(n as nat),
    decreases n,
{
    if n < 10 {
        let c = ((n as u32) + ('0' as u32)) as u8 as char;
        assert(c == digit_char(n as nat)) by {
            assert(n as u32 + '0' as u32 == n + 48);
        }
        let mut v = Vec::new();
        v.push(c);
        assert(v@ == seq![digit_char(n as nat)]);
        v
    } else {
        let mut v = decimal_chars(n / 10);
        let d = n % 10;
        let c = ((d as u32) + ('0' as u32)) as u8 as char;
        assert(c == digit_char(d as nat));
        v.push(c);
        v
    }
}

/// `n` written in decimal.
pub fn u64_to_string(n: u64) -> (r: String)
    ensures
        r@ == decimal(n as nat),
{
    let v = decimal_chars(n);
    string_from_chars(v.as_slice())
}

/// `i` written in decimal, with a leading `-` when negative.
pub fn i64_to_string(i: i64) -> (r: String)
    ensures
        r@ == signed_decimal(i as int),
{
    if i < 0 {
        let m: u64 = if i == i64::MIN {
            9223372036854775808u64
        } else {
            (-i) as u64
        };
        let mut v = Vec::new();
        v.push('-');
        let d = decimal_chars(m);
        let mut k: usize = 0;
        while k < d.len()
            invariant
                k <= d.len(),
                d@ == decimal(m as nat),
                v@ == seq!['-'] + d@.subrange(0, k as int),
            decreases d.len() - k,
        {
            v.push(d[k]);
            k = k + 1;
            assert(d@.subrange(0, k as int) == d@.subrange(0, (k - 1) as int).push(d@[k - 1]));
        }
        assert(d@.subrange(0, d@.len() as int) == d@);
        string_from_chars(v.as_slice())
    } else {
        u64_to_string(i as u64)
    }
}

/// Parses an unsigned decimal integer no larger than `max` as `str::parse` does.
pub fn parse_unsigned_chars(s: &[char], max: u64) -> (r: Result<u64, IntParseError>)
    requires
        max >= 9,
    ensures
        match parse_unsigned(s@, max as nat) {
            Ok(v) => v <= max && r == Ok::<u64, IntParseError>(v as u64),
            Err(e) => r == Err::<u64, IntParseError>(e),
        },
{
    if s.len() == 0 {
        return Err(IntParseError::Empty);
    }
    if s.len() == 1 && (s[0] == '+' || s[0] == '-') {
        return Err(IntParseError::InvalidDigit);
    }
    let start: usize = if s[0] == '+' { 1 } else { 0 };
    let ghost digits = s@.subrange(start as int, s@.len() as int);
    assert(start == 1 ==> digits == s@.drop_first());
    assert(start == 0 ==> digits == s@);
    let mut acc: u64 = 0;
    let mut i: usize = start;
    while i < s.len()
        invariant
            start <= i <= s.len(),
            max >= 9,
            acc <= max,
            digits == s@.subrange(start as int, s@.len() as int),
            parse_unsigned(s@, max as nat) == scan_digits(digits, 0, max as nat),
            scan_digits(digits, 0, max as nat) == scan_digits(
                s@.subrange(i as int, s@.len() as int),
                acc as nat,
                max as nat,
            ),
        decreases s.len() - i,
    {
        let c = s[i];
        let ghost rest = s@.subrange(i as int, s@.len() as int);
        assert(rest[0] == c);
        assert(rest.drop_first() == s@.subrange(i + 1, s@.len() as int));
        if !('0' <= c && c <= '9') {
            assert(!is_digit(rest[0]));
            assert(scan_digits(rest, acc as nat, max as nat) == Err::<nat, IntParseError>(
                IntParseError::InvalidDigit,
            ));
            return Err(IntParseError::InvalidDigit);
        }
        let d = (c as u32 - '0' as u32) as u64;
        assert(d == digit_value(c));
        if acc > (max - d) / 10 {
            assert(acc * 10 + d > max) by (nonlinear_arith)
                requires
                    acc > (max - d) / 10,
                    d <= 9,
                    d <= max,
            {
            }
            assert(scan_digits(rest, acc as nat, max as nat) == Err::<nat, IntParseError>(
                IntParseError::PosOverflow,
            ));
            return Err(IntParseError::PosOverflow);
        }
        assert(acc * 10 + d <= max) by (nonlinear_arith)
            requires
                acc <= (max - d) / 10,
        {
        }
        acc = acc * 10 + d;
        i = i + 1;
    }
    assert(s@.subrange(s@.len() as int, s@.len() as int).len() == 0);
    assert(scan_digits(s@.subrange(i as int, s@.len() as int), acc as nat, max as nat) == Ok::<
        nat,
        IntParseError,
    >(acc as nat));
    Ok(acc)
}

} // verus!

verus! {

/// Every character of a decimal representation is a digit, and there is at
/// least one.
pub proof fn lemma_decimal_digits(n: nat)
    ensures
        decimal(n).len() > 0,
        forall|i: int| 0 <= i < decimal(n).len() ==> is_digit(#[trigger] decimal(n)[i]),
    decreases n,
{
    if n >= 10 {
        lemma_decimal_digits(n / 10);
    }
}

/// Scanning one more character continues from what the prefix scanned to.
pub proof fn lemma_scan_push(s: Seq<char>, c: char, acc: nat, max: nat)
    ensures
        scan_digits(s.push(c), acc, max) == match scan_digits(s, acc, max) {
            Ok(v) => if !is_digit(c) {
                Err(IntParseError::InvalidDigit)
            } else if v * 10 + digit_value(c) > max {
                Err(IntParseError::PosOverflow)
            } else {
                Ok(v * 10 + digit_value(c))
            },
            Err(e) => Err(e),
        },
    decreases s.len(),
{
    if s.len() == 0 {
        assert(s.push(c)[0] == c);
        assert(s.push(c).drop_first() =~= Seq::<char>::empty());
        reveal_with_fuel(scan_digits, 2);
    } else {
        assert(s.push(c)[0] == s[0]);
        assert(s.push(c).drop_first() =~= s.drop_first().push(c));
        if is_digit(s[0]) && acc * 10 + digit_value(s[0]) <= max {
            lemma_scan_push(s.drop_first(), c, acc * 10 + digit_value(s[0]), max);
        }
    }
}

/// Parsing the decimal representation of a number gives the number back.
pub proof fn lemma_parse_decimal(n: nat, max: nat)
    requires
        n <= max,
    ensures
        scan_digits(decimal(n), 0, max) == Ok::<nat, IntParseError>(n),
        parse_unsigned(decimal(n), max) == Ok::<nat, IntParseError>(n),
    decreases n,
{
    lemma_decimal_digits(n);
    if n < 10 {
        let d = digit_char(n);
        assert(d as int == n + 48);
        assert(digit_value(d) == n);
        assert(decimal(n) == seq![d]);
        assert(decimal(n)[0] == d);
        assert(decimal(n).drop_first() =~= Seq::<char>::empty());
        reveal_with_fuel(scan_digits, 2);
        assert(scan_digits(decimal(n), 0, max) == Ok::<nat, IntParseError>(n));
    } else {
        lemma_parse_decimal(n / 10, max);
        let d = digit_char(n % 10);
        assert(d as int == n % 10 + 48);
        assert(digit_value(d) == n % 10);
        lemma_scan_push(decimal(n / 10), d, 0, max);
        assert((n / 10) * 10 + n % 10 == n);
    }
    assert(is_digit(decimal(n)[0]));
}

} // verus!

verus! {

pub proof fn lemma_scan_bound(d: Seq<char>, acc: nat, max: nat)
    requires
        acc <= max,
    ensures
        scan_digits(d, acc, max) matches Ok(v) ==> v <= max,
    decreases d.len(),
{
    if d.len() > 0 && is_digit(d[0]) && acc * 10 + digit_value(d[0]) <= max {
        lemma_scan_bound(d.drop_first(), acc * 10 + digit_value(d[0]), max);
    }
}

/// A successful parse never exceeds its bound.
pub proof fn lemma_parse_unsigned_bound(s: Seq<char>, max: nat)
    ensures
        parse_unsigned(s, max) matches Ok(v) ==> v <= max,
{
    if s.len() > 0 && s[0] == '+' {
        lemma_scan_bound(s.drop_first(), 0, max);
    } else {
        lemma_scan_bound(s, 0, max);
    }
}

} // verus!

verus! {

/// Index of the first `c` in `s`, or `None`.
pub open spec fn find_char(s: Seq<char>, c: char) -> Option<int>
    decreases s.len(),
{
    if s.len() == 0 {
        None
    } else if s[0] == c {
        Some(0)
    } else {
        match find_char(s.drop_first(), c) {
            Some(i) => Some(i + 1),
            None => None,
        }
    }
}

/// The text of `s` before the first `c` (all of `s` when there is none).
pub open spec fn before_char(s: Seq<char>, c: char) -> Seq<char> {
    match find_char(s, c) {
        Some(i) => s.subrange(0, i),
        None => s,
    }
}

/// The text of `s` after the first `c` (empty when there is none).
pub open spec fn after_char(s: Seq<char>, c: char) -> Seq<char> {
    match find_char(s, c) {
        Some(i) => s.subrange(i + 1, s.len() as int),
        None => Seq::empty(),
    }
}

/// What `find_char` reports: the first occurrence, or that there is none.
pub proof fn lemma_find_char(s: Seq<char>, c: char)
    ensures
        match find_char(s, c) {
            Some(i) => 0 <= i < s.len() && s[i] == c && forall|j: int| 0 <= j < i ==> s[j] != c,
            None => forall|j: int| 0 <= j < s.len() ==> s[j] != c,
        },
    decreases s.len(),
{
    if s.len() > 0 && s[0] != c {
        lemma_find_char(s.drop_first(), c);
        assert forall|j: int| 0 < j < s.len() implies s[j] == s.drop_first()[j - 1] by {}
    }
}

/// Index of the first `c` in `s` at or after `from`.
pub fn find_from(s: &Vec<char>, c: char, from: usize) -> (r: Option<usize>)
    requires
        from <= s.len(),
    ensures
        match find_char(s@.subrange(from as int, s@.len() as int), c) {
            Some(i) => r == Some((from + i) as usize),
            None => r is None,
        },
        r matches Some(j) ==> from <= j < s.len(),
    decreases s.len() - from,
{
    proof {
        lemma_find_char(s@.subrange(from as int, s@.len() as int), c);
    }
    let ghost t = s@.subrange(from as int, s@.len() as int);
    if from == s.len() {
        return None;
    }
    assert(t[0] == s@[from as int]);
    assert(t.drop_first() == s@.subrange(from + 1, s@.len() as int));
    if s[from] == c {
        Some(from)
    } else {
        find_from(s, c, from + 1)
    }
}

/// The characters of `s` from `lo` up to `hi`.
pub fn slice_vec(s: &Vec<char>, lo: usize, hi: usize) -> (r: Vec<char>)
    requires
        lo <= hi <= s.len(),
    ensures
        r@ == s@.subrange(lo as int, hi as int),
{
    let mut r = Vec::new();
    let mut i = lo;
    while i < hi
        invariant
            lo <= i <= hi,
            hi <= s.len(),
            r@ == s@.subrange(lo as int, i as int),
        decreases hi - i,
    {
        r.push(s[i]);
        i = i + 1;
        assert(s@.subrange(lo as int, i as int) == s@.subrange(lo as int, (i - 1) as int).push(
            s@[i - 1],
        ));
    }
    r
}

/// The text before the first `c`, as a vector.
pub fn take_before(s: &Vec<char>, c: char) -> (r: Vec<char>)
    ensures
        r@ == before_char(s@, c),
{
    assert(s@.subrange(0, s@.len() as int) =~= s@);
    proof {
        lemma_find_char(s@, c);
    }
    match find_from(s, c, 0) {
        Some(i) => slice_vec(s, 0, i),
        None => slice_vec(s, 0, s.len()),
    }
}

/// The text after the first `c`, as a vector.
pub fn take_after(s: &Vec<char>, c: char) -> (r: Vec<char>)
    ensures
        r@ == after_char(s@, c),
{
    assert(s@.subrange(0, s@.len() as int) =~= s@);
    proof {
        lemma_find_char(s@, c);
    }
    match find_from(s, c, 0) {
        Some(i) => slice_vec(s, i + 1, s.len()),
        None => {
            let r = Vec::new();
            assert(r@ =~= Seq::<char>::empty());
            r
        },
    }
}

pub proof fn lemma_find_char_concat(a: Seq<char>, b: Seq<char>, c: char)
    requires
        find_char(a, c) is None,
    ensures
        find_char(a + b, c) == match find_char(b, c) {
            Some(i) => Some(a.len() + i),
            None => None::<int>,
        },
    decreases a.len(),
{
    if a.len() == 0 {
        assert(a + b =~= b);
    } else {
        assert((a + b)[0] == a[0]);
        assert((a + b).drop_first() =~= a.drop_first() + b);
        lemma_find_char_concat(a.drop_first(), b, c);
    }
}

} // verus!

verus! {

/// The character sequences of a list of strings.
pub open spec fn strings_view(v: Seq<String>) -> Seq<Seq<char>> {
    v.map_values(|s: String| s@)
}

/// The parts joined with `sep` between each two of them.
pub open spec fn join(parts: Seq<Seq<char>>, sep: Seq<char>) -> Seq<char>
    decreases parts.len(),
{
    if parts.len() == 0 {
        Seq::empty()
    } else if parts.len() == 1 {
        parts[0]
    } else {
        join(parts.drop_last(), sep) + sep + parts.last()
    }
}

/// `parts` joined with `sep`, by a loop.
pub fn join_strings(parts: &Vec<String>, sep: &str) -> (r: String)
    ensures
        r@ == join(strings_view(parts@), sep@),
{
    let mut acc: Vec<char> = Vec::new();
    let mut i: usize = 0;
    while i < parts.len()
        invariant
            i <= parts.len(),
            acc@ == join(strings_view(parts@.subrange(0, i as int)), sep@),
        decreases parts.len() - i,
    {
        let ghost before = acc@;
        if i > 0 {
            push_all(&mut acc, sep);
        }
        push_all(&mut acc, parts[i].as_str());
        i = i + 1;
        proof {
            let s = strings_view(parts@.subrange(0, i as int));
            assert(s.drop_last() =~= strings_view(parts@.subrange(0, i - 1)));
            assert(s.last() == parts@[i - 1]@);
            if i == 1 {
                assert(before =~= Seq::<char>::empty());
                assert(acc@ =~= s[0]);
            } else {
                assert(acc@ =~= before + sep@ + s.last());
            }
        }
    }
    assert(parts@.subrange(0, parts@.len() as int) =~= parts@);
    string_from_chars(acc.as_slice())
}

/// Whether `s` begins with `p`.
pub open spec fn starts_with(s: Seq<char>, p: Seq<char>) -> bool {
    p.len() <= s.len() && s.subrange(0, p.len() as int) == p
}

/// `s` with every leading repetition of the non-empty pattern `p` removed.
pub open spec fn trim_start_pattern(s: Seq<char>, p: Seq<char>) -> Seq<char>
    decreases s.len(),
{
    if p.len() > 0 && starts_with(s, p) {
        trim_start_pattern(s.subrange(p.len() as int, s.len() as int), p)
    } else {
        s
    }
}

/// Whether the characters of `s` from `at` on begin with `p`.
pub fn starts_with_at(s: &Vec<char>, p: &Vec<char>, at: usize) -> (r: bool)
    requires
        at <= s@.len(),
    ensures
        r == starts_with(s@.subrange(at as int, s@.len() as int), p@),
{
    let ghost t = s@.subrange(at as int, s@.len() as int);
    let n = s.len();
    if p.len() > n - at {
        return false;
    }
    let mut i: usize = 0;
    while i < p.len()
        invariant
            n == s@.len(),
            i <= p@.len(),
            at <= s@.len(),
            at + p@.len() <= s@.len(),
            t == s@.subrange(at as int, s@.len() as int),
            forall|j: int| 0 <= j < i ==> t[j] == p@[j],
        decreases p.len() - i,
    {
        assert(at + i < s@.len());
        if s[at + i] != p[i] {
            assert(t.subrange(0, p@.len() as int)[i as int] != p@[i as int]);
            return false;
        }
        i = i + 1;
    }
    assert(t.subrange(0, p@.len() as int) =~= p@);
    true
}

/// `s` with every leading repetition of the non-empty pattern `p` removed.
pub fn trim_start_chars(s: &Vec<char>, p: &Vec<char>) -> (r: Vec<char>)
    requires
        p@.len() > 0,
    ensures
        r@ == trim_start_pattern(s@, p@),
{
    let mut at: usize = 0;
    let n = s.len();
    assert(s@.subrange(0, s@.len() as int) =~= s@);
    while starts_with_at(s, p, at)
        invariant
            n == s@.len(),
            at <= s@.len(),
            p@.len() > 0,
            trim_start_pattern(s@.subrange(at as int, s@.len() as int), p@) == trim_start_pattern(s@, p@),
        decreases s@.len() - at,
    {
        let ghost t = s@.subrange(at as int, s@.len() as int);
        assert(t.len() == s@.len() - at);
        assert(p@.len() <= s@.len() - at);
        assert(t.subrange(p@.len() as int, t.len() as int) =~= s@.subrange(at + p@.len(), s@.len() as int));
        at = at + p.len();
    }
    slice_vec(s, at, s.len())
}

/// The number of bytes of `c` in UTF-8.
pub open spec fn utf8_width(c: char) -> nat {
    if (c as u32) < 0x80 {
        1
    } else if (c as u32) < 0x800 {
        2
    } else if (c as u32) < 0x10000 {
        3
    } else {
        4
    }
}

/// The number of bytes of `s` in UTF-8.
pub open spec fn utf8_len(s: Seq<char>) -> nat
    decreases s.len(),
{
    if s.len() == 0 {
        0
    } else {
        utf8_len(s.drop_last()) + utf8_width(s.last())
    }
}

/// The number of bytes of `c` in UTF-8.
pub fn char_utf8_width(c: char) -> (r: usize)
    ensures
        r == utf8_width(c),
{
    let v = c as u32;
    if v < 0x80 {
        1
    } else if v < 0x800 {
        2
    } else if v < 0x10000 {
        3
    } else {
        4
    }
}

} // verus!

verus! {

/// Whether `a` comes before `b` in the order of `str`'s `Ord`: character by
/// character by code point, a proper prefix first.
pub open spec fn lex_lt(a: Seq<char>, b: Seq<char>) -> bool
    decreases a.len(),
{
    if a.len() == 0 {
        b.len() > 0
    } else if b.len() == 0 {
        false
    } else if (a[0] as int) < (b[0] as int) {
        true
    } else if a[0] == b[0] {
        lex_lt(a.drop_first(), b.drop_first())
    } else {
        false
    }
}

/// The order is transitive.
pub proof fn lemma_lex_lt_transitive(a: Seq<char>, b: Seq<char>, c: Seq<char>)
    requires
        lex_lt(a, b),
        lex_lt(b, c),
    ensures
        lex_lt(a, c),
    decreases a.len(),
{
    if a.len() > 0 && b.len() > 0 && c.len() > 0 && a[0] == b[0] && b[0] == c[0] {
        lemma_lex_lt_transitive(a.drop_first(), b.drop_first(), c.drop_first());
    }
}

/// Of two different texts one comes first, and no text comes before itself.
pub proof fn lemma_lex_lt_total(a: Seq<char>, b: Seq<char>)
    ensures
        a != b ==> (lex_lt(a, b) || lex_lt(b, a)),
        !(lex_lt(a, b) && lex_lt(b, a)),
        !lex_lt(a, a),
    decreases a.len(),
{
    if a.len() > 0 && b.len() > 0 {
        if a[0] == b[0] {
            lemma_lex_lt_total(a.drop_first(), b.drop_first());
            if a.drop_first() == b.drop_first() {
                assert(a =~= seq![a[0]] + a.drop_first());
                assert(b =~= seq![b[0]] + b.drop_first());
            }
        } else {
            assert((a[0] as int) != (b[0] as int));
        }
    }
    if a.len() > 0 {
        lemma_lex_lt_total(a.drop_first(), a.drop_first());
    }
    if a.len() == 0 && b.len() == 0 {
        assert(a =~= b);
    }
}

/// Whether `a` comes before `b`, comparing code points.
pub fn str_lt(a: &str, b: &str) -> (r: bool)
    ensures
        r == lex_lt(a@, b@),
{
    let x = chars_of(a);
    let y = chars_of(b);
    let mut i: usize = 0;
    assert(x@.skip(0) =~= x@);
    assert(y@.skip(0) =~= y@);
    while i < x.len() && i < y.len() && x[i] == y[i]
        invariant
            i <= x@.len(),
            i <= y@.len(),
            x@ == a@,
            y@ == b@,
            lex_lt(a@, b@) == lex_lt(x@.skip(i as int), y@.skip(i as int)),
        decreases x@.len() - i,
    {
        assert(x@.skip(i as int).drop_first() =~= x@.skip(i + 1));
        assert(y@.skip(i as int).drop_first() =~= y@.skip(i + 1));
        i = i + 1;
    }
    if i == x.len() {
        assert(x@.skip(i as int).len() == 0);
        i < y.len()
    } else if i == y.len() {
        assert(y@.skip(i as int).len() == 0);
        false
    } else {
        assert(x@.skip(i as int)[0] == x@[i as int]);
        assert(y@.skip(i as int)[0] == y@[i as int]);
        x[i] < y[i]
    }
}

/// Whether the texts are in strictly increasing order.
pub open spec fn strictly_sorted(v: Seq<Seq<char>>) -> bool {
    forall|i: int, j: int| 0 <= i < j < v.len() ==> lex_lt(#[trigger] v[i], #[trigger] v[j])
}

/// Adds `s` to a strictly sorted list of texts unless it is already there,
/// keeping the list strictly sorted.
pub fn insert_sorted(v: &mut Vec<String>, s: String)
    requires
        strictly_sorted(strings_view(old(v)@)),
    ensures
        strictly_sorted(strings_view(final(v)@)),
        strings_view(final(v)@).to_set() == strings_view(old(v)@).to_set().insert(s@),
{
    let ghost before = strings_view(v@);
    let mut i: usize = 0;
    while i < v.len() && str_lt(v[i].as_str(), s.as_str())
        invariant
            i <= v@.len(),
            strings_view(v@) == before,
            forall|k: int| 0 <= k < i ==> lex_lt(#[trigger] before[k], s@),
        decreases v@.len() - i,
    {
        assert(before[i as int] == v@[i as int]@);
        i = i + 1;
    }
    if i < v.len() && str_eq(v[i].as_str(), s.as_str()) {
        assert(before[i as int] == s@);
        assert(before.to_set().insert(s@) =~= before.to_set()) by {
            assert(before.contains(s@));
        }
        return;
    }
    let ghost t = s@;
    proof {
        if i < v@.len() {
            assert(before[i as int] == v@[i as int]@);
            lemma_lex_lt_total(before[i as int], t);
            assert(lex_lt(t, before[i as int]));
            assert forall|k: int| i <= k < before.len() implies lex_lt(t, #[trigger] before[k]) by {
                if k > i {
                    lemma_lex_lt_transitive(t, before[i as int], before[k]);
                }
            }
        }
    }
    v.insert(i, s);
    let ghost after = strings_view(v@);
    assert(after =~= before.insert(i as int, t));
    assert forall|a: int, b: int| 0 <= a < b < after.len() implies lex_lt(#[trigger] after[a], #[trigger] after[b]) by {
        if b < i {
        } else if a < i && b == i {
        } else if a < i && b > i {
            lemma_lex_lt_transitive(after[a], t, after[b]);
        } else if a == i {
        } else {
        }
    }
    assert(after.to_set() =~= before.to_set().insert(t)) by {
        assert forall|x: Seq<char>| after.to_set().contains(x) implies before.to_set().insert(t).contains(x) by {
            let k = choose|k: int| 0 <= k < after.len() && after[k] == x;
            if k < i {
                assert(before[k] == x);
            } else if k > i {
                assert(before[k - 1] == x);
            }
        }
        assert forall|x: Seq<char>| before.to_set().insert(t).contains(x) implies after.to_set().contains(x) by {
            if x == t {
                assert(after[i as int] == t);
            } else {
                let k = choose|k: int| 0 <= k < before.len() && before[k] == x;
                if k < i {
                    assert(after[k] == x);
                } else {
                    assert(after[k + 1] == x);
                }
            }
        }
    }
}

} // verus!
