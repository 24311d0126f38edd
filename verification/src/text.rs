//! Character-level text helpers shared by the manifest parser, the ledger
//! encoder and the diagnostic sanitizers.
//!
//! Text is modelled by its view, a `Seq<char>`; every helper states its result
//! over that view.
use vstd::prelude::*;

verus! {

broadcast use vstd::string::group_string_axioms;

// ---------------------------------------------------------------------------
// Trusted std calls
// ---------------------------------------------------------------------------

/// Calls `String::push`; std documents that it appends the character to the end.
#[verifier::external_body]
pub(crate) fn push_char(s: &mut String, c: char)
    ensures
        final(s)@ == old(s)@.push(c),
{
    s.push(c);
}

// ---------------------------------------------------------------------------
// Conversions between `str`, `String` and `Vec<char>`
// ---------------------------------------------------------------------------

/// The characters of `s`, in order.
pub fn chars_of(s: &str) -> (v: Vec<char>)
    ensures
        v@ == s@,
{
    let mut v: Vec<char> = Vec::new();
    for c in it: s.chars()
        invariant
            it.seq() == s@,
            v@ == it.seq().take(it.index()),
    {
        v.push(c);
        assert(it.seq().take(it.index() + 1) == v@);
    }
    v
}

/// A `String` holding exactly the characters `v`.
pub fn string_of(v: &[char]) -> (s: String)
    ensures
        s@ == v@,
{
    let mut s = String::new();
    let mut i: usize = 0;
    while i < v.len()
        invariant
            i <= v.len(),
            s@ == v@.take(i as int),
        decreases v.len() - i,
    {
        push_char(&mut s, v[i]);
        assert(v@.take(i + 1) == v@.take(i as int).push(v@[i as int]));
        i = i + 1;
    }
    assert(v@.take(v.len() as int) == v@);
    s
}

/// A copy of `s` as an owned `String`.
pub fn owned(s: &str) -> (r: String)
    ensures
        r@ == s@,
{
    s.to_owned()
}

/// Appends the characters of `t` to `s`.
pub fn append_str(s: &mut String, t: &str)
    ensures
        final(s)@ == old(s)@ + t@,
{
    s.append(t);
}

/// Whether two strings hold the same characters.
pub fn str_eq(a: &str, b: &str) -> (r: bool)
    ensures
        r == (a@ == b@),
{
    let x = a.to_owned();
    let y = b.to_owned();
    x == y
}

// ---------------------------------------------------------------------------
// Decimal numbers
// ---------------------------------------------------------------------------

/// The ASCII digit for `d` (0..=9).
pub open spec fn digit_char(d: nat) -> char {
    ((48 + d) as u32) as char
}

/// The decimal representation of `n`, without sign or leading zeros.
pub open spec fn decimal(n: nat) -> Seq<char>
    decreases n,
{
    if n < 10 {
        seq![digit_char(n)]
    } else {
        decimal(n / 10).push(digit_char(n % 10))
    }
}

/// The decimal representation of a signed number, with a leading `-` when negative.
pub open spec fn signed_decimal(n: int) -> Seq<char> {
    if n < 0 {
        seq!['-'] + decimal((-n) as nat)
    } else {
        decimal(n as nat)
    }
}

fn digit_of(d: u64) -> (c: char)
    requires
        d < 10,
    ensures
        c == digit_char(d as nat),
{
    if d == 0 { '0' }
    else if d == 1 { '1' }
    else if d == 2 { '2' }
    else if d == 3 { '3' }
    else if d == 4 { '4' }
    else if d == 5 { '5' }
    else if d == 6 { '6' }
    else if d == 7 { '7' }
    else if d == 8 { '8' }
    else { '9' }
}

/// Appends the decimal representation of `n` to `s`.
pub fn push_decimal(s: &mut String, n: u64)
    ensures
        final(s)@ == old(s)@ + decimal(n as nat),
    decreases n,
{
    if n < 10 {
        push_char(s, digit_of(n));
    } else {
        push_decimal(s, n / 10);
        push_char(s, digit_of(n % 10));
    }
}

/// Appends the decimal representation of a signed 32-bit number to `s`.
pub fn push_signed_decimal(s: &mut String, n: i32)
    ensures
        final(s)@ == old(s)@ + signed_decimal(n as int),
{
    if n < 0 {
        push_char(s, '-');
        let m: i64 = -(n as i64);
        push_decimal(s, m as u64);
        assert(final(s)@ == old(s)@ + (seq!['-'] + decimal((-(n as int)) as nat)));
    } else {
        push_decimal(s, n as u64);
    }
}

/// Whether `c` is an ASCII decimal digit.
pub open spec fn is_digit(c: char) -> bool {
    '0' <= c && c <= '9'
}

/// Whether every character of `s` is an ASCII decimal digit.
pub open spec fn all_digits(s: Seq<char>) -> bool {
    forall|i: int| 0 <= i < s.len() ==> is_digit(#[trigger] s[i])
}

/// The number written by the digits `s` (most significant first).
pub open spec fn digits_value(s: Seq<char>) -> nat
    decreases s.len(),
{
    if s.len() == 0 {
        0
    } else {
        digits_value(s.drop_last()) * 10 + ((s.last() as u32) - 48) as nat
    }
}

/// What `str::parse::<u16>` gives for `s`: an optional leading `+`, then at
/// least one decimal digit, and a value that fits in `u16`.
pub open spec fn parse_u16_spec(s: Seq<char>) -> Option<u16> {
    let digits = if s.len() > 0 && s[0] == '+' { s.drop_first() } else { s };
    if digits.len() == 0 || !all_digits(digits) || digits_value(digits) > u16::MAX {
        None
    } else {
        Some(digits_value(digits) as u16)
    }
}

/// Parses `s` as an unsigned 16-bit decimal number, as `str::parse::<u16>` does.
pub fn parse_u16(s: &[char]) -> (r: Option<u16>)
    ensures
        r == parse_u16_spec(s@),
{
    let start: usize = if s.len() > 0 && s[0] == '+' { 1 } else { 0 };
    let ghost digits = if s@.len() > 0 && s@[0] == '+' { s@.drop_first() } else { s@ };
    assert(parse_u16_spec(s@) == (if digits.len() == 0 || !all_digits(digits) || digits_value(digits) > u16::MAX {
        None
    } else {
        Some(digits_value(digits) as u16)
    }));
    assert(digits == s@.subrange(start as int, s@.len() as int));
    if start == s.len() {
        return None;
    }
    let mut value: u64 = 0;
    let mut i: usize = start;
    while i < s.len()
        invariant
            start <= i <= s.len(),
            digits == s@.subrange(start as int, s@.len() as int),
            parse_u16_spec(s@) == (if digits.len() == 0 || !all_digits(digits) || digits_value(digits) > u16::MAX {
                None
            } else {
                Some(digits_value(digits) as u16)
            }),
            all_digits(s@.subrange(start as int, i as int)),
            value as nat == digits_value(s@.subrange(start as int, i as int)),
            value <= u16::MAX,
        decreases s.len() - i,
    {
        let c = s[i];
        let ghost prefix = s@.subrange(start as int, i as int);
        let ghost next = s@.subrange(start as int, i + 1);
        assert(next.drop_last() == prefix);
        assert(next.last() == c);
        if !('0' <= c && c <= '9') {
            assert(!all_digits(digits)) by {
                assert(0 <= i - start < digits.len());
                assert(digits[i - start] == c);
                assert(!is_digit(digits[i - start]));
            }
            assert(parse_u16_spec(s@) is None);
            return None;
        }
        let d = (c as u32 - 48) as u64;
        value = value * 10 + d;
        assert(all_digits(next)) by {
            assert forall|k: int| 0 <= k < next.len() implies is_digit(#[trigger] next[k]) by {
                if k < prefix.len() {
                    assert(next[k] == prefix[k]);
                }
            }
        }
        if value > 65535 {
            proof {
                if all_digits(digits) {
                    lemma_digits_value_prefix_monotone(digits, (i + 1 - start) as nat);
                    assert(digits.take(i + 1 - start) == next);
                    assert(digits_value(digits) > u16::MAX);
                }
            }
            assert(parse_u16_spec(s@) is None);
            return None;
        }
        i = i + 1;
    }
    assert(s@.subrange(start as int, i as int) == digits);
    Some(value as u16)
}

/// A digit's character is a digit whose code is 48 more than it.
pub proof fn lemma_digit_char(d: nat)
    requires
        d < 10,
    ensures
        is_digit(digit_char(d)),
        (digit_char(d) as u32) == 48 + d,
{
    assert(((48 + d) as u32) as char as u32 == (48 + d) as u32);
}

/// The decimal form of `n` is all digits, and its value is `n`.
pub proof fn lemma_decimal_digits(n: nat)
    ensures
        decimal(n).len() > 0,
        all_digits(decimal(n)),
        digits_value(decimal(n)) == n,
    decreases n,
{
    if n < 10 {
        lemma_digit_char(n);
        let d = seq![digit_char(n)];
        assert(d.drop_last() =~= Seq::<char>::empty());
        assert(d.last() == digit_char(n));
        assert(digits_value(d) == digits_value(d.drop_last()) * 10 + ((d.last() as u32) - 48) as nat);
    } else {
        lemma_decimal_digits(n / 10);
        lemma_digit_char(n % 10);
        let d = decimal(n);
        assert(d.drop_last() =~= decimal(n / 10));
        assert(d.last() == digit_char(n % 10));
        assert(digits_value(d) == digits_value(d.drop_last()) * 10 + ((d.last() as u32) - 48) as nat);
        assert((n / 10) * 10 + n % 10 == n) by (nonlinear_arith);
    }
}

/// A prefix of an all-digit sequence never has a larger value than the whole.
pub proof fn lemma_digits_value_prefix_monotone(s: Seq<char>, k: nat)
    requires
        k <= s.len(),
        all_digits(s),
    ensures
        digits_value(s.take(k as int)) <= digits_value(s),
    decreases s.len() - k,
{
    if k < s.len() {
        lemma_digits_value_prefix_monotone(s, k + 1);
        let t = s.take(k as int + 1);
        assert(t.drop_last() == s.take(k as int));
        assert(is_digit(t.last()));
    } else {
        assert(s.take(k as int) == s);
    }
}

// ---------------------------------------------------------------------------
// Searching
// ---------------------------------------------------------------------------

/// Whether `needle` occurs in `hay` at position `i`.
pub open spec fn occurs_at(hay: Seq<char>, needle: Seq<char>, i: int) -> bool {
    0 <= i && i + needle.len() <= hay.len() && hay.subrange(i, i + needle.len()) == needle
}

/// Whether `needle` occurs anywhere in `hay`.
pub open spec fn contains_seq(hay: Seq<char>, needle: Seq<char>) -> bool {
    exists|i: int| occurs_at(hay, needle, i)
}

/// Whether `needle` occurs in `hay` at position `i`.
pub fn matches_at(hay: &[char], needle: &[char], i: usize) -> (r: bool)
    ensures
        r == occurs_at(hay@, needle@, i as int),
{
    if needle.len() > hay.len() || i > hay.len() - needle.len() {
        return false;
    }
    let mut k: usize = 0;
    while k < needle.len()
        invariant
            i + needle.len() <= hay.len(),
            k <= needle.len(),
            forall|j: int| 0 <= j < k ==> hay@[i + j] == needle@[j],
        decreases needle.len() - k,
    {
        if hay[i + k] != needle[k] {
            assert(hay@.subrange(i as int, i + needle.len())[k as int] != needle@[k as int]);
            return false;
        }
        k = k + 1;
    }
    assert(hay@.subrange(i as int, i + needle.len()) =~= needle@);
    true
}

/// Whether `needle` occurs anywhere in `hay`.
pub fn contains_chars(hay: &[char], needle: &[char]) -> (r: bool)
    ensures
        r == contains_seq(hay@, needle@),
{
    if needle.len() > hay.len() {
        assert forall|i: int| !occurs_at(hay@, needle@, i) by {}
        return false;
    }
    let last = hay.len() - needle.len();
    let mut i: usize = 0;
    while i <= last
        invariant
            last + needle.len() == hay.len(),
            forall|j: int| 0 <= j < i ==> !occurs_at(hay@, needle@, j),
        decreases last + 1 - i,
    {
        if matches_at(hay, needle, i) {
            return true;
        }
        if i == last {
            assert forall|j: int| !occurs_at(hay@, needle@, j) by {
                if 0 <= j < i {
                } else if j == i {
                } else {
                }
            }
            return false;
        }
        i = i + 1;
    }
    false
}

// ---------------------------------------------------------------------------
// Case mapping
// ---------------------------------------------------------------------------

/// ASCII lower-casing of one character, as `char::to_ascii_lowercase`.
pub open spec fn ascii_lower(c: char) -> char {
    if 'A' <= c && c <= 'Z' {
        ((c as u32) + 32) as char
    } else {
        c
    }
}

/// ASCII lower-casing of every character, as `str::to_ascii_lowercase`.
pub open spec fn ascii_lowercase(s: Seq<char>) -> Seq<char> {
    s.map_values(|c: char| ascii_lower(c))
}

/// The ASCII lower-cased characters of `s`.
pub fn to_ascii_lowercase(s: &[char]) -> (r: Vec<char>)
    ensures
        r@ == ascii_lowercase(s@),
{
    let mut r: Vec<char> = Vec::new();
    let mut i: usize = 0;
    while i < s.len()
        invariant
            i <= s.len(),
            r@ == ascii_lowercase(s@.take(i as int)),
        decreases s.len() - i,
    {
        let c = s[i];
        let l = if 'A' <= c && c <= 'Z' { (((c as u32) as u8) + 32) as char } else { c };
        r.push(l);
        assert(ascii_lowercase(s@.take(i + 1)) =~= ascii_lowercase(s@.take(i as int)).push(ascii_lower(c)));
        i = i + 1;
    }
    assert(s@.take(s.len() as int) == s@);
    r
}

// ---------------------------------------------------------------------------
// Trimming
// ---------------------------------------------------------------------------

/// Unicode `White_Space`, the set that `char::is_whitespace` tests.
pub open spec fn is_whitespace(c: char) -> bool {
    let u = c as u32;
    (0x9 <= u && u <= 0xd) || u == 0x20 || u == 0x85 || u == 0xa0 || u == 0x1680
        || (0x2000 <= u && u <= 0x200a) || u == 0x2028 || u == 0x2029 || u == 0x202f
        || u == 0x205f || u == 0x3000
}

/// `char::is_whitespace`.
pub fn is_whitespace_char(c: char) -> (r: bool)
    ensures
        r == is_whitespace(c),
{
    let u = c as u32;
    (0x9 <= u && u <= 0xd) || u == 0x20 || u == 0x85 || u == 0xa0 || u == 0x1680 || (0x2000 <= u
        && u <= 0x200a) || u == 0x2028 || u == 0x2029 || u == 0x202f || u == 0x205f || u == 0x3000
}

/// The number of leading characters of `s` that satisfy `p`.
pub open spec fn leading_count(s: Seq<char>, p: spec_fn(char) -> bool) -> nat
    decreases s.len(),
{
    if s.len() > 0 && p(s[0]) {
        1 + leading_count(s.drop_first(), p)
    } else {
        0
    }
}

/// The number of trailing characters of `s` that satisfy `p`.
pub open spec fn trailing_count(s: Seq<char>, p: spec_fn(char) -> bool) -> nat
    decreases s.len(),
{
    if s.len() > 0 && p(s.last()) {
        1 + trailing_count(s.drop_last(), p)
    } else {
        0
    }
}

/// `s` without its leading and trailing characters that satisfy `p`, as
/// `str::trim_matches` with a predicate.
pub open spec fn trim_by(s: Seq<char>, p: spec_fn(char) -> bool) -> Seq<char> {
    let front = leading_count(s, p);
    let rest = s.skip(front as int);
    rest.take(rest.len() - trailing_count(rest, p))
}

/// `str::trim`: leading and trailing Unicode white space removed.
pub open spec fn trim_spec(s: Seq<char>) -> Seq<char> {
    trim_by(s, |c: char| is_whitespace(c))
}

/// `str::trim_matches('"')`: leading and trailing double quotes removed.
pub open spec fn trim_quotes_spec(s: Seq<char>) -> Seq<char> {
    trim_by(s, |c: char| c == '"')
}

proof fn lemma_leading_count_bound(s: Seq<char>, p: spec_fn(char) -> bool)
    ensures
        leading_count(s, p) <= s.len(),
    decreases s.len(),
{
    if s.len() > 0 && p(s[0]) {
        lemma_leading_count_bound(s.drop_first(), p);
    }
}

proof fn lemma_trailing_count_bound(s: Seq<char>, p: spec_fn(char) -> bool)
    ensures
        trailing_count(s, p) <= s.len(),
    decreases s.len(),
{
    if s.len() > 0 && p(s.last()) {
        lemma_trailing_count_bound(s.drop_last(), p);
    }
}

/// Scanning from index `i`: if every character before `i` satisfies `p`, the
/// leading count is `i` plus the leading count of the rest.
proof fn lemma_leading_count_step(s: Seq<char>, p: spec_fn(char) -> bool, i: int)
    requires
        0 <= i <= s.len(),
        forall|j: int| 0 <= j < i ==> p(#[trigger] s[j]),
    ensures
        leading_count(s, p) == i + leading_count(s.skip(i), p),
    decreases i,
{
    if i > 0 {
        assert(p(s[0]));
        let t = s.drop_first();
        assert forall|j: int| 0 <= j < i - 1 implies p(#[trigger] t[j]) by {
            assert(t[j] == s[j + 1]);
        }
        lemma_leading_count_step(t, p, i - 1);
        assert(t.skip(i - 1) == s.skip(i));
    } else {
        assert(s.skip(0) == s);
    }
}

proof fn lemma_trailing_count_step(s: Seq<char>, p: spec_fn(char) -> bool, k: int)
    requires
        0 <= k <= s.len(),
        forall|j: int| s.len() - k <= j < s.len() ==> p(#[trigger] s[j]),
    ensures
        trailing_count(s, p) == k + trailing_count(s.take(s.len() - k), p),
    decreases k,
{
    if k > 0 {
        assert(p(s.last()));
        let t = s.drop_last();
        assert forall|j: int| t.len() - (k - 1) <= j < t.len() implies p(#[trigger] t[j]) by {
            assert(t[j] == s[j]);
        }
        lemma_trailing_count_step(t, p, k - 1);
        assert(t.take(t.len() - (k - 1)) == s.take(s.len() - k));
    } else {
        assert(s.take(s.len() as int) == s);
    }
}

/// The characters of `s` with leading and trailing white space removed, as `str::trim`.
pub fn trim(s: &[char]) -> (r: Vec<char>)
    ensures
        r@ == trim_spec(s@),
{
    let ghost p = |c: char| is_whitespace(c);
    let mut start: usize = 0;
    while start < s.len() && is_whitespace_char(s[start])
        invariant
            start <= s.len(),
            p == (|c: char| is_whitespace(c)),
            forall|j: int| 0 <= j < start ==> p(#[trigger] s@[j]),
        decreases s.len() - start,
    {
        start = start + 1;
    }
    proof {
        lemma_leading_count_step(s@, p, start as int);
        let rest = s@.skip(start as int);
        if rest.len() > 0 {
            assert(rest[0] == s@[start as int]);
        }
        assert(leading_count(rest, p) == 0);
    }
    let mut end: usize = s.len();
    while end > start && is_whitespace_char(s[end - 1])
        invariant
            start <= end <= s.len(),
            p == (|c: char| is_whitespace(c)),
            forall|j: int| end <= j < s.len() ==> p(#[trigger] s@[j]),
        decreases end,
    {
        end = end - 1;
    }
    let mut r: Vec<char> = Vec::new();
    let mut i: usize = start;
    while i < end
        invariant
            start <= i <= end,
            end <= s.len(),
            r@ == s@.subrange(start as int, i as int),
        decreases end - i,
    {
        r.push(s[i]);
        assert(s@.subrange(start as int, i + 1) == s@.subrange(start as int, i as int).push(s@[i as int]));
        i = i + 1;
    }
    proof {
        let rest = s@.skip(start as int);
        let k = (s.len() - end) as int;
        assert forall|j: int| rest.len() - k <= j < rest.len() implies p(#[trigger] rest[j]) by {
            assert(rest[j] == s@[start + j]);
        }
        lemma_trailing_count_step(rest, p, k);
        let t = rest.take(rest.len() - k);
        if t.len() > 0 {
            assert(t.last() == s@[end - 1]);
        }
        assert(trailing_count(t, p) == 0);
        assert(t == s@.subrange(start as int, end as int));
    }
    r
}

/// The characters of `s` with leading and trailing `"` removed, as `str::trim_matches('"')`.
pub fn trim_quotes(s: &[char]) -> (r: Vec<char>)
    ensures
        r@ == trim_quotes_spec(s@),
{
    let ghost p = |c: char| c == '"';
    let mut start: usize = 0;
    while start < s.len() && s[start] == '"'
        invariant
            start <= s.len(),
            p == (|c: char| c == '"'),
            forall|j: int| 0 <= j < start ==> p(#[trigger] s@[j]),
        decreases s.len() - start,
    {
        start = start + 1;
    }
    proof {
        lemma_leading_count_step(s@, p, start as int);
        let rest = s@.skip(start as int);
        if rest.len() > 0 {
            assert(rest[0] == s@[start as int]);
        }
        assert(leading_count(rest, p) == 0);
    }
    let mut end: usize = s.len();
    while end > start && s[end - 1] == '"'
        invariant
            start <= end <= s.len(),
            p == (|c: char| c == '"'),
            forall|j: int| end <= j < s.len() ==> p(#[trigger] s@[j]),
        decreases end,
    {
        end = end - 1;
    }
    let mut r: Vec<char> = Vec::new();
    let mut i: usize = start;
    while i < end
        invariant
            start <= i <= end,
            end <= s.len(),
            r@ == s@.subrange(start as int, i as int),
        decreases end - i,
    {
        r.push(s[i]);
        assert(s@.subrange(start as int, i + 1) == s@.subrange(start as int, i as int).push(s@[i as int]));
        i = i + 1;
    }
    proof {
        let rest = s@.skip(start as int);
        let k = (s.len() - end) as int;
        assert forall|j: int| rest.len() - k <= j < rest.len() implies p(#[trigger] rest[j]) by {
            assert(rest[j] == s@[start + j]);
        }
        lemma_trailing_count_step(rest, p, k);
        let t = rest.take(rest.len() - k);
        if t.len() > 0 {
            assert(t.last() == s@[end - 1]);
        }
        assert(trailing_count(t, p) == 0);
        assert(t == s@.subrange(start as int, end as int));
    }
    r
}

} // verus!

verus! {

/// Whether two character slices are equal.
pub fn chars_eq(a: &[char], b: &[char]) -> (r: bool)
    ensures
        r == (a@ == b@),
{
    if a.len() != b.len() {
        return false;
    }
    let mut i: usize = 0;
    while i < a.len()
        invariant
            i <= a.len(),
            a.len() == b.len(),
            forall|j: int| 0 <= j < i ==> a@[j] == b@[j],
        decreases a.len() - i,
    {
        if a[i] != b[i] {
            return false;
        }
        i = i + 1;
    }
    assert(a@ =~= b@);
    true
}

/// Whether the characters `a` spell `b`.
pub fn chars_eq_str(a: &[char], b: &str) -> (r: bool)
    ensures
        r == (a@ == b@),
{
    let bc = chars_of(b);
    chars_eq(a, &bc)
}

/// The views of a list of strings.
pub open spec fn string_views(v: Seq<String>) -> Seq<Seq<char>> {
    v.map_values(|s: String| s@)
}

/// The view of an optional string.
pub open spec fn opt_view(o: Option<String>) -> Option<Seq<char>> {
    match o {
        Some(s) => Some(s@),
        None => None,
    }
}

/// An optional string holding the characters `o`.
pub fn opt_string_of(o: &Option<Vec<char>>) -> (r: Option<String>)
    ensures
        opt_view(r) == match *o {
            Some(v) => Some(v@),
            None => None::<Seq<char>>,
        },
{
    match o {
        Some(v) => Some(string_of(v)),
        None => None,
    }
}

/// A copy of a list of strings.
pub fn clone_strings(v: &Vec<String>) -> (r: Vec<String>)
    ensures
        r@ == v@,
{
    let mut r: Vec<String> = Vec::new();
    let mut i: usize = 0;
    while i < v.len()
        invariant
            i <= v.len(),
            r@ == v@.take(i as int),
        decreases v.len() - i,
    {
        r.push(v[i].clone());
        assert(r@ =~= v@.take(i + 1));
        i = i + 1;
    }
    assert(v@.take(v.len() as int) == v@);
    r
}

} // verus!

verus! {

/// A copy of an optional string.
pub fn opt_clone(o: &Option<String>) -> (r: Option<String>)
    ensures
        r == *o,
{
    match o {
        Some(s) => Some(s.clone()),
        None => None,
    }
}

/// Whether `a` comes strictly before `b` in lexicographic order of code
/// points, the order of `str`'s `<`.
pub open spec fn lex_lt(a: Seq<char>, b: Seq<char>) -> bool
    decreases a.len(),
{
    if a.len() == 0 {
        b.len() > 0
    } else if b.len() == 0 {
        false
    } else if a[0] != b[0] {
        (a[0] as u32) < (b[0] as u32)
    } else {
        lex_lt(a.drop_first(), b.drop_first())
    }
}

/// Distinct characters have distinct codes.
pub proof fn lemma_char_code_injective(c: char, d: char)
    requires
        c != d,
    ensures
        (c as u32) != (d as u32),
{
    assert(c as int == c as u32 as int);
    assert(d as int == d as u32 as int);
}

/// `lex_lt` is transitive.
pub proof fn lemma_lex_lt_transitive(a: Seq<char>, b: Seq<char>, c: Seq<char>)
    requires
        lex_lt(a, b),
        lex_lt(b, c),
    ensures
        lex_lt(a, c),
    decreases a.len(),
{
    if a.len() > 0 && b.len() > 0 && c.len() > 0 {
        if a[0] == b[0] && b[0] == c[0] {
            lemma_lex_lt_transitive(a.drop_first(), b.drop_first(), c.drop_first());
        } else if a[0] == c[0] {
            lemma_char_code_injective(a[0], b[0]);
        }
    }
}

/// Of two distinct texts, one comes before the other.
pub proof fn lemma_lex_lt_total(a: Seq<char>, b: Seq<char>)
    requires
        a != b,
    ensures
        lex_lt(a, b) || lex_lt(b, a),
    decreases a.len(),
{
    if a.len() > 0 && b.len() > 0 {
        if a[0] == b[0] {
            if a.drop_first() == b.drop_first() {
                assert(a =~= seq![a[0]] + a.drop_first());
                assert(b =~= seq![b[0]] + b.drop_first());
            }
            lemma_lex_lt_total(a.drop_first(), b.drop_first());
        } else {
            lemma_char_code_injective(a[0], b[0]);
        }
    } else if a.len() == 0 && b.len() == 0 {
        assert(a =~= b);
    }
}

proof fn lemma_lex_lt_suffix(a: Seq<char>, b: Seq<char>, i: int)
    requires
        0 <= i <= a.len(),
        i <= b.len(),
        forall|j: int| 0 <= j < i ==> a[j] == b[j],
    ensures
        lex_lt(a, b) == lex_lt(a.skip(i), b.skip(i)),
    decreases i,
{
    if i > 0 {
        assert(a[0] == b[0]);
        lemma_lex_lt_suffix(a.drop_first(), b.drop_first(), i - 1);
        assert(a.drop_first().skip(i - 1) == a.skip(i));
        assert(b.drop_first().skip(i - 1) == b.skip(i));
    } else {
        assert(a.skip(0) == a);
        assert(b.skip(0) == b);
    }
}

/// Whether `a` comes strictly before `b`, as `str`'s `<`.
pub fn str_lt(a: &[char], b: &[char]) -> (r: bool)
    ensures
        r == lex_lt(a@, b@),
{
    let mut i: usize = 0;
    while i < a.len() && i < b.len() && a[i] == b[i]
        invariant
            i <= a.len(),
            i <= b.len(),
            forall|j: int| 0 <= j < i ==> a@[j] == b@[j],
        decreases a.len() - i,
    {
        i = i + 1;
    }
    proof {
        lemma_lex_lt_suffix(a@, b@, i as int);
    }
    if i == a.len() {
        i < b.len()
    } else if i == b.len() {
        false
    } else {
        assert(a@.skip(i as int)[0] == a@[i as int]);
        assert(b@.skip(i as int)[0] == b@[i as int]);
        (a[i] as u32) < (b[i] as u32)
    }
}

} // verus!
