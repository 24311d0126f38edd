//! The line-oriented text format of installed component manifests: lines,
//! `key = value` pairs, scalar values, string arrays and escaping.
use vstd::prelude::*;

use crate::text::{
    chars_of, occurs_at, parse_u16_spec, push_char, trim, trim_quotes, trim_quotes_spec, trim_spec,
};

verus! {

broadcast use vstd::string::group_string_axioms;

/// The views of a list of character vectors.
pub open spec fn views(v: Seq<Vec<char>>) -> Seq<Seq<char>> {
    v.map_values(|x: Vec<char>| x@)
}

// ---------------------------------------------------------------------------
// Lines
// ---------------------------------------------------------------------------

/// `s` cut at every `\n`; there is always at least one piece.
pub open spec fn newline_pieces(s: Seq<char>) -> Seq<Seq<char>>
    decreases s.len(),
{
    if s.len() == 0 {
        seq![Seq::<char>::empty()]
    } else {
        let p = newline_pieces(s.drop_last());
        if s.last() == '\n' {
            p.push(Seq::<char>::empty())
        } else {
            p.update(p.len() - 1, p.last().push(s.last()))
        }
    }
}

/// The lines of `s`, as `str::lines` cuts them, except that a `\r` before a
/// `\n` stays at the end of its line (every use trims the line first).
pub open spec fn line_pieces(s: Seq<char>) -> Seq<Seq<char>> {
    let p = newline_pieces(s);
    if p.last().len() == 0 {
        p.drop_last()
    } else {
        p
    }
}

proof fn lemma_newline_pieces_nonempty(s: Seq<char>)
    ensures
        newline_pieces(s).len() >= 1,
    decreases s.len(),
{
    if s.len() > 0 {
        lemma_newline_pieces_nonempty(s.drop_last());
    }
}

/// The lines of `s`.
pub fn split_lines(s: &[char]) -> (r: Vec<Vec<char>>)
    ensures
        views(r@) == line_pieces(s@),
{
    let mut pieces: Vec<Vec<char>> = Vec::new();
    let mut cur: Vec<char> = Vec::new();
    let mut i: usize = 0;
    proof {
        assert(s@.take(0) == Seq::<char>::empty());
        assert(views(pieces@).push(cur@) =~= newline_pieces(s@.take(0)));
    }
    while i < s.len()
        invariant
            i <= s.len(),
            views(pieces@).push(cur@) == newline_pieces(s@.take(i as int)),
        decreases s.len() - i,
    {
        let c = s[i];
        proof {
            lemma_newline_pieces_nonempty(s@.take(i as int));
            assert(s@.take(i + 1).drop_last() == s@.take(i as int));
            assert(s@.take(i + 1).last() == c);
        }
        if c == '\n' {
            let done = cur;
            pieces.push(done);
            cur = Vec::new();
            assert(views(pieces@).push(cur@) =~= newline_pieces(s@.take(i + 1)));
        } else {
            cur.push(c);
            assert(views(pieces@).push(cur@) =~= newline_pieces(s@.take(i + 1)));
        }
        i = i + 1;
    }
    assert(s@.take(s.len() as int) == s@);
    if cur.len() > 0 {
        pieces.push(cur);
        assert(views(pieces@) =~= line_pieces(s@));
    } else {
        assert(views(pieces@) =~= line_pieces(s@));
    }
    pieces
}

// ---------------------------------------------------------------------------
// `key = value`
// ---------------------------------------------------------------------------

/// The index of the first `c` in `s`, if any.
pub open spec fn first_index_of(s: Seq<char>, c: char) -> Option<int>
    decreases s.len(),
{
    if s.len() == 0 {
        None
    } else {
        match first_index_of(s.drop_last(), c) {
            Some(i) => Some(i),
            None => if s.last() == c {
                Some(s.len() - 1)
            } else {
                None
            },
        }
    }
}

proof fn lemma_first_index_of(s: Seq<char>, c: char, i: int)
    requires
        0 <= i <= s.len(),
        forall|j: int| 0 <= j < i ==> s[j] != c,
    ensures
        first_index_of(s.take(i), c) is None,
    decreases i,
{
    if i > 0 {
        assert(s.take(i).drop_last() == s.take(i - 1));
        lemma_first_index_of(s, c, i - 1);
    }
}

proof fn lemma_first_index_of_found(s: Seq<char>, c: char, i: int, n: int)
    requires
        0 <= i < n <= s.len(),
        s[i] == c,
        first_index_of(s.take(i), c) is None,
    ensures
        first_index_of(s.take(n), c) == Some(i),
    decreases n,
{
    if n == i + 1 {
        assert(s.take(n).drop_last() == s.take(i));
    } else {
        lemma_first_index_of_found(s, c, i, n - 1);
        assert(s.take(n).drop_last() == s.take(n - 1));
    }
}

/// `str::split_once('=')` followed by trimming both sides.
pub open spec fn key_value_spec(line: Seq<char>) -> Option<(Seq<char>, Seq<char>)> {
    match first_index_of(line, '=') {
        Some(i) => Some((trim_spec(line.take(i)), trim_spec(line.skip(i + 1)))),
        None => None,
    }
}

/// Splits a line at its first `=` into a trimmed key and a trimmed raw value.
pub fn parse_key_value_raw(line: &[char]) -> (r: Option<(Vec<char>, Vec<char>)>)
    ensures
        match key_value_spec(line@) {
            Some((k, v)) => r matches Some((rk, rv)) && rk@ == k && rv@ == v,
            None => r is None,
        },
{
    let mut i: usize = 0;
    while i < line.len()
        invariant
            i <= line.len(),
            forall|j: int| 0 <= j < i ==> line@[j] != '=',
        decreases line.len() - i,
    {
        if line[i] == '=' {
            proof {
                lemma_first_index_of(line@, '=', i as int);
                lemma_first_index_of_found(line@, '=', i as int, line@.len() as int);
                assert(line@.take(line@.len() as int) == line@);
            }
            let mut key: Vec<char> = Vec::new();
            let mut j: usize = 0;
            while j < i
                invariant
                    j <= i < line.len(),
                    key@ == line@.take(j as int),
                decreases i - j,
            {
                key.push(line[j]);
                assert(line@.take(j + 1) == line@.take(j as int).push(line@[j as int]));
                j = j + 1;
            }
            let mut value: Vec<char> = Vec::new();
            let mut k: usize = i + 1;
            while k < line.len()
                invariant
                    i + 1 <= k <= line.len(),
                    value@ == line@.subrange(i + 1, k as int),
                decreases line.len() - k,
            {
                value.push(line[k]);
                assert(line@.subrange(i + 1, k + 1) == line@.subrange(i + 1, k as int).push(line@[k as int]));
                k = k + 1;
            }
            assert(line@.skip(i + 1) == line@.subrange(i + 1, line@.len() as int));
            return Some((trim(&key), trim(&value)));
        }
        i = i + 1;
    }
    proof {
        lemma_first_index_of(line@, '=', line@.len() as int);
        assert(line@.take(line@.len() as int) == line@);
    }
    None
}

/// A scalar value: trimmed, then without surrounding double quotes.
pub open spec fn scalar_spec(value: Seq<char>) -> Seq<char> {
    trim_quotes_spec(trim_spec(value))
}

/// Reads a scalar value: trims it and removes surrounding double quotes.
pub fn parse_scalar_value(value: &[char]) -> (r: Vec<char>)
    ensures
        r@ == scalar_spec(value@),
{
    let t = trim(value);
    trim_quotes(&t)
}

// ---------------------------------------------------------------------------
// Arrays
// ---------------------------------------------------------------------------

/// What the array scanner holds after reading some characters: the finished
/// items, the item being read, whether it is inside quotes, and whether the
/// last character was an escaping backslash.
pub struct ArrayScan {
    pub values: Seq<Seq<char>>,
    pub current: Seq<char>,
    pub in_quotes: bool,
    pub escaped: bool,
}

/// The items so far with `item` added when, trimmed, it is not empty.
pub open spec fn push_item(values: Seq<Seq<char>>, item: Seq<char>) -> Seq<Seq<char>> {
    if trim_spec(item).len() > 0 {
        values.push(scalar_spec(trim_spec(item)))
    } else {
        values
    }
}

/// One character of an array's inside: a backslash inside quotes escapes the
/// next character, quotes toggle quoting and are dropped, a comma outside
/// quotes ends an item, and any other character joins the current item.
pub open spec fn array_step(st: ArrayScan, c: char) -> ArrayScan {
    if st.escaped {
        ArrayScan { current: st.current.push(c), escaped: false, ..st }
    } else if c == '\\' && st.in_quotes {
        ArrayScan { escaped: true, ..st }
    } else if c == '"' {
        ArrayScan { in_quotes: !st.in_quotes, ..st }
    } else if c == ',' && !st.in_quotes {
        ArrayScan { values: push_item(st.values, st.current), current: Seq::empty(), ..st }
    } else {
        ArrayScan { current: st.current.push(c), ..st }
    }
}

/// The scanner's state after reading `s`.
pub open spec fn array_scan(s: Seq<char>) -> ArrayScan
    decreases s.len(),
{
    if s.len() == 0 {
        ArrayScan { values: Seq::empty(), current: Seq::empty(), in_quotes: false, escaped: false }
    } else {
        array_step(array_scan(s.drop_last()), s.last())
    }
}

/// The items of an array value: the inside of `[...]` split at commas outside
/// quotes; a value that is not bracketed is one scalar item.
pub open spec fn array_spec(value: Seq<char>) -> Seq<Seq<char>> {
    let v = trim_spec(value);
    if v.len() >= 2 && v[0] == '[' && v.last() == ']' {
        let st = array_scan(v.subrange(1, v.len() - 1));
        push_item(st.values, st.current)
    } else {
        seq![scalar_spec(v)]
    }
}

fn push_trimmed_item(values: &mut Vec<Vec<char>>, item: &[char])
    ensures
        views(final(values)@) == push_item(views(old(values)@), item@),
{
    let t = trim(item);
    if t.len() > 0 {
        let s = parse_scalar_value(&t);
        values.push(s);
        assert(views(final(values)@) =~= views(old(values)@).push(scalar_spec(trim_spec(item@))));
    }
}

/// Reads an array value into its items.
pub fn parse_array_value(value: &[char]) -> (r: Vec<Vec<char>>)
    ensures
        views(r@) == array_spec(value@),
{
    let v = trim(value);
    if !(v.len() >= 2 && v[0] == '[' && v[v.len() - 1] == ']') {
        let mut r: Vec<Vec<char>> = Vec::new();
        r.push(parse_scalar_value(&v));
        assert(views(r@) =~= seq![scalar_spec(v@)]);
        return r;
    }
    let ghost inner = v@.subrange(1, v@.len() - 1);
    let mut values: Vec<Vec<char>> = Vec::new();
    let mut current: Vec<char> = Vec::new();
    let mut in_quotes = false;
    let mut escaped = false;
    let end = v.len() - 1;
    let mut i: usize = 1;
    assert(inner.take(0) == Seq::<char>::empty());
    assert(views(values@) =~= Seq::<Seq<char>>::empty());
    while i < end
        invariant
            1 <= i <= end,
            end == v.len() - 1,
            inner == v@.subrange(1, end as int),
            array_scan(inner.take(i - 1)) == (ArrayScan {
                values: views(values@),
                current: current@,
                in_quotes,
                escaped,
            }),
        decreases end - i,
    {
        let c = v[i];
        proof {
            assert(inner.take(i as int).drop_last() == inner.take(i - 1));
            assert(inner.take(i as int).last() == c);
        }
        if escaped {
            current.push(c);
            escaped = false;
        } else if c == '\\' && in_quotes {
            escaped = true;
        } else if c == '"' {
            in_quotes = !in_quotes;
        } else if c == ',' && !in_quotes {
            push_trimmed_item(&mut values, &current);
            current = Vec::new();
        } else {
            current.push(c);
        }
        i = i + 1;
    }
    assert(inner.take(end - 1) == inner);
    push_trimmed_item(&mut values, &current);
    values
}

// ---------------------------------------------------------------------------
// Escaping
// ---------------------------------------------------------------------------

/// One character escaped for a double-quoted manifest string.
pub open spec fn toml_escape_char(c: char) -> Seq<char> {
    if c == '\\' {
        seq!['\\', '\\']
    } else if c == '"' {
        seq!['\\', '"']
    } else {
        seq![c]
    }
}

/// `s` with backslashes and double quotes escaped by a backslash.
pub open spec fn toml_escape(s: Seq<char>) -> Seq<char>
    decreases s.len(),
{
    if s.len() == 0 {
        Seq::empty()
    } else {
        toml_escape(s.drop_last()) + toml_escape_char(s.last())
    }
}

/// Appends `value`, escaped for a double-quoted manifest string, to `out`.
pub fn push_toml_escaped(out: &mut String, value: &str)
    ensures
        final(out)@ == old(out)@ + toml_escape(value@),
{
    let cs = chars_of(value);
    let mut i: usize = 0;
    assert(cs@.take(0) == Seq::<char>::empty());
    while i < cs.len()
        invariant
            i <= cs.len(),
            cs@ == value@,
            out@ == old(out)@ + toml_escape(cs@.take(i as int)),
        decreases cs.len() - i,
    {
        let c = cs[i];
        assert(cs@.take(i + 1).drop_last() == cs@.take(i as int));
        if c == '\\' {
            push_char(out, '\\');
            push_char(out, '\\');
        } else if c == '"' {
            push_char(out, '\\');
            push_char(out, '"');
        } else {
            push_char(out, c);
        }
        assert(out@ =~= old(out)@ + toml_escape(cs@.take(i + 1)));
        i = i + 1;
    }
    assert(cs@.take(cs.len() as int) == cs@);
}

/// `value` with backslashes and double quotes escaped by a backslash.
pub fn escape_toml(value: &str) -> (r: String)
    ensures
        r@ == toml_escape(value@),
{
    let mut out = String::new();
    push_toml_escaped(&mut out, value);
    assert(out@ =~= toml_escape(value@));
    out
}

// ---------------------------------------------------------------------------
// Contract versions written as `<id>.v<major>`
// ---------------------------------------------------------------------------

/// The last position at or before `end` where `.v` occurs in `s`.
pub open spec fn last_dot_v_from(s: Seq<char>, end: int) -> Option<int>
    decreases end + 1,
{
    if end < 0 {
        None
    } else if occurs_at(s, ".v"@, end) {
        Some(end)
    } else {
        last_dot_v_from(s, end - 1)
    }
}

/// The last position where `.v` occurs in `s`, as `str::rsplit_once(".v")` finds it.
pub open spec fn last_dot_v(s: Seq<char>) -> Option<int> {
    last_dot_v_from(s, s.len() - 2)
}

/// `(contract id, major, minor)` for a contract written as `<id>.v<major>`:
/// the text before the last `.v` and the number after it (1 when that is not a
/// `u16`); text without `.v` is an id of major version 1. The minor version is 0.
pub open spec fn contract_from_text(s: Seq<char>) -> (Seq<char>, u16, u16) {
    match last_dot_v(s) {
        Some(i) => (
            s.take(i),
            match parse_u16_spec(s.skip(i + 2)) {
                Some(m) => m,
                None => 1,
            },
            0,
        ),
        None => (s, 1, 0),
    }
}

} // verus!
