//! Public result fields: a map from names to text, kept in key order.
use vstd::prelude::*;

use crate::text::{chars_of, lemma_lex_lt_total, lemma_lex_lt_transitive, lex_lt, str_lt};

verus! {

broadcast use vstd::string::group_string_axioms;

/// `lex_lt` is irreflexive.
pub proof fn lemma_lex_lt_irreflexive(a: Seq<char>)
    ensures
        !lex_lt(a, a),
    decreases a.len(),
{
    if a.len() > 0 {
        lemma_lex_lt_irreflexive(a.drop_first());
    }
}

/// Whether some entry of `s` has the key `k`.
pub open spec fn has_key(s: Seq<(String, String)>, k: Seq<char>) -> bool {
    exists|i: int| 0 <= i < s.len() && (#[trigger] s[i]).0@ == k
}

/// Whether `i` is the first entry of `s` with key `k`.
pub open spec fn is_first_with_key(s: Seq<(String, String)>, k: Seq<char>, i: int) -> bool {
    0 <= i < s.len() && s[i].0@ == k && forall|j: int| 0 <= j < i ==> (#[trigger] s[j]).0@ != k
}

/// The value of the first entry of `s` with key `k`.
pub open spec fn value_at_key(s: Seq<(String, String)>, k: Seq<char>) -> Seq<char> {
    s[choose|i: int| is_first_with_key(s, k, i)].1@
}

/// The map that the entries `s` describe; the first entry of a key gives its value.
pub open spec fn entries_map(s: Seq<(String, String)>) -> Map<Seq<char>, Seq<char>> {
    Map::new(|k: Seq<char>| has_key(s, k), |k: Seq<char>| value_at_key(s, k))
}

/// Public fields of a result: names mapped to text, kept in key order.
#[derive(Debug, PartialEq, Eq)]
pub struct PublicFields {
    entries: Vec<(String, String)>,
}

impl View for PublicFields {
    type V = Map<Seq<char>, Seq<char>>;

    closed spec fn view(&self) -> Map<Seq<char>, Seq<char>> {
        entries_map(self.entries@)
    }
}

/// The first entry with a key gives the map's value for it.
pub proof fn lemma_first_with_key(s: Seq<(String, String)>, i: int)
    requires
        is_first_with_key(s, s[i].0@, i),
    ensures
        entries_map(s).contains_key(s[i].0@),
        entries_map(s)[s[i].0@] == s[i].1@,
{
    let k = s[i].0@;
    assert(has_key(s, k));
    let c = choose|c: int| is_first_with_key(s, k, c);
    if c < i {
        assert(s[c].0@ != k);
    } else if c > i {
        assert(s[i].0@ != k);
    }
    assert(entries_map(s)[k] == value_at_key(s, k));
}

/// Without an entry for `k` the map has no value for it.
pub proof fn lemma_no_key(s: Seq<(String, String)>, k: Seq<char>)
    requires
        forall|j: int| 0 <= j < s.len() ==> (#[trigger] s[j]).0@ != k,
    ensures
        !entries_map(s).contains_key(k),
{
}

/// Some entry with key `k` is the first one.
pub proof fn lemma_first_exists(s: Seq<(String, String)>, k: Seq<char>, i: int)
    requires
        0 <= i < s.len(),
        s[i].0@ == k,
    ensures
        exists|f: int| is_first_with_key(s, k, f),
    decreases i,
{
    if exists|j: int| 0 <= j < i && (#[trigger] s[j]).0@ == k {
        let j = choose|j: int| 0 <= j < i && (#[trigger] s[j]).0@ == k;
        lemma_first_exists(s, k, j);
    } else {
        assert(is_first_with_key(s, k, i));
    }
}

/// Whether the keys of `s` are strictly increasing, so none repeats.
pub open spec fn keys_ascending(s: Seq<(String, String)>) -> bool {
    forall|a: int, b: int| 0 <= a < b < s.len() ==> lex_lt(#[trigger] s[a].0@, #[trigger] s[b].0@)
}

impl PublicFields {
    #[verifier::type_invariant]
    spec fn in_key_order(self) -> bool {
        keys_ascending(self.entries@)
    }

    /// No fields.
    pub fn new() -> (r: Self)
        ensures
            r@ == Map::<Seq<char>, Seq<char>>::empty(),
    {
        let r = PublicFields { entries: Vec::new() };
        assert(r@ =~= Map::<Seq<char>, Seq<char>>::empty());
        r
    }

    /// The value of field `key`, if there is one.
    pub fn get(&self, key: &str) -> (r: Option<&String>)
        ensures
            match r {
                Some(v) => self@.contains_key(key@) && v@ == self@[key@],
                None => !self@.contains_key(key@),
            },
    {
        let k = chars_of(key);
        let mut i: usize = 0;
        while i < self.entries.len()
            invariant
                i <= self.entries.len(),
                k@ == key@,
                forall|j: int| 0 <= j < i ==> (#[trigger] self.entries@[j]).0@ != key@,
            decreases self.entries.len() - i,
        {
            let name = chars_of(self.entries[i].0.as_str());
            if crate::text::chars_eq(&name, &k) {
                proof {
                    lemma_first_with_key(self.entries@, i as int);
                }
                return Some(&self.entries[i].1);
            }
            i = i + 1;
        }
        proof {
            lemma_no_key(self.entries@, key@);
        }
        None
    }

    /// Sets field `key` to `value`, replacing any earlier value; a new key is
    /// placed before the first key that does not come before it.
    pub fn insert(&mut self, key: String, value: String)
        ensures
            final(self)@ == old(self)@.insert(key@, value@),
    {
        proof { use_type_invariant(&*self); }
        let k = chars_of(key.as_str());
        let mut i: usize = 0;
        while i < self.entries.len() && str_lt(&chars_of(self.entries[i].0.as_str()), &k)
            invariant
                i <= self.entries.len(),
                k@ == key@,
                forall|j: int| 0 <= j < i ==> lex_lt(#[trigger] self.entries@[j].0@, key@),
            decreases self.entries.len() - i,
        {
            i = i + 1;
        }
        let ghost old_s = self.entries@;
        let ghost kv = key@;
        let ghost vv = value@;
        proof {
            assert forall|j: int| 0 <= j < i implies (#[trigger] old_s[j]).0@ != kv by {
                lemma_lex_lt_irreflexive(kv);
            }
        }
        let same = i < self.entries.len() && crate::text::chars_eq(&chars_of(self.entries[i].0.as_str()), &k);
        if same {
            let mut entries: Vec<(String, String)> = Vec::new();
            std::mem::swap(&mut entries, &mut self.entries);
            assert(entries@ == old_s);
            entries.set(i, (key, value));
            proof {
                assert forall|x: int, y: int| 0 <= x < y < entries@.len()
                    implies lex_lt(#[trigger] entries@[x].0@, #[trigger] entries@[y].0@) by {
                    assert(entries@[i as int].0@ == old_s[i as int].0@);
                    if x != i && y != i {
                        assert(entries@[x] == old_s[x] && entries@[y] == old_s[y]);
                    } else if x == i {
                        assert(entries@[y] == old_s[y]);
                    } else {
                        assert(entries@[x] == old_s[x]);
                    }
                }
            }
            self.entries = entries;
            proof {
                let s = self.entries@;
                assert(s[i as int].0@ == kv);
                lemma_first_with_key(s, i as int);
                assert forall|kk: Seq<char>| kk != kv implies (#[trigger] entries_map(s).contains_key(kk)) == entries_map(old_s).contains_key(kk)
                    && (entries_map(s).contains_key(kk) ==> entries_map(s)[kk] == entries_map(old_s)[kk]) by {
                    if has_key(old_s, kk) {
                        let j = choose|j: int| 0 <= j < old_s.len() && (#[trigger] old_s[j]).0@ == kk;
                        lemma_first_exists(old_s, kk, j);
                        let f = choose|f: int| is_first_with_key(old_s, kk, f);
                        assert(f != i);
                        assert(s[f] == old_s[f]);
                        assert(is_first_with_key(s, kk, f)) by {
                            assert forall|m: int| 0 <= m < f implies (#[trigger] s[m]).0@ != kk by {
                                if m != i {
                                    assert(s[m] == old_s[m]);
                                }
                            }
                        }
                        lemma_first_with_key(s, f);
                        lemma_first_with_key(old_s, f);
                    } else {
                        assert forall|j: int| 0 <= j < s.len() implies (#[trigger] s[j]).0@ != kk by {
                            if j != i {
                                assert(s[j] == old_s[j]);
                            }
                        }
                    }
                }
                assert(entries_map(s) =~= entries_map(old_s).insert(kv, vv));
            }
        } else {
            let mut entries: Vec<(String, String)> = Vec::new();
            std::mem::swap(&mut entries, &mut self.entries);
            assert(entries@ == old_s);
            entries.insert(i, (key, value));
            proof {
                if i < old_s.len() {
                    assert(old_s[i as int].0@ != kv);
                    assert(!lex_lt(old_s[i as int].0@, kv));
                    lemma_lex_lt_total(old_s[i as int].0@, kv);
                }
                assert forall|j: int| i <= j < old_s.len() implies lex_lt(kv, #[trigger] old_s[j].0@) by {
                    if j > i {
                        lemma_lex_lt_transitive(kv, old_s[i as int].0@, old_s[j].0@);
                    }
                }
                assert forall|x: int, y: int| 0 <= x < y < entries@.len()
                    implies lex_lt(#[trigger] entries@[x].0@, #[trigger] entries@[y].0@) by {
                    if y < i {
                        assert(entries@[x] == old_s[x] && entries@[y] == old_s[y]);
                    } else if y == i {
                        assert(entries@[x] == old_s[x]);
                    } else if x > i {
                        assert(entries@[x] == old_s[x - 1] && entries@[y] == old_s[y - 1]);
                    } else if x == i {
                        assert(entries@[y] == old_s[y - 1]);
                        assert(lex_lt(kv, old_s[y - 1].0@));
                    } else {
                        assert(entries@[x] == old_s[x] && entries@[y] == old_s[y - 1]);
                        assert(lex_lt(kv, old_s[y - 1].0@));
                        lemma_lex_lt_transitive(old_s[x].0@, kv, old_s[y - 1].0@);
                    }
                }
            }
            self.entries = entries;
            proof {
                let s = self.entries@;
                assert(s[i as int].0@ == kv);
                assert(is_first_with_key(s, kv, i as int)) by {
                    assert forall|m: int| 0 <= m < i implies (#[trigger] s[m]).0@ != kv by {
                        assert(s[m] == old_s[m]);
                    }
                }
                lemma_first_with_key(s, i as int);
                assert forall|kk: Seq<char>| kk != kv implies (#[trigger] entries_map(s).contains_key(kk)) == entries_map(old_s).contains_key(kk)
                    && (entries_map(s).contains_key(kk) ==> entries_map(s)[kk] == entries_map(old_s)[kk]) by {
                    if has_key(old_s, kk) {
                        let j = choose|j: int| 0 <= j < old_s.len() && (#[trigger] old_s[j]).0@ == kk;
                        lemma_first_exists(old_s, kk, j);
                        let f = choose|f: int| is_first_with_key(old_s, kk, f);
                        let g = if f < i { f } else { f + 1 };
                        assert(s[g] == old_s[f]);
                        assert(is_first_with_key(s, kk, g)) by {
                            assert forall|m: int| 0 <= m < g implies (#[trigger] s[m]).0@ != kk by {
                                if m < i {
                                    assert(s[m] == old_s[m]);
                                } else if m > i {
                                    assert(s[m] == old_s[m - 1]);
                                }
                            }
                        }
                        lemma_first_with_key(s, g);
                        lemma_first_with_key(old_s, f);
                    } else {
                        assert forall|j: int| 0 <= j < s.len() implies (#[trigger] s[j]).0@ != kk by {
                            if j < i {
                                assert(s[j] == old_s[j]);
                            } else if j > i {
                                assert(s[j] == old_s[j - 1]);
                            }
                        }
                    }
                }
                assert(entries_map(s) =~= entries_map(old_s).insert(kv, vv));
            }
        }
    }

    /// A copy of these fields.
    pub fn clone_fields(&self) -> (r: Self)
        ensures
            r@ == self@,
    {
        let mut entries: Vec<(String, String)> = Vec::new();
        let mut i: usize = 0;
        while i < self.entries.len()
            invariant
                i <= self.entries.len(),
                entries@ == self.entries@.subrange(0, i as int),
            decreases self.entries.len() - i,
        {
            let k = self.entries[i].0.clone();
            let v = self.entries[i].1.clone();
            entries.push((k, v));
            assert(entries@ =~= self.entries@.subrange(0, i + 1));
            i = i + 1;
        }
        assert(entries@ =~= self.entries@);
        proof { use_type_invariant(self); }
        let r = PublicFields { entries };
        assert(r@ == self@);
        r
    }

    /// The fields as `(name, value)` pairs, in the order they are kept.
    pub fn entries(&self) -> (r: &[(String, String)])
        ensures
            entries_map(r@) == self@,
            keys_ascending(r@),
    {
        proof { use_type_invariant(self); }
        self.entries.as_slice()
    }
}

impl Clone for PublicFields {
    /// A copy of these fields.
    fn clone(&self) -> (r: Self)
        ensures
            r@ == self@,
    {
        self.clone_fields()
    }
}

} // verus!
