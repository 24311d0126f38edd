//! JSON values as the library reads them, parsed and written by `serde_json`.
use vstd::prelude::*;

use crate::text::{chars_eq_str, chars_of, owned};

verus! {

/// `serde_json::Value`, carried opaquely between the conversions below.
#[verifier::external_type_specification]
#[verifier::external_body]
pub struct ExSerdeJsonValue(serde_json::Value);

/// A JSON value. A number keeps the text `serde_json` writes for it; an
/// object keeps its members in the order `serde_json` holds them (by key).
#[derive(Debug, PartialEq, Eq)]
pub enum JsonValue {
    Null,
    Bool(bool),
    Number(String),
    Str(String),
    Array(Vec<JsonValue>),
    Object(Vec<(String, JsonValue)>),
}

/// What `serde_json::from_str::<serde_json::Value>` makes of `text`: a value,
/// or the text of its error.
pub uninterp spec fn json_parse(text: Seq<char>) -> Result<JsonValue, Seq<char>>;

/// The compact text `serde_json` writes for a value.
pub uninterp spec fn json_compact_text(value: JsonValue) -> Seq<char>;

/// Converts a `serde_json::Value` into a `JsonValue`, member for member.
#[verifier::external_body]
fn from_serde(value: serde_json::Value) -> JsonValue {
    match value {
        serde_json::Value::Null => JsonValue::Null,
        serde_json::Value::Bool(b) => JsonValue::Bool(b),
        serde_json::Value::Number(n) => JsonValue::Number(n.to_string()),
        serde_json::Value::String(s) => JsonValue::Str(s),
        serde_json::Value::Array(items) => JsonValue::Array(items.into_iter().map(from_serde).collect()),
        serde_json::Value::Object(map) => JsonValue::Object(map.into_iter().map(|(k, v)| (k, from_serde(v))).collect()),
    }
}

/// Converts a `JsonValue` into a `serde_json::Value`, member for member (a
/// number text that `serde_json` does not read as a number becomes `null`).
#[verifier::external_body]
fn to_serde(value: &JsonValue) -> serde_json::Value {
    match value {
        JsonValue::Null => serde_json::Value::Null,
        JsonValue::Bool(b) => serde_json::Value::Bool(*b),
        JsonValue::Number(t) => t.parse::<serde_json::Number>().map(serde_json::Value::Number).unwrap_or(serde_json::Value::Null),
        JsonValue::Str(s) => serde_json::Value::String(s.clone()),
        JsonValue::Array(items) => serde_json::Value::Array(items.iter().map(to_serde).collect()),
        JsonValue::Object(members) => serde_json::Value::Object(members.iter().map(|(k, v)| (k.clone(), to_serde(v))).collect()),
    }
}

/// Parses `text` with `serde_json::from_str` into a value, or gives the
/// `Display` text of its error. The result is named by `json_parse`: the same
/// text always parses the same way.
#[verifier::external_body]
pub(crate) fn parse_json(text: &str) -> (r: Result<JsonValue, String>)
    ensures
        match r {
            Ok(v) => json_parse(text@) == Ok::<JsonValue, Seq<char>>(v),
            Err(e) => json_parse(text@) == Err::<JsonValue, Seq<char>>(e@),
        },
{
    match serde_json::from_str::<serde_json::Value>(text) {
        Ok(v) => Ok(from_serde(v)),
        Err(e) => Err(e.to_string()),
    }
}

/// Writes `value` with `serde_json`'s compact `Display`, named by
/// `json_compact_text`.
#[verifier::external_body]
pub(crate) fn compact_text(value: &JsonValue) -> (r: String)
    ensures
        r@ == json_compact_text(*value),
{
    to_serde(value).to_string()
}

/// The first member named `key` of an object; nothing for other values.
pub open spec fn member(value: JsonValue, key: Seq<char>) -> Option<JsonValue> {
    match value {
        JsonValue::Object(ms) => first_member(ms@, key),
        _ => None,
    }
}

/// The value of the first of `ms` named `key`.
pub open spec fn first_member(ms: Seq<(String, JsonValue)>, key: Seq<char>) -> Option<JsonValue>
    decreases ms.len(),
{
    if ms.len() == 0 {
        None
    } else if ms[0].0@ == key {
        Some(ms[0].1)
    } else {
        first_member(ms.drop_first(), key)
    }
}

/// The text of member `key`, when it is a string.
pub open spec fn member_str(value: JsonValue, key: Seq<char>) -> Option<Seq<char>> {
    match member(value, key) {
        Some(JsonValue::Str(s)) => Some(s@),
        _ => None,
    }
}

/// Finds the first member named `key` of an object value.
pub fn get_member<'a>(value: &'a JsonValue, key: &str) -> (r: Option<&'a JsonValue>)
    ensures
        match r {
            Some(v) => member(*value, key@) == Some(*v),
            None => member(*value, key@) is None,
        },
{
    match value {
        JsonValue::Object(ms) => {
            let mut i: usize = 0;
            assert(ms@.subrange(0, ms@.len() as int) =~= ms@);
            while i < ms.len()
                invariant
                    i <= ms.len(),
                    member(*value, key@) == first_member(ms@, key@),
                    first_member(ms@, key@) == first_member(ms@.subrange(i as int, ms@.len() as int), key@),
                decreases ms.len() - i,
            {
                let name = chars_of(ms[i].0.as_str());
                let ghost rest = ms@.subrange(i as int, ms@.len() as int);
                assert(rest[0] == ms@[i as int]);
                assert(rest.drop_first() =~= ms@.subrange(i + 1, ms@.len() as int));
                if chars_eq_str(&name, key) {
                    assert(first_member(rest, key@) == Some(rest[0].1));
                    return Some(&ms[i].1);
                }
                i = i + 1;
            }
            None
        },
        _ => None,
    }
}

/// Finds member `key` of an object value when it is a string.
pub fn get_str<'a>(value: &'a JsonValue, key: &str) -> (r: Option<&'a str>)
    ensures
        match r {
            Some(s) => member_str(*value, key@) == Some(s@),
            None => member_str(*value, key@) is None,
        },
{
    match get_member(value, key) {
        Some(JsonValue::Str(s)) => Some(s.as_str()),
        _ => None,
    }
}

/// How a value is shown as a public field: strings as they are, `null`,
/// `true` and `false` as words, numbers as written, other values as compact JSON.
pub open spec fn public_text(value: JsonValue) -> Seq<char> {
    match value {
        JsonValue::Null => "null"@,
        JsonValue::Bool(b) => if b { "true"@ } else { "false"@ },
        JsonValue::Number(t) => t@,
        JsonValue::Str(s) => s@,
        _ => json_compact_text(value),
    }
}

/// The public text of a JSON value.
pub fn json_value_to_public_string(value: &JsonValue) -> (r: String)
    ensures
        r@ == public_text(*value),
{
    match value {
        JsonValue::Null => owned("null"),
        JsonValue::Bool(b) => if *b { owned("true") } else { owned("false") },
        JsonValue::Number(t) => t.clone(),
        JsonValue::Str(s) => s.clone(),
        _ => compact_text(value),
    }
}

/// Whether `a` and `b` are the same JSON value: same kind, same texts, same
/// items and members in the same order.
pub open spec fn same_json(a: JsonValue, b: JsonValue) -> bool
    decreases a,
{
    match a {
        JsonValue::Null => b is Null,
        JsonValue::Bool(x) => b == JsonValue::Bool(x),
        JsonValue::Number(x) => b matches JsonValue::Number(y) && y@ == x@,
        JsonValue::Str(x) => b matches JsonValue::Str(y) && y@ == x@,
        JsonValue::Array(xs) => b matches JsonValue::Array(ys) && ys@.len() == xs@.len()
            && forall|i: int| 0 <= i < xs@.len() ==> same_json(#[trigger] xs@[i], ys@[i]),
        JsonValue::Object(xs) => b matches JsonValue::Object(ys) && ys@.len() == xs@.len()
            && forall|i: int| 0 <= i < xs@.len() ==> (#[trigger] xs@[i]).0@ == ys@[i].0@
                && same_json(xs@[i].1, ys@[i].1),
    }
}

/// `same_json` is transitive.
pub proof fn lemma_same_json_trans(a: JsonValue, b: JsonValue, c: JsonValue)
    requires
        same_json(a, b),
        same_json(b, c),
    ensures
        same_json(a, c),
    decreases a,
{
    match a {
        JsonValue::Array(xs) => {
            let ys = b->Array_0;
            let zs = c->Array_0;
            assert forall|i: int| 0 <= i < xs@.len() implies same_json(#[trigger] xs@[i], zs@[i]) by {
                vstd::std_specs::vec::axiom_vec_index_decreases(xs, i);
                lemma_same_json_trans(xs@[i], ys@[i], zs@[i]);
            }
        },
        JsonValue::Object(xs) => {
            let ys = b->Object_0;
            let zs = c->Object_0;
            assert forall|i: int| 0 <= i < xs@.len() implies (#[trigger] xs@[i]).0@ == zs@[i].0@
                && same_json(xs@[i].1, zs@[i].1) by {
                vstd::std_specs::vec::axiom_vec_index_decreases(xs, i);
                assert(decreases_to!(xs@[i] => xs@[i].1));
                lemma_same_json_trans(xs@[i].1, ys@[i].1, zs@[i].1);
            }
        },
        _ => {},
    }
}

/// A copy of `value`.
pub fn clone_json(value: &JsonValue) -> (r: JsonValue)
    ensures
        same_json(*value, r),
    decreases value,
{
    match value {
        JsonValue::Null => JsonValue::Null,
        JsonValue::Bool(b) => JsonValue::Bool(*b),
        JsonValue::Number(t) => JsonValue::Number(t.clone()),
        JsonValue::Str(t) => JsonValue::Str(t.clone()),
        JsonValue::Array(xs) => {
            let mut ys: Vec<JsonValue> = Vec::new();
            let mut i: usize = 0;
            while i < xs.len()
                invariant
                    i <= xs.len(),
                    ys@.len() == i,
                    *value is Array,
                    value->Array_0 == *xs,
                    forall|j: int| 0 <= j < i ==> same_json(#[trigger] xs@[j], ys@[j]),
                decreases xs.len() - i,
            {
                proof {
                    vstd::std_specs::vec::axiom_vec_index_decreases(value->Array_0, i as int);
                    assert(decreases_to!(*value => value->Array_0));
                }
                let y = clone_json(&xs[i]);
                ys.push(y);
                i = i + 1;
            }
            JsonValue::Array(ys)
        },
        JsonValue::Object(xs) => {
            let mut ys: Vec<(String, JsonValue)> = Vec::new();
            let mut i: usize = 0;
            while i < xs.len()
                invariant
                    i <= xs.len(),
                    ys@.len() == i,
                    *value is Object,
                    value->Object_0 == *xs,
                    forall|j: int| 0 <= j < i ==> (#[trigger] xs@[j]).0@ == ys@[j].0@
                        && same_json(xs@[j].1, ys@[j].1),
                decreases xs.len() - i,
            {
                proof {
                    vstd::std_specs::vec::axiom_vec_index_decreases(value->Object_0, i as int);
                    assert(decreases_to!(*value => value->Object_0));
                    assert(decreases_to!(xs@[i as int] => xs@[i as int].1));
                }
                let y = clone_json(&xs[i].1);
                ys.push((xs[i].0.clone(), y));
                i = i + 1;
            }
            JsonValue::Object(ys)
        },
    }
}

} // verus!
