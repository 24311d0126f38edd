//! The result line the kernel binary answers with, and what the client adds
//! to its payload.
use vstd::prelude::*;

use super::{
    insert_runtime_binary_contract_metadata, is_flag, is_opt_int, metadata_added, opt_int,
    set_member, RUNTIME_BINARY_CONTRACT_VERSION, RUNTIME_BINARY_PROTOCOL,
    RUNTIME_BINARY_PROTOCOL_VERSION,
};
use crate::json::{
    clone_json, get_member, get_str, json_parse, member, member_str, parse_json, same_json,
    JsonValue,
};
use crate::manifest_text::{line_pieces, split_lines, views};
use crate::text::{chars_of, owned, str_eq, string_of};

verus! {

broadcast use vstd::string::group_string_axioms;

/// Why a runtime binary invocation failed.
#[derive(Debug, Clone, Copy, PartialEq, Eq, Structural)]
pub enum KernelRuntimeBinaryErrorKind {
    FoundationBinaryMissing,
    FoundationBinaryNotExecutable,
    KernelBinaryMissing,
    KernelBinaryNotExecutable,
    ProcessSpawnFailed,
    StdinWriteFailed,
    StdoutReadFailed,
    NonZeroExit,
    InvalidJsonlOutput,
    ProtocolVersionMismatch,
    ContractVersionMismatch,
    KernelInvocationFailed,
}

/// The result line of the kernel binary, once its versions were checked.
#[derive(Debug, PartialEq, Eq)]
pub struct KernelRuntimeBinaryResponse {
    pub protocol: String,
    pub protocol_version: String,
    pub contract_version: String,
    pub payload: JsonValue,
    pub exit_code: Option<i32>,
}

// ---------------------------------------------------------------------------
// Reading the result line
// ---------------------------------------------------------------------------

/// A line without the `\r` of a `\r\n` ending.
pub open spec fn strip_cr(l: Seq<char>) -> Seq<char> {
    if l.len() > 0 && l.last() == '\r' { l.drop_last() } else { l }
}

/// The lines of `s` as `str::lines` cuts them: at `\n`, dropping the `\r`
/// of a `\r\n`, with no empty line after a final `\n`.
pub open spec fn text_lines(s: Seq<char>) -> Seq<Seq<char>> {
    let p = line_pieces(s);
    Seq::new(p.len(), |i: int| if i + 1 < p.len() || (s.len() > 0 && s.last() == '\n') {
        strip_cr(p[i])
    } else {
        p[i]
    })
}

/// Whether `v` is a `kernel.invocation.result` event.
pub open spec fn is_result_event(v: JsonValue) -> bool {
    member_str(v, "event"@) == Some("kernel.invocation.result"@)
}

/// Whether `line` parses as a `kernel.invocation.result` event.
pub open spec fn is_result_line(line: Seq<char>) -> bool {
    json_parse(line) matches Ok(v) && is_result_event(v)
}

/// Whether line `i` is the first result line of `lines`.
pub open spec fn first_result_line(lines: Seq<Seq<char>>, i: int) -> bool {
    0 <= i < lines.len() && is_result_line(lines[i]) && forall|j: int| 0 <= j < i ==> !is_result_line(#[trigger] lines[j])
}

/// Whether no line of `lines` is a result line.
pub open spec fn no_result_line(lines: Seq<Seq<char>>) -> bool {
    forall|j: int| 0 <= j < lines.len() ==> !is_result_line(#[trigger] lines[j])
}

/// The text of member `key`, or the empty text when it is absent or no string.
pub open spec fn str_or_empty(v: JsonValue, key: Seq<char>) -> Seq<char> {
    match member_str(v, key) {
        Some(s) => s,
        None => Seq::empty(),
    }
}

/// Why the versions of a result event are refused, if they are.
pub open spec fn version_refusal(v: JsonValue) -> Option<KernelRuntimeBinaryErrorKind> {
    if str_or_empty(v, "protocol"@) != "stdio_jsonl"@
        || str_or_empty(v, "protocol_version"@) != "aicore.kernel.runtime_binary.stdio_jsonl.v1"@ {
        Some(KernelRuntimeBinaryErrorKind::ProtocolVersionMismatch)
    } else if str_or_empty(v, "contract_version"@) != "kernel.runtime.v1"@ {
        Some(KernelRuntimeBinaryErrorKind::ContractVersionMismatch)
    } else {
        None
    }
}

/// The payload of a result event, `null` when it has none.
pub open spec fn event_payload(v: JsonValue) -> JsonValue {
    match member(v, "payload"@) {
        Some(p) => p,
        None => JsonValue::Null,
    }
}

/// Whether `r` is the response that the result event `v` gives.
pub open spec fn response_of(v: JsonValue, r: KernelRuntimeBinaryResponse, exit_code: Option<i32>) -> bool {
    &&& r.protocol@ == str_or_empty(v, "protocol"@)
    &&& r.protocol_version@ == str_or_empty(v, "protocol_version"@)
    &&& r.contract_version@ == str_or_empty(v, "contract_version"@)
    &&& same_json(event_payload(v), r.payload)
    &&& r.exit_code == exit_code
}

/// What the first result line of `lines` makes of a run: the response, or
/// why it is refused; no result line is invalid output.
pub open spec fn response_outcome(
    lines: Seq<Seq<char>>,
    exit_code: Option<i32>,
    r: Result<KernelRuntimeBinaryResponse, KernelRuntimeBinaryErrorKind>,
) -> bool {
    if no_result_line(lines) {
        r == Err::<KernelRuntimeBinaryResponse, _>(KernelRuntimeBinaryErrorKind::InvalidJsonlOutput)
    } else {
        exists|i: int| #![trigger first_result_line(lines, i)] first_result_line(lines, i) && {
            let v = json_parse(lines[i])->Ok_0;
            match version_refusal(v) {
                Some(k) => r == Err::<KernelRuntimeBinaryResponse, _>(k),
                None => r matches Ok(resp) && response_of(v, resp, exit_code),
            }
        }
    }
}

/// The lines of `s` as `str::lines` gives them.
pub fn text_lines_of(s: &str) -> (r: Vec<String>)
    ensures
        r@.len() == text_lines(s@).len(),
        forall|i: int| 0 <= i < r@.len() ==> (#[trigger] r@[i])@ == text_lines(s@)[i],
{
    let cs = chars_of(s);
    let pieces = split_lines(&cs);
    let ends_with_newline = cs.len() > 0 && cs[cs.len() - 1] == '\n';
    let mut out: Vec<String> = Vec::new();
    let mut i: usize = 0;
    while i < pieces.len()
        invariant
            i <= pieces.len(),
            views(pieces@) == line_pieces(s@),
            cs@ == s@,
            ends_with_newline == (s@.len() > 0 && s@.last() == '\n'),
            out@.len() == i,
            forall|j: int| 0 <= j < i ==> (#[trigger] out@[j])@ == text_lines(s@)[j],
        decreases pieces.len() - i,
    {
        let p = &pieces[i];
        assert(views(pieces@)[i as int] == p@);
        let terminated = i + 1 < pieces.len() || ends_with_newline;
        let line = if terminated && p.len() > 0 && p[p.len() - 1] == '\r' {
            let mut q: Vec<char> = Vec::new();
            let mut k: usize = 0;
            while k + 1 < p.len()
                invariant
                    p.len() >= 1,
                    k + 1 <= p.len(),
                    q@ == p@.subrange(0, k as int),
                decreases p.len() - k,
            {
                q.push(p[k]);
                assert(q@ =~= p@.subrange(0, k + 1));
                k = k + 1;
            }
            assert(q@ =~= p@.drop_last());
            string_of(&q)
        } else {
            string_of(p)
        };
        out.push(line);
        i = i + 1;
    }
    out
}

/// The response that a result event gives, or why its versions are refused.
fn response_from_event(v: &JsonValue, exit_code: Option<i32>) -> (r: Result<KernelRuntimeBinaryResponse, KernelRuntimeBinaryErrorKind>)
    ensures
        match version_refusal(*v) {
            Some(k) => r == Err::<KernelRuntimeBinaryResponse, _>(k),
            None => r matches Ok(resp) && response_of(*v, resp, exit_code),
        },
{
    let protocol = match get_str(v, "protocol") {
        Some(t) => owned(t),
        None => String::new(),
    };
    let protocol_version = match get_str(v, "protocol_version") {
        Some(t) => owned(t),
        None => String::new(),
    };
    let contract_version = match get_str(v, "contract_version") {
        Some(t) => owned(t),
        None => String::new(),
    };
    proof {
        reveal_strlit("stdio_jsonl");
        reveal_strlit("aicore.kernel.runtime_binary.stdio_jsonl.v1");
        reveal_strlit("kernel.runtime.v1");
    }
    if !str_eq(protocol.as_str(), RUNTIME_BINARY_PROTOCOL)
        || !str_eq(protocol_version.as_str(), RUNTIME_BINARY_PROTOCOL_VERSION) {
        return Err(KernelRuntimeBinaryErrorKind::ProtocolVersionMismatch);
    }
    if !str_eq(contract_version.as_str(), RUNTIME_BINARY_CONTRACT_VERSION) {
        return Err(KernelRuntimeBinaryErrorKind::ContractVersionMismatch);
    }
    let payload = match get_member(v, "payload") {
        Some(p) => clone_json(p),
        None => JsonValue::Null,
    };
    Ok(KernelRuntimeBinaryResponse { protocol, protocol_version, contract_version, payload, exit_code })
}

/// Reads the first `kernel.invocation.result` event in the binary's output:
/// its response when its protocol and contract versions are the expected
/// ones, else which version was refused; invalid output when no line is
/// such an event.
pub fn parse_kernel_invocation_result_response(stdout: &str, exit_code: Option<i32>) -> (r: Result<
    KernelRuntimeBinaryResponse,
    KernelRuntimeBinaryErrorKind,
>)
    ensures
        response_outcome(text_lines(stdout@), exit_code, r),
{
    let lines = text_lines_of(stdout);
    let ghost ls = text_lines(stdout@);
    let mut i: usize = 0;
    while i < lines.len()
        invariant
            i <= lines.len(),
            ls == text_lines(stdout@),
            lines@.len() == ls.len(),
            forall|j: int| 0 <= j < lines@.len() ==> (#[trigger] lines@[j])@ == ls[j],
            forall|j: int| 0 <= j < i ==> !is_result_line(#[trigger] ls[j]),
        decreases lines.len() - i,
    {
        assert(lines@[i as int]@ == ls[i as int]);
        match parse_json(lines[i].as_str()) {
            Ok(v) => {
                let event_ok = match get_str(&v, "event") {
                    Some(e) => str_eq(e, "kernel.invocation.result"),
                    None => false,
                };
                proof {
                    reveal_strlit("kernel.invocation.result");
                }
                if event_ok {
                    assert(first_result_line(ls, i as int));
                    assert(json_parse(ls[i as int]) == Ok::<JsonValue, Seq<char>>(v));
                    let r = response_from_event(&v, exit_code);
                    assert(!no_result_line(ls));
                    return r;
                }
            },
            Err(_) => {},
        }
        i = i + 1;
    }
    Err(KernelRuntimeBinaryErrorKind::InvalidJsonlOutput)
}

// ---------------------------------------------------------------------------
// Changing members of nested objects
// ---------------------------------------------------------------------------

/// Whether `i` is the first of the members `ms` named `key`.
pub open spec fn first_named(ms: Seq<(String, JsonValue)>, key: Seq<char>, i: int) -> bool {
    0 <= i < ms.len() && ms[i].0@ == key && forall|j: int| 0 <= j < i ==> (#[trigger] ms[j]).0@ != key
}

/// `new` is `old` with the members of its first member named `key`, when
/// that one is an object, changed as `change` allows; else `new` is `old`.
pub open spec fn changed_within(
    old: Seq<(String, JsonValue)>,
    new: Seq<(String, JsonValue)>,
    key: Seq<char>,
    change: spec_fn(Seq<(String, JsonValue)>, Seq<(String, JsonValue)>) -> bool,
) -> bool {
    if exists|i: int| first_named(old, key, i) && old[i].1 is Object {
        let i = choose|i: int| first_named(old, key, i) && old[i].1 is Object;
        &&& new.len() == old.len()
        &&& forall|j: int| 0 <= j < old.len() && j != i ==> #[trigger] new[j] == old[j]
        &&& new[i].0 == old[i].0
        &&& new[i].1 is Object
        &&& change(old[i].1->Object_0@, new[i].1->Object_0@)
    } else {
        new == old
    }
}

/// `new` is the value `old` with `changed_within` applied to its members; a
/// value that is no object stays as it was.
pub open spec fn value_changed_within(
    old: JsonValue,
    new: JsonValue,
    key: Seq<char>,
    change: spec_fn(Seq<(String, JsonValue)>, Seq<(String, JsonValue)>) -> bool,
) -> bool {
    match old {
        JsonValue::Object(ms) => new matches JsonValue::Object(ns) && changed_within(ms@, ns@, key, change),
        _ => new == old,
    }
}

/// The first member named `key` is unique.
pub proof fn lemma_first_named_unique(ms: Seq<(String, JsonValue)>, key: Seq<char>, i: int, j: int)
    requires
        first_named(ms, key, i),
        first_named(ms, key, j),
    ensures
        i == j,
{
    if i < j {
        assert(ms[i].0@ != key);
    } else if j < i {
        assert(ms[j].0@ != key);
    }
}

/// The index of the first of `ms` named `key`.
fn first_index_named(ms: &Vec<(String, JsonValue)>, key: &str) -> (r: Option<usize>)
    ensures
        match r {
            Some(i) => first_named(ms@, key@, i as int),
            None => forall|j: int| 0 <= j < ms@.len() ==> (#[trigger] ms@[j]).0@ != key@,
        },
{
    let mut i: usize = 0;
    while i < ms.len()
        invariant
            i <= ms.len(),
            forall|j: int| 0 <= j < i ==> (#[trigger] ms@[j]).0@ != key@,
        decreases ms.len() - i,
    {
        if str_eq(ms[i].0.as_str(), key) {
            return Some(i);
        }
        i = i + 1;
    }
    None
}

/// Takes out the members of the first member named `key` when that one is
/// an object: its index and members, with the rest left in place.
fn take_object_member(ms: &mut Vec<(String, JsonValue)>, key: &str) -> (r: Option<(usize, String, Vec<(String, JsonValue)>)>)
    ensures
        match r {
            Some((i, k, inner)) => {
                &&& first_named(old(ms)@, key@, i as int)
                &&& old(ms)@[i as int].1 == JsonValue::Object(inner)
                &&& old(ms)@[i as int].0 == k
                &&& final(ms)@ == old(ms)@.remove(i as int)
            },
            None => {
                &&& !(exists|i: int| first_named(old(ms)@, key@, i) && old(ms)@[i].1 is Object)
                &&& final(ms)@ == old(ms)@
            },
        },
{
    match first_index_named(ms, key) {
        Some(i) => {
            let is_object = match &ms[i].1 {
                JsonValue::Object(_) => true,
                _ => false,
            };
            if is_object {
                let (k, v) = ms.remove(i);
                match v {
                    JsonValue::Object(inner) => Some((i, k, inner)),
                    _ => {
                        ms.insert(i, (k, v));
                        None
                    },
                }
            } else {
                proof {
                    assert forall|j: int| first_named(old(ms)@, key@, j) implies !(old(ms)@[j].1 is Object) by {
                        lemma_first_named_unique(old(ms)@, key@, i as int, j);
                    }
                }
                None
            }
        },
        None => None,
    }
}

/// Puts back the member taken out by `take_object_member`, with `inner` as
/// its members, and shows which change that is.
fn put_object_member(
    ms: &mut Vec<(String, JsonValue)>,
    i: usize,
    k: String,
    inner: Vec<(String, JsonValue)>,
    Ghost(before): Ghost<Seq<(String, JsonValue)>>,
    Ghost(key): Ghost<Seq<char>>,
    Ghost(change): Ghost<spec_fn(Seq<(String, JsonValue)>, Seq<(String, JsonValue)>) -> bool>,
)
    requires
        first_named(before, key, i as int),
        before[i as int].1 is Object,
        before[i as int].0 == k,
        old(ms)@ == before.remove(i as int),
        change(before[i as int].1->Object_0@, inner@),
    ensures
        changed_within(before, final(ms)@, key, change),
{
    ms.insert(i, (k, JsonValue::Object(inner)));
    proof {
        let c = choose|c: int| first_named(before, key, c) && before[c].1 is Object;
        lemma_first_named_unique(before, key, i as int, c);
        assert forall|j: int| 0 <= j < before.len() && j != i implies #[trigger] ms@[j] == before[j] by {
            if j < i {
                assert(ms@[j] == before.remove(i as int)[j]);
            } else {
                assert(ms@[j] == before.remove(i as int)[j - 1]);
            }
        }
    }
}

// ---------------------------------------------------------------------------
// What the client adds to the payload
// ---------------------------------------------------------------------------

/// `new` is the handler members `old` with the process facts set: the
/// process exit code, a spawned process, and no first-party adapter. Every
/// other member of `old` is still there.
pub open spec fn process_facts_set(
    old: Seq<(String, JsonValue)>,
    new: Seq<(String, JsonValue)>,
    exit_code: Option<i32>,
) -> bool {
    &&& exists|i: int| 0 <= i < new.len() && new[i].0@ == "process_exit_code"@ && is_opt_int(new[i].1, exit_code)
    &&& exists|i: int| 0 <= i < new.len() && new[i].0@ == "spawned_process"@ && is_flag(new[i].1, true)
    &&& exists|i: int| 0 <= i < new.len() && new[i].0@ == "first_party_in_process_adapter"@ && is_flag(new[i].1, false)
    &&& forall|j: int| 0 <= j < old.len() && old[j].0@ != "process_exit_code"@ && old[j].0@ != "spawned_process"@
        && old[j].0@ != "first_party_in_process_adapter"@ ==> exists|k: int| 0 <= k < new.len() && #[trigger] new[k] == old[j]
}

/// `new` is the payload `old` with the process facts set in its handler.
pub open spec fn handler_marked(old: JsonValue, new: JsonValue, exit_code: Option<i32>) -> bool {
    value_changed_within(old, new, "handler"@, |o: Seq<(String, JsonValue)>, n: Seq<(String, JsonValue)>| process_facts_set(o, n, exit_code))
}

/// `new` is the payload `old` with the contract metadata set in its result fields.
pub open spec fn result_fields_marked(old: JsonValue, new: JsonValue) -> bool {
    value_changed_within(old, new, "result"@, |ro: Seq<(String, JsonValue)>, rn: Seq<(String, JsonValue)>|
        changed_within(ro, rn, "fields"@, |fo: Seq<(String, JsonValue)>, fnew: Seq<(String, JsonValue)>| metadata_added(fo, fnew)))
}

/// Sets the process facts in the members of a handler.
fn set_process_facts(hm: &mut Vec<(String, JsonValue)>, exit_code: Option<i32>)
    ensures
        process_facts_set(old(hm)@, final(hm)@, exit_code),
{
    let ghost h0 = hm@;
    let code = opt_int(exit_code);
    let ghost gcode = code;
    set_member(hm, "process_exit_code", code);
    let ghost h1 = hm@;
    set_member(hm, "spawned_process", JsonValue::Bool(true));
    let ghost h2 = hm@;
    set_member(hm, "first_party_in_process_adapter", JsonValue::Bool(false));
    proof {
        reveal_strlit("process_exit_code");
        reveal_strlit("spawned_process");
        reveal_strlit("first_party_in_process_adapter");
        assert("process_exit_code"@.len() == 17);
        assert("spawned_process"@.len() == 15);
        assert("first_party_in_process_adapter"@.len() == 30);
        let i1 = choose|i: int| 0 <= i < h1.len() && h1[i].0@ == "process_exit_code"@ && h1[i].1 == gcode;
        let a = choose|k: int| 0 <= k < h2.len() && #[trigger] h2[k] == h1[i1];
        let b = choose|k: int| 0 <= k < hm@.len() && #[trigger] hm@[k] == h2[a];
        let i2 = choose|i: int| 0 <= i < h2.len() && h2[i].0@ == "spawned_process"@ && h2[i].1 == JsonValue::Bool(true);
        let c = choose|k: int| 0 <= k < hm@.len() && #[trigger] hm@[k] == h2[i2];
        assert forall|j: int| 0 <= j < h0.len() && h0[j].0@ != "process_exit_code"@ && h0[j].0@ != "spawned_process"@
            && h0[j].0@ != "first_party_in_process_adapter"@ implies exists|k: int| 0 <= k < hm@.len() && #[trigger] hm@[k] == h0[j] by {
            let x = choose|k: int| 0 <= k < h1.len() && #[trigger] h1[k] == h0[j];
            let y = choose|k: int| 0 <= k < h2.len() && #[trigger] h2[k] == h1[x];
            let z = choose|k: int| 0 <= k < hm@.len() && #[trigger] hm@[k] == h2[y];
        }
    }
}

/// Sets the process facts in the handler of a payload.
fn mark_handler(payload: JsonValue, exit_code: Option<i32>) -> (r: JsonValue)
    ensures
        handler_marked(payload, r, exit_code),
{
    match payload {
        JsonValue::Object(mut ms) => {
            let ghost before = ms@;
            match take_object_member(&mut ms, "handler") {
                Some((i, k, mut hm)) => {
                    let ghost h0 = hm@;
                    set_process_facts(&mut hm, exit_code);
                    put_object_member(&mut ms, i, k, hm, Ghost(before), Ghost("handler"@),
                        Ghost(|o: Seq<(String, JsonValue)>, n: Seq<(String, JsonValue)>| process_facts_set(o, n, exit_code)));
                },
                None => {},
            }
            JsonValue::Object(ms)
        },
        other => other,
    }
}

/// Sets the contract metadata in the members `fields` of the first member
/// named `fields`, when that one is an object.
fn mark_fields(ms: &mut Vec<(String, JsonValue)>)
    ensures
        changed_within(old(ms)@, final(ms)@, "fields"@, |fo: Seq<(String, JsonValue)>, fnew: Seq<(String, JsonValue)>| metadata_added(fo, fnew)),
{
    let ghost before = ms@;
    match take_object_member(ms, "fields") {
        Some((i, k, mut fm)) => {
            insert_runtime_binary_contract_metadata(&mut fm);
            put_object_member(ms, i, k, fm, Ghost(before), Ghost("fields"@),
                Ghost(|fo: Seq<(String, JsonValue)>, fnew: Seq<(String, JsonValue)>| metadata_added(fo, fnew)));
        },
        None => {},
    }
}

/// Sets the runtime binary contract metadata in the result fields of a
/// payload, when it has a `result` object with a `fields` object.
pub fn add_runtime_binary_contract_metadata(payload: JsonValue) -> (r: JsonValue)
    ensures
        result_fields_marked(payload, r),
{
    match payload {
        JsonValue::Object(mut ms) => {
            let ghost before = ms@;
            match take_object_member(&mut ms, "result") {
                Some((i, k, mut rm)) => {
                    mark_fields(&mut rm);
                    put_object_member(&mut ms, i, k, rm, Ghost(before), Ghost("result"@),
                        Ghost(|ro: Seq<(String, JsonValue)>, rn: Seq<(String, JsonValue)>|
                            changed_within(ro, rn, "fields"@, |fo: Seq<(String, JsonValue)>, fnew: Seq<(String, JsonValue)>| metadata_added(fo, fnew))));
                },
                None => {},
            }
            JsonValue::Object(ms)
        },
        other => other,
    }
}

/// `new` is the payload `old` as the client passes it on: the process facts
/// set in its handler and the contract metadata in its result fields.
pub open spec fn payload_passed_on(old: JsonValue, new: JsonValue, exit_code: Option<i32>) -> bool {
    exists|mid: JsonValue| #![trigger handler_marked(old, mid, exit_code)]
        handler_marked(old, mid, exit_code) && result_fields_marked(mid, new)
}

/// The payload of a response as the client passes it on, which the response
/// then holds too.
pub fn response_payload(response: &mut KernelRuntimeBinaryResponse, exit_code: Option<i32>) -> (r: JsonValue)
    ensures
        exists|p: JsonValue| same_json(old(response).payload, p) && payload_passed_on(p, r, exit_code),
        same_json(r, final(response).payload),
        final(response).protocol == old(response).protocol,
        final(response).protocol_version == old(response).protocol_version,
        final(response).contract_version == old(response).contract_version,
        final(response).exit_code == old(response).exit_code,
{
    let p = clone_json(&response.payload);
    let ghost gp = p;
    let mid = mark_handler(p, exit_code);
    let payload = add_runtime_binary_contract_metadata(mid);
    response.payload = clone_json(&payload);
    assert(payload_passed_on(gp, payload, exit_code));
    payload
}

} // verus!
