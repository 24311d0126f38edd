//! The kernel runtime binary protocol: the request sent to the kernel
//! binary over `stdio_jsonl`, the result line it answers with, the public
//! JSON of an invocation, and the failures of a binary invocation. Running
//! the binary is the caller's part.
use vstd::prelude::*;

use crate::invocation::{payload_summary, KernelInvocationEnvelope};
use crate::json::{member, JsonValue};
use crate::text::{append_str, decimal, owned, push_decimal, push_signed_decimal, str_eq};

pub mod public_json;
pub mod response;
pub mod client;
pub mod stdio;

verus! {

broadcast use vstd::string::group_string_axioms;

/// The file name of the foundation runtime binary.
pub const FOUNDATION_RUNTIME_BINARY_NAME: &'static str = "aicore-foundation";
/// The file name of the kernel runtime binary.
pub const KERNEL_RUNTIME_BINARY_NAME: &'static str = "aicore-kernel";
/// The protocol spoken with the kernel binary.
pub const RUNTIME_BINARY_PROTOCOL: &'static str = "stdio_jsonl";
/// Its version.
pub const RUNTIME_BINARY_PROTOCOL_VERSION: &'static str = "aicore.kernel.runtime_binary.stdio_jsonl.v1";
/// The schema of a request.
pub const RUNTIME_BINARY_REQUEST_SCHEMA_VERSION: &'static str = "aicore.kernel.runtime_binary.request.v1";
/// The schema of a response.
pub const RUNTIME_BINARY_RESPONSE_SCHEMA_VERSION: &'static str = "aicore.kernel.runtime_binary.response.v1";
/// The contract the kernel binary serves.
pub const RUNTIME_BINARY_CONTRACT_VERSION: &'static str = "kernel.runtime.v1";

// ---------------------------------------------------------------------------
// Building JSON
// ---------------------------------------------------------------------------

/// Whether `v` is the string `s`.
pub open spec fn is_text(v: JsonValue, s: Seq<char>) -> bool {
    v matches JsonValue::Str(t) && t@ == s
}

/// Whether `v` is the string `s`, or `null` when there is none.
pub open spec fn is_opt_text(v: JsonValue, s: Option<Seq<char>>) -> bool {
    match s {
        Some(t) => is_text(v, t),
        None => v is Null,
    }
}

/// Whether `v` is the boolean `b`.
pub open spec fn is_flag(v: JsonValue, b: bool) -> bool {
    v == JsonValue::Bool(b)
}

/// Whether `v` is the number `n`, written in decimal.
pub open spec fn is_int(v: JsonValue, n: int) -> bool {
    v matches JsonValue::Number(t) && t@ == crate::text::signed_decimal(n)
}

/// Whether `v` is the number `n`, or `null` when there is none.
pub open spec fn is_opt_int(v: JsonValue, n: Option<i32>) -> bool {
    match n {
        Some(k) => is_int(v, k as int),
        None => v is Null,
    }
}

/// The members of an object, or none.
pub open spec fn members(v: JsonValue) -> Seq<(String, JsonValue)> {
    match v {
        JsonValue::Object(ms) => ms@,
        _ => Seq::empty(),
    }
}

/// Whether member `i` of object `v` is named `key`; its value is `members(v)[i].1`.
pub open spec fn named(v: JsonValue, i: int, key: Seq<char>) -> bool {
    v is Object && 0 <= i < members(v).len() && members(v)[i].0@ == key
}

/// The value of member `i`.
pub open spec fn at(v: JsonValue, i: int) -> JsonValue {
    members(v)[i].1
}

fn text(s: &str) -> (r: JsonValue)
    ensures
        is_text(r, s@),
{
    JsonValue::Str(owned(s))
}

fn opt_string_text(s: &Option<String>) -> (r: JsonValue)
    ensures
        is_opt_text(r, match s {
            Some(t) => Some(t@),
            None => None,
        }),
{
    match s {
        Some(t) => JsonValue::Str(t.clone()),
        None => JsonValue::Null,
    }
}

fn int_value(n: i32) -> (r: JsonValue)
    ensures
        is_int(r, n as int),
{
    let mut t = String::new();
    push_signed_decimal(&mut t, n);
    JsonValue::Number(t)
}

fn count_value(n: usize) -> (r: JsonValue)
    ensures
        is_int(r, n as int),
{
    let mut t = String::new();
    push_decimal(&mut t, n as u64);
    JsonValue::Number(t)
}

fn opt_int(n: Option<i32>) -> (r: JsonValue)
    ensures
        is_opt_int(r, n),
{
    match n {
        Some(k) => int_value(k),
        None => JsonValue::Null,
    }
}

fn entry(key: &str, value: JsonValue) -> (r: (String, JsonValue))
    ensures
        r.0@ == key@,
        r.1 == value,
{
    (owned(key), value)
}

/// Sets member `key` of the object members `ms` to the string `value`,
/// replacing the first member of that name, else adding it at the end.
fn set_text_member(ms: &mut Vec<(String, JsonValue)>, key: &str, value: &str)
    ensures
        exists|i: int| 0 <= i < final(ms)@.len() && final(ms)@[i].0@ == key@ && is_text(final(ms)@[i].1, value@),
        forall|j: int| 0 <= j < old(ms)@.len() && old(ms)@[j].0@ != key@ ==> exists|k: int|
            0 <= k < final(ms)@.len() && #[trigger] final(ms)@[k] == old(ms)@[j],
{
    set_member(ms, key, text(value));
}

/// Sets member `key` of the object members `ms` to `value`, replacing the
/// first member of that name, else adding it at the end.
pub fn set_member(ms: &mut Vec<(String, JsonValue)>, key: &str, value: JsonValue)
    ensures
        exists|i: int| 0 <= i < final(ms)@.len() && final(ms)@[i].0@ == key@ && final(ms)@[i].1 == value,
        forall|j: int| 0 <= j < old(ms)@.len() && old(ms)@[j].0@ != key@ ==> exists|k: int|
            0 <= k < final(ms)@.len() && #[trigger] final(ms)@[k] == old(ms)@[j],
{
    let mut i: usize = 0;
    while i < ms.len()
        invariant
            i <= ms.len(),
            ms@ == old(ms)@,
            forall|j: int| 0 <= j < i ==> (#[trigger] ms@[j]).0@ != key@,
        decreases ms.len() - i,
    {
        if str_eq(ms[i].0.as_str(), key) {
            let ghost before = ms@;
            let pair = (owned(key), value);
            assert(pair.0@ == key@);
            ms.set(i, pair);
            proof {
                assert(ms@[i as int] == pair);
                assert forall|j: int| 0 <= j < old(ms)@.len() && old(ms)@[j].0@ != key@ implies exists|k: int|
                    0 <= k < ms@.len() && #[trigger] ms@[k] == old(ms)@[j] by {
                    assert(ms@[j] == before[j]);
                }
            }
            return;
        }
        i = i + 1;
    }
    let ghost before = ms@;
    let pair = (owned(key), value);
    assert(pair.0@ == key@);
    ms.push(pair);
    proof {
        assert(ms@[before.len() as int] == pair);
        assert forall|j: int| 0 <= j < old(ms)@.len() && old(ms)@[j].0@ != key@ implies exists|k: int|
            0 <= k < ms@.len() && #[trigger] ms@[k] == old(ms)@[j] by {
            assert(ms@[j] == before[j]);
        }
    }
}

/// Whether the members `ms` carry the runtime binary contract metadata.
pub open spec fn has_contract_metadata(ms: Seq<(String, JsonValue)>) -> bool {
    &&& exists|i: int| 0 <= i < ms.len() && ms[i].0@ == "protocol"@ && is_text(ms[i].1, "stdio_jsonl"@)
    &&& exists|i: int| 0 <= i < ms.len() && ms[i].0@ == "protocol_version"@
        && is_text(ms[i].1, "aicore.kernel.runtime_binary.stdio_jsonl.v1"@)
    &&& exists|i: int| 0 <= i < ms.len() && ms[i].0@ == "runtime_binary_contract_version"@
        && is_text(ms[i].1, "kernel.runtime.v1"@)
    &&& exists|i: int| 0 <= i < ms.len() && ms[i].0@ == "binary_health"@ && is_text(ms[i].1, "ok"@)
}

/// The names of the runtime binary contract metadata fields.
pub open spec fn is_metadata_key(k: Seq<char>) -> bool {
    ||| k == "protocol"@
    ||| k == "protocol_version"@
    ||| k == "runtime_binary_contract_version"@
    ||| k == "binary_health"@
}

/// `new` is `old` with the contract metadata set: every other member of
/// `old` is still there.
pub open spec fn metadata_added(old: Seq<(String, JsonValue)>, new: Seq<(String, JsonValue)>) -> bool {
    &&& has_contract_metadata(new)
    &&& forall|j: int| 0 <= j < old.len() && !is_metadata_key(old[j].0@) ==> exists|k: int|
        0 <= k < new.len() && #[trigger] new[k] == old[j]
}

/// Adds the runtime binary contract metadata to the members `ms`: protocol,
/// protocol version, contract version and a healthy binary.
pub fn insert_runtime_binary_contract_metadata(ms: &mut Vec<(String, JsonValue)>)
    ensures
        metadata_added(old(ms)@, final(ms)@),
{
    let ghost m0 = ms@;
    set_text_member(ms, "protocol", RUNTIME_BINARY_PROTOCOL);
    let ghost m1 = ms@;
    set_text_member(ms, "protocol_version", RUNTIME_BINARY_PROTOCOL_VERSION);
    let ghost m2 = ms@;
    set_text_member(ms, "runtime_binary_contract_version", RUNTIME_BINARY_CONTRACT_VERSION);
    let ghost m3 = ms@;
    set_text_member(ms, "binary_health", "ok");
    proof {
        reveal_strlit("protocol");
        reveal_strlit("protocol_version");
        reveal_strlit("runtime_binary_contract_version");
        reveal_strlit("binary_health");
        assert("protocol"@.len() == 8);
        assert("protocol_version"@.len() == 16);
        assert("runtime_binary_contract_version"@.len() == 31);
        assert("binary_health"@.len() == 13);
        let i1 = choose|i: int| 0 <= i < m1.len() && m1[i].0@ == "protocol"@ && is_text(m1[i].1, "stdio_jsonl"@);
        assert(m1[i1].0@ != "protocol_version"@);
        let k2 = choose|k: int| 0 <= k < m2.len() && #[trigger] m2[k] == m1[i1];
        assert(m2[k2].0@ != "runtime_binary_contract_version"@);
        let k3 = choose|k: int| 0 <= k < m3.len() && #[trigger] m3[k] == m2[k2];
        assert(m3[k3].0@ != "binary_health"@);
        let k4 = choose|k: int| 0 <= k < ms@.len() && #[trigger] ms@[k] == m3[k3];
        let i2 = choose|i: int| 0 <= i < m2.len() && m2[i].0@ == "protocol_version"@
            && is_text(m2[i].1, "aicore.kernel.runtime_binary.stdio_jsonl.v1"@);
        assert(m2[i2].0@ != "runtime_binary_contract_version"@);
        let j3 = choose|k: int| 0 <= k < m3.len() && #[trigger] m3[k] == m2[i2];
        assert(m3[j3].0@ != "binary_health"@);
        let j4 = choose|k: int| 0 <= k < ms@.len() && #[trigger] ms@[k] == m3[j3];
        let i3 = choose|i: int| 0 <= i < m3.len() && m3[i].0@ == "runtime_binary_contract_version"@
            && is_text(m3[i].1, "kernel.runtime.v1"@);
        assert(m3[i3].0@ != "binary_health"@);
        let l4 = choose|k: int| 0 <= k < ms@.len() && #[trigger] ms@[k] == m3[i3];
        assert forall|j: int| 0 <= j < m0.len() && !is_metadata_key(m0[j].0@) implies exists|k: int|
            0 <= k < ms@.len() && #[trigger] ms@[k] == m0[j] by {
            let a = choose|k: int| 0 <= k < m1.len() && #[trigger] m1[k] == m0[j];
            let b = choose|k: int| 0 <= k < m2.len() && #[trigger] m2[k] == m1[a];
            let c = choose|k: int| 0 <= k < m3.len() && #[trigger] m3[k] == m2[b];
            let d = choose|k: int| 0 <= k < ms@.len() && #[trigger] ms@[k] == m3[c];
        }
    }
}

// ---------------------------------------------------------------------------
// The request
// ---------------------------------------------------------------------------

/// Whether `r` is the request for `envelope`, recorded in the ledger under `root`.
pub open spec fn request_for(r: KernelRuntimeBinaryRequest, envelope: KernelInvocationEnvelope, root: Seq<char>) -> bool {
    &&& r.schema_version@ == "aicore.kernel.runtime_binary.request.v1"@
    &&& r.request_id@ == "request."@ + envelope.invocation_id@
    &&& r.protocol@ == "stdio_jsonl"@
    &&& r.protocol_version@ == "aicore.kernel.runtime_binary.stdio_jsonl.v1"@
    &&& r.contract_version@ == "kernel.runtime.v1"@
    &&& r.invocation_id@ == envelope.invocation_id@
    &&& r.trace_id@ == envelope.trace_context.trace_id@
    &&& r.instance_id@ == envelope.instance_id@
    &&& r.capability@ == envelope.capability@
    &&& r.operation@ == envelope.operation@
    &&& r.payload_summary@ == payload_summary(envelope.payload)
    &&& r.ledger_path@ == root + "/invocation-ledger.jsonl"@
}

/// Whether `v` is the JSON object of the request `r`, the payload summary
/// under `payload`.
pub open spec fn request_json(r: KernelRuntimeBinaryRequest, v: JsonValue) -> bool {
    &&& members(v).len() == 12
    &&& named(v, 0, "schema_version"@) && is_text(at(v, 0), r.schema_version@)
    &&& named(v, 1, "request_id"@) && is_text(at(v, 1), r.request_id@)
    &&& named(v, 2, "protocol"@) && is_text(at(v, 2), r.protocol@)
    &&& named(v, 3, "protocol_version"@) && is_text(at(v, 3), r.protocol_version@)
    &&& named(v, 4, "contract_version"@) && is_text(at(v, 4), r.contract_version@)
    &&& named(v, 5, "invocation_id"@) && is_text(at(v, 5), r.invocation_id@)
    &&& named(v, 6, "trace_id"@) && is_text(at(v, 6), r.trace_id@)
    &&& named(v, 7, "instance_id"@) && is_text(at(v, 7), r.instance_id@)
    &&& named(v, 8, "capability"@) && is_text(at(v, 8), r.capability@)
    &&& named(v, 9, "operation"@) && is_text(at(v, 9), r.operation@)
    &&& named(v, 10, "payload"@) && is_text(at(v, 10), r.payload_summary@)
    &&& named(v, 11, "ledger_path"@) && is_text(at(v, 11), r.ledger_path@)
}

/// The request sent to the kernel binary for one invocation.
#[derive(Debug, Clone, PartialEq, Eq)]
pub struct KernelRuntimeBinaryRequest {
    pub schema_version: String,
    pub request_id: String,
    pub protocol: String,
    pub protocol_version: String,
    pub contract_version: String,
    pub invocation_id: String,
    pub trace_id: String,
    pub instance_id: String,
    pub capability: String,
    pub operation: String,
    pub payload_summary: String,
    pub ledger_path: String,
}

impl KernelRuntimeBinaryRequest {
    /// The request for `envelope`, recorded in the ledger under `kernel_state_root`.
    pub fn from_envelope(envelope: &KernelInvocationEnvelope, kernel_state_root: &str) -> (r: Self)
        ensures
            request_for(r, *envelope, kernel_state_root@),
    {
        let mut request_id = owned("request.");
        append_str(&mut request_id, envelope.invocation_id.as_str());
        let mut ledger_path = owned(kernel_state_root);
        append_str(&mut ledger_path, "/invocation-ledger.jsonl");
        KernelRuntimeBinaryRequest {
            schema_version: owned(RUNTIME_BINARY_REQUEST_SCHEMA_VERSION),
            request_id,
            protocol: owned(RUNTIME_BINARY_PROTOCOL),
            protocol_version: owned(RUNTIME_BINARY_PROTOCOL_VERSION),
            contract_version: owned(RUNTIME_BINARY_CONTRACT_VERSION),
            invocation_id: envelope.invocation_id.clone(),
            trace_id: envelope.trace_context.trace_id.clone(),
            instance_id: envelope.instance_id.clone(),
            capability: envelope.capability.clone(),
            operation: envelope.operation.clone(),
            payload_summary: envelope.payload.summary(),
            ledger_path,
        }
    }

    /// The request as a JSON object (the payload summary under `payload`).
    pub fn to_json(&self) -> (r: JsonValue)
        ensures
            request_json(*self, r),
    {
        let mut ms: Vec<(String, JsonValue)> = Vec::new();
        ms.push(entry("schema_version", text(self.schema_version.as_str())));
        ms.push(entry("request_id", text(self.request_id.as_str())));
        ms.push(entry("protocol", text(self.protocol.as_str())));
        ms.push(entry("protocol_version", text(self.protocol_version.as_str())));
        ms.push(entry("contract_version", text(self.contract_version.as_str())));
        ms.push(entry("invocation_id", text(self.invocation_id.as_str())));
        ms.push(entry("trace_id", text(self.trace_id.as_str())));
        ms.push(entry("instance_id", text(self.instance_id.as_str())));
        ms.push(entry("capability", text(self.capability.as_str())));
        ms.push(entry("operation", text(self.operation.as_str())));
        ms.push(entry("payload", text(self.payload_summary.as_str())));
        ms.push(entry("ledger_path", text(self.ledger_path.as_str())));
        JsonValue::Object(ms)
    }
}

} // verus!
