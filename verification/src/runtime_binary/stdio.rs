//! The kernel binary's side of `stdio_jsonl`: reading the request line, the
//! envelope it asks for, and the result line written back.
use vstd::prelude::*;

use super::response::text_lines;
use super::response::text_lines_of;
use super::{at, entry, is_flag, is_int, is_text, members, named, text, KERNEL_RUNTIME_BINARY_NAME, RUNTIME_BINARY_CONTRACT_VERSION, RUNTIME_BINARY_PROTOCOL, RUNTIME_BINARY_PROTOCOL_VERSION, RUNTIME_BINARY_RESPONSE_SCHEMA_VERSION};
use crate::invocation::{is_generated_invocation_id, KernelInvocationEnvelope, KernelPayload};
use crate::invocation_runtime::result::KernelInvocationStatus;
use crate::json::{compact_text, get_str, json_compact_text, json_parse, member_str, parse_json, JsonValue};
use crate::text::{append_str, chars_of, is_whitespace, is_whitespace_char, opt_view, owned, str_eq};

verus! {

broadcast use vstd::string::group_string_axioms;

/// What a request line asks for.
#[derive(Debug, Clone, PartialEq, Eq)]
pub struct StdioRequest {
    pub operation: String,
    pub instance_id: String,
    pub capability: String,
    pub invocation_id: Option<String>,
}

/// Whether a line holds nothing but white space.
pub open spec fn is_blank(l: Seq<char>) -> bool {
    forall|i: int| 0 <= i < l.len() ==> is_whitespace(#[trigger] l[i])
}

/// Whether line `i` is the first line of `lines` that is not blank.
pub open spec fn first_filled_line(lines: Seq<Seq<char>>, i: int) -> bool {
    0 <= i < lines.len() && !is_blank(lines[i]) && forall|j: int| 0 <= j < i ==> is_blank(#[trigger] lines[j])
}

/// The text of member `key` of the request: the first line that is not
/// blank, read as JSON; nothing when there is no such line, it is no JSON,
/// or the member is no string.
pub open spec fn request_member(stdin: Seq<char>, key: Seq<char>) -> Option<Seq<char>> {
    let lines = text_lines(stdin);
    if exists|i: int| first_filled_line(lines, i) {
        let i = choose|i: int| first_filled_line(lines, i);
        match json_parse(lines[i]) {
            Ok(v) => member_str(v, key),
            Err(_) => None,
        }
    } else {
        None
    }
}

/// The operation asked for, `runtime.status` by default.
pub open spec fn requested_operation(stdin: Seq<char>) -> Seq<char> {
    match request_member(stdin, "operation"@) {
        Some(o) => o,
        None => "runtime.status"@,
    }
}

/// Whether `r` is what the input `stdin` asks for: operation, instance
/// (`global-main` by default), capability (the operation by default) and
/// invocation id.
pub open spec fn stdio_request_of(stdin: Seq<char>, r: StdioRequest) -> bool {
    &&& r.operation@ == requested_operation(stdin)
    &&& r.instance_id@ == match request_member(stdin, "instance_id"@) {
        Some(o) => o,
        None => "global-main"@,
    }
    &&& r.capability@ == match request_member(stdin, "capability"@) {
        Some(o) => o,
        None => requested_operation(stdin),
    }
    &&& opt_view(r.invocation_id) == request_member(stdin, "invocation_id"@)
}

/// The first line of `stdin` that is not blank, if there is one.
pub open spec fn request_line(stdin: Seq<char>) -> Option<Seq<char>> {
    let lines = text_lines(stdin);
    if exists|i: int| first_filled_line(lines, i) {
        Some(lines[choose|i: int| first_filled_line(lines, i)])
    } else {
        None
    }
}

/// Why the input of `--invoke-stdio-jsonl` is refused.
#[derive(Debug, Clone, PartialEq, Eq)]
pub enum StdioRequestError {
    /// The request line is no JSON.
    Malformed,
    /// The request names a protocol version other than this binary's; it
    /// carries what the request asks for otherwise.
    ProtocolVersionMismatch(StdioRequest),
}

/// Whether `r` is how the kernel binary reads `stdin`: refused as malformed
/// when its request line is no JSON; refused for a protocol version it names
/// that is not this binary's; else the request it asks for.
pub open spec fn stdio_read_of(stdin: Seq<char>, r: Result<StdioRequest, StdioRequestError>) -> bool {
    if request_line(stdin) matches Some(l) && json_parse(l) is Err {
        r == Err::<StdioRequest, StdioRequestError>(StdioRequestError::Malformed)
    } else if request_member(stdin, "protocol_version"@) matches Some(v) && v != "aicore.kernel.runtime_binary.stdio_jsonl.v1"@ {
        r matches Err(StdioRequestError::ProtocolVersionMismatch(q)) && stdio_request_of(stdin, q)
    } else {
        r matches Ok(q) && stdio_request_of(stdin, q)
    }
}

impl StdioRequestError {
    /// The failure stage the refusal is reported at.
    pub open spec fn stage_view(&self) -> Seq<char> {
        match self {
            StdioRequestError::Malformed => "kernel_runtime_malformed_jsonl"@,
            StdioRequestError::ProtocolVersionMismatch(_) => "kernel_runtime_protocol_version_mismatch"@,
        }
    }

    /// The reason the refusal gives.
    pub open spec fn reason_view(&self) -> Seq<char> {
        match self {
            StdioRequestError::Malformed => "Kernel runtime request is not valid JSON"@,
            StdioRequestError::ProtocolVersionMismatch(_) => "Kernel runtime request protocol version mismatch"@,
        }
    }

    /// The failure stage the refusal is reported at.
    pub fn stage(&self) -> (r: &'static str)
        ensures
            r@ == self.stage_view(),
    {
        proof {
            reveal_strlit("kernel_runtime_malformed_jsonl");
            reveal_strlit("kernel_runtime_protocol_version_mismatch");
        }
        match self {
            StdioRequestError::Malformed => "kernel_runtime_malformed_jsonl",
            StdioRequestError::ProtocolVersionMismatch(_) => "kernel_runtime_protocol_version_mismatch",
        }
    }

    /// The reason the refusal gives.
    pub fn reason(&self) -> (r: &'static str)
        ensures
            r@ == self.reason_view(),
    {
        proof {
            reveal_strlit("Kernel runtime request is not valid JSON");
            reveal_strlit("Kernel runtime request protocol version mismatch");
        }
        match self {
            StdioRequestError::Malformed => "Kernel runtime request is not valid JSON",
            StdioRequestError::ProtocolVersionMismatch(_) => "Kernel runtime request protocol version mismatch",
        }
    }

    /// The envelope the refusal is reported for: that of the request where
    /// it could be read, else one of `runtime.status` on `global-main`.
    pub fn envelope(&self) -> (r: KernelInvocationEnvelope)
        ensures
            match self {
                StdioRequestError::ProtocolVersionMismatch(q) => stdio_envelope_of(*q, r),
                StdioRequestError::Malformed => r.instance_id@ == "global-main"@ && r.capability@ == "runtime.status"@
                    && r.operation@ == "runtime.status"@ && r.payload == KernelPayload::Empty
                    && r.trace_context.trace_id@ == "trace.default"@ && is_generated_invocation_id(r.invocation_id@),
            },
    {
        match self {
            StdioRequestError::ProtocolVersionMismatch(q) => stdio_envelope(q),
            StdioRequestError::Malformed => KernelInvocationEnvelope::new("global-main", "runtime.status", "runtime.status", KernelPayload::Empty),
        }
    }
}

fn blank(s: &str) -> (r: bool)
    ensures
        r == is_blank(s@),
{
    let cs = chars_of(s);
    let mut i: usize = 0;
    while i < cs.len()
        invariant
            i <= cs.len(),
            cs@ == s@,
            forall|j: int| 0 <= j < i ==> is_whitespace(#[trigger] s@[j]),
        decreases cs.len() - i,
    {
        if !is_whitespace_char(cs[i]) {
            return false;
        }
        i = i + 1;
    }
    true
}

fn first_filled_index(lines: &Vec<String>, Ghost(ls): Ghost<Seq<Seq<char>>>) -> (r: Option<usize>)
    requires
        lines@.len() == ls.len(),
        forall|j: int| 0 <= j < lines@.len() ==> (#[trigger] lines@[j])@ == ls[j],
    ensures
        match r {
            Some(i) => first_filled_line(ls, i as int),
            None => forall|j: int| 0 <= j < ls.len() ==> is_blank(#[trigger] ls[j]),
        },
{
    let mut i: usize = 0;
    while i < lines.len()
        invariant
            i <= lines.len(),
            lines@.len() == ls.len(),
            forall|j: int| 0 <= j < lines@.len() ==> (#[trigger] lines@[j])@ == ls[j],
            forall|j: int| 0 <= j < i ==> is_blank(#[trigger] ls[j]),
        decreases lines.len() - i,
    {
        assert(lines@[i as int]@ == ls[i as int]);
        if !blank(lines[i].as_str()) {
            return Some(i);
        }
        i = i + 1;
    }
    None
}

fn member_or(v: &Option<JsonValue>, key: &str, default: &str) -> (r: String)
    ensures
        r@ == match v {
            Some(x) => match member_str(*x, key@) {
                Some(s) => s,
                None => default@,
            },
            None => default@,
        },
{
    match v {
        Some(x) => match get_str(x, key) {
            Some(s) => owned(s),
            None => owned(default),
        },
        None => owned(default),
    }
}

/// Reads what the input of `--invoke-stdio-jsonl` asks for, or why it is refused.
pub fn read_stdio_request(stdin: &str) -> (r: Result<StdioRequest, StdioRequestError>)
    ensures
        stdio_read_of(stdin@, r),
{
    let lines = text_lines_of(stdin);
    let ghost ls = text_lines(stdin@);
    let value: Option<JsonValue> = match first_filled_index(&lines, Ghost(ls)) {
        Some(i) => {
            proof {
                assert forall|k: int| first_filled_line(ls, k) implies k == i by {
                    if k < i {
                        assert(is_blank(ls[k]));
                    } else if k > i {
                        assert(is_blank(ls[i as int]));
                    }
                }
                assert(lines@[i as int]@ == ls[i as int]);
                assert(request_line(stdin@) == Some(ls[i as int]));
            }
            match parse_json(lines[i].as_str()) {
                Ok(v) => Some(v),
                Err(_) => {
                    return Err(StdioRequestError::Malformed);
                },
            }
        },
        None => None,
    };
    proof {
        reveal_strlit("runtime.status");
        reveal_strlit("global-main");
        reveal_strlit("aicore.kernel.runtime_binary.stdio_jsonl.v1");
    }
    let operation = member_or(&value, "operation", "runtime.status");
    let instance_id = member_or(&value, "instance_id", "global-main");
    let capability = member_or(&value, "capability", operation.as_str());
    let invocation_id = match &value {
        Some(v) => match get_str(v, "invocation_id") {
            Some(s) => Some(owned(s)),
            None => None,
        },
        None => None,
    };
    let mismatch = match &value {
        Some(v) => match get_str(v, "protocol_version") {
            Some(p) => !str_eq(p, RUNTIME_BINARY_PROTOCOL_VERSION),
            None => false,
        },
        None => false,
    };
    let request = StdioRequest { operation, instance_id, capability, invocation_id };
    if mismatch {
        Err(StdioRequestError::ProtocolVersionMismatch(request))
    } else {
        Ok(request)
    }
}

/// Whether `r` is the envelope `request` asks for: its instance, capability
/// and operation, an empty payload, the default trace, and its invocation id
/// when it names one (else a fresh one).
pub open spec fn stdio_envelope_of(request: StdioRequest, r: KernelInvocationEnvelope) -> bool {
    &&& r.instance_id@ == request.instance_id@
    &&& r.capability@ == request.capability@
    &&& r.operation@ == request.operation@
    &&& r.payload == KernelPayload::Empty
    &&& r.trace_context.trace_id@ == "trace.default"@
    &&& match request.invocation_id {
        Some(id) => r.invocation_id@ == id@,
        None => is_generated_invocation_id(r.invocation_id@),
    }
}

/// The envelope a request asks for, with an empty payload; its invocation
/// id when it names one.
pub fn stdio_envelope(request: &StdioRequest) -> (r: KernelInvocationEnvelope)
    ensures
        stdio_envelope_of(*request, r),
{
    let envelope = KernelInvocationEnvelope::new(
        request.instance_id.as_str(),
        request.capability.as_str(),
        request.operation.as_str(),
        KernelPayload::Empty,
    );
    match &request.invocation_id {
        Some(id) => envelope.with_invocation_id(id.as_str()),
        None => envelope,
    }
}

/// The payload the kernel binary answers with when it fails before the
/// invocation runs: the envelope's ids, a failed status, the kernel binary
/// as handler, an untouched ledger, no result, and the stage and reason.
pub open spec fn stdio_failure_payload_of(
    v: JsonValue,
    kernel_state_root: Seq<char>,
    envelope: KernelInvocationEnvelope,
    stage: Seq<char>,
    reason: Seq<char>,
) -> bool {
    &&& members(v).len() == 9
    &&& named(v, 0, "invocation_id"@) && is_text(at(v, 0), envelope.invocation_id@)
    &&& named(v, 1, "trace_id"@) && is_text(at(v, 1), envelope.trace_context.trace_id@)
    &&& named(v, 2, "operation"@) && is_text(at(v, 2), envelope.operation@)
    &&& named(v, 3, "status"@) && is_text(at(v, 3), "failed"@)
    &&& named(v, 4, "route"@) && at(v, 4) is Null
    &&& named(v, 5, "handler"@) && members(at(v, 5)).len() == 9
        && named(at(v, 5), 0, "kind"@) && is_text(at(at(v, 5), 0), "aicore-kernel"@)
        && named(at(v, 5), 1, "invocation_mode"@) && is_text(at(at(v, 5), 1), "local_process"@)
        && named(at(v, 5), 2, "transport"@) && is_text(at(at(v, 5), 2), "stdio_jsonl"@)
        && named(at(v, 5), 3, "process_exit_code"@) && at(at(v, 5), 3) is Null
        && named(at(v, 5), 4, "executed"@) && is_flag(at(at(v, 5), 4), false)
        && named(at(v, 5), 5, "event_generated"@) && is_flag(at(at(v, 5), 5), false)
        && named(at(v, 5), 6, "spawned_process"@) && is_flag(at(at(v, 5), 6), true)
        && named(at(v, 5), 7, "called_real_component"@) && is_flag(at(at(v, 5), 7), false)
        && named(at(v, 5), 8, "first_party_in_process_adapter"@) && is_flag(at(at(v, 5), 8), false)
    &&& named(v, 6, "ledger"@) && members(at(v, 6)).len() == 3
        && named(at(v, 6), 0, "appended"@) && is_flag(at(at(v, 6), 0), false)
        && named(at(v, 6), 1, "path"@) && is_text(at(at(v, 6), 1), kernel_state_root + "/invocation-ledger.jsonl"@)
        && named(at(v, 6), 2, "records"@) && is_int(at(at(v, 6), 2), 0)
    &&& named(v, 7, "result"@) && members(at(v, 7)).len() == 3
        && named(at(v, 7), 0, "kind"@) && at(at(v, 7), 0) is Null
        && named(at(v, 7), 1, "summary"@) && at(at(v, 7), 1) is Null
        && named(at(v, 7), 2, "fields"@) && at(at(v, 7), 2) is Object && members(at(at(v, 7), 2)).len() == 0
    &&& named(v, 8, "failure"@) && members(at(v, 8)).len() == 2
        && named(at(v, 8), 0, "stage"@) && is_text(at(at(v, 8), 0), stage)
        && named(at(v, 8), 1, "reason"@) && is_text(at(at(v, 8), 1), reason)
}

fn object(ms: Vec<(String, JsonValue)>) -> (r: JsonValue)
    ensures
        members(r) == ms@,
{
    JsonValue::Object(ms)
}

/// The payload the kernel binary answers with when it fails before the
/// invocation runs.
pub fn stdio_failure_payload(
    kernel_state_root: &str,
    envelope: &KernelInvocationEnvelope,
    stage: &str,
    reason: &str,
) -> (r: JsonValue)
    ensures
        stdio_failure_payload_of(r, kernel_state_root@, *envelope, stage@, reason@),
{
    let mut handler: Vec<(String, JsonValue)> = Vec::new();
    handler.push(entry("kind", text(KERNEL_RUNTIME_BINARY_NAME)));
    handler.push(entry("invocation_mode", text("local_process")));
    handler.push(entry("transport", text("stdio_jsonl")));
    handler.push(entry("process_exit_code", JsonValue::Null));
    handler.push(entry("executed", JsonValue::Bool(false)));
    handler.push(entry("event_generated", JsonValue::Bool(false)));
    handler.push(entry("spawned_process", JsonValue::Bool(true)));
    handler.push(entry("called_real_component", JsonValue::Bool(false)));
    handler.push(entry("first_party_in_process_adapter", JsonValue::Bool(false)));
    let mut ledger_path = owned(kernel_state_root);
    append_str(&mut ledger_path, "/invocation-ledger.jsonl");
    let mut ledger: Vec<(String, JsonValue)> = Vec::new();
    ledger.push(entry("appended", JsonValue::Bool(false)));
    ledger.push(entry("path", JsonValue::Str(ledger_path)));
    ledger.push(entry("records", super::count_value(0)));
    let mut result: Vec<(String, JsonValue)> = Vec::new();
    result.push(entry("kind", JsonValue::Null));
    result.push(entry("summary", JsonValue::Null));
    result.push(entry("fields", JsonValue::Object(Vec::new())));
    let mut failure: Vec<(String, JsonValue)> = Vec::new();
    failure.push(entry("stage", text(stage)));
    failure.push(entry("reason", text(reason)));
    let mut ms: Vec<(String, JsonValue)> = Vec::new();
    ms.push(entry("invocation_id", text(envelope.invocation_id.as_str())));
    ms.push(entry("trace_id", text(envelope.trace_context.trace_id.as_str())));
    ms.push(entry("operation", text(envelope.operation.as_str())));
    ms.push(entry("status", text("failed")));
    ms.push(entry("route", JsonValue::Null));
    ms.push(entry("handler", object(handler)));
    ms.push(entry("ledger", object(ledger)));
    ms.push(entry("result", object(result)));
    ms.push(entry("failure", object(failure)));
    object(ms)
}

/// Whether `v` is the result event carrying `payload`, with the response
/// schema, protocol, protocol version and contract version of this binary.
pub open spec fn result_event_of(v: JsonValue, payload: JsonValue) -> bool {
    &&& members(v).len() == 6
    &&& named(v, 0, "event"@) && is_text(at(v, 0), "kernel.invocation.result"@)
    &&& named(v, 1, "schema_version"@) && is_text(at(v, 1), "aicore.kernel.runtime_binary.response.v1"@)
    &&& named(v, 2, "protocol"@) && is_text(at(v, 2), "stdio_jsonl"@)
    &&& named(v, 3, "protocol_version"@) && is_text(at(v, 3), "aicore.kernel.runtime_binary.stdio_jsonl.v1"@)
    &&& named(v, 4, "contract_version"@) && is_text(at(v, 4), "kernel.runtime.v1"@)
    &&& named(v, 5, "payload"@) && at(v, 5) == payload
}

/// The result line the kernel binary writes: the `kernel.invocation.result`
/// event with `payload`, as compact JSON.
pub fn result_line(payload: JsonValue) -> (r: String)
    ensures
        exists|v: JsonValue| result_event_of(v, payload) && r@ == json_compact_text(v),
{
    let ghost p = payload;
    let mut ms: Vec<(String, JsonValue)> = Vec::new();
    ms.push(entry("event", text("kernel.invocation.result")));
    ms.push(entry("schema_version", text(RUNTIME_BINARY_RESPONSE_SCHEMA_VERSION)));
    ms.push(entry("protocol", text(RUNTIME_BINARY_PROTOCOL)));
    ms.push(entry("protocol_version", text(RUNTIME_BINARY_PROTOCOL_VERSION)));
    ms.push(entry("contract_version", text(RUNTIME_BINARY_CONTRACT_VERSION)));
    ms.push(entry("payload", payload));
    let v = JsonValue::Object(ms);
    proof {
        reveal_strlit("aicore.kernel.runtime_binary.response.v1");
        reveal_strlit("stdio_jsonl");
        reveal_strlit("aicore.kernel.runtime_binary.stdio_jsonl.v1");
        reveal_strlit("kernel.runtime.v1");
    }
    assert(result_event_of(v, p));
    compact_text(&v)
}

/// The exit code of the kernel binary: 0 for a completed invocation, else 1.
pub fn stdio_exit_code(status: KernelInvocationStatus) -> (r: i32)
    ensures
        r == (if status == KernelInvocationStatus::Completed { 0i32 } else { 1i32 }),
{
    match status {
        KernelInvocationStatus::Completed => 0,
        KernelInvocationStatus::Failed => 1,
    }
}

} // verus!
