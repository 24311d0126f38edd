//! The client of the kernel runtime binary: which checks come before the
//! binary is run, what is sent to it, and what an invocation is made of its
//! answer. Looking at the files and running the process is the caller's part:
//! `invoke_envelope` says whether to run the binary, `finish` takes what the
//! run gave.
use vstd::prelude::*;

use super::response::{parse_kernel_invocation_result_response, payload_passed_on, response_of, response_payload, text_lines, KernelRuntimeBinaryErrorKind, KernelRuntimeBinaryResponse, first_result_line, no_result_line, version_refusal};
use super::{at, entry, is_flag, is_int, is_opt_int, is_text, members, named, opt_int, request_for, request_json, text, KernelRuntimeBinaryRequest, FOUNDATION_RUNTIME_BINARY_NAME, KERNEL_RUNTIME_BINARY_NAME, RUNTIME_BINARY_CONTRACT_VERSION, RUNTIME_BINARY_PROTOCOL, RUNTIME_BINARY_PROTOCOL_VERSION};
use crate::invocation::{KernelInvocationEnvelope, KernelPayload};
use crate::invocation_runtime::process::{sanitize_process_diagnostic, sanitized};
use crate::json::{compact_text, get_str, json_compact_text, json_parse, lemma_same_json_trans, member_str, same_json, JsonValue};
use crate::text::{append_str, owned, push_signed_decimal, signed_decimal, str_eq};

verus! {

broadcast use vstd::string::group_string_axioms;

/// A failed runtime binary invocation: why, at which stage, the sanitized
/// message and the process exit code.
#[derive(Debug, Clone, PartialEq, Eq)]
pub struct KernelRuntimeBinaryError {
    pub kind: KernelRuntimeBinaryErrorKind,
    pub stage: String,
    pub message: String,
    pub exit_code: Option<i32>,
}

/// One invocation through the kernel runtime binary.
#[derive(Debug, PartialEq, Eq)]
pub struct KernelRuntimeBinaryInvocation {
    pub request: KernelRuntimeBinaryRequest,
    pub response: Option<KernelRuntimeBinaryResponse>,
    pub payload: JsonValue,
    pub exit_success: bool,
    pub error: Option<KernelRuntimeBinaryError>,
}

/// What was found of the two runtime binaries on disk: whether each exists,
/// and whether it is an executable file.
#[derive(Debug, Clone, Copy, PartialEq, Eq, Structural)]
pub struct RuntimeBinaryFacts {
    pub foundation_exists: bool,
    pub foundation_executable: bool,
    pub kernel_exists: bool,
    pub kernel_executable: bool,
}

/// What running the kernel binary gave.
#[derive(Debug, PartialEq, Eq)]
pub enum RuntimeBinaryProcessOutcome {
    /// The process could not be spawned; the error's text.
    SpawnFailed(String),
    /// The request line could not be written to its stdin; the error's text.
    StdinWriteFailed(String),
    /// Its output could not be read; the error's text.
    OutputReadFailed(String),
    /// It ran to its end: its stdout and stderr (as lossy UTF-8), its exit
    /// code and whether its exit status was success.
    Exited { stdout: String, stderr: String, exit_code: Option<i32>, success: bool },
}

/// The health of a binary: `missing`, `ok` when it is executable, else `not_executable`.
pub open spec fn health_name(exists: bool, executable: bool) -> Seq<char> {
    if !exists {
        "missing"@
    } else if executable {
        "ok"@
    } else {
        "not_executable"@
    }
}

/// The health of a binary.
pub fn binary_health(exists: bool, executable: bool) -> (r: &'static str)
    ensures
        r@ == health_name(exists, executable),
{
    if !exists {
        "missing"
    } else if executable {
        "ok"
    } else {
        "not_executable"
    }
}

/// `{:?}` of an exit code: `Some(<n>)` or `None`.
pub open spec fn debug_exit_code(c: Option<i32>) -> Seq<char> {
    match c {
        Some(n) => "Some("@ + signed_decimal(n as int) + ")"@,
        None => "None"@,
    }
}

fn push_debug_exit_code(s: &mut String, c: Option<i32>)
    ensures
        final(s)@ == old(s)@ + debug_exit_code(c),
{
    match c {
        Some(n) => {
            append_str(s, "Some(");
            push_signed_decimal(s, n);
            append_str(s, ")");
        },
        None => append_str(s, "None"),
    }
}

/// The `handler` object of a failure payload.
pub open spec fn failure_handler(v: JsonValue, spawned: bool, exit_code: Option<i32>) -> bool {
    &&& members(v).len() == 9
    &&& named(v, 0, "kind"@) && is_text(at(v, 0), "kernel_runtime_binary"@)
    &&& named(v, 1, "invocation_mode"@) && is_text(at(v, 1), "local_process"@)
    &&& named(v, 2, "transport"@) && is_text(at(v, 2), "stdio_jsonl"@)
    &&& named(v, 3, "process_exit_code"@) && is_opt_int(at(v, 3), exit_code)
    &&& named(v, 4, "executed"@) && is_flag(at(v, 4), false)
    &&& named(v, 5, "event_generated"@) && is_flag(at(v, 5), false)
    &&& named(v, 6, "spawned_process"@) && is_flag(at(v, 6), spawned)
    &&& named(v, 7, "called_real_component"@) && is_flag(at(v, 7), false)
    &&& named(v, 8, "first_party_in_process_adapter"@) && is_flag(at(v, 8), false)
}

/// The `runtime_binary` object of a failure payload.
pub open spec fn failure_runtime_binary(
    v: JsonValue,
    foundation_path: Seq<char>,
    kernel_path: Seq<char>,
    facts: RuntimeBinaryFacts,
    in_process_fallback: bool,
) -> bool {
    &&& members(v).len() == 10
    &&& named(v, 0, "foundation_path"@) && is_text(at(v, 0), foundation_path)
    &&& named(v, 1, "foundation_installed"@) && is_flag(at(v, 1), facts.foundation_exists)
    &&& named(v, 2, "foundation_health"@) && is_text(at(v, 2), health_name(facts.foundation_exists, facts.foundation_executable))
    &&& named(v, 3, "kernel_path"@) && is_text(at(v, 3), kernel_path)
    &&& named(v, 4, "kernel_installed"@) && is_flag(at(v, 4), facts.kernel_exists)
    &&& named(v, 5, "kernel_health"@) && is_text(at(v, 5), health_name(facts.kernel_exists, facts.kernel_executable))
    &&& named(v, 6, "protocol"@) && is_text(at(v, 6), "stdio_jsonl"@)
    &&& named(v, 7, "protocol_version"@) && is_text(at(v, 7), "aicore.kernel.runtime_binary.stdio_jsonl.v1"@)
    &&& named(v, 8, "contract_version"@) && is_text(at(v, 8), "kernel.runtime.v1"@)
    &&& named(v, 9, "in_process_fallback"@) && is_flag(at(v, 9), in_process_fallback)
}

/// The payload of a failed runtime binary invocation.
pub open spec fn failure_payload_of(
    v: JsonValue,
    envelope: KernelInvocationEnvelope,
    stage: Seq<char>,
    reason: Seq<char>,
    kernel_state_root: Seq<char>,
    foundation_path: Seq<char>,
    kernel_path: Seq<char>,
    facts: RuntimeBinaryFacts,
    in_process_fallback: bool,
    spawned: bool,
    exit_code: Option<i32>,
) -> bool {
    &&& members(v).len() == 10
    &&& named(v, 0, "invocation_id"@) && is_text(at(v, 0), envelope.invocation_id@)
    &&& named(v, 1, "trace_id"@) && is_text(at(v, 1), envelope.trace_context.trace_id@)
    &&& named(v, 2, "operation"@) && is_text(at(v, 2), envelope.operation@)
    &&& named(v, 3, "status"@) && is_text(at(v, 3), "failed"@)
    &&& named(v, 4, "route"@) && at(v, 4) is Null
    &&& named(v, 5, "handler"@) && failure_handler(at(v, 5), spawned, exit_code)
    &&& named(v, 6, "ledger"@) && members(at(v, 6)).len() == 3
        && named(at(v, 6), 0, "appended"@) && is_flag(at(at(v, 6), 0), false)
        && named(at(v, 6), 1, "path"@) && is_text(at(at(v, 6), 1), kernel_state_root + "/invocation-ledger.jsonl"@)
        && named(at(v, 6), 2, "records"@) && is_int(at(at(v, 6), 2), 0)
    &&& named(v, 7, "result"@) && members(at(v, 7)).len() == 3
        && named(at(v, 7), 0, "kind"@) && at(at(v, 7), 0) is Null
        && named(at(v, 7), 1, "summary"@) && at(at(v, 7), 1) is Null
        && named(at(v, 7), 2, "fields"@) && at(at(v, 7), 2) is Object && members(at(at(v, 7), 2)).len() == 0
    &&& named(v, 8, "failure"@) && members(at(v, 8)).len() == 2
        && named(at(v, 8), 0, "stage"@) && is_text(at(at(v, 8), 0), stage)
        && named(at(v, 8), 1, "reason"@) && is_text(at(at(v, 8), 1), sanitized(reason))
    &&& named(v, 9, "runtime_binary"@) && failure_runtime_binary(at(v, 9), foundation_path, kernel_path, facts, in_process_fallback)
}

fn object(ms: Vec<(String, JsonValue)>) -> (r: JsonValue)
    ensures
        r is Object,
        members(r) == ms@,
{
    JsonValue::Object(ms)
}

fn failure_handler_json(spawned: bool, exit_code: Option<i32>) -> (r: JsonValue)
    ensures
        failure_handler(r, spawned, exit_code),
{
    let mut ms: Vec<(String, JsonValue)> = Vec::new();
    ms.push(entry("kind", text("kernel_runtime_binary")));
    ms.push(entry("invocation_mode", text("local_process")));
    ms.push(entry("transport", text(RUNTIME_BINARY_PROTOCOL)));
    ms.push(entry("process_exit_code", opt_int(exit_code)));
    ms.push(entry("executed", JsonValue::Bool(false)));
    ms.push(entry("event_generated", JsonValue::Bool(false)));
    ms.push(entry("spawned_process", JsonValue::Bool(spawned)));
    ms.push(entry("called_real_component", JsonValue::Bool(false)));
    ms.push(entry("first_party_in_process_adapter", JsonValue::Bool(false)));
    object(ms)
}

fn failure_runtime_binary_json(
    foundation_path: &str,
    kernel_path: &str,
    facts: RuntimeBinaryFacts,
    in_process_fallback: bool,
) -> (r: JsonValue)
    ensures
        failure_runtime_binary(r, foundation_path@, kernel_path@, facts, in_process_fallback),
{
    let mut ms: Vec<(String, JsonValue)> = Vec::new();
    ms.push(entry("foundation_path", text(foundation_path)));
    ms.push(entry("foundation_installed", JsonValue::Bool(facts.foundation_exists)));
    ms.push(entry("foundation_health", text(binary_health(facts.foundation_exists, facts.foundation_executable))));
    ms.push(entry("kernel_path", text(kernel_path)));
    ms.push(entry("kernel_installed", JsonValue::Bool(facts.kernel_exists)));
    ms.push(entry("kernel_health", text(binary_health(facts.kernel_exists, facts.kernel_executable))));
    ms.push(entry("protocol", text(RUNTIME_BINARY_PROTOCOL)));
    ms.push(entry("protocol_version", text(RUNTIME_BINARY_PROTOCOL_VERSION)));
    ms.push(entry("contract_version", text(RUNTIME_BINARY_CONTRACT_VERSION)));
    ms.push(entry("in_process_fallback", JsonValue::Bool(in_process_fallback)));
    object(ms)
}

/// The payload of a failed runtime binary invocation: the envelope's ids, a
/// failed status, the runtime binary handler, an untouched ledger, no
/// result, the stage and sanitized reason of the failure, and what is known
/// of both binaries.
pub fn runtime_binary_failure_payload(
    envelope: &KernelInvocationEnvelope,
    stage: &str,
    reason: &str,
    kernel_state_root: &str,
    foundation_path: &str,
    kernel_path: &str,
    facts: RuntimeBinaryFacts,
    in_process_fallback: bool,
    spawned_process: bool,
    process_exit_code: Option<i32>,
) -> (r: JsonValue)
    ensures
        failure_payload_of(r, *envelope, stage@, reason@, kernel_state_root@, foundation_path@,
            kernel_path@, facts, in_process_fallback, spawned_process, process_exit_code),
{
    let mut ledger_path = owned(kernel_state_root);
    append_str(&mut ledger_path, "/invocation-ledger.jsonl");
    let mut ledger: Vec<(String, JsonValue)> = Vec::new();
    ledger.push(entry("appended", JsonValue::Bool(false)));
    ledger.push(entry("path", JsonValue::Str(ledger_path)));
    ledger.push(entry("records", super::count_value(0)));
    let mut result: Vec<(String, JsonValue)> = Vec::new();
    result.push(entry("kind", JsonValue::Null));
    result.push(entry("summary", JsonValue::Null));
    result.push(entry("fields", JsonValue::Object(Vec::new())));
    let mut failure: Vec<(String, JsonValue)> = Vec::new();
    failure.push(entry("stage", text(stage)));
    failure.push(entry("reason", JsonValue::Str(sanitize_process_diagnostic(reason))));
    let mut ms: Vec<(String, JsonValue)> = Vec::new();
    ms.push(entry("invocation_id", text(envelope.invocation_id.as_str())));
    ms.push(entry("trace_id", text(envelope.trace_context.trace_id.as_str())));
    ms.push(entry("operation", text(envelope.operation.as_str())));
    ms.push(entry("status", text("failed")));
    ms.push(entry("route", JsonValue::Null));
    ms.push(entry("handler", failure_handler_json(spawned_process, process_exit_code)));
    ms.push(entry("ledger", object(ledger)));
    ms.push(entry("result", object(result)));
    ms.push(entry("failure", object(failure)));
    ms.push(entry("runtime_binary", failure_runtime_binary_json(foundation_path, kernel_path, facts, in_process_fallback)));
    object(ms)
}

/// The client of the kernel runtime binary: where the binaries are, and
/// the kernel state root whose ledger the binary records in.
#[derive(Debug, Clone)]
pub struct KernelRuntimeBinaryClient {
    kernel_state_root: String,
    foundation_binary_path: String,
    kernel_binary_path: String,
}

/// An invocation that passed the checks: the binary is to be run with the
/// request line on its stdin.
#[derive(Debug)]
pub struct PendingRuntimeBinaryProcess {
    request: KernelRuntimeBinaryRequest,
    envelope: KernelInvocationEnvelope,
    facts: RuntimeBinaryFacts,
    request_line: String,
}

/// What to do next for an invocation: it is finished, or the binary is to be run.
#[derive(Debug)]
pub enum KernelRuntimeBinaryStep {
    Finished(KernelRuntimeBinaryInvocation),
    RunBinary(PendingRuntimeBinaryProcess),
}

impl PendingRuntimeBinaryProcess {
    /// The request.
    pub closed spec fn request_view(&self) -> KernelRuntimeBinaryRequest {
        self.request
    }

    /// The envelope.
    pub closed spec fn envelope_view(&self) -> KernelInvocationEnvelope {
        self.envelope
    }

    /// What was found of the binaries before the run.
    pub closed spec fn facts_view(&self) -> RuntimeBinaryFacts {
        self.facts
    }

    /// The line to write to the binary's stdin.
    pub closed spec fn line_view(&self) -> Seq<char> {
        self.request_line@
    }

    /// The request.
    pub fn request(&self) -> (r: &KernelRuntimeBinaryRequest)
        ensures
            *r == self.request_view(),
    {
        &self.request
    }

    /// The line to write to the binary's stdin: the request as compact JSON.
    pub fn request_line(&self) -> (r: &str)
        ensures
            r@ == self.line_view(),
    {
        self.request_line.as_str()
    }
}

/// Whether `inv` is the invocation that failed as described, before or
/// after a run of the binary.
pub open spec fn failed_with(
    inv: KernelRuntimeBinaryInvocation,
    client: KernelRuntimeBinaryClient,
    envelope: KernelInvocationEnvelope,
    facts: RuntimeBinaryFacts,
    kind: KernelRuntimeBinaryErrorKind,
    stage: Seq<char>,
    reason: Seq<char>,
    spawned: bool,
    exit_code: Option<i32>,
) -> bool {
    &&& inv.response is None
    &&& !inv.exit_success
    &&& inv.error matches Some(e) && e.kind == kind && e.stage@ == stage && e.message@ == sanitized(reason)
        && e.exit_code == exit_code
    &&& failure_payload_of(inv.payload, envelope, stage, reason, client.state_root_view(),
        client.foundation_path_view(), client.kernel_path_view(), facts, false, spawned, exit_code)
}

/// The stage reported for a refused version.
pub open spec fn refusal_stage(k: KernelRuntimeBinaryErrorKind) -> Seq<char> {
    if k == KernelRuntimeBinaryErrorKind::ProtocolVersionMismatch {
        "kernel_runtime_protocol_version_mismatch"@
    } else {
        "kernel_runtime_contract_version_mismatch"@
    }
}

/// The reason reported for a refused version.
pub open spec fn refusal_reason(k: KernelRuntimeBinaryErrorKind) -> Seq<char> {
    if k == KernelRuntimeBinaryErrorKind::ProtocolVersionMismatch {
        "Kernel runtime binary protocol version mismatch"@
    } else {
        "Kernel runtime binary contract version mismatch"@
    }
}

/// Whether `inv` is the invocation made of a result event `v`: the response
/// it gives, its payload passed on, and a failure when that payload says
/// the invocation failed.
pub open spec fn answered_with(
    inv: KernelRuntimeBinaryInvocation,
    client: KernelRuntimeBinaryClient,
    envelope: KernelInvocationEnvelope,
    v: JsonValue,
    exit_code: Option<i32>,
    success: bool,
) -> bool {
    &&& inv.exit_success == success
    &&& inv.response matches Some(resp) && resp.protocol@ == super::response::str_or_empty(v, "protocol"@)
        && resp.protocol_version@ == super::response::str_or_empty(v, "protocol_version"@)
        && resp.contract_version@ == super::response::str_or_empty(v, "contract_version"@)
        && resp.exit_code == exit_code && same_json(inv.payload, resp.payload)
    &&& exists|p: JsonValue| same_json(super::response::event_payload(v), p) && payload_passed_on(p, inv.payload, exit_code)
    &&& if member_str(inv.payload, "status"@) == Some("failed"@) {
        inv.error matches Some(e) && e.kind == KernelRuntimeBinaryErrorKind::KernelInvocationFailed
            && e.stage@ == "kernel_invocation_failed"@ && e.message@ == "Kernel runtime returned invocation failure"@
            && e.exit_code == exit_code
    } else {
        inv.error is None
    }
}

/// Whether `inv` is the invocation made of a finished run of the binary.
pub open spec fn run_outcome(
    inv: KernelRuntimeBinaryInvocation,
    client: KernelRuntimeBinaryClient,
    envelope: KernelInvocationEnvelope,
    facts: RuntimeBinaryFacts,
    outcome: RuntimeBinaryProcessOutcome,
) -> bool {
    match outcome {
        RuntimeBinaryProcessOutcome::SpawnFailed(e) => failed_with(inv, client, envelope, facts,
            KernelRuntimeBinaryErrorKind::ProcessSpawnFailed, "kernel_runtime_process_spawn"@,
            "Kernel runtime binary spawn failed: "@ + e@, false, None),
        RuntimeBinaryProcessOutcome::StdinWriteFailed(e) => failed_with(inv, client, envelope, facts,
            KernelRuntimeBinaryErrorKind::StdinWriteFailed, "kernel_runtime_ipc_write"@,
            "Kernel runtime binary stdin write failed: "@ + e@, true, None),
        RuntimeBinaryProcessOutcome::OutputReadFailed(e) => failed_with(inv, client, envelope, facts,
            KernelRuntimeBinaryErrorKind::StdoutReadFailed, "kernel_runtime_ipc_read"@,
            "Kernel runtime binary output read failed: "@ + e@, true, None),
        RuntimeBinaryProcessOutcome::Exited { stdout, stderr, exit_code, success } =>
            exited_outcome(inv, client, envelope, facts, stdout@, stderr@, exit_code, success),
    }
}

/// Whether `inv` is the invocation made of a run of the binary that ended
/// with the output `stdout` and `stderr`: the first result line decides; with
/// none, a failed exit status, else invalid output.
pub open spec fn exited_outcome(
    inv: KernelRuntimeBinaryInvocation,
    client: KernelRuntimeBinaryClient,
    envelope: KernelInvocationEnvelope,
    facts: RuntimeBinaryFacts,
    stdout: Seq<char>,
    stderr: Seq<char>,
    exit_code: Option<i32>,
    success: bool,
) -> bool {
    let lines = text_lines(stdout);
    if no_result_line(lines) {
        if !success {
            failed_with(inv, client, envelope, facts, KernelRuntimeBinaryErrorKind::NonZeroExit,
                "kernel_runtime_non_zero_exit"@, "Kernel runtime binary exited with "@
                + debug_exit_code(exit_code) + "; stderr="@ + sanitized(stderr), true, exit_code)
        } else {
            failed_with(inv, client, envelope, facts, KernelRuntimeBinaryErrorKind::InvalidJsonlOutput,
                "kernel_runtime_invalid_jsonl_output"@,
                "Kernel runtime binary returned no valid invocation result; stderr="@ + sanitized(stderr),
                true, exit_code)
        }
    } else {
        exists|i: int| #![trigger first_result_line(lines, i)] first_result_line(lines, i) && {
            let v = json_parse(lines[i])->Ok_0;
            match version_refusal(v) {
                Some(k) => failed_with(inv, client, envelope, facts, k, refusal_stage(k),
                    refusal_reason(k), true, exit_code),
                None => answered_with(inv, client, envelope, v, exit_code, success),
            }
        }
    }
}

/// What starting an invocation of `envelope` gives: a missing or
/// non-executable binary (the foundation's first) finishes it with that
/// failure; otherwise the binary is to be run with the request as a line.
pub open spec fn start_outcome(
    r: KernelRuntimeBinaryStep,
    client: KernelRuntimeBinaryClient,
    envelope: KernelInvocationEnvelope,
    facts: RuntimeBinaryFacts,
) -> bool {
    &&& (r matches KernelRuntimeBinaryStep::Finished(inv) ==> request_for(inv.request, envelope, client.state_root_view()))
    &&& !facts.foundation_exists ==> (r matches KernelRuntimeBinaryStep::Finished(inv) && failed_with(inv, client,
        envelope, facts, KernelRuntimeBinaryErrorKind::FoundationBinaryMissing,
        "foundation_runtime_binary_missing"@, "Foundation runtime binary missing: "@ + client.foundation_path_view(),
        false, None))
    &&& facts.foundation_exists && !facts.foundation_executable ==> (r matches KernelRuntimeBinaryStep::Finished(inv)
        && failed_with(inv, client, envelope, facts, KernelRuntimeBinaryErrorKind::FoundationBinaryNotExecutable,
        "foundation_runtime_binary_not_executable"@,
        "Foundation runtime binary is not executable: "@ + client.foundation_path_view(), false, None))
    &&& facts.foundation_exists && facts.foundation_executable && !facts.kernel_exists ==> (r matches
        KernelRuntimeBinaryStep::Finished(inv) && failed_with(inv, client, envelope, facts,
        KernelRuntimeBinaryErrorKind::KernelBinaryMissing, "kernel_runtime_binary_missing"@,
        "Kernel runtime binary missing: "@ + client.kernel_path_view(), false, None))
    &&& facts.foundation_exists && facts.foundation_executable && facts.kernel_exists && !facts.kernel_executable
        ==> (r matches KernelRuntimeBinaryStep::Finished(inv) && failed_with(inv, client, envelope, facts,
        KernelRuntimeBinaryErrorKind::KernelBinaryNotExecutable, "kernel_runtime_binary_not_executable"@,
        "Kernel runtime binary is not executable: "@ + client.kernel_path_view(), false, None))
    &&& facts.foundation_exists && facts.foundation_executable && facts.kernel_exists && facts.kernel_executable
        ==> (r matches KernelRuntimeBinaryStep::RunBinary(p) && p.envelope_view() == envelope
        && p.facts_view() == facts && request_for(p.request_view(), envelope, client.state_root_view())
        && exists|j: JsonValue| request_json(p.request_view(), j) && p.line_view() == json_compact_text(j))
}

impl KernelRuntimeBinaryClient {
    /// The kernel state root.
    pub closed spec fn state_root_view(&self) -> Seq<char> {
        self.kernel_state_root@
    }

    /// The path of the foundation binary.
    pub closed spec fn foundation_path_view(&self) -> Seq<char> {
        self.foundation_binary_path@
    }

    /// The path of the kernel binary.
    pub closed spec fn kernel_path_view(&self) -> Seq<char> {
        self.kernel_binary_path@
    }

    /// The client of the binaries in `bin_root`.
    pub fn new(bin_root: &str, kernel_state_root: &str) -> (r: Self)
        ensures
            r.state_root_view() == kernel_state_root@,
            r.foundation_path_view() == bin_root@ + "/aicore-foundation"@,
            r.kernel_path_view() == bin_root@ + "/aicore-kernel"@,
    {
        let mut foundation_binary_path = owned(bin_root);
        append_str(&mut foundation_binary_path, "/");
        append_str(&mut foundation_binary_path, FOUNDATION_RUNTIME_BINARY_NAME);
        let mut kernel_binary_path = owned(bin_root);
        append_str(&mut kernel_binary_path, "/");
        append_str(&mut kernel_binary_path, KERNEL_RUNTIME_BINARY_NAME);
        proof {
            reveal_strlit("/");
            reveal_strlit("aicore-foundation");
            reveal_strlit("/aicore-foundation");
            reveal_strlit("aicore-kernel");
            reveal_strlit("/aicore-kernel");
            assert(bin_root@ + "/"@ + "aicore-foundation"@ =~= bin_root@ + "/aicore-foundation"@);
            assert(bin_root@ + "/"@ + "aicore-kernel"@ =~= bin_root@ + "/aicore-kernel"@);
        }
        KernelRuntimeBinaryClient {
            kernel_state_root: owned(kernel_state_root),
            foundation_binary_path,
            kernel_binary_path,
        }
    }

    /// The client of the binaries at the given paths.
    pub fn with_binary_paths(kernel_state_root: &str, foundation_binary_path: &str, kernel_binary_path: &str) -> (r: Self)
        ensures
            r.state_root_view() == kernel_state_root@,
            r.foundation_path_view() == foundation_binary_path@,
            r.kernel_path_view() == kernel_binary_path@,
    {
        KernelRuntimeBinaryClient {
            kernel_state_root: owned(kernel_state_root),
            foundation_binary_path: owned(foundation_binary_path),
            kernel_binary_path: owned(kernel_binary_path),
        }
    }

    /// The kernel state root.
    pub fn kernel_state_root(&self) -> (r: &str)
        ensures
            r@ == self.state_root_view(),
    {
        self.kernel_state_root.as_str()
    }

    /// The path of the foundation binary.
    pub fn foundation_binary_path(&self) -> (r: &str)
        ensures
            r@ == self.foundation_path_view(),
    {
        self.foundation_binary_path.as_str()
    }

    /// The path of the kernel binary.
    pub fn kernel_binary_path(&self) -> (r: &str)
        ensures
            r@ == self.kernel_path_view(),
    {
        self.kernel_binary_path.as_str()
    }

    fn failure_invocation(
        &self,
        request: KernelRuntimeBinaryRequest,
        envelope: &KernelInvocationEnvelope,
        facts: RuntimeBinaryFacts,
        kind: KernelRuntimeBinaryErrorKind,
        stage: &str,
        reason: &str,
        spawned_process: bool,
        process_exit_code: Option<i32>,
    ) -> (r: KernelRuntimeBinaryInvocation)
        ensures
            r.request == request,
            failed_with(r, *self, *envelope, facts, kind, stage@, reason@, spawned_process, process_exit_code),
    {
        let payload = runtime_binary_failure_payload(
            envelope,
            stage,
            reason,
            self.kernel_state_root.as_str(),
            self.foundation_binary_path.as_str(),
            self.kernel_binary_path.as_str(),
            facts,
            false,
            spawned_process,
            process_exit_code,
        );
        KernelRuntimeBinaryInvocation {
            request,
            response: None,
            payload,
            exit_success: false,
            error: Some(KernelRuntimeBinaryError {
                kind,
                stage: owned(stage),
                message: sanitize_process_diagnostic(reason),
                exit_code: process_exit_code,
            }),
        }
    }

    /// Starts an invocation of `envelope` through the binary. A missing or
    /// non-executable binary (the foundation's first) finishes it with that
    /// failure; otherwise the binary is to be run with the request line.
    pub fn invoke_envelope(&self, envelope: KernelInvocationEnvelope, facts: RuntimeBinaryFacts) -> (r: KernelRuntimeBinaryStep)
        ensures
            start_outcome(r, *self, envelope, facts),
    {
        let request = KernelRuntimeBinaryRequest::from_envelope(&envelope, self.kernel_state_root.as_str());
        if !facts.foundation_exists {
            let mut reason = owned("Foundation runtime binary missing: ");
            append_str(&mut reason, self.foundation_binary_path.as_str());
            let inv = self.failure_invocation(request, &envelope, facts,
                KernelRuntimeBinaryErrorKind::FoundationBinaryMissing, "foundation_runtime_binary_missing",
                reason.as_str(), false, None);
            return KernelRuntimeBinaryStep::Finished(inv);
        }
        if !facts.foundation_executable {
            let mut reason = owned("Foundation runtime binary is not executable: ");
            append_str(&mut reason, self.foundation_binary_path.as_str());
            let inv = self.failure_invocation(request, &envelope, facts,
                KernelRuntimeBinaryErrorKind::FoundationBinaryNotExecutable, "foundation_runtime_binary_not_executable",
                reason.as_str(), false, None);
            return KernelRuntimeBinaryStep::Finished(inv);
        }
        if !facts.kernel_exists {
            let mut reason = owned("Kernel runtime binary missing: ");
            append_str(&mut reason, self.kernel_binary_path.as_str());
            let inv = self.failure_invocation(request, &envelope, facts,
                KernelRuntimeBinaryErrorKind::KernelBinaryMissing, "kernel_runtime_binary_missing",
                reason.as_str(), false, None);
            return KernelRuntimeBinaryStep::Finished(inv);
        }
        if !facts.kernel_executable {
            let mut reason = owned("Kernel runtime binary is not executable: ");
            append_str(&mut reason, self.kernel_binary_path.as_str());
            let inv = self.failure_invocation(request, &envelope, facts,
                KernelRuntimeBinaryErrorKind::KernelBinaryNotExecutable, "kernel_runtime_binary_not_executable",
                reason.as_str(), false, None);
            return KernelRuntimeBinaryStep::Finished(inv);
        }
        let json = request.to_json();
        let request_line = compact_text(&json);
        KernelRuntimeBinaryStep::RunBinary(PendingRuntimeBinaryProcess { request, envelope, facts, request_line })
    }

    /// Starts a read-only invocation of `operation` on the global main
    /// instance, with an empty payload.
    pub fn invoke_readonly(&self, operation: &str, facts: RuntimeBinaryFacts) -> (r: KernelRuntimeBinaryStep)
        ensures
            exists|envelope: KernelInvocationEnvelope| #![trigger envelope.operation]
                envelope.instance_id@ == "global-main"@ && envelope.capability@ == operation@
                && envelope.operation@ == operation@ && envelope.payload == KernelPayload::Empty
                && start_outcome(r, *self, envelope, facts),
    {
        let envelope = KernelInvocationEnvelope::new("global-main", operation, operation, KernelPayload::Empty);
        proof {
            reveal_strlit("global-main");
        }
        self.invoke_envelope(envelope, facts)
    }

    /// Finishes an invocation with what the run of the binary gave: the
    /// response of its first result line, or the failure of the run.
    pub fn finish(&self, pending: PendingRuntimeBinaryProcess, outcome: RuntimeBinaryProcessOutcome) -> (r: KernelRuntimeBinaryInvocation)
        ensures
            r.request == pending.request_view(),
            run_outcome(r, *self, pending.envelope_view(), pending.facts_view(), outcome),
    {
        let PendingRuntimeBinaryProcess { request, envelope, facts, request_line: _ } = pending;
        match outcome {
            RuntimeBinaryProcessOutcome::SpawnFailed(e) => {
                let mut reason = owned("Kernel runtime binary spawn failed: ");
                append_str(&mut reason, e.as_str());
                self.failure_invocation(request, &envelope, facts, KernelRuntimeBinaryErrorKind::ProcessSpawnFailed,
                    "kernel_runtime_process_spawn", reason.as_str(), false, None)
            },
            RuntimeBinaryProcessOutcome::StdinWriteFailed(e) => {
                let mut reason = owned("Kernel runtime binary stdin write failed: ");
                append_str(&mut reason, e.as_str());
                self.failure_invocation(request, &envelope, facts, KernelRuntimeBinaryErrorKind::StdinWriteFailed,
                    "kernel_runtime_ipc_write", reason.as_str(), true, None)
            },
            RuntimeBinaryProcessOutcome::OutputReadFailed(e) => {
                let mut reason = owned("Kernel runtime binary output read failed: ");
                append_str(&mut reason, e.as_str());
                self.failure_invocation(request, &envelope, facts, KernelRuntimeBinaryErrorKind::StdoutReadFailed,
                    "kernel_runtime_ipc_read", reason.as_str(), true, None)
            },
            RuntimeBinaryProcessOutcome::Exited { stdout, stderr, exit_code, success } => {
                self.finish_exited(request, &envelope, facts, stdout.as_str(), stderr.as_str(), exit_code, success)
            },
        }
    }

    fn finish_exited(
        &self,
        request: KernelRuntimeBinaryRequest,
        envelope: &KernelInvocationEnvelope,
        facts: RuntimeBinaryFacts,
        stdout: &str,
        stderr: &str,
        exit_code: Option<i32>,
        success: bool,
    ) -> (r: KernelRuntimeBinaryInvocation)
        ensures
            r.request == request,
            exited_outcome(r, *self, *envelope, facts, stdout@, stderr@, exit_code, success),
    {
        let parsed = parse_kernel_invocation_result_response(stdout, exit_code);
        match parsed {
            Ok(response) => {
                let ghost resp0 = response;
                let mut response = response;
                let payload = response_payload(&mut response, exit_code);
                let failed = match get_str(&payload, "status") {
                    Some(s) => str_eq(s, "failed"),
                    None => false,
                };
                proof {
                    reveal_strlit("failed");
                }
                let error = if failed {
                    Some(KernelRuntimeBinaryError {
                        kind: KernelRuntimeBinaryErrorKind::KernelInvocationFailed,
                        stage: owned("kernel_invocation_failed"),
                        message: owned("Kernel runtime returned invocation failure"),
                        exit_code,
                    })
                } else {
                    None
                };
                let inv = KernelRuntimeBinaryInvocation { request, response: Some(response), payload, exit_success: success, error };
                proof {
                    let lines = text_lines(stdout@);
                    assert(!no_result_line(lines));
                    let i = choose|i: int| #![trigger first_result_line(lines, i)] first_result_line(lines, i) && {
                        let v = json_parse(lines[i])->Ok_0;
                        match version_refusal(v) {
                            Some(k) => parsed == Err::<KernelRuntimeBinaryResponse, _>(k),
                            None => parsed matches Ok(resp) && response_of(v, resp, exit_code),
                        }
                    };
                    let v = json_parse(lines[i])->Ok_0;
                    assert(response_of(v, resp0, exit_code));
                    let p = choose|p: JsonValue| same_json(resp0.payload, p) && payload_passed_on(p, inv.payload, exit_code);
                    lemma_same_json_trans(super::response::event_payload(v), resp0.payload, p);
                    assert(answered_with(inv, *self, *envelope, v, exit_code, success));
                }
                inv
            },
            Err(KernelRuntimeBinaryErrorKind::ProtocolVersionMismatch) => {
                self.failure_invocation(request, envelope, facts, KernelRuntimeBinaryErrorKind::ProtocolVersionMismatch,
                    "kernel_runtime_protocol_version_mismatch", "Kernel runtime binary protocol version mismatch",
                    true, exit_code)
            },
            Err(KernelRuntimeBinaryErrorKind::ContractVersionMismatch) => {
                self.failure_invocation(request, envelope, facts, KernelRuntimeBinaryErrorKind::ContractVersionMismatch,
                    "kernel_runtime_contract_version_mismatch", "Kernel runtime binary contract version mismatch",
                    true, exit_code)
            },
            Err(_) => {
                let diagnostic = sanitize_process_diagnostic(stderr);
                if !success {
                    let mut reason = owned("Kernel runtime binary exited with ");
                    push_debug_exit_code(&mut reason, exit_code);
                    append_str(&mut reason, "; stderr=");
                    append_str(&mut reason, diagnostic.as_str());
                    self.failure_invocation(request, envelope, facts, KernelRuntimeBinaryErrorKind::NonZeroExit,
                        "kernel_runtime_non_zero_exit", reason.as_str(), true, exit_code)
                } else {
                    let mut reason = owned("Kernel runtime binary returned no valid invocation result; stderr=");
                    append_str(&mut reason, diagnostic.as_str());
                    self.failure_invocation(request, envelope, facts, KernelRuntimeBinaryErrorKind::InvalidJsonlOutput,
                        "kernel_runtime_invalid_jsonl_output", reason.as_str(), true, exit_code)
                }
            },
        }
    }
}

} // verus!
