//! Component processes over `stdio_jsonl`: what to run, and what its outcome
//! means. Running the process is the caller's part.
use vstd::prelude::*;

use crate::fields::PublicFields;
use crate::installed_manifest::{mode_name, transport_name, ComponentTransport};
use crate::invocation::{KernelInvocationEnvelope, TimeoutPolicy};
use crate::invocation_ledger::{is_control, redact_failure_reason, redacted};
use crate::invocation_runtime::handler::KernelHandlerResult;
use crate::invocation_runtime::result::{has_flags, is_failure_result, names_invocation, reports_route, route_transport, without_ledger, KernelInvocationResultEnvelope, KernelInvocationRuntimeOutput, KernelInvocationStatus};
use crate::invocation_runtime::runtime::KernelInvocationRuntime;
use crate::json::{compact_text, get_member, get_str, json_compact_text, json_parse, json_value_to_public_string, member, member_str, parse_json, public_text, JsonValue};
use crate::manifest_text::{line_pieces, split_lines};
use crate::route_runtime::{contract_text, format_contract, KernelRouteRuntimeOutput};
use crate::text::{append_str, chars_of, opt_view, owned, push_char, string_of, trim, trim_spec};

verus! {

broadcast use vstd::string::group_string_axioms;

/// How long a component process may run when the policy inherits the default.
pub const DEFAULT_COMPONENT_PROCESS_TIMEOUT_MS: u64 = 30000;

/// The schema of a component's result line.
pub const LOCAL_IPC_RESULT_SCHEMA_VERSION: &'static str = "aicore.local_ipc.result.v1";

/// The protocol a component speaks.
pub const LOCAL_IPC_PROTOCOL: &'static str = "stdio_jsonl";

/// The version of that protocol.
pub const LOCAL_IPC_PROTOCOL_VERSION: &'static str = "aicore.local_ipc.stdio_jsonl.v1";

/// A component process that completed: its result and exit code.
#[derive(Debug, Clone, PartialEq, Eq)]
pub struct ComponentProcessSuccess {
    pub result: KernelHandlerResult,
    pub exit_code: Option<i32>,
}

/// A component process that could not run or did not complete: the stage
/// and reason, the component's own result when it reported a failure, whether
/// a process was spawned, and its exit code.
#[derive(Debug, Clone, PartialEq, Eq)]
pub struct ComponentProcessFailure {
    pub stage: String,
    pub reason: String,
    pub result: Option<KernelHandlerResult>,
    pub spawned_process: bool,
    pub exit_code: Option<i32>,
}

/// What the caller must run: the program with its arguments and working
/// directory, the request line to write to its standard input, and how
/// long to wait for it (in milliseconds; no limit when there is none).
#[derive(Debug, Clone, PartialEq, Eq)]
pub struct ComponentProcessRequest {
    pub program: String,
    pub args: Vec<String>,
    pub working_dir: Option<String>,
    pub request_line: String,
    pub timeout_millis: Option<u64>,
}

/// What happened when the caller ran a component process.
#[derive(Debug, Clone, PartialEq, Eq)]
pub enum ComponentProcessEvent {
    /// The entrypoint does not exist.
    EntrypointMissing,
    /// The entrypoint is not an executable file.
    EntrypointNotExecutable,
    /// The process could not be spawned, with the error's text.
    SpawnFailed(String),
    /// The request could not be written to its standard input.
    StdinFailed(String),
    /// It ran past its timeout and was killed.
    TimedOut,
    /// Its status could not be read.
    StatusReadFailed(String),
    /// One of its output pipes (`stdout` or `stderr`) could not be read.
    PipeReadFailed { pipe: String, error: String },
    /// It exited, with its exit code, whether it succeeded, and its output
    /// read as UTF-8 (invalid sequences replaced).
    Exited { exit_code: Option<i32>, success: bool, stdout: String, stderr: String },
}

// ---------------------------------------------------------------------------
// Diagnostics
// ---------------------------------------------------------------------------

/// Whether a diagnostic keeps `c`: every character but control characters,
/// except line breaks and tabs.
pub open spec fn keeps_char(c: char) -> bool {
    !is_control(c) || c == '\n' || c == '\t'
}

/// `s` without the characters a diagnostic drops.
pub open spec fn strip_controls(s: Seq<char>) -> Seq<char>
    decreases s.len(),
{
    if s.len() == 0 {
        Seq::empty()
    } else {
        strip_controls(s.drop_last()) + (if keeps_char(s.last()) { seq![s.last()] } else { Seq::empty() })
    }
}

/// `s` with every line break replaced by a space.
pub open spec fn newlines_to_spaces(s: Seq<char>) -> Seq<char> {
    s.map_values(|c: char| if c == '\n' { ' ' } else { c })
}

/// A process diagnostic as reported: control characters dropped, secrets
/// redacted, one line, and at most 240 characters (then followed by `...`).
pub open spec fn sanitized(s: Seq<char>) -> Seq<char> {
    let t = newlines_to_spaces(redacted(strip_controls(s)));
    if t.len() > 240 { t.subrange(0, 240) + "..."@ } else { t }
}

proof fn lemma_strip_controls_kept(s: Seq<char>)
    ensures
        forall|i: int| 0 <= i < strip_controls(s).len() ==> keeps_char(#[trigger] strip_controls(s)[i]),
    decreases s.len(),
{
    if s.len() > 0 {
        lemma_strip_controls_kept(s.drop_last());
        let p = strip_controls(s.drop_last());
        let tail = if keeps_char(s.last()) { seq![s.last()] } else { Seq::<char>::empty() };
        assert forall|i: int| 0 <= i < strip_controls(s).len() implies keeps_char(#[trigger] strip_controls(s)[i]) by {
            if i < p.len() {
                assert(strip_controls(s)[i] == p[i]);
            } else {
                assert(strip_controls(s)[i] == tail[i - p.len()]);
            }
        }
    }
}

/// A sanitized diagnostic is a single line of at most 243 characters, with
/// no control character but the tab.
pub proof fn lemma_sanitized_one_line(s: Seq<char>)
    ensures
        sanitized(s).len() <= 243,
        forall|i: int| 0 <= i < sanitized(s).len() ==> #[trigger] sanitized(s)[i] != '\n'
            && (!is_control(sanitized(s)[i]) || sanitized(s)[i] == '\t'),
{
    lemma_strip_controls_kept(s);
    let k = strip_controls(s);
    let r = redacted(k);
    reveal_strlit("[redacted:failure_reason]");
    let t: Seq<char> = seq!['[', 'r', 'e', 'd', 'a', 'c', 't', 'e', 'd', ':', 'f', 'a', 'i', 'l', 'u', 'r', 'e', '_', 'r', 'e', 'a', 's', 'o', 'n', ']'];
    assert("[redacted:failure_reason]"@ =~= t);
    assert forall|i: int| 0 <= i < r.len() implies keeps_char(#[trigger] r[i]) by {
        if r == k {
            assert(keeps_char(k[i]));
        } else {
            assert(r[i] == t[i]);
        }
    }
    let n = newlines_to_spaces(r);
    assert forall|i: int| 0 <= i < n.len() implies #[trigger] n[i] != '\n' && (!is_control(n[i]) || n[i] == '\t') by {
        assert(keeps_char(r[i]));
    }
    reveal_strlit("...");
    if n.len() > 240 {
        let c = n.subrange(0, 240) + "..."@;
        assert forall|i: int| 0 <= i < c.len() implies #[trigger] c[i] != '\n' && (!is_control(c[i]) || c[i] == '\t') by {
            if i < 240 {
                assert(c[i] == n[i]);
            } else {
                assert(c[i] == '.');
            }
        }
    }
}

/// Makes a process diagnostic safe to report.
pub fn sanitize_process_diagnostic(value: &str) -> (r: String)
    ensures
        r@ == sanitized(value@),
{
    let cs = chars_of(value);
    let mut kept = String::new();
    let mut i: usize = 0;
    while i < cs.len()
        invariant
            i <= cs.len(),
            cs@ == value@,
            kept@ == strip_controls(cs@.subrange(0, i as int)),
        decreases cs.len() - i,
    {
        let c = cs[i];
        let code = c as u32;
        if !(code < 0x20 || (0x7f <= code && code < 0xa0)) || c == '\n' || c == '\t' {
            push_char(&mut kept, c);
        }
        assert(cs@.subrange(0, i + 1).drop_last() =~= cs@.subrange(0, i as int));
        i = i + 1;
    }
    assert(cs@.subrange(0, cs.len() as int) =~= cs@);
    let red = chars_of(redact_failure_reason(kept.as_str()).as_str());
    let ghost t = newlines_to_spaces(red@);
    let mut out = String::new();
    let mut j: usize = 0;
    let limit: usize = if red.len() > 240 { 240 } else { red.len() };
    while j < limit
        invariant
            j <= limit <= red.len(),
            t == newlines_to_spaces(red@),
            out@ == t.subrange(0, j as int),
        decreases limit - j,
    {
        let c = red[j];
        push_char(&mut out, if c == '\n' { ' ' } else { c });
        assert(out@ =~= t.subrange(0, j + 1));
        j = j + 1;
    }
    if red.len() > 240 {
        append_str(&mut out, "...");
    } else {
        assert(t.subrange(0, limit as int) =~= t);
    }
    out
}

// ---------------------------------------------------------------------------
// The request
// ---------------------------------------------------------------------------

/// Whether `v` is the string `text`.
pub open spec fn is_str(v: JsonValue, text: Seq<char>) -> bool {
    v matches JsonValue::Str(s) && s@ == text
}

/// Whether `v` is the request object sent to a component for `env` routed to `route`.
pub open spec fn is_ipc_request(v: JsonValue, env: KernelInvocationEnvelope, route: KernelRouteRuntimeOutput) -> bool {
    v matches JsonValue::Object(ms) && (ms@.len() == 6
        && ms@[0].0@ == "schema_version"@ && is_str(ms@[0].1, "aicore.local_ipc.invocation.v1"@)
        && ms@[1].0@ == "invocation_id"@ && is_str(ms@[1].1, env.invocation_id@)
        && ms@[2].0@ == "trace_id"@ && is_str(ms@[2].1, env.trace_context.trace_id@)
        && ms@[3].0@ == "instance_id"@ && is_str(ms@[3].1, env.instance_id@)
        && ms@[4].0@ == "operation"@ && is_str(ms@[4].1, env.operation@)
        && ms@[5].0@ == "route"@ && (ms@[5].1 matches JsonValue::Object(rs) && rs@.len() == 6
        && rs@[0].0@ == "component_id"@ && is_str(rs@[0].1, route.component_id@)
        && rs@[1].0@ == "app_id"@ && is_str(rs@[1].1, route.app_id@)
        && rs@[2].0@ == "capability_id"@ && is_str(rs@[2].1, route.capability_id@)
        && rs@[3].0@ == "contract_version"@ && is_str(rs@[3].1, contract_text(route.contract_version))
        && rs@[4].0@ == "invocation_mode"@ && is_str(rs@[4].1, mode_name(route.invocation_mode))
        && rs@[5].0@ == "transport"@ && is_str(rs@[5].1, transport_name(route.transport))))
}

fn str_member(key: &str, value: String) -> (r: (String, JsonValue))
    ensures
        r.0@ == key@,
        is_str(r.1, value@),
{
    (owned(key), JsonValue::Str(value))
}

/// The request object sent to a component for `envelope` routed to `route`.
pub fn local_ipc_request(envelope: &KernelInvocationEnvelope, route: &KernelRouteRuntimeOutput) -> (r: JsonValue)
    ensures
        is_ipc_request(r, *envelope, *route),
{
    let mut rs: Vec<(String, JsonValue)> = Vec::new();
    rs.push(str_member("component_id", route.component_id.clone()));
    rs.push(str_member("app_id", route.app_id.clone()));
    rs.push(str_member("capability_id", route.capability_id.clone()));
    rs.push(str_member("contract_version", format_contract(&route.contract_version)));
    rs.push(str_member("invocation_mode", owned(route.invocation_mode.as_str())));
    rs.push(str_member("transport", owned(route.transport.as_str())));
    let mut ms: Vec<(String, JsonValue)> = Vec::new();
    ms.push(str_member("schema_version", owned("aicore.local_ipc.invocation.v1")));
    ms.push(str_member("invocation_id", envelope.invocation_id.clone()));
    ms.push(str_member("trace_id", envelope.trace_context.trace_id.clone()));
    ms.push(str_member("instance_id", envelope.instance_id.clone()));
    ms.push(str_member("operation", envelope.operation.clone()));
    ms.push((owned("route"), JsonValue::Object(rs)));
    JsonValue::Object(ms)
}

/// The request line written to a component: the request object as compact JSON.
pub fn local_ipc_request_json(envelope: &KernelInvocationEnvelope, route: &KernelRouteRuntimeOutput) -> (r: String)
    ensures
        exists|v: JsonValue| is_ipc_request(v, *envelope, *route) && r@ == json_compact_text(v),
{
    let v = local_ipc_request(envelope, route);
    compact_text(&v)
}

/// The timeout of a policy in milliseconds: 30000 when inherited, none when
/// there is no timeout.
pub open spec fn timeout_millis(policy: TimeoutPolicy) -> Option<u64> {
    match policy {
        TimeoutPolicy::Inherit => Some(DEFAULT_COMPONENT_PROCESS_TIMEOUT_MS),
        TimeoutPolicy::Millis(v) => Some(v),
        TimeoutPolicy::NoTimeout => None,
    }
}

/// How long to wait for the component process of `envelope`.
pub fn timeout_duration(envelope: &KernelInvocationEnvelope) -> (r: Option<u64>)
    ensures
        r == timeout_millis(envelope.policy.timeout),
{
    match envelope.policy.timeout {
        TimeoutPolicy::Inherit => Some(DEFAULT_COMPONENT_PROCESS_TIMEOUT_MS),
        TimeoutPolicy::Millis(v) => Some(v),
        TimeoutPolicy::NoTimeout => None,
    }
}

/// Whether `f` is a failure before any process ran, at `stage` for `reason`.
pub open spec fn is_unspawned_failure(f: ComponentProcessFailure, stage: Seq<char>, reason: Seq<char>) -> bool {
    f.stage@ == stage && f.reason@ == reason && f.result is None && !f.spawned_process && f.exit_code is None
}

/// Whether `f` is a failure of a spawned process at `stage` for `reason`.
pub open spec fn is_spawned_failure(f: ComponentProcessFailure, stage: Seq<char>, reason: Seq<char>, exit_code: Option<i32>) -> bool {
    f.stage@ == stage && f.reason@ == reason && f.result is None && f.spawned_process && f.exit_code == exit_code
}

fn unspawned_failure(stage: &str, reason: String) -> (f: ComponentProcessFailure)
    ensures
        is_unspawned_failure(f, stage@, reason@),
{
    ComponentProcessFailure { stage: owned(stage), reason, result: None, spawned_process: false, exit_code: None }
}

fn spawned_failure(stage: &str, reason: String, exit_code: Option<i32>) -> (f: ComponentProcessFailure)
    ensures
        is_spawned_failure(f, stage@, reason@, exit_code),
{
    ComponentProcessFailure { stage: owned(stage), reason, result: None, spawned_process: true, exit_code }
}

/// Why no component process can run for `route`, as a failure stage and
/// reason: only the `stdio_jsonl` transport is spoken, and a blank entrypoint
/// is missing; nothing where a process can run.
pub open spec fn prepare_refusal(route: KernelRouteRuntimeOutput) -> Option<(Seq<char>, Seq<char>)> {
    if route.transport != ComponentTransport::StdioJsonl {
        Some(("transport_unsupported"@, "unsupported component transport: "@ + transport_name(route.transport)))
    } else if trim_spec(route.entrypoint@).len() == 0 {
        Some(("missing_entrypoint"@, "component entrypoint is missing: "@ + route.entrypoint@))
    } else {
        None
    }
}

/// Whether `req` runs the entrypoint of `route` (a route a process can run
/// for) with its arguments and working directory, writes the IPC request of
/// `envelope` as one line, and waits as long as the envelope's timeout policy says.
pub open spec fn is_prepared_request(req: ComponentProcessRequest, envelope: KernelInvocationEnvelope, route: KernelRouteRuntimeOutput) -> bool {
    &&& prepare_refusal(route) is None
    &&& req.program@ == route.entrypoint@
    &&& req.args@ == route.args@
    &&& req.working_dir == route.working_dir
    &&& req.timeout_millis == timeout_millis(envelope.policy.timeout)
    &&& exists|v: JsonValue| is_ipc_request(v, envelope, route) && req.request_line@ == json_compact_text(v)
}

/// What to run for `envelope` routed to `route`, or why nothing can run:
/// only the `stdio_jsonl` transport is spoken, and a blank entrypoint is missing.
pub fn prepare_component_process(
    envelope: &KernelInvocationEnvelope,
    route: &KernelRouteRuntimeOutput,
) -> (r: Result<ComponentProcessRequest, ComponentProcessFailure>)
    ensures
        match prepare_refusal(*route) {
            Some((stage, reason)) => r matches Err(f) && is_unspawned_failure(f, stage, reason),
            None => r matches Ok(req) && is_prepared_request(req, *envelope, *route),
        },
{
    if route.transport != ComponentTransport::StdioJsonl {
        let mut reason = owned("unsupported component transport: ");
        append_str(&mut reason, route.transport.as_str());
        return Err(unspawned_failure("transport_unsupported", reason));
    }
    if trim(&chars_of(route.entrypoint.as_str())).len() == 0 {
        let mut reason = owned("component entrypoint is missing: ");
        append_str(&mut reason, route.entrypoint.as_str());
        return Err(unspawned_failure("missing_entrypoint", reason));
    }
    let working_dir = match &route.working_dir {
        Some(d) => Some(d.clone()),
        None => None,
    };
    Ok(ComponentProcessRequest {
        program: route.entrypoint.clone(),
        args: crate::text::clone_strings(&route.args),
        working_dir,
        request_line: local_ipc_request_json(envelope, route),
        timeout_millis: timeout_duration(envelope),
    })
}

// ---------------------------------------------------------------------------
// The result line
// ---------------------------------------------------------------------------

/// A line without its trailing `\r`, as `str::lines` gives it.
pub open spec fn without_cr(l: Seq<char>) -> Seq<char> {
    if l.len() > 0 && l.last() == '\r' { l.drop_last() } else { l }
}

/// The lines of `stdout` that are not blank.
pub open spec fn result_lines(stdout: Seq<char>) -> Seq<Seq<char>> {
    line_pieces(stdout).filter(|l: Seq<char>| trim_spec(l).len() != 0)
}

/// What a result line means for the invocation with id `invocation_id`.
pub enum ResultVerdict {
    /// The process failed the protocol: stage and reason (before sanitizing).
    Failure(Seq<char>, Seq<char>),
    /// The component reported that its handler failed.
    HandlerFailed(JsonValue),
    /// The component completed.
    Completed(JsonValue),
}

/// The verdict on a parsed result value.
pub open spec fn value_verdict(v: JsonValue, invocation_id: Seq<char>) -> ResultVerdict {
    if member_str(v, "schema_version"@) != Some("aicore.local_ipc.result.v1"@) {
        ResultVerdict::Failure("process_result_schema_mismatch"@, "component process result schema mismatch"@)
    } else if member_str(v, "protocol"@) != Some("stdio_jsonl"@)
        || member_str(v, "protocol_version"@) != Some("aicore.local_ipc.stdio_jsonl.v1"@) {
        ResultVerdict::Failure("process_protocol_mismatch"@, "component process result protocol mismatch"@)
    } else if member_str(v, "invocation_id"@) != Some(invocation_id) {
        ResultVerdict::Failure("process_result_mismatch"@, "component process result invocation_id mismatch"@)
    } else if member_str(v, "result_kind"@) is None || member_str(v, "summary"@) is None {
        ResultVerdict::Failure("process_result_schema_mismatch"@, "component process result requires result_kind and summary"@)
    } else if member_str(v, "status"@) == Some("failed"@) {
        ResultVerdict::HandlerFailed(v)
    } else if member_str(v, "status"@) != Some("completed"@) {
        ResultVerdict::Failure(
            "process_result_schema_mismatch"@,
            "component process result status must be completed or failed"@,
        )
    } else {
        ResultVerdict::Completed(v)
    }
}

/// The verdict on a process's standard output: exactly one non-blank line,
/// holding valid JSON, that passes the checks of `value_verdict`.
pub open spec fn stdout_verdict(stdout: Seq<char>, invocation_id: Seq<char>) -> ResultVerdict {
    let lines = result_lines(stdout);
    if lines.len() == 0 {
        ResultVerdict::Failure("process_stdout_failed"@, "component process returned empty stdio_jsonl result"@)
    } else if lines.len() != 1 {
        ResultVerdict::Failure(
            "process_protocol_mismatch"@,
            "component process stdout must contain exactly one JSONL result line"@,
        )
    } else {
        match json_parse(without_cr(lines[0])) {
            Err(e) => ResultVerdict::Failure(
                "process_invalid_json"@,
                "component process returned invalid JSON result: "@ + e,
            ),
            Ok(v) => value_verdict(v, invocation_id),
        }
    }
}

/// The public fields of members `ms`, each shown as public text; a later
/// member replaces an earlier one of the same name.
pub open spec fn fields_of_members(ms: Seq<(String, JsonValue)>) -> Map<Seq<char>, Seq<char>>
    decreases ms.len(),
{
    if ms.len() == 0 {
        Map::empty()
    } else {
        fields_of_members(ms.drop_last()).insert(ms.last().0@, public_text(ms.last().1))
    }
}

/// The public fields a result value reports: those of its `fields` object,
/// if it has one.
pub open spec fn reported_fields(v: JsonValue) -> Map<Seq<char>, Seq<char>> {
    match member(v, "fields"@) {
        Some(JsonValue::Object(ms)) => fields_of_members(ms@),
        _ => Map::empty(),
    }
}

/// The result kind a value reports, `component.process.result` by default.
pub open spec fn reported_kind(v: JsonValue) -> Seq<char> {
    match member_str(v, "result_kind"@) {
        Some(k) => k,
        None => "component.process.result"@,
    }
}

/// The summary a value reports, or `default`.
pub open spec fn reported_summary(v: JsonValue, default: Seq<char>) -> Seq<char> {
    match member_str(v, "summary"@) {
        Some(s) => s,
        None => default,
    }
}

/// The public fields of a result value's `fields` object.
fn fields_of(value: &JsonValue) -> (r: PublicFields)
    ensures
        r@ == reported_fields(*value),
{
    let mut fields = PublicFields::new();
    match get_member(value, "fields") {
        Some(JsonValue::Object(ms)) => {
            let mut i: usize = 0;
            while i < ms.len()
                invariant
                    i <= ms.len(),
                    fields@ == fields_of_members(ms@.subrange(0, i as int)),
                decreases ms.len() - i,
            {
                let v = json_value_to_public_string(&ms[i].1);
                fields.insert(ms[i].0.clone(), v);
                assert(ms@.subrange(0, i + 1).drop_last() =~= ms@.subrange(0, i as int));
                i = i + 1;
            }
            assert(ms@.subrange(0, ms.len() as int) =~= ms@);
        },
        _ => {},
    }
    fields
}

/// Whether `f` reports that the component's handler failed, as result value `v` says.
pub open spec fn is_handler_failed(f: ComponentProcessFailure, v: JsonValue, exit_code: Option<i32>) -> bool {
    let reason = reported_summary(v, "component handler failed"@);
    &&& f.stage@ == "handler_failed"@
    &&& f.reason@ == sanitized(reason)
    &&& f.result matches Some(res) && res.summary@ == reason
        && (res.result_kind matches Some(k) && k@ == reported_kind(v))
        && res.public_fields@ == reported_fields(v)
    &&& f.spawned_process
    &&& f.exit_code == exit_code
}

/// Whether `s` is the success of a component that reported value `v` over a
/// route with `transport`: its fields, with `transport` added unless reported.
pub open spec fn is_process_success(s: ComponentProcessSuccess, v: JsonValue, transport: ComponentTransport, exit_code: Option<i32>) -> bool {
    let fields = reported_fields(v);
    &&& s.result.summary@ == reported_summary(v, "component process completed"@)
    &&& s.result.result_kind matches Some(k) && k@ == reported_kind(v)
    &&& s.result.public_fields@ == (if fields.contains_key("transport"@) {
        fields
    } else {
        fields.insert("transport"@, transport_name(transport))
    })
    &&& s.exit_code == exit_code
}

fn find_result_line(stdout: &str) -> (r: (usize, Option<Vec<char>>))
    ensures
        r.0 == result_lines(stdout@).len() || (r.0 > 1 && result_lines(stdout@).len() > 1),
        r.0 == 1 <==> result_lines(stdout@).len() == 1,
        r.0 == 0 <==> result_lines(stdout@).len() == 0,
        r.0 == 1 ==> (r.1 matches Some(l) && l@ == result_lines(stdout@)[0]),
{
    let lines = split_lines(&chars_of(stdout));
    let ghost ps = line_pieces(stdout@);
    let ghost keep = |l: Seq<char>| trim_spec(l).len() != 0;
    let mut count: usize = 0;
    let mut first: Option<Vec<char>> = None;
    let mut i: usize = 0;
    while i < lines.len()
        invariant
            i <= lines.len(),
            crate::manifest_text::views(lines@) == ps,
            ps == line_pieces(stdout@),
            keep == (|l: Seq<char>| trim_spec(l).len() != 0),
            count <= 2,
            count == ps.subrange(0, i as int).filter(keep).len() || (count == 2 && ps.subrange(0, i as int).filter(keep).len() >= 2),
            count >= 1 ==> (first matches Some(l) && l@ == ps.subrange(0, i as int).filter(keep)[0]),
        decreases lines.len() - i,
    {
        let t = trim(&lines[i]);
        proof {
            let a = ps.subrange(0, i as int);
            let b = ps.subrange(0, i + 1);
            assert(b.drop_last() =~= a);
            assert(b.last() == ps[i as int]);
            assert(lines@[i as int]@ == ps[i as int]);
            assert(keep(ps[i as int]) == (t@.len() != 0));
            let fa = a.filter(keep);
            reveal_with_fuel(Seq::<Seq<char>>::filter, 1);
            assert(b.filter(keep) == (if keep(ps[i as int]) { fa.push(ps[i as int]) } else { fa }));
        }
        if t.len() != 0 {
            if count == 0 {
                first = Some(lines[i].clone());
            }
            if count < 2 {
                count = count + 1;
            }
        }
        i = i + 1;
    }
    assert(ps.subrange(0, lines.len() as int) =~= ps);
    (count, first)
}

/// The line without a trailing `\r`.
fn strip_cr(l: &Vec<char>) -> (r: String)
    ensures
        r@ == without_cr(l@),
{
    if l.len() > 0 && l[l.len() - 1] == '\r' {
        let mut v = l.clone();
        v.pop();
        assert(v@ =~= l@.drop_last());
        string_of(&v)
    } else {
        string_of(l)
    }
}

/// What a component's result line means, before the exit code and route are
/// added: the verdict of `stdout_verdict` as a process outcome.
pub fn parse_component_process_result(
    stdout: &str,
    envelope: &KernelInvocationEnvelope,
    exit_code: Option<i32>,
) -> (r: Result<JsonValue, ComponentProcessFailure>)
    ensures
        match stdout_verdict(stdout@, envelope.invocation_id@) {
            ResultVerdict::Failure(stage, reason) => r matches Err(f) && is_spawned_failure(f, stage, sanitized(reason), exit_code),
            ResultVerdict::HandlerFailed(v) => r matches Err(f) && is_handler_failed(f, v, exit_code),
            ResultVerdict::Completed(v) => r == Ok::<JsonValue, ComponentProcessFailure>(v),
        },
{
    let (count, first) = find_result_line(stdout);
    if count == 0 {
        return Err(spawned_failure(
            "process_stdout_failed",
            sanitize_process_diagnostic("component process returned empty stdio_jsonl result"),
            exit_code,
        ));
    }
    if count != 1 {
        return Err(spawned_failure(
            "process_protocol_mismatch",
            sanitize_process_diagnostic("component process stdout must contain exactly one JSONL result line"),
            exit_code,
        ));
    }
    let line = match first {
        Some(l) => strip_cr(&l),
        None => String::new(),
    };
    let value = match parse_json(line.as_str()) {
        Ok(v) => v,
        Err(e) => {
            let mut reason = owned("component process returned invalid JSON result: ");
            append_str(&mut reason, e.as_str());
            return Err(spawned_failure("process_invalid_json", sanitize_process_diagnostic(reason.as_str()), exit_code));
        },
    };
    validate_component_process_result(&value, envelope, exit_code)?;
    Ok(value)
}

fn str_is(v: Option<&str>, expected: &str) -> (r: bool)
    ensures
        r == (match v {
            Some(s) => s@ == expected@,
            None => false,
        }),
{
    match v {
        Some(s) => crate::text::str_eq(s, expected),
        None => false,
    }
}

/// Checks a component's result value for the invocation of `envelope`.
pub fn validate_component_process_result(
    value: &JsonValue,
    envelope: &KernelInvocationEnvelope,
    exit_code: Option<i32>,
) -> (r: Result<(), ComponentProcessFailure>)
    ensures
        match value_verdict(*value, envelope.invocation_id@) {
            ResultVerdict::Failure(stage, reason) => r matches Err(f) && is_spawned_failure(f, stage, sanitized(reason), exit_code),
            ResultVerdict::HandlerFailed(v) => r matches Err(f) && is_handler_failed(f, v, exit_code),
            ResultVerdict::Completed(_) => r is Ok,
        },
{
    proof {
        reveal_strlit("aicore.local_ipc.result.v1");
        reveal_strlit("stdio_jsonl");
        reveal_strlit("aicore.local_ipc.stdio_jsonl.v1");
        reveal_strlit("failed");
        reveal_strlit("completed");
    }
    if !str_is(get_str(value, "schema_version"), LOCAL_IPC_RESULT_SCHEMA_VERSION) {
        return Err(spawned_failure(
            "process_result_schema_mismatch",
            sanitize_process_diagnostic("component process result schema mismatch"),
            exit_code,
        ));
    }
    if !str_is(get_str(value, "protocol"), LOCAL_IPC_PROTOCOL) || !str_is(get_str(value, "protocol_version"), LOCAL_IPC_PROTOCOL_VERSION) {
        return Err(spawned_failure(
            "process_protocol_mismatch",
            sanitize_process_diagnostic("component process result protocol mismatch"),
            exit_code,
        ));
    }
    if !str_is(get_str(value, "invocation_id"), envelope.invocation_id.as_str()) {
        return Err(spawned_failure(
            "process_result_mismatch",
            sanitize_process_diagnostic("component process result invocation_id mismatch"),
            exit_code,
        ));
    }
    let status = get_str(value, "status");
    if get_str(value, "result_kind").is_none() || get_str(value, "summary").is_none() {
        return Err(spawned_failure(
            "process_result_schema_mismatch",
            sanitize_process_diagnostic("component process result requires result_kind and summary"),
            exit_code,
        ));
    }
    if str_is(status, "failed") {
        let reason = match get_str(value, "summary") {
            Some(s) => s,
            None => "component handler failed",
        };
        return Err(component_handler_failure(value, reason, exit_code));
    }
    if !str_is(status, "completed") {
        return Err(spawned_failure(
            "process_result_schema_mismatch",
            sanitize_process_diagnostic("component process result status must be completed or failed"),
            exit_code,
        ));
    }
    Ok(())
}

/// The failure a component reports for its handler, with its result kind,
/// fields and `reason` as summary.
pub fn component_handler_failure(value: &JsonValue, reason: &str, exit_code: Option<i32>) -> (f: ComponentProcessFailure)
    ensures
        f.stage@ == "handler_failed"@,
        f.reason@ == sanitized(reason@),
        f.result matches Some(res) && res.summary@ == reason@
            && (res.result_kind matches Some(k) && k@ == reported_kind(*value))
            && res.public_fields@ == reported_fields(*value),
        f.spawned_process,
        f.exit_code == exit_code,
{
    let fields = fields_of(value);
    let kind = match get_str(value, "result_kind") {
        Some(k) => k,
        None => "component.process.result",
    };
    ComponentProcessFailure {
        stage: owned("handler_failed"),
        reason: sanitize_process_diagnostic(reason),
        result: Some(KernelHandlerResult::structured(kind, fields, reason)),
        spawned_process: true,
        exit_code,
    }
}

/// The success of a component that reported `value` over a route with `transport`.
pub fn process_success(value: &JsonValue, transport: &ComponentTransport, exit_code: Option<i32>) -> (s: ComponentProcessSuccess)
    ensures
        is_process_success(s, *value, *transport, exit_code),
{
    let kind = match get_str(value, "result_kind") {
        Some(k) => k,
        None => "component.process.result",
    };
    let summary = match get_str(value, "summary") {
        Some(k) => k,
        None => "component process completed",
    };
    let mut fields = fields_of(value);
    if fields.get("transport").is_none() {
        fields.insert(owned("transport"), owned(transport.as_str()));
    }
    ComponentProcessSuccess { result: KernelHandlerResult::structured(kind, fields, summary), exit_code }
}

/// The text `{:?}` gives for an optional exit code.
pub open spec fn exit_code_debug(code: Option<i32>) -> Seq<char> {
    match code {
        Some(c) => "Some("@ + crate::text::signed_decimal(c as int) + ")"@,
        None => "None"@,
    }
}

/// What the outcome of running a component process means.
pub open spec fn event_outcome_ok(
    event: ComponentProcessEvent,
    envelope: KernelInvocationEnvelope,
    route: KernelRouteRuntimeOutput,
    r: Result<ComponentProcessSuccess, ComponentProcessFailure>,
) -> bool {
    match event {
        ComponentProcessEvent::EntrypointMissing => r matches Err(f)
            && is_unspawned_failure(f, "missing_entrypoint"@, "component entrypoint is missing: "@ + route.entrypoint@),
        ComponentProcessEvent::EntrypointNotExecutable => r matches Err(f)
            && is_unspawned_failure(f, "entrypoint_not_executable"@, "component entrypoint is not executable: "@ + route.entrypoint@),
        ComponentProcessEvent::SpawnFailed(e) => r matches Err(f)
            && is_unspawned_failure(f, "process_spawn_failed"@, sanitized("component process spawn failed: "@ + e@)),
        ComponentProcessEvent::StdinFailed(e) => r matches Err(f)
            && is_spawned_failure(f, "process_stdin_failed"@, sanitized("component ipc write failed: "@ + e@), None),
        ComponentProcessEvent::TimedOut => r matches Err(f)
            && is_spawned_failure(f, "process_timeout"@, "component process timed out and was terminated"@, None),
        ComponentProcessEvent::StatusReadFailed(e) => r matches Err(f)
            && is_spawned_failure(f, "process_stdout_failed"@, sanitized("component process status read failed: "@ + e@), None),
        ComponentProcessEvent::PipeReadFailed { pipe, error } => r matches Err(f)
            && is_spawned_failure(f, "process_stdout_failed"@, sanitized("component process "@ + pipe@ + " read failed: "@ + error@), None),
        ComponentProcessEvent::Exited { exit_code, success, stdout, stderr } => if !success {
            r matches Err(f) && is_spawned_failure(
                f,
                "process_non_zero_exit"@,
                sanitized("component process exited with code "@ + exit_code_debug(exit_code) + ": "@ + trim_spec(stderr@)),
                exit_code,
            )
        } else {
            match stdout_verdict(stdout@, envelope.invocation_id@) {
                ResultVerdict::Failure(stage, reason) => r matches Err(f) && is_spawned_failure(f, stage, sanitized(reason), exit_code),
                ResultVerdict::HandlerFailed(v) => r matches Err(f) && is_handler_failed(f, v, exit_code),
                ResultVerdict::Completed(v) => r matches Ok(s) && is_process_success(s, v, route.transport, exit_code),
            }
        },
    }
}

/// What running the component process of `envelope` routed to `route` came to.
pub fn finish_component_process(
    envelope: &KernelInvocationEnvelope,
    route: &KernelRouteRuntimeOutput,
    event: ComponentProcessEvent,
) -> (r: Result<ComponentProcessSuccess, ComponentProcessFailure>)
    ensures
        event_outcome_ok(event, *envelope, *route, r),
{
    match event {
        ComponentProcessEvent::EntrypointMissing => {
            let mut reason = owned("component entrypoint is missing: ");
            append_str(&mut reason, route.entrypoint.as_str());
            Err(unspawned_failure("missing_entrypoint", reason))
        },
        ComponentProcessEvent::EntrypointNotExecutable => {
            let mut reason = owned("component entrypoint is not executable: ");
            append_str(&mut reason, route.entrypoint.as_str());
            Err(unspawned_failure("entrypoint_not_executable", reason))
        },
        ComponentProcessEvent::SpawnFailed(e) => {
            let mut reason = owned("component process spawn failed: ");
            append_str(&mut reason, e.as_str());
            Err(unspawned_failure("process_spawn_failed", sanitize_process_diagnostic(reason.as_str())))
        },
        ComponentProcessEvent::StdinFailed(e) => {
            let mut reason = owned("component ipc write failed: ");
            append_str(&mut reason, e.as_str());
            Err(spawned_failure("process_stdin_failed", sanitize_process_diagnostic(reason.as_str()), None))
        },
        ComponentProcessEvent::TimedOut => {
            Err(spawned_failure("process_timeout", owned("component process timed out and was terminated"), None))
        },
        ComponentProcessEvent::StatusReadFailed(e) => {
            let mut reason = owned("component process status read failed: ");
            append_str(&mut reason, e.as_str());
            Err(spawned_failure("process_stdout_failed", sanitize_process_diagnostic(reason.as_str()), None))
        },
        ComponentProcessEvent::PipeReadFailed { pipe, error } => {
            let mut reason = owned("component process ");
            append_str(&mut reason, pipe.as_str());
            append_str(&mut reason, " read failed: ");
            append_str(&mut reason, error.as_str());
            Err(spawned_failure("process_stdout_failed", sanitize_process_diagnostic(reason.as_str()), None))
        },
        ComponentProcessEvent::Exited { exit_code, success, stdout, stderr } => {
            if !success {
                let mut reason = owned("component process exited with code ");
                match exit_code {
                    Some(c) => {
                        append_str(&mut reason, "Some(");
                        crate::text::push_signed_decimal(&mut reason, c);
                        append_str(&mut reason, ")");
                    },
                    None => append_str(&mut reason, "None"),
                }
                append_str(&mut reason, ": ");
                let trimmed = string_of(&trim(&chars_of(stderr.as_str())));
                append_str(&mut reason, trimmed.as_str());
                assert(reason@ =~= "component process exited with code "@ + exit_code_debug(exit_code) + ": "@ + trim_spec(stderr@));
                return Err(spawned_failure("process_non_zero_exit", sanitize_process_diagnostic(reason.as_str()), exit_code));
            }
            let value = parse_component_process_result(stdout.as_str(), envelope, exit_code)?;
            Ok(process_success(&value, &route.transport, exit_code))
        },
    }
}

impl KernelInvocationRuntime {
    /// The result of a failed component process: the component's own result
    /// when it reported one, else a plain failure result.
    pub fn process_failure_result(
        envelope: &KernelInvocationEnvelope,
        route: &KernelRouteRuntimeOutput,
        error: &ComponentProcessFailure,
    ) -> (r: KernelInvocationResultEnvelope)
        ensures
            match error.result {
                Some(res) => names_invocation(r, *envelope)
                    && r.status == KernelInvocationStatus::Failed
                    && reports_route(r.route, Some(*route))
                    && opt_view(r.handler_kind) == Some("local_process"@)
                    && r.result_kind == res.result_kind
                    && r.summary == res.summary
                    && r.public_fields@ == res.public_fields@
                    && opt_view(r.failure_stage) == Some(error.stage@)
                    && opt_view(r.failure_reason) == Some(error.reason@)
                    && r.handler_executed == error.spawned_process
                    && !r.event_generated
                    && !r.ledger_appended,
                None => is_failure_result(r, *envelope, Some(*route), error.stage@, error.reason@, error.spawned_process, false, Some("local_process"@)),
            },
    {
        match &error.result {
            Some(res) => {
                let fields = res.public_fields.clone_fields();
                KernelInvocationResultEnvelope {
                    invocation_id: envelope.invocation_id.clone(),
                    trace_id: envelope.trace_context.trace_id.clone(),
                    operation: envelope.operation.clone(),
                    status: KernelInvocationStatus::Failed,
                    route: Some(Self::result_route(route)),
                    handler_kind: Some(owned("local_process")),
                    result_kind: crate::text::opt_clone(&res.result_kind),
                    summary: res.summary.clone(),
                    public_fields: fields,
                    failure_stage: Some(error.stage.clone()),
                    failure_reason: Some(error.reason.clone()),
                    handler_executed: error.spawned_process,
                    event_generated: false,
                    ledger_appended: false,
                }
            },
            None => Self::failure_result(
                envelope,
                Some(route),
                error.stage.as_str(),
                error.reason.as_str(),
                error.spawned_process,
                false,
                Some(owned("local_process")),
            ),
        }
    }

    /// The failure of an invocation whose component process failed with `error`.
    pub fn process_failure(
        envelope: &KernelInvocationEnvelope,
        route: KernelRouteRuntimeOutput,
        error: ComponentProcessFailure,
    ) -> (o: KernelInvocationRuntimeOutput)
        ensures
            is_process_failure(o, *envelope, route, error),
    {
        let result = Self::process_failure_result(envelope, &route, &error);
        let transport = owned(route.transport.as_str());
        KernelInvocationRuntimeOutput {
            status: KernelInvocationStatus::Failed,
            route: Some(route),
            event: None,
            result: Some(result),
            route_decision_made: true,
            handler_executed: error.spawned_process,
            event_generated: false,
            handler_kind: Some(owned("local_process")),
            failure_stage: Some(error.stage),
            failure_reason: Some(error.reason),
            spawned_process: error.spawned_process,
            called_real_component: false,
            transport: Some(transport),
            process_exit_code: error.exit_code,
            ledger_appended: false,
            ledger_path: None,
            ledger_record_count: 0,
        }
    }
}

/// Whether `o` reports that the component process of `env` failed with `error`.
pub open spec fn is_process_failure(
    o: KernelInvocationRuntimeOutput,
    env: KernelInvocationEnvelope,
    route: KernelRouteRuntimeOutput,
    error: ComponentProcessFailure,
) -> bool {
    &&& o.status == KernelInvocationStatus::Failed
    &&& o.route == Some(route)
    &&& o.event is None
    &&& o.result matches Some(r) && opt_view(r.failure_stage) == Some(error.stage@) && names_invocation(r, env)
        && r.status == KernelInvocationStatus::Failed
    &&& has_flags(o, true, error.spawned_process, false, Some("local_process"@), Some(error.stage@), Some(error.reason@),
        error.spawned_process, route_transport(route), error.exit_code)
    &&& without_ledger(o)
}

/// A result line is taken as a completion only when its `status` is exactly
/// `completed`, and as the component's own failure only when it is exactly
/// `failed`; a line that passes every other check but names any other status
/// (or none) is a schema mismatch.
pub proof fn lemma_result_status_decides(v: JsonValue, invocation_id: Seq<char>)
    ensures
        value_verdict(v, invocation_id) is Completed ==> member_str(v, "status"@) == Some("completed"@),
        value_verdict(v, invocation_id) is HandlerFailed ==> member_str(v, "status"@) == Some("failed"@),
        member_str(v, "status"@) != Some("completed"@) && member_str(v, "status"@) != Some("failed"@)
            ==> value_verdict(v, invocation_id) is Failure,
        member_str(v, "schema_version"@) == Some("aicore.local_ipc.result.v1"@)
            && member_str(v, "protocol"@) == Some("stdio_jsonl"@)
            && member_str(v, "protocol_version"@) == Some("aicore.local_ipc.stdio_jsonl.v1"@)
            && member_str(v, "invocation_id"@) == Some(invocation_id)
            && member_str(v, "result_kind"@) is Some && member_str(v, "summary"@) is Some
            && member_str(v, "status"@) != Some("completed"@) && member_str(v, "status"@) != Some("failed"@)
            ==> value_verdict(v, invocation_id) == ResultVerdict::Failure(
                "process_result_schema_mismatch"@,
                "component process result status must be completed or failed"@,
            ),
        member_str(v, "schema_version"@) == Some("aicore.local_ipc.result.v1"@)
            && member_str(v, "protocol"@) == Some("stdio_jsonl"@)
            && member_str(v, "protocol_version"@) == Some("aicore.local_ipc.stdio_jsonl.v1"@)
            && member_str(v, "invocation_id"@) == Some(invocation_id)
            && member_str(v, "result_kind"@) is Some && member_str(v, "summary"@) is Some
            && member_str(v, "status"@) == Some("completed"@)
            ==> value_verdict(v, invocation_id) == ResultVerdict::Completed(v),
        member_str(v, "schema_version"@) != Some("aicore.local_ipc.result.v1"@)
            ==> (value_verdict(v, invocation_id) matches ResultVerdict::Failure(stage, _) && stage == "process_result_schema_mismatch"@),
        member_str(v, "invocation_id"@) != Some(invocation_id) ==> value_verdict(v, invocation_id) is Failure,
{
    reveal_strlit("completed");
    reveal_strlit("failed");
    assert("completed"@.len() != "failed"@.len());
}

} // verus!
