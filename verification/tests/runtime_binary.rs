use aicore_kernel::fields::PublicFields;
use aicore_kernel::invocation::{KernelInvocationEnvelope, KernelPayload};
use aicore_kernel::invocation_runtime::handler::{KernelHandlerError, KernelHandlerRegistry, KernelHandlerResult};
use aicore_kernel::invocation_runtime::result::{KernelInvocationRuntimeOutput, KernelInvocationStatus};
use aicore_kernel::invocation_runtime::runtime::{KernelInvocationRuntime, KernelInvocationStep};
use aicore_kernel::json::{get_member, JsonValue};
use aicore_kernel::manifest_registry::InstalledManifestRegistry;
use aicore_kernel::route_runtime::KernelRouteRuntimeOutput;
use aicore_kernel::runtime_binary::client::{
    KernelRuntimeBinaryClient, KernelRuntimeBinaryInvocation, KernelRuntimeBinaryStep, RuntimeBinaryFacts,
    RuntimeBinaryProcessOutcome,
};
use aicore_kernel::runtime_binary::public_json::kernel_invocation_result_public_json;
use aicore_kernel::runtime_binary::response::{
    add_runtime_binary_contract_metadata, parse_kernel_invocation_result_response, KernelRuntimeBinaryErrorKind,
};
use aicore_kernel::runtime_binary::stdio::{
    read_stdio_request, result_line, stdio_envelope, stdio_exit_code, stdio_failure_payload, StdioRequestError,
};
use aicore_kernel::invocation_ledger::KernelInvocationLedger;
use aicore_kernel::invocation_runtime::session::KernelLedgerStep;
use aicore_kernel::runtime_binary::KernelRuntimeBinaryRequest;

const SUCCESS_LINE: &str = r#"{"event":"kernel.invocation.result","schema_version":"aicore.kernel.runtime_binary.response.v1","protocol":"stdio_jsonl","protocol_version":"aicore.kernel.runtime_binary.stdio_jsonl.v1","contract_version":"kernel.runtime.v1","payload":{"invocation_id":"invoke.fixture","trace_id":"trace.default","operation":"runtime.status","status":"completed","route":{"component_id":"aicore","app_id":"aicore","capability_id":"runtime.status","contract_version":"kernel.app.v1"},"handler":{"kind":"kernel_runtime_binary","invocation_mode":"local_process","transport":"stdio_jsonl","process_exit_code":0,"executed":true,"event_generated":true,"spawned_process":true,"called_real_component":false,"first_party_in_process_adapter":false},"ledger":{"appended":true,"path":"fixture-ledger","records":5},"result":{"kind":"runtime.status","summary":"ok","fields":{"kernel_invocation_path":"binary","foundation_runtime_binary":"installed","kernel_runtime_binary":"installed","protocol":"stdio_jsonl","protocol_version":"aicore.kernel.runtime_binary.stdio_jsonl.v1","contract_version":"kernel.runtime.v1","binary_health":"ok"}},"failure":{"stage":null,"reason":null}}}"#;

fn get<'a>(value: &'a JsonValue, path: &[&str]) -> &'a JsonValue {
    let mut current = value;
    for key in path {
        current = get_member(current, key).unwrap_or_else(|| panic!("member {key} should exist"));
    }
    current
}

fn mentions(value: &JsonValue, needle: &str) -> bool {
    match value {
        JsonValue::Null | JsonValue::Bool(_) => false,
        JsonValue::Number(t) | JsonValue::Str(t) => t.contains(needle),
        JsonValue::Array(items) => items.iter().any(|item| mentions(item, needle)),
        JsonValue::Object(members) => members.iter().any(|(k, v)| k.contains(needle) || mentions(v, needle)),
    }
}

fn object(members: Vec<(&str, JsonValue)>) -> JsonValue {
    JsonValue::Object(members.into_iter().map(|(k, v)| (k.to_string(), v)).collect())
}

fn text(value: &str) -> JsonValue {
    JsonValue::Str(value.to_string())
}

fn text_of(value: &JsonValue) -> &str {
    match value {
        JsonValue::Str(s) => s.as_str(),
        other => panic!("expected a string, got {other:?}"),
    }
}

fn facts(foundation: (bool, bool), kernel: (bool, bool)) -> RuntimeBinaryFacts {
    RuntimeBinaryFacts {
        foundation_exists: foundation.0,
        foundation_executable: foundation.1,
        kernel_exists: kernel.0,
        kernel_executable: kernel.1,
    }
}

fn client() -> KernelRuntimeBinaryClient {
    KernelRuntimeBinaryClient::new("/home/demo/.aicore/bin", "/home/demo/.aicore/state/kernel")
}

fn finished(step: KernelRuntimeBinaryStep) -> KernelRuntimeBinaryInvocation {
    match step {
        KernelRuntimeBinaryStep::Finished(invocation) => invocation,
        KernelRuntimeBinaryStep::RunBinary(_) => panic!("the binary should not be run"),
    }
}

fn run(client: &KernelRuntimeBinaryClient, envelope: KernelInvocationEnvelope, outcome: RuntimeBinaryProcessOutcome) -> KernelRuntimeBinaryInvocation {
    match client.invoke_envelope(envelope, facts((true, true), (true, true))) {
        KernelRuntimeBinaryStep::Finished(_) => panic!("the binary should be run"),
        KernelRuntimeBinaryStep::RunBinary(pending) => client.finish(pending, outcome),
    }
}

fn readonly(operation: &str) -> KernelInvocationEnvelope {
    KernelInvocationEnvelope::new("global-main", operation, operation, KernelPayload::Empty)
}

fn exited(stdout: &str, stderr: &str, exit_code: Option<i32>, success: bool) -> RuntimeBinaryProcessOutcome {
    RuntimeBinaryProcessOutcome::Exited {
        stdout: stdout.to_string(),
        stderr: stderr.to_string(),
        exit_code,
        success,
    }
}

fn check_kernel_runtime_binary_client_reports_missing_binary() {
    let invocation = finished(client().invoke_readonly("runtime.status", facts((true, true), (false, false))));

    assert!(!invocation.exit_success);
    assert_eq!(
        invocation.error.as_ref().map(|error| &error.kind),
        Some(&KernelRuntimeBinaryErrorKind::KernelBinaryMissing)
    );
    assert_eq!(text_of(get(&invocation.payload, &["failure", "stage"])), "kernel_runtime_binary_missing");
    assert_eq!(get(&invocation.payload, &["runtime_binary", "in_process_fallback"]), &JsonValue::Bool(false));
}

fn check_kernel_runtime_binary_client_reports_non_executable_binary() {
    let invocation = finished(client().invoke_readonly("runtime.status", facts((true, true), (true, false))));

    assert!(!invocation.exit_success);
    assert_eq!(
        invocation.error.as_ref().map(|error| &error.kind),
        Some(&KernelRuntimeBinaryErrorKind::KernelBinaryNotExecutable)
    );
    assert_eq!(
        text_of(get(&invocation.payload, &["failure", "stage"])),
        "kernel_runtime_binary_not_executable"
    );
}

fn check_kernel_runtime_binary_client_reports_spawn_failure() {
    let invocation = run(
        &client(),
        readonly("runtime.status"),
        RuntimeBinaryProcessOutcome::SpawnFailed("No such file or directory (os error 2)".to_string()),
    );

    assert!(!invocation.exit_success);
    assert_eq!(
        invocation.error.as_ref().map(|error| &error.kind),
        Some(&KernelRuntimeBinaryErrorKind::ProcessSpawnFailed)
    );
    assert_eq!(text_of(get(&invocation.payload, &["failure", "stage"])), "kernel_runtime_process_spawn");
}

fn check_kernel_runtime_binary_client_reports_non_zero_exit() {
    let invocation = run(&client(), readonly("runtime.status"), exited("", "broken\n", Some(7), false));

    assert!(!invocation.exit_success);
    assert_eq!(
        invocation.error.as_ref().map(|error| &error.kind),
        Some(&KernelRuntimeBinaryErrorKind::NonZeroExit)
    );
    assert_eq!(text_of(get(&invocation.payload, &["failure", "stage"])), "kernel_runtime_non_zero_exit");
    assert_eq!(
        get(&invocation.payload, &["handler", "process_exit_code"]),
        &JsonValue::Number("7".to_string())
    );
}

fn check_kernel_runtime_binary_client_reports_invalid_jsonl_output() {
    let invocation = run(&client(), readonly("runtime.status"), exited("not json\n", "", Some(0), true));

    assert!(!invocation.exit_success);
    assert_eq!(
        invocation.error.as_ref().map(|error| &error.kind),
        Some(&KernelRuntimeBinaryErrorKind::InvalidJsonlOutput)
    );
    assert_eq!(
        text_of(get(&invocation.payload, &["failure", "stage"])),
        "kernel_runtime_invalid_jsonl_output"
    );
}

fn check_kernel_runtime_binary_client_reports_protocol_version_mismatch() {
    let stdout = "{\"event\":\"kernel.invocation.result\",\"schema_version\":\"aicore.kernel.runtime_binary.response.v1\",\"protocol\":\"stdio_jsonl\",\"protocol_version\":\"wrong.version\",\"contract_version\":\"kernel.runtime.v1\",\"payload\":{\"status\":\"completed\"}}\n";
    let invocation = run(&client(), readonly("runtime.status"), exited(stdout, "", Some(0), true));

    assert!(!invocation.exit_success);
    assert_eq!(
        invocation.error.as_ref().map(|error| &error.kind),
        Some(&KernelRuntimeBinaryErrorKind::ProtocolVersionMismatch)
    );
    assert_eq!(
        text_of(get(&invocation.payload, &["failure", "stage"])),
        "kernel_runtime_protocol_version_mismatch"
    );
}

fn check_kernel_runtime_binary_client_does_not_fallback_to_in_process() {
    let invocation = finished(client().invoke_readonly("runtime.status", facts((true, true), (false, false))));

    assert!(!invocation.exit_success);
    assert_eq!(get(&invocation.payload, &["runtime_binary", "in_process_fallback"]), &JsonValue::Bool(false));
    assert_ne!(text_of(get(&invocation.payload, &["status"])), "completed");
}

fn check_invocation_ledger_does_not_record_raw_runtime_protocol_payload() {
    let client = client();
    let envelope = KernelInvocationEnvelope::new(
        "global-main",
        "runtime.status",
        "runtime.status",
        KernelPayload::Text("super-secret-token".to_string()),
    );
    let pending = match client.invoke_envelope(envelope, facts((true, true), (true, true))) {
        KernelRuntimeBinaryStep::RunBinary(pending) => pending,
        KernelRuntimeBinaryStep::Finished(_) => panic!("the binary should be run"),
    };
    assert!(!pending.request_line().contains("super-secret-token"));
    assert_eq!(pending.request().payload_summary, "text:18 bytes");
    assert_eq!(pending.request().ledger_path, "/home/demo/.aicore/state/kernel/invocation-ledger.jsonl");

    let stdout = format!("{SUCCESS_LINE}\n");
    let invocation = client.finish(pending, exited(&stdout, "", Some(0), true));

    assert!(invocation.exit_success);
    assert!(invocation.error.is_none());
    assert!(!mentions(&invocation.payload, "super-secret-token"));
}

fn check_runtime_binary_failure_does_not_expose_secret_like_output() {
    let invocation = run(
        &client(),
        readonly("runtime.status"),
        exited("", "token=super-secret-token api_key=abc123\n", Some(7), false),
    );
    let failure = text_of(get(&invocation.payload, &["failure", "reason"]));

    assert!(!failure.contains("super-secret-token"));
    assert!(!failure.contains("abc123"));
    assert!(failure.contains("[redacted:failure_reason]"));
}

#[test]
fn foundation_checks_come_before_kernel_checks() {
    let missing = finished(client().invoke_readonly("runtime.status", facts((false, false), (false, false))));
    assert_eq!(
        missing.error.as_ref().map(|error| &error.kind),
        Some(&KernelRuntimeBinaryErrorKind::FoundationBinaryMissing)
    );
    assert_eq!(
        missing.error.as_ref().map(|error| error.message.as_str()),
        Some("Foundation runtime binary missing: /home/demo/.aicore/bin/aicore-foundation")
    );
    assert_eq!(text_of(get(&missing.payload, &["runtime_binary", "foundation_health"])), "missing");
    assert_eq!(text_of(get(&missing.payload, &["runtime_binary", "kernel_health"])), "missing");

    let not_executable = finished(client().invoke_readonly("runtime.status", facts((true, false), (true, true))));
    assert_eq!(
        not_executable.error.as_ref().map(|error| &error.kind),
        Some(&KernelRuntimeBinaryErrorKind::FoundationBinaryNotExecutable)
    );
    assert_eq!(
        text_of(get(&not_executable.payload, &["runtime_binary", "foundation_health"])),
        "not_executable"
    );
    assert_eq!(text_of(get(&not_executable.payload, &["runtime_binary", "kernel_health"])), "ok");
    assert_eq!(
        text_of(get(&not_executable.payload, &["ledger", "path"])),
        "/home/demo/.aicore/state/kernel/invocation-ledger.jsonl"
    );
}

#[test]
fn successful_run_marks_the_process_and_contract_metadata() {
    let stdout = format!("noise before\r\n{SUCCESS_LINE}\r\n");
    let invocation = run(&client(), readonly("runtime.status"), exited(&stdout, "", Some(0), true));

    assert!(invocation.exit_success);
    assert!(invocation.error.is_none());
    let response = invocation.response.as_ref().expect("response");
    assert_eq!(response.protocol, "stdio_jsonl");
    assert_eq!(response.exit_code, Some(0));
    assert_eq!(response.payload, invocation.payload);
    assert_eq!(get(&invocation.payload, &["handler", "spawned_process"]), &JsonValue::Bool(true));
    assert_eq!(
        get(&invocation.payload, &["handler", "first_party_in_process_adapter"]),
        &JsonValue::Bool(false)
    );
    assert_eq!(
        get(&invocation.payload, &["handler", "process_exit_code"]),
        &JsonValue::Number("0".to_string())
    );
    assert_eq!(text_of(get(&invocation.payload, &["result", "fields", "binary_health"])), "ok");
    assert_eq!(
        text_of(get(&invocation.payload, &["result", "fields", "runtime_binary_contract_version"])),
        "kernel.runtime.v1"
    );
    assert_eq!(
        text_of(get(&invocation.payload, &["result", "fields", "foundation_runtime_binary"])),
        "installed"
    );
}

#[test]
fn failed_status_in_answer_is_a_kernel_invocation_failure() {
    let stdout = "{\"event\":\"kernel.invocation.result\",\"protocol\":\"stdio_jsonl\",\"protocol_version\":\"aicore.kernel.runtime_binary.stdio_jsonl.v1\",\"contract_version\":\"kernel.runtime.v1\",\"payload\":{\"status\":\"failed\",\"handler\":{}}}";
    let invocation = run(&client(), readonly("runtime.status"), exited(stdout, "", Some(1), false));

    assert!(!invocation.exit_success);
    let error = invocation.error.as_ref().expect("error");
    assert_eq!(error.kind, KernelRuntimeBinaryErrorKind::KernelInvocationFailed);
    assert_eq!(error.stage, "kernel_invocation_failed");
    assert_eq!(error.message, "Kernel runtime returned invocation failure");
    assert_eq!(error.exit_code, Some(1));
}

#[test]
fn contract_version_mismatch_and_stdin_failures_are_reported() {
    let stdout = "{\"event\":\"kernel.invocation.result\",\"protocol\":\"stdio_jsonl\",\"protocol_version\":\"aicore.kernel.runtime_binary.stdio_jsonl.v1\",\"contract_version\":\"kernel.runtime.v0\"}\n";
    assert_eq!(
        parse_kernel_invocation_result_response(stdout, Some(0)).err(),
        Some(KernelRuntimeBinaryErrorKind::ContractVersionMismatch)
    );
    assert_eq!(
        parse_kernel_invocation_result_response("{\"event\":\"other\"}\n", Some(0)).err(),
        Some(KernelRuntimeBinaryErrorKind::InvalidJsonlOutput)
    );

    let invocation = run(
        &client(),
        readonly("runtime.status"),
        RuntimeBinaryProcessOutcome::StdinWriteFailed("Broken pipe (os error 32)".to_string()),
    );
    assert_eq!(
        invocation.error.as_ref().map(|error| &error.kind),
        Some(&KernelRuntimeBinaryErrorKind::StdinWriteFailed)
    );
    assert_eq!(get(&invocation.payload, &["handler", "spawned_process"]), &JsonValue::Bool(true));
    assert_eq!(
        invocation.error.as_ref().map(|error| error.message.as_str()),
        Some("Kernel runtime binary stdin write failed: Broken pipe (os error 32)")
    );

    let read = run(
        &client(),
        readonly("runtime.status"),
        RuntimeBinaryProcessOutcome::OutputReadFailed("interrupted".to_string()),
    );
    assert_eq!(read.error.as_ref().map(|error| &error.kind), Some(&KernelRuntimeBinaryErrorKind::StdoutReadFailed));
    assert_eq!(text_of(get(&read.payload, &["failure", "stage"])), "kernel_runtime_ipc_read");
}

#[test]
fn non_zero_exit_message_names_the_exit_code() {
    let invocation = run(&client(), readonly("runtime.status"), exited("", "broken", Some(-2), false));
    assert_eq!(
        invocation.error.as_ref().map(|error| error.message.as_str()),
        Some("Kernel runtime binary exited with Some(-2); stderr=broken")
    );
    let killed = run(&client(), readonly("runtime.status"), exited("", "", None, false));
    assert_eq!(
        killed.error.as_ref().map(|error| error.message.as_str()),
        Some("Kernel runtime binary exited with None; stderr=")
    );
    assert_eq!(get(&killed.payload, &["handler", "process_exit_code"]), &JsonValue::Null);
}

#[test]
fn runtime_binary_request_carries_envelope_and_summary_only() {
    let envelope = KernelInvocationEnvelope::new(
        "global-main",
        "runtime.status",
        "runtime.status",
        KernelPayload::JsonSummary("{keys:1}".to_string()),
    )
    .with_invocation_id("invoke.fixed");
    let request = KernelRuntimeBinaryRequest::from_envelope(&envelope, "/state");
    assert_eq!(request.request_id, "request.invoke.fixed");
    assert_eq!(request.payload_summary, "json:{keys:1}");
    assert_eq!(request.ledger_path, "/state/invocation-ledger.jsonl");
    let json = request.to_json();
    assert_eq!(text_of(get(&json, &["payload"])), "json:{keys:1}");
    assert_eq!(text_of(get(&json, &["schema_version"])), "aicore.kernel.runtime_binary.request.v1");

    let client = client();
    let pending = match client.invoke_envelope(envelope, facts((true, true), (true, true))) {
        KernelRuntimeBinaryStep::RunBinary(pending) => pending,
        KernelRuntimeBinaryStep::Finished(_) => panic!("the binary should be run"),
    };
    let line: serde_json::Value = serde_json::from_str(pending.request_line()).expect("request line should be JSON");
    assert_eq!(line["invocation_id"], "invoke.fixed");
    assert_eq!(line["request_id"], "request.invoke.fixed");
    assert_eq!(line["ledger_path"], "/home/demo/.aicore/state/kernel/invocation-ledger.jsonl");
}

#[test]
fn contract_metadata_needs_result_fields_object() {
    let without = object(vec![("status", text("completed"))]);
    let unchanged = add_runtime_binary_contract_metadata(object(vec![("status", text("completed"))]));
    assert_eq!(unchanged, without);

    let with = add_runtime_binary_contract_metadata(object(vec![(
        "result",
        object(vec![("fields", object(vec![("protocol", text("old")), ("x", text("1"))]))]),
    )]));
    assert_eq!(text_of(get(&with, &["result", "fields", "protocol"])), "stdio_jsonl");
    assert_eq!(text_of(get(&with, &["result", "fields", "x"])), "1");
    assert_eq!(text_of(get(&with, &["result", "fields", "binary_health"])), "ok");
}

fn status_handler(
    _envelope: &KernelInvocationEnvelope,
    _route: &KernelRouteRuntimeOutput,
) -> Result<KernelHandlerResult, KernelHandlerError> {
    let mut fields = PublicFields::new();
    fields.insert("kernel_invocation_path".to_string(), "binary".to_string());
    fields.insert("foundation_installed".to_string(), "yes".to_string());
    Ok(KernelHandlerResult::structured("runtime.status", fields, "ok"))
}

fn status_output() -> KernelInvocationRuntimeOutput {
    let manifest = "component_id = \"aicore\"\napp_id = \"aicore\"\nkind = \"app\"\nentrypoint = \"builtin://aicore\"\ncontract_version = \"kernel.app.v1\"\n\n[[capabilities]]\nid = \"runtime.status\"\noperation = \"runtime.status\"\nvisibility = \"user\"\n".to_string();
    let runtime = KernelInvocationRuntime::new(
        InstalledManifestRegistry::from_manifest_texts(&vec![manifest]).expect("registry"),
        KernelHandlerRegistry::new().with_handler("runtime.status", Box::new(status_handler)),
    );
    match runtime.invoke(readonly("runtime.status").with_invocation_id("invoke.status")) {
        KernelInvocationStep::Finished(output) => output,
        KernelInvocationStep::RunComponentProcess(_) => panic!("an in-process invocation runs no process"),
    }
}

#[test]
fn public_json_shows_binary_invocations_as_local_process() {
    let output = status_output();
    assert_eq!(output.status, KernelInvocationStatus::Completed);
    let json = kernel_invocation_result_public_json(&output);

    assert_eq!(text_of(get(&json, &["invocation_id"])), "invoke.status");
    assert_eq!(text_of(get(&json, &["status"])), "completed");
    assert_eq!(text_of(get(&json, &["route", "contract_version"])), "kernel.app.v1");
    assert_eq!(text_of(get(&json, &["handler", "kind"])), "kernel_runtime_binary");
    assert_eq!(text_of(get(&json, &["handler", "invocation_mode"])), "local_process");
    assert_eq!(text_of(get(&json, &["handler", "transport"])), "stdio_jsonl");
    assert_eq!(get(&json, &["handler", "spawned_process"]), &JsonValue::Bool(true));
    assert_eq!(get(&json, &["handler", "first_party_in_process_adapter"]), &JsonValue::Bool(false));
    assert_eq!(get(&json, &["ledger", "records"]), &JsonValue::Number("0".to_string()));
    assert_eq!(text_of(get(&json, &["result", "fields", "foundation_installed"])), "yes");
    assert_eq!(text_of(get(&json, &["result", "fields", "protocol_version"])), "aicore.kernel.runtime_binary.stdio_jsonl.v1");
    assert_eq!(get(&json, &["failure", "stage"]), &JsonValue::Null);
}

#[test]
fn stdio_request_defaults_and_reads_first_filled_line() {
    let empty = read_stdio_request("").expect("empty input asks for runtime.status");
    assert_eq!(empty.operation, "runtime.status");
    assert_eq!(empty.instance_id, "global-main");
    assert_eq!(empty.capability, "runtime.status");
    assert_eq!(empty.invocation_id, None);

    let request = read_stdio_request("  \n{\"operation\":\"memory.search\",\"invocation_id\":\"invoke.7\"}\n{\"operation\":\"ignored\"}\n")
        .expect("a JSON request line");
    assert_eq!(request.operation, "memory.search");
    assert_eq!(request.capability, "memory.search");
    assert_eq!(request.instance_id, "global-main");
    assert_eq!(request.invocation_id, Some("invoke.7".to_string()));

    let malformed = read_stdio_request("not json\n{\"operation\":\"memory.search\"}\n");
    assert_eq!(malformed, Err(StdioRequestError::Malformed));

    let matching = read_stdio_request("{\"protocol_version\":\"aicore.kernel.runtime_binary.stdio_jsonl.v1\"}\n")
        .expect("this binary's protocol version is accepted");
    assert_eq!(matching.operation, "runtime.status");
}

fn valid_request_for(operation: &str) -> String {
    format!(
        "{{\"schema_version\":\"aicore.kernel.runtime_binary.request.v1\",\"request_id\":\"request.test\",\"protocol\":\"stdio_jsonl\",\"protocol_version\":\"aicore.kernel.runtime_binary.stdio_jsonl.v1\",\"contract_version\":\"kernel.runtime.v1\",\"invocation_id\":\"invoke.test\",\"trace_id\":\"trace.test\",\"instance_id\":\"global-main\",\"capability\":\"{operation}\",\"operation\":\"{operation}\",\"payload\":\"empty\",\"ledger_path\":\"unused\"}}\n"
    )
}

/// Answers stdin as the kernel binary does where its refusal is concerned:
/// the result line of the failure payload.
fn refusal_line(stdin: &str) -> serde_json::Value {
    let error = read_stdio_request(stdin).expect_err("the request should be refused");
    let payload = stdio_failure_payload("/state", &error.envelope(), error.stage(), error.reason());
    serde_json::from_str(&result_line(payload)).expect("result line should be JSON")
}

#[test]
fn kernel_runtime_binary_invoke_rejects_malformed_jsonl() {
    let event = refusal_line("{not json}\n");
    assert_eq!(event["event"], "kernel.invocation.result");
    assert_eq!(event["payload"]["failure"]["stage"], "kernel_runtime_malformed_jsonl");
    assert_eq!(event["payload"]["ledger"]["appended"], false);
    assert_eq!(event["payload"]["status"], "failed");
}

#[test]
fn kernel_runtime_binary_invoke_rejects_protocol_version_mismatch() {
    let request = valid_request_for("runtime.status").replace("aicore.kernel.runtime_binary.stdio_jsonl.v1", "wrong.version");
    let event = refusal_line(&request);
    assert_eq!(event["payload"]["failure"]["stage"], "kernel_runtime_protocol_version_mismatch");
    assert_eq!(event["payload"]["ledger"]["appended"], false);
    assert_eq!(event["payload"]["invocation_id"], "invoke.test");
}

fn status_like_handler(
    _envelope: &KernelInvocationEnvelope,
    _route: &KernelRouteRuntimeOutput,
) -> Result<KernelHandlerResult, KernelHandlerError> {
    Ok(KernelHandlerResult::summary("runtime status"))
}

#[test]
fn kernel_runtime_binary_invoke_accepts_valid_jsonl_request() {
    let request = read_stdio_request(&valid_request_for("runtime.status")).expect("valid request");
    let text = "component_id = \"aicore\"\napp_id = \"aicore\"\nkind = \"app\"\nentrypoint = \"/home/demo/.aicore/bin/aicore\"\ncontract_version = \"kernel.app.v1\"\n\n[[capabilities]]\nid = \"runtime.status\"\noperation = \"runtime.status\"\nvisibility = \"user\"\n".to_string();
    let runtime = KernelInvocationRuntime::new(
        InstalledManifestRegistry::from_manifest_texts(&vec![text]).expect("registry"),
        KernelHandlerRegistry::new().with_handler("runtime.status", Box::new(status_like_handler)),
    );
    let ledger = KernelInvocationLedger::new("/state/invocation-ledger.jsonl");
    let mut session = runtime.invoke_with_ledger(stdio_envelope(&request), &ledger);
    let output = loop {
        match session.next_step(&runtime) {
            KernelLedgerStep::Finished(output) => break output,
            KernelLedgerStep::AppendLine(append) => session = append.done(Ok(())),
            KernelLedgerStep::RunComponentProcess(_) => panic!("runtime.status runs in process"),
        }
    };
    assert_eq!(stdio_exit_code(output.status), 0);
    let payload = add_runtime_binary_contract_metadata(kernel_invocation_result_public_json(&output));
    let event: serde_json::Value = serde_json::from_str(&result_line(payload)).expect("result line should be JSON");
    assert_eq!(event["event"], "kernel.invocation.result");
    assert_eq!(event["protocol"], "stdio_jsonl");
    assert_eq!(event["protocol_version"], "aicore.kernel.runtime_binary.stdio_jsonl.v1");
    assert_eq!(event["contract_version"], "kernel.runtime.v1");
    assert_eq!(event["payload"]["status"], "completed");
    assert_eq!(event["payload"]["result"]["fields"]["protocol_version"], "aicore.kernel.runtime_binary.stdio_jsonl.v1");
}

#[test]
fn stdio_result_line_and_failure_payload() {
    let envelope = readonly("runtime.status").with_invocation_id("invoke.x");
    let payload = stdio_failure_payload("/state", &envelope, "foundation_runtime_binary_missing", "Foundation runtime binary missing");
    assert_eq!(text_of(get(&payload, &["handler", "kind"])), "aicore-kernel");
    assert_eq!(get(&payload, &["handler", "spawned_process"]), &JsonValue::Bool(true));
    assert_eq!(text_of(get(&payload, &["failure", "reason"])), "Foundation runtime binary missing");

    let line = result_line(payload);
    let event: serde_json::Value = serde_json::from_str(&line).expect("result line should be JSON");
    assert_eq!(event["event"], "kernel.invocation.result");
    assert_eq!(event["payload"]["status"], "failed");
    assert_eq!(event["payload"]["ledger"]["path"], "/state/invocation-ledger.jsonl");
    assert_eq!(event["payload"]["ledger"]["records"], 0);
    assert_eq!(stdio_exit_code(KernelInvocationStatus::Completed), 0);
    assert_eq!(stdio_exit_code(KernelInvocationStatus::Failed), 1);
}

#[test]
fn runtime_binary_kernel_runtime_binary_client_reports_missing_binary() {
    check_kernel_runtime_binary_client_reports_missing_binary();
}

#[test]
fn tests_kernel_runtime_binary_client_reports_missing_binary() {
    check_kernel_runtime_binary_client_reports_missing_binary();
}

#[test]
fn runtime_binary_kernel_runtime_binary_client_reports_non_executable_binary() {
    check_kernel_runtime_binary_client_reports_non_executable_binary();
}

#[test]
fn tests_kernel_runtime_binary_client_reports_non_executable_binary() {
    check_kernel_runtime_binary_client_reports_non_executable_binary();
}

#[test]
fn runtime_binary_kernel_runtime_binary_client_reports_spawn_failure() {
    check_kernel_runtime_binary_client_reports_spawn_failure();
}

#[test]
fn tests_kernel_runtime_binary_client_reports_spawn_failure() {
    check_kernel_runtime_binary_client_reports_spawn_failure();
}

#[test]
fn runtime_binary_kernel_runtime_binary_client_reports_non_zero_exit() {
    check_kernel_runtime_binary_client_reports_non_zero_exit();
}

#[test]
fn tests_kernel_runtime_binary_client_reports_non_zero_exit() {
    check_kernel_runtime_binary_client_reports_non_zero_exit();
}

#[test]
fn runtime_binary_kernel_runtime_binary_client_reports_invalid_jsonl_output() {
    check_kernel_runtime_binary_client_reports_invalid_jsonl_output();
}

#[test]
fn tests_kernel_runtime_binary_client_reports_invalid_jsonl_output() {
    check_kernel_runtime_binary_client_reports_invalid_jsonl_output();
}

#[test]
fn runtime_binary_kernel_runtime_binary_client_reports_protocol_version_mismatch() {
    check_kernel_runtime_binary_client_reports_protocol_version_mismatch();
}

#[test]
fn tests_kernel_runtime_binary_client_reports_protocol_version_mismatch() {
    check_kernel_runtime_binary_client_reports_protocol_version_mismatch();
}

#[test]
fn runtime_binary_kernel_runtime_binary_client_does_not_fallback_to_in_process() {
    check_kernel_runtime_binary_client_does_not_fallback_to_in_process();
}

#[test]
fn tests_kernel_runtime_binary_client_does_not_fallback_to_in_process() {
    check_kernel_runtime_binary_client_does_not_fallback_to_in_process();
}

#[test]
fn runtime_binary_invocation_ledger_does_not_record_raw_runtime_protocol_payload() {
    check_invocation_ledger_does_not_record_raw_runtime_protocol_payload();
}

#[test]
fn tests_invocation_ledger_does_not_record_raw_runtime_protocol_payload() {
    check_invocation_ledger_does_not_record_raw_runtime_protocol_payload();
}

#[test]
fn runtime_binary_runtime_binary_failure_does_not_expose_secret_like_output() {
    check_runtime_binary_failure_does_not_expose_secret_like_output();
}

#[test]
fn tests_runtime_binary_failure_does_not_expose_secret_like_output() {
    check_runtime_binary_failure_does_not_expose_secret_like_output();
}
