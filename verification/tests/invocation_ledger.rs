use aicore_kernel::invocation::{KernelInvocationEnvelope, KernelPayload};
use aicore_kernel::invocation_ledger::{redact_failure_reason, KernelInvocationLedger, KernelInvocationLedgerRecord};
use aicore_kernel::invocation_runtime::handler::{KernelHandlerError, KernelHandlerRegistry, KernelHandlerResult};
use aicore_kernel::invocation_runtime::result::{KernelInvocationRuntimeOutput, KernelInvocationStatus};
use aicore_kernel::invocation_runtime::runtime::KernelInvocationRuntime;
use aicore_kernel::invocation_runtime::session::KernelLedgerStep;
use aicore_kernel::manifest_registry::InstalledManifestRegistry;
use aicore_kernel::route_runtime::KernelRouteRuntimeOutput;

fn smoke_handler(
    envelope: &KernelInvocationEnvelope,
    _route: &KernelRouteRuntimeOutput,
) -> Result<KernelHandlerResult, KernelHandlerError> {
    Ok(KernelHandlerResult::summary(&format!("smoke handled {}", envelope.operation)))
}

fn secret_failing_handler(
    _envelope: &KernelInvocationEnvelope,
    _route: &KernelRouteRuntimeOutput,
) -> Result<KernelHandlerResult, KernelHandlerError> {
    Err(KernelHandlerError::new("failed with sk-live-secret-value secret://auth.openai.main token=abc123"))
}

fn envelope(operation: &str) -> KernelInvocationEnvelope {
    KernelInvocationEnvelope::new("global-main", operation, operation, KernelPayload::Empty)
}

fn runtime_with_handler(handlers: KernelHandlerRegistry) -> KernelInvocationRuntime {
    let text = "component_id = \"aicore-cli\"\napp_id = \"aicore-cli\"\nkind = \"app\"\nentrypoint = \"/home/demo/.aicore/bin/aicore-cli\"\ncontract_version = \"kernel.app.v1\"\n\n[[capabilities]]\nid = \"memory.search\"\noperation = \"memory.search\"\nvisibility = \"user\"\n".to_string();
    KernelInvocationRuntime::new(InstalledManifestRegistry::from_manifest_texts(&vec![text]).expect("registry"), handlers)
}

/// Runs a ledgered invocation, keeping the appended lines in memory.
fn invoke_with_ledger(
    runtime: &KernelInvocationRuntime,
    envelope: KernelInvocationEnvelope,
    ledger: &KernelInvocationLedger,
) -> (KernelInvocationRuntimeOutput, Vec<String>) {
    let mut lines = Vec::new();
    let mut session = runtime.invoke_with_ledger(envelope, ledger);
    loop {
        match session.next_step(runtime) {
            KernelLedgerStep::Finished(output) => return (output, lines),
            KernelLedgerStep::AppendLine(append) => {
                assert_eq!(append.path(), ledger.path());
                lines.push(append.line().to_string());
                session = append.done(Ok(()));
            }
            KernelLedgerStep::RunComponentProcess(_) => panic!("no component process here"),
        }
    }
}

fn stages(lines: &[String]) -> Vec<String> {
    lines
        .iter()
        .map(|line| {
            let marker = "\"stage\":\"";
            let start = line.find(marker).expect("stage") + marker.len();
            let tail = &line[start..];
            tail[..tail.find('"').expect("end")].to_string()
        })
        .collect()
}

#[test]
fn invocation_ledger_append_failure_before_route_does_not_route_or_execute_handler() {
    let ledger = KernelInvocationLedger::failing_for_test("/tmp/ledger-fail-before-route/invocation-ledger.jsonl", "accepted");
    let runtime = runtime_with_handler(KernelHandlerRegistry::new().with_handler("memory.search", Box::new(smoke_handler)));

    let (output, lines) = invoke_with_ledger(&runtime, envelope("memory.search"), &ledger);

    assert_eq!(output.status, KernelInvocationStatus::Failed);
    assert_eq!(output.failure_stage.as_deref(), Some("ledger_append"));
    assert!(!output.route_decision_made);
    assert!(!output.handler_executed);
    assert!(!output.ledger_appended);
    assert!(lines.is_empty());
}

#[test]
fn invocation_runtime_returns_failure_when_ledger_append_fails() {
    let ledger = KernelInvocationLedger::failing_for_test("/tmp/ledger-fail-after-route/invocation-ledger.jsonl", "handler_executed");
    let runtime = runtime_with_handler(KernelHandlerRegistry::new().with_handler("memory.search", Box::new(smoke_handler)));

    let (output, lines) = invoke_with_ledger(&runtime, envelope("memory.search"), &ledger);

    assert_eq!(output.status, KernelInvocationStatus::Failed);
    assert_eq!(output.failure_stage.as_deref(), Some("ledger_append"));
    assert!(output.route_decision_made);
    assert!(output.handler_executed);
    assert!(!output.event_generated);
    assert!(!output.ledger_appended);
    assert_eq!(output.ledger_record_count, 2);
    assert_eq!(stages(&lines), vec!["accepted", "route_decision_made"]);
}

#[test]
fn invocation_runtime_completed_ledger_append_failure_reports_action_happened() {
    let ledger = KernelInvocationLedger::failing_for_test("/tmp/ledger-fail-completed/invocation-ledger.jsonl", "invocation_completed");
    let runtime = runtime_with_handler(KernelHandlerRegistry::new().with_handler("memory.search", Box::new(smoke_handler)));

    let (output, _lines) = invoke_with_ledger(&runtime, envelope("memory.search"), &ledger);

    assert_eq!(output.status, KernelInvocationStatus::Failed);
    assert_eq!(output.failure_stage.as_deref(), Some("ledger_append"));
    assert!(output.handler_executed);
    assert!(output.event_generated);
    assert!(!output.ledger_appended);
    assert!(output.failure_reason.as_deref().expect("failure reason").contains("audit close failed after action happened"));
}

#[test]
fn invocation_ledger_appends_accepted_and_completed_records() {
    let ledger = KernelInvocationLedger::new("/tmp/ledger-ok/invocation-ledger.jsonl");
    let runtime = runtime_with_handler(KernelHandlerRegistry::new().with_handler("memory.search", Box::new(smoke_handler)));
    let envelope = envelope("memory.search");
    let invocation_id = envelope.invocation_id.clone();

    let (output, lines) = invoke_with_ledger(&runtime, envelope, &ledger);

    assert_eq!(output.status, KernelInvocationStatus::Completed);
    assert!(output.ledger_appended);
    assert_eq!(output.ledger_record_count, 5);
    assert_eq!(output.ledger_path.as_deref(), Some("/tmp/ledger-ok/invocation-ledger.jsonl"));
    assert!(output.result.expect("result").ledger_appended);
    assert_eq!(
        stages(&lines),
        vec!["accepted", "route_decision_made", "handler_executed", "event_generated", "invocation_completed"]
    );
    for line in &lines {
        assert!(line.starts_with('{') && line.ends_with('}'));
        assert!(line.contains(&format!("\"invocation_id\":\"{invocation_id}\"")));
        assert!(line.contains("\"schema_version\":\"aicore.kernel.invocation_ledger.v1\""));
    }
}

#[test]
fn invocation_ledger_appends_route_failure_record() {
    let ledger = KernelInvocationLedger::new("/tmp/ledger-route/invocation-ledger.jsonl");
    let runtime = runtime_with_handler(KernelHandlerRegistry::new());

    let (output, lines) = invoke_with_ledger(&runtime, envelope("missing.op"), &ledger);

    assert_eq!(output.status, KernelInvocationStatus::Failed);
    assert_eq!(output.failure_stage.as_deref(), Some("route"));
    assert!(output.ledger_appended);
    assert_eq!(stages(&lines), vec!["accepted", "route_failed", "invocation_failed"]);
}

#[test]
fn invocation_ledger_appends_missing_handler_failure_record() {
    let ledger = KernelInvocationLedger::new("/tmp/ledger-missing-handler/invocation-ledger.jsonl");
    let runtime = runtime_with_handler(KernelHandlerRegistry::new());

    let (output, lines) = invoke_with_ledger(&runtime, envelope("memory.search"), &ledger);

    assert_eq!(output.failure_stage.as_deref(), Some("handler_lookup"));
    assert_eq!(stages(&lines), vec!["accepted", "route_decision_made", "handler_lookup_failed", "invocation_failed"]);
}

#[test]
fn invocation_ledger_redacts_secret_like_values() {
    let ledger = KernelInvocationLedger::new("/tmp/ledger-secret/invocation-ledger.jsonl");
    let runtime = runtime_with_handler(KernelHandlerRegistry::new().with_handler("memory.search", Box::new(secret_failing_handler)));

    let (output, lines) = invoke_with_ledger(&runtime, envelope("memory.search"), &ledger);
    let joined = lines.join("\n");

    assert_eq!(output.failure_stage.as_deref(), Some("handler_execute"));
    assert_eq!(stages(&lines), vec!["accepted", "route_decision_made", "handler_failed", "invocation_failed"]);
    assert!(!joined.contains("sk-live-secret-value"));
    assert!(!joined.contains("secret://auth.openai.main"));
    assert!(!joined.contains("token=abc123"));
    assert!(joined.contains("[redacted"));
}

#[test]
fn ledger_refuses_records_of_its_failing_stage_only() {
    let ledger = KernelInvocationLedger::failing_for_test("/tmp/x.jsonl", "accepted");
    let record = KernelInvocationLedgerRecord::new("accepted", "ok", &envelope("memory.search"));
    assert_eq!(ledger.append_refusal(&record).as_deref(), Some("failed to append invocation ledger stage accepted"));
    let other = KernelInvocationLedgerRecord::new("route_decision_made", "ok", &envelope("memory.search"));
    assert_eq!(ledger.append_refusal(&other), None);
}

#[test]
fn ledger_record_json_escapes_and_orders_fields() {
    let mut record = KernelInvocationLedgerRecord::new("accepted", "ok", &envelope("memory.search"))
        .with_failure("route", "line\nbreak \"quoted\" \u{1}")
        .with_process_exit_code(Some(-3));
    record.record_id = "r".to_string();
    record.timestamp = "1".to_string();
    record.invocation_id = "i".to_string();
    record.trace_id = "t".to_string();
    let line = record.to_json_line();
    assert_eq!(
        line,
        "{\"schema_version\":\"aicore.kernel.invocation_ledger.v1\",\"record_id\":\"r\",\"timestamp\":\"1\",\"invocation_id\":\"i\",\"trace_id\":\"t\",\"instance_id\":\"global-main\",\"operation\":\"memory.search\",\"stage\":\"accepted\",\"status\":\"ok\",\"component_id\":null,\"app_id\":null,\"capability_id\":null,\"contract_version\":null,\"failure_stage\":\"route\",\"failure_reason\":\"line\\nbreak \\\"quoted\\\" \\u0001\",\"handler_kind\":null,\"handler_executed\":false,\"event_generated\":false,\"spawned_process\":false,\"called_real_component\":false,\"transport\":null,\"process_exit_code\":-3}"
    );
}

#[test]
fn redaction_matches_markers_case_insensitively() {
    assert_eq!(redact_failure_reason("bad API KEY here"), "[redacted:failure_reason]");
    assert_eq!(redact_failure_reason("Cookie jar"), "[redacted:failure_reason]");
    assert_eq!(redact_failure_reason("plain failure"), "plain failure");
}

#[test]
fn record_ids_carry_time_and_stage() {
    let record = KernelInvocationLedgerRecord::new("accepted", "ok", &envelope("memory.search"));
    assert!(record.record_id.starts_with(&format!("ledger.{}.", record.timestamp)));
    assert!(record.record_id.ends_with(".accepted"));
    assert!(record.timestamp.chars().all(|c| c.is_ascii_digit()));
}

fn failing_handler(
    _envelope: &KernelInvocationEnvelope,
    _route: &KernelRouteRuntimeOutput,
) -> Result<KernelHandlerResult, KernelHandlerError> {
    Err(KernelHandlerError::new("smoke handler failed"))
}

fn structured_secret_result_handler(
    _envelope: &KernelInvocationEnvelope,
    _route: &KernelRouteRuntimeOutput,
) -> Result<KernelHandlerResult, KernelHandlerError> {
    let mut fields = aicore_kernel::fields::PublicFields::new();
    fields.insert("unsafe_detail".to_string(), "structured-secret-field-value secret_ref".to_string());
    Ok(KernelHandlerResult::structured(
        "runtime.status",
        fields,
        "raw result payload structured-secret-field-value",
    ))
}

fn runtime_serving(operation: &str, handlers: KernelHandlerRegistry) -> KernelInvocationRuntime {
    let text = format!("component_id = \"aicore-cli\"\napp_id = \"aicore-cli\"\nkind = \"app\"\nentrypoint = \"/home/demo/.aicore/bin/aicore-cli\"\ncontract_version = \"kernel.app.v1\"\n\n[[capabilities]]\nid = \"{operation}\"\noperation = \"{operation}\"\nvisibility = \"user\"\n");
    KernelInvocationRuntime::new(InstalledManifestRegistry::from_manifest_texts(&vec![text]).expect("registry"), handlers)
}

fn invocation_ids(lines: &[String]) -> Vec<String> {
    lines
        .iter()
        .map(|line| {
            let marker = "\"invocation_id\":\"";
            let start = line.find(marker).expect("invocation id") + marker.len();
            let tail = &line[start..];
            tail[..tail.find('"').expect("end")].to_string()
        })
        .collect()
}

fn ledger_at(name: &str) -> KernelInvocationLedger {
    KernelInvocationLedger::new(&format!("/tmp/aicore-ledger-{name}/invocation-ledger.jsonl"))
}

#[test]
fn invocation_ledger_appends_handler_failure_record() {
    let runtime = runtime_with_handler(KernelHandlerRegistry::new().with_handler("memory.search", Box::new(failing_handler)));
    let (output, lines) = invoke_with_ledger(&runtime, envelope("memory.search"), &ledger_at("handler-failure"));

    assert_eq!(output.status, KernelInvocationStatus::Failed);
    assert!(output.handler_executed);
    assert_eq!(stages(&lines), vec!["accepted", "route_decision_made", "handler_failed", "invocation_failed"]);
}

#[test]
fn invocation_ledger_records_trace_and_invocation_ids() {
    let runtime = runtime_with_handler(KernelHandlerRegistry::new().with_handler("memory.search", Box::new(smoke_handler)));
    let (_, lines) = invoke_with_ledger(&runtime, envelope("memory.search"), &ledger_at("trace"));
    let joined = lines.join("\n");

    assert!(joined.contains("\"trace_id\":\"trace.default\""));
    assert!(joined.contains("\"invocation_id\":\"invoke."));
    assert!(!joined.contains("\"invocation_id\":\"invoke.memory.search\""));
    assert!(joined.contains("\"instance_id\":\"global-main\""));
}

#[test]
fn invocation_ledger_uses_same_invocation_id_for_one_invocation() {
    let runtime = runtime_with_handler(KernelHandlerRegistry::new().with_handler("memory.search", Box::new(smoke_handler)));
    let (_, lines) = invoke_with_ledger(&runtime, envelope("memory.search"), &ledger_at("same-id"));
    let ids = invocation_ids(&lines);

    assert_eq!(ids.len(), 5);
    assert!(ids.iter().all(|id| id == &ids[0]));
    assert_ne!(ids[0], "invoke.memory.search");
}

#[test]
fn invocation_ledger_uses_distinct_invocation_id_for_repeated_same_operation() {
    let runtime = runtime_with_handler(KernelHandlerRegistry::new().with_handler("memory.search", Box::new(smoke_handler)));
    let ledger = ledger_at("distinct-id");
    let (_, first) = invoke_with_ledger(&runtime, envelope("memory.search"), &ledger);
    let (_, second) = invoke_with_ledger(&runtime, envelope("memory.search"), &ledger);
    let ids = invocation_ids(&[first, second].concat());

    assert_eq!(ids.len(), 10);
    assert_eq!(ids[0], ids[4]);
    assert_eq!(ids[5], ids[9]);
    assert_ne!(ids[0], ids[5]);
}

#[test]
fn invocation_route_failure_records_share_same_invocation_id() {
    let runtime = runtime_with_handler(KernelHandlerRegistry::new().with_handler("memory.search", Box::new(smoke_handler)));
    let (_, lines) = invoke_with_ledger(&runtime, envelope("unknown.operation"), &ledger_at("route-failure-id"));
    let ids = invocation_ids(&lines);

    assert_eq!(ids.len(), 3);
    assert!(ids.iter().all(|id| id == &ids[0]));
    assert_ne!(ids[0], "invoke.unknown.operation");
}

#[test]
fn invocation_missing_handler_records_share_same_invocation_id() {
    let runtime = runtime_serving("provider.smoke", KernelHandlerRegistry::new());
    let (_, lines) = invoke_with_ledger(&runtime, envelope("provider.smoke"), &ledger_at("missing-handler-id"));
    let ids = invocation_ids(&lines);

    assert_eq!(ids.len(), 4);
    assert!(ids.iter().all(|id| id == &ids[0]));
    assert_ne!(ids[0], "invoke.provider.smoke");
}

#[test]
fn invocation_handler_failure_records_share_same_invocation_id() {
    let runtime = runtime_with_handler(KernelHandlerRegistry::new().with_handler("memory.search", Box::new(failing_handler)));
    let (_, lines) = invoke_with_ledger(&runtime, envelope("memory.search"), &ledger_at("handler-failure-id"));
    let ids = invocation_ids(&lines);

    assert_eq!(ids.len(), 4);
    assert!(ids.iter().all(|id| id == &ids[0]));
    assert_ne!(ids[0], "invoke.memory.search");
}

#[test]
fn invocation_ledger_is_json_lines() {
    let runtime = runtime_with_handler(KernelHandlerRegistry::new().with_handler("memory.search", Box::new(smoke_handler)));
    let (_, lines) = invoke_with_ledger(&runtime, envelope("memory.search"), &ledger_at("jsonl"));

    for record in lines {
        assert!(record.starts_with('{'));
        assert!(record.ends_with('}'));
        assert!(record.contains("\"schema_version\":\"aicore.kernel.invocation_ledger.v1\""));
        serde_json::from_str::<serde_json::Value>(&record).expect("each record should be one JSON value");
    }
}

#[test]
fn invocation_ledger_is_append_only() {
    let runtime = runtime_with_handler(KernelHandlerRegistry::new().with_handler("memory.search", Box::new(smoke_handler)));
    let ledger = ledger_at("append-only");
    let (_, first) = invoke_with_ledger(&runtime, envelope("memory.search"), &ledger);
    let (_, second) = invoke_with_ledger(&runtime, envelope("memory.search"), &ledger);

    assert_eq!(first.len() + second.len(), 10);
}

#[test]
fn invocation_ledger_does_not_record_raw_payload() {
    let runtime = runtime_with_handler(KernelHandlerRegistry::new().with_handler("memory.search", Box::new(smoke_handler)));
    let (_, lines) = invoke_with_ledger(
        &runtime,
        KernelInvocationEnvelope::new(
            "global-main",
            "memory.search",
            "memory.search",
            KernelPayload::Text("raw memory content should not be written".to_string()),
        ),
        &ledger_at("no-payload"),
    );
    let joined = lines.join("\n");

    assert!(!joined.contains("raw memory content should not be written"));
    assert!(!joined.contains("Text("));
}

#[test]
fn kernel_invocation_ledger_does_not_record_raw_result_payload() {
    let runtime = runtime_serving(
        "runtime.status",
        KernelHandlerRegistry::new().with_handler("runtime.status", Box::new(structured_secret_result_handler)),
    );
    let (_, lines) = invoke_with_ledger(&runtime, envelope("runtime.status"), &ledger_at("no-result-payload"));
    let joined = lines.join("\n");

    assert!(!joined.contains("structured-secret-field-value"));
    assert!(!joined.contains("raw result payload"));
    assert!(!joined.contains("secret_ref"));
}
