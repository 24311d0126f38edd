use aicore_kernel::invocation::{KernelInvocationEnvelope, KernelPayload};
use aicore_kernel::invocation_ledger::KernelInvocationLedger;
use aicore_kernel::invocation_runtime::handler::KernelHandlerRegistry;
use aicore_kernel::invocation_runtime::process::{ComponentProcessEvent, ComponentProcessRequest};
use aicore_kernel::invocation_runtime::result::{KernelInvocationRuntimeOutput, KernelInvocationStatus};
use aicore_kernel::invocation_runtime::runtime::{KernelInvocationRuntime, KernelInvocationStep};
use aicore_kernel::invocation_runtime::session::KernelLedgerStep;
use aicore_kernel::manifest_registry::InstalledManifestRegistry;

fn envelope(operation: &str) -> KernelInvocationEnvelope {
    KernelInvocationEnvelope::new("global-main", operation, operation, KernelPayload::Empty)
}

fn process_runtime(entrypoint: &str, transport: &str) -> KernelInvocationRuntime {
    let content = format!(
        "component_id = \"aicore-component-smoke\"\napp_id = \"aicore-cli\"\nkind = \"app\"\nentrypoint = \"{}\"\ninvocation_mode = \"local_process\"\ntransport = \"{transport}\"\nargs = []\ncontract_version = \"kernel.app.v1\"\n\n[[capabilities]]\nid = \"component.process.smoke\"\noperation = \"component.process.smoke\"\nvisibility = \"diagnostic\"\n",
        entrypoint.replace('"', "\\\"")
    );
    KernelInvocationRuntime::new(
        InstalledManifestRegistry::from_manifest_texts(&vec![content]).expect("registry"),
        KernelHandlerRegistry::new(),
    )
}

/// What a component that exits with `code`, printing `stdout` and `stderr`, hands back.
fn exited(code: i32, stdout: &str, stderr: &str) -> ComponentProcessEvent {
    ComponentProcessEvent::Exited {
        exit_code: Some(code),
        success: code == 0,
        stdout: stdout.to_string(),
        stderr: stderr.to_string(),
    }
}

fn invoke(
    runtime: &KernelInvocationRuntime,
    envelope: KernelInvocationEnvelope,
    component: impl Fn(&ComponentProcessRequest) -> ComponentProcessEvent,
) -> KernelInvocationRuntimeOutput {
    match runtime.invoke(envelope) {
        KernelInvocationStep::Finished(output) => output,
        KernelInvocationStep::RunComponentProcess(pending) => {
            let event = component(&pending.request);
            KernelInvocationRuntime::finish_local_process(pending, event)
        }
    }
}

fn invoke_with_ledger(
    runtime: &KernelInvocationRuntime,
    envelope: KernelInvocationEnvelope,
    ledger: &KernelInvocationLedger,
    component: impl Fn(&ComponentProcessRequest) -> ComponentProcessEvent,
) -> (KernelInvocationRuntimeOutput, Vec<String>) {
    let mut lines = Vec::new();
    let mut session = runtime.invoke_with_ledger(envelope, ledger);
    loop {
        match session.next_step(runtime) {
            KernelLedgerStep::Finished(output) => return (output, lines),
            KernelLedgerStep::AppendLine(append) => {
                lines.push(append.line().to_string());
                session = append.done(Ok(()));
            }
            KernelLedgerStep::RunComponentProcess(process) => {
                let event = component(process.request());
                session = process.done(event);
            }
        }
    }
}

/// The smoke component: answers with the invocation id it was sent.
fn smoke_component(request: &ComponentProcessRequest) -> ComponentProcessEvent {
    let marker = "\"invocation_id\":\"";
    let start = request.request_line.find(marker).expect("invocation id") + marker.len();
    let tail = &request.request_line[start..];
    let invocation_id = &tail[..tail.find('"').expect("end")];
    exited(
        0,
        &format!("{{\"schema_version\":\"aicore.local_ipc.result.v1\",\"protocol\":\"stdio_jsonl\",\"protocol_version\":\"aicore.local_ipc.stdio_jsonl.v1\",\"invocation_id\":\"{invocation_id}\",\"status\":\"completed\",\"result_kind\":\"component.process.smoke\",\"summary\":\"process smoke ok\",\"fields\":{{\"operation\":\"component.process.smoke\",\"ipc\":\"stdio_jsonl\"}}}}\n"),
        "",
    )
}

#[test]
fn component_process_smoke_invokes_stdio_jsonl_child() {
    let runtime = process_runtime("/tmp/process-smoke-success/process-smoke-success.sh", "stdio_jsonl");
    let ledger = KernelInvocationLedger::new("/tmp/process-smoke-success-ledger/invocation-ledger.jsonl");

    let (output, lines) = invoke_with_ledger(&runtime, envelope("component.process.smoke"), &ledger, smoke_component);

    assert_eq!(output.status, KernelInvocationStatus::Completed);
    assert!(output.handler_executed);
    assert!(output.event_generated);
    assert_eq!(output.handler_kind.as_deref(), Some("local_process"));
    assert_eq!(output.transport.as_deref(), Some("stdio_jsonl"));
    assert!(output.spawned_process);
    assert_eq!(output.process_exit_code, Some(0));
    assert_eq!(lines.len(), 5);
    let result = output.result.expect("process result envelope");
    assert_eq!(result.result_kind.as_deref(), Some("component.process.smoke"));
    assert_eq!(result.public_fields.get("ipc"), Some(&"stdio_jsonl".to_string()));
    assert_eq!(result.public_fields.get("transport"), Some(&"stdio_jsonl".to_string()));
}

#[test]
fn component_process_request_is_sorted_compact_json() {
    let runtime = process_runtime("/tmp/c.sh", "stdio_jsonl");
    let envelope = envelope("component.process.smoke").with_invocation_id("invoke.fixed");
    match runtime.invoke(envelope) {
        KernelInvocationStep::RunComponentProcess(pending) => {
            assert_eq!(pending.request.program, "/tmp/c.sh");
            assert_eq!(pending.request.timeout_millis, Some(30000));
            assert_eq!(
                pending.request.request_line,
                "{\"instance_id\":\"global-main\",\"invocation_id\":\"invoke.fixed\",\"operation\":\"component.process.smoke\",\"route\":{\"app_id\":\"aicore-cli\",\"capability_id\":\"component.process.smoke\",\"component_id\":\"aicore-component-smoke\",\"contract_version\":\"kernel.app.v1\",\"invocation_mode\":\"local_process\",\"transport\":\"stdio_jsonl\"},\"schema_version\":\"aicore.local_ipc.invocation.v1\",\"trace_id\":\"trace.default\"}"
            );
        }
        KernelInvocationStep::Finished(_) => panic!("a process should be asked for"),
    }
}

#[test]
fn component_process_unsupported_transport_returns_structured_failure() {
    let runtime = process_runtime("/bin/sh", "unix_socket");

    let output = invoke(&runtime, envelope("component.process.smoke"), |_| panic!("nothing runs"));

    assert_eq!(output.status, KernelInvocationStatus::Failed);
    assert_eq!(output.failure_stage.as_deref(), Some("transport_unsupported"));
    assert_eq!(output.handler_kind.as_deref(), Some("local_process"));
    assert!(!output.spawned_process);
    assert!(!output.event_generated);
}

#[test]
fn component_process_missing_entrypoint_returns_structured_failure() {
    let runtime = process_runtime("/tmp/process-missing-entrypoint/missing-component", "stdio_jsonl");

    let output = invoke(&runtime, envelope("component.process.smoke"), |_| ComponentProcessEvent::EntrypointMissing);

    assert_eq!(output.status, KernelInvocationStatus::Failed);
    assert_eq!(output.failure_stage.as_deref(), Some("missing_entrypoint"));
    assert_eq!(output.handler_kind.as_deref(), Some("local_process"));
    assert!(!output.spawned_process);
    assert_eq!(
        output.failure_reason.as_deref(),
        Some("component entrypoint is missing: /tmp/process-missing-entrypoint/missing-component")
    );
}

#[test]
fn component_process_not_executable_is_structured_failure() {
    let runtime = process_runtime("/tmp/process-not-executable/not-executable.sh", "stdio_jsonl");

    let output = invoke(&runtime, envelope("component.process.smoke"), |_| ComponentProcessEvent::EntrypointNotExecutable);

    assert_eq!(output.status, KernelInvocationStatus::Failed);
    assert_eq!(output.failure_stage.as_deref(), Some("entrypoint_not_executable"));
    assert!(!output.spawned_process);
}

#[test]
fn component_process_nonzero_exit_returns_structured_failure() {
    let runtime = process_runtime("/tmp/process-nonzero/process-nonzero.sh", "stdio_jsonl");
    let ledger = KernelInvocationLedger::new("/tmp/process-nonzero-ledger/invocation-ledger.jsonl");

    let (output, lines) = invoke_with_ledger(&runtime, envelope("component.process.smoke"), &ledger, |_| {
        exited(42, "", "failed with sk-live-secret-value token=abc123\n")
    });
    let joined = lines.join("\n");

    assert_eq!(output.status, KernelInvocationStatus::Failed);
    assert_eq!(output.failure_stage.as_deref(), Some("process_non_zero_exit"));
    assert_eq!(output.process_exit_code, Some(42));
    assert!(output.spawned_process);
    assert!(!output.event_generated);
    assert!(!joined.contains("sk-live-secret-value"));
    assert!(!joined.contains("token=abc123"));
    assert!(joined.contains("[redacted"));
}

#[test]
fn component_process_empty_stdout_is_structured_failure() {
    let runtime = process_runtime("/tmp/process-empty-stdout/process-empty-stdout.sh", "stdio_jsonl");

    let output = invoke(&runtime, envelope("component.process.smoke"), |_| exited(0, "", ""));

    assert_eq!(output.status, KernelInvocationStatus::Failed);
    assert_eq!(output.failure_stage.as_deref(), Some("process_stdout_failed"));
    assert!(output.spawned_process);
}

#[test]
fn component_process_invalid_json_returns_structured_failure() {
    let runtime = process_runtime("/tmp/process-invalid-json/process-invalid-json.sh", "stdio_jsonl");

    let output = invoke(&runtime, envelope("component.process.smoke"), |_| exited(0, "not json\n", ""));

    assert_eq!(output.status, KernelInvocationStatus::Failed);
    assert_eq!(output.failure_stage.as_deref(), Some("process_invalid_json"));
    assert_eq!(output.handler_kind.as_deref(), Some("local_process"));
    assert!(output.spawned_process);
    assert!(!output.event_generated);
    assert!(output.failure_reason.as_deref().expect("reason").starts_with("component process returned invalid JSON result: "));
}

#[test]
fn component_process_protocol_mismatch_is_structured_failure() {
    let runtime = process_runtime("/tmp/process-protocol-mismatch/process-protocol-mismatch.sh", "stdio_jsonl");

    let output = invoke(&runtime, envelope("component.process.smoke"), |_| {
        exited(0, "{\"schema_version\":\"aicore.local_ipc.result.v1\",\"protocol\":\"stdio_jsonl\",\"protocol_version\":\"wrong.version\",\"invocation_id\":\"invoke.fixture\",\"status\":\"completed\",\"result_kind\":\"component.process.smoke\",\"summary\":\"bad protocol\",\"fields\":{}}\n", "")
    });

    assert_eq!(output.status, KernelInvocationStatus::Failed);
    assert_eq!(output.failure_stage.as_deref(), Some("process_protocol_mismatch"));
    assert!(output.spawned_process);
}

#[test]
fn component_process_result_invocation_id_mismatch_is_structured_failure() {
    let runtime = process_runtime("/tmp/process-invocation-mismatch/process-invocation-mismatch.sh", "stdio_jsonl");

    let output = invoke(&runtime, envelope("component.process.smoke"), |_| {
        exited(0, "{\"schema_version\":\"aicore.local_ipc.result.v1\",\"protocol\":\"stdio_jsonl\",\"protocol_version\":\"aicore.local_ipc.stdio_jsonl.v1\",\"invocation_id\":\"invoke.wrong\",\"status\":\"completed\",\"result_kind\":\"component.process.smoke\",\"summary\":\"wrong invocation\",\"fields\":{}}\n", "")
    });

    assert_eq!(output.status, KernelInvocationStatus::Failed);
    assert_eq!(output.failure_stage.as_deref(), Some("process_result_mismatch"));
    assert!(output.spawned_process);
}

#[test]
fn component_process_result_schema_mismatch_is_structured_failure() {
    let runtime = process_runtime("/tmp/process-schema-mismatch/process-schema-mismatch.sh", "stdio_jsonl");

    let output = invoke(&runtime, envelope("component.process.smoke"), |_| {
        exited(0, "{\"result_kind\":\"component.process.smoke\",\"summary\":\"legacy result\",\"fields\":{}}\n", "")
    });

    assert_eq!(output.status, KernelInvocationStatus::Failed);
    assert_eq!(output.failure_stage.as_deref(), Some("process_result_schema_mismatch"));
    assert!(output.spawned_process);
}

#[test]
fn component_process_stderr_is_redacted_and_truncated() {
    let runtime = process_runtime("/tmp/process-stderr-redaction/process-stderr-redaction.sh", "stdio_jsonl");
    let long_tail = "x".repeat(400);

    let output = invoke(&runtime, envelope("component.process.smoke"), |_| {
        exited(7, "", &format!("secret sk-live-secret-value token=abc123 {long_tail}\n"))
    });
    let reason = output.failure_reason.expect("failure reason");

    assert!(!reason.contains("sk-live-secret-value"));
    assert!(!reason.contains("token=abc123"));
    assert!(reason.contains("[redacted"));
    assert!(reason.len() <= 260);
}

#[test]
fn component_reported_failure_keeps_its_result() {
    let runtime = process_runtime("/tmp/c.sh", "stdio_jsonl");
    let envelope = envelope("component.process.smoke").with_invocation_id("invoke.f");

    let output = invoke(&runtime, envelope, |_| {
        exited(0, "{\"schema_version\":\"aicore.local_ipc.result.v1\",\"protocol\":\"stdio_jsonl\",\"protocol_version\":\"aicore.local_ipc.stdio_jsonl.v1\",\"invocation_id\":\"invoke.f\",\"status\":\"failed\",\"result_kind\":\"component.process.smoke\",\"summary\":\"it broke\",\"fields\":{\"n\":3,\"ok\":false,\"list\":[1,\"a\"]}}\n", "")
    });

    assert_eq!(output.failure_stage.as_deref(), Some("handler_failed"));
    assert_eq!(output.failure_reason.as_deref(), Some("it broke"));
    let result = output.result.expect("result");
    assert_eq!(result.summary, "it broke");
    assert_eq!(result.public_fields.get("n"), Some(&"3".to_string()));
    assert_eq!(result.public_fields.get("ok"), Some(&"false".to_string()));
    assert_eq!(result.public_fields.get("list"), Some(&"[1,\"a\"]".to_string()));
}

#[test]
fn component_process_with_two_result_lines_is_a_protocol_mismatch() {
    let runtime = process_runtime("/tmp/c.sh", "stdio_jsonl");

    let output = invoke(&runtime, envelope("component.process.smoke"), |_| exited(0, "{}\n\n{}\n", ""));

    assert_eq!(output.failure_stage.as_deref(), Some("process_protocol_mismatch"));
    assert_eq!(output.failure_reason.as_deref(), Some("component process stdout must contain exactly one JSONL result line"));
}

#[test]
fn component_process_timeout_is_reported() {
    let runtime = process_runtime("/tmp/c.sh", "stdio_jsonl");
    let mut invocation = envelope("component.process.smoke");
    invocation.policy.timeout = aicore_kernel::invocation::TimeoutPolicy::Millis(50);
    let output = invoke(&runtime, invocation, |request| {
        assert_eq!(request.timeout_millis, Some(50));
        ComponentProcessEvent::TimedOut
    });
    assert_eq!(output.failure_stage.as_deref(), Some("process_timeout"));
    assert!(output.spawned_process);
}

#[test]
fn component_process_smoke_writes_invocation_ledger() {
    let runtime = process_runtime("/tmp/process-smoke-ledger/process-smoke-ledger.sh", "stdio_jsonl");
    let ledger = KernelInvocationLedger::new("/tmp/process-smoke-ledger-path/invocation-ledger.jsonl");

    let (output, lines) = invoke_with_ledger(&runtime, envelope("component.process.smoke"), &ledger, smoke_component);
    let joined = lines.join("\n");

    assert_eq!(output.status, KernelInvocationStatus::Completed);
    assert_eq!(output.ledger_record_count, 5);
    assert!(joined.contains("\"handler_kind\":\"local_process\""));
    assert!(joined.contains("\"spawned_process\":true"));
    assert!(joined.contains("\"transport\":\"stdio_jsonl\""));
    assert!(!joined.contains("process smoke ok"));
}

#[test]
fn component_process_timeout_returns_structured_failure_and_kills_child() {
    let runtime = process_runtime("/tmp/process-timeout/process-timeout.sh", "stdio_jsonl");
    let ledger = KernelInvocationLedger::new("/tmp/process-timeout-ledger/invocation-ledger.jsonl");
    let mut invocation = envelope("component.process.smoke");
    invocation.policy.timeout = aicore_kernel::invocation::TimeoutPolicy::Millis(50);

    let (output, _) = invoke_with_ledger(&runtime, invocation, &ledger, |request| {
        assert_eq!(request.timeout_millis, Some(50));
        ComponentProcessEvent::TimedOut
    });

    assert_eq!(output.status, KernelInvocationStatus::Failed);
    assert_eq!(output.failure_stage.as_deref(), Some("process_timeout"));
    assert!(output.spawned_process);
}
