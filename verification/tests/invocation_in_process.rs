use aicore_kernel::event::{KernelEventPayload, KernelEventType};
use aicore_kernel::fields::PublicFields;
use aicore_kernel::invocation::{KernelInvocationEnvelope, KernelPayload};
use aicore_kernel::invocation_runtime::handler::{KernelHandlerError, KernelHandlerRegistry, KernelHandlerResult};
use aicore_kernel::invocation_runtime::result::{KernelInvocationRuntimeOutput, KernelInvocationStatus};
use aicore_kernel::invocation_runtime::runtime::{KernelInvocationRuntime, KernelInvocationStep};
use aicore_kernel::manifest_registry::InstalledManifestRegistry;
use aicore_kernel::route_runtime::KernelRouteRuntimeOutput;
use aicore_kernel::runtime_status::RuntimeStatusSnapshot;

fn smoke_handler(
    envelope: &KernelInvocationEnvelope,
    _route: &KernelRouteRuntimeOutput,
) -> Result<KernelHandlerResult, KernelHandlerError> {
    Ok(KernelHandlerResult::summary(&format!("smoke handled {}", envelope.operation)))
}

fn structured_status_handler(
    _envelope: &KernelInvocationEnvelope,
    _route: &KernelRouteRuntimeOutput,
) -> Result<KernelHandlerResult, KernelHandlerError> {
    let mut fields = PublicFields::new();
    fields.insert("foundation_installed".to_string(), "yes".to_string());
    fields.insert("kernel_installed".to_string(), "yes".to_string());
    fields.insert("manifest_count".to_string(), "3".to_string());
    Ok(KernelHandlerResult::structured(
        "runtime.status",
        fields,
        "foundation_installed=yes | kernel_installed=yes | manifest_count=3",
    ))
}

fn failing_handler(
    _envelope: &KernelInvocationEnvelope,
    _route: &KernelRouteRuntimeOutput,
) -> Result<KernelHandlerResult, KernelHandlerError> {
    Err(KernelHandlerError::new("smoke handler failed"))
}

fn envelope(operation: &str) -> KernelInvocationEnvelope {
    KernelInvocationEnvelope::new("global-main", operation, operation, KernelPayload::Empty)
}

fn manifest_text(app_id: &str, contract_version: &str, capabilities: &[(&str, &str)]) -> String {
    let mut content = format!(
        "component_id = \"{app_id}\"\napp_id = \"{app_id}\"\nkind = \"app\"\nentrypoint = \"/home/demo/.aicore/bin/{app_id}\"\ncontract_version = \"{contract_version}\"\n"
    );
    for (id, operation) in capabilities {
        content.push_str(&format!("\n[[capabilities]]\nid = \"{id}\"\noperation = \"{operation}\"\nvisibility = \"user\"\n"));
    }
    content
}

fn runtime_over(texts: Vec<String>, handlers: KernelHandlerRegistry) -> KernelInvocationRuntime {
    KernelInvocationRuntime::new(InstalledManifestRegistry::from_manifest_texts(&texts).expect("registry"), handlers)
}

fn runtime_with_handler(capabilities: &[(&str, &str)], handlers: KernelHandlerRegistry) -> KernelInvocationRuntime {
    runtime_over(vec![manifest_text("aicore-cli", "kernel.app.v1", capabilities)], handlers)
}

fn invoke(runtime: &KernelInvocationRuntime, envelope: KernelInvocationEnvelope) -> KernelInvocationRuntimeOutput {
    match runtime.invoke(envelope) {
        KernelInvocationStep::Finished(output) => output,
        KernelInvocationStep::RunComponentProcess(_) => panic!("an in-process invocation runs no process"),
    }
}

#[test]
fn invocation_runtime_routes_before_handler_execution() {
    let runtime = runtime_with_handler(
        &[("memory.search", "memory.search")],
        KernelHandlerRegistry::new().with_handler("memory.search", Box::new(smoke_handler)),
    );

    let output = invoke(&runtime, envelope("memory.search"));

    assert_eq!(output.status, KernelInvocationStatus::Completed);
    assert_eq!(output.route.as_ref().expect("route should exist").component_id, "aicore-cli");
    assert!(output.route_decision_made);
    assert!(output.handler_executed);
}

#[test]
fn invocation_runtime_executes_registered_in_process_handler() {
    let runtime = runtime_with_handler(
        &[("memory.search", "memory.search")],
        KernelHandlerRegistry::new().with_handler("memory.search", Box::new(smoke_handler)),
    );

    let output = invoke(&runtime, envelope("memory.search"));

    assert_eq!(output.status, KernelInvocationStatus::Completed);
    assert!(output.handler_executed);
    assert_eq!(output.handler_kind.as_deref(), Some("in_process"));
    assert_eq!(output.failure_reason, None);
}

#[test]
fn invocation_runtime_returns_event_envelope() {
    let runtime = runtime_with_handler(
        &[("memory.search", "memory.search")],
        KernelHandlerRegistry::new().with_handler("memory.search", Box::new(smoke_handler)),
    );

    let envelope = envelope("memory.search");
    let expected_invocation_id = envelope.invocation_id.clone();
    let output = invoke(&runtime, envelope);
    let event = output.event.expect("event should be generated");

    assert_eq!(event.event_type, KernelEventType::InvocationCompleted);
    assert_eq!(event.app_id, "aicore-cli");
    assert_eq!(event.instance_id, "global-main");
    assert_eq!(event.invocation_id, expected_invocation_id);
    assert_eq!(event.trace_context.trace_id, "trace.default");
    assert_eq!(event.payload, KernelEventPayload::Summary("smoke handled memory.search".to_string()));
}

#[test]
fn kernel_invocation_runtime_status_returns_structured_result() {
    let runtime = runtime_with_handler(
        &[("runtime.status", "runtime.status")],
        KernelHandlerRegistry::new().with_handler("runtime.status", Box::new(structured_status_handler)),
    );

    let output = invoke(&runtime, envelope("runtime.status"));
    let result = output.result.expect("result envelope should exist");

    assert_eq!(result.result_kind.as_deref(), Some("runtime.status"));
    assert_eq!(result.public_fields.get("foundation_installed"), Some(&"yes".to_string()));
    assert_eq!(result.public_fields.get("manifest_count"), Some(&"3".to_string()));
}

fn manifest_with_capability_count(count: usize) -> String {
    let mut content = "\ncomponent_id = \"aicore\"\napp_id = \"aicore\"\nkind = \"app\"\nentrypoint = \"/tmp/aicore\"\ncontract_version = \"kernel.app.v1\"\n".to_string();
    for index in 0..count {
        content.push_str(&format!(
            "\n[[capabilities]]\nid = \"runtime.status.{index}\"\noperation = \"runtime.status.{index}\"\nvisibility = \"user\"\n"
        ));
    }
    content
}

#[test]
fn runtime_status_handler_builds_structured_result_from_supplied_layout() {
    let home = "/tmp/aicore-kernel-runtime-status-handler-home";
    let installed = InstalledManifestRegistry::from_manifest_texts(&vec![manifest_with_capability_count(2)]).expect("manifests");
    let snapshot = RuntimeStatusSnapshot::from_facts(
        &format!("{home}/.aicore"),
        &format!("{home}/.aicore/state/kernel"),
        &format!("{home}/.aicore/bin"),
        "missing",
        true,
        true,
        None,
        installed.manifest_count(),
        installed.capability_count(),
        false,
        false,
        "in_process_test_only",
    );
    let handler = move |_envelope: &KernelInvocationEnvelope, _route: &KernelRouteRuntimeOutput| {
        Ok::<KernelHandlerResult, KernelHandlerError>(snapshot.clone().into_handler_result())
    };
    let runtime = runtime_with_handler(
        &[("runtime.status", "runtime.status")],
        KernelHandlerRegistry::new().with_handler("runtime.status", Box::new(handler)),
    );

    let output = invoke(&runtime, envelope("runtime.status"));
    let result = output.result.expect("runtime status result envelope");

    assert_eq!(result.result_kind.as_deref(), Some("runtime.status"));
    assert_eq!(result.public_fields.get("global_root"), Some(&format!("{home}/.aicore")));
    assert_eq!(result.public_fields.get("foundation_installed"), Some(&"yes".to_string()));
    assert_eq!(result.public_fields.get("kernel_installed"), Some(&"yes".to_string()));
    assert_eq!(result.public_fields.get("manifest_count"), Some(&"1".to_string()));
    assert_eq!(result.public_fields.get("capability_count"), Some(&"2".to_string()));
}

#[test]
fn kernel_invocation_output_contains_result_envelope() {
    let runtime = runtime_with_handler(
        &[("runtime.status", "runtime.status")],
        KernelHandlerRegistry::new().with_handler("runtime.status", Box::new(structured_status_handler)),
    );

    let output = invoke(&runtime, envelope("runtime.status"));
    let result = output.result.expect("result envelope should exist");

    assert_eq!(result.operation, "runtime.status");
    assert_eq!(result.status, KernelInvocationStatus::Completed);
    assert_eq!(result.handler_kind.as_deref(), Some("in_process"));
    assert!(result.handler_executed);
    assert!(result.event_generated);
}

#[test]
fn kernel_invocation_result_preserves_invocation_id() {
    let runtime = runtime_with_handler(
        &[("runtime.status", "runtime.status")],
        KernelHandlerRegistry::new().with_handler("runtime.status", Box::new(structured_status_handler)),
    );
    let envelope = envelope("runtime.status");
    let expected_invocation_id = envelope.invocation_id.clone();

    let output = invoke(&runtime, envelope);

    assert_eq!(output.result.expect("result envelope").invocation_id, expected_invocation_id);
}

#[test]
fn kernel_invocation_result_preserves_route_metadata() {
    let runtime = runtime_with_handler(
        &[("runtime.status", "runtime.status")],
        KernelHandlerRegistry::new().with_handler("runtime.status", Box::new(structured_status_handler)),
    );

    let output = invoke(&runtime, envelope("runtime.status"));
    let result = output.result.expect("result envelope");
    let route = result.route.expect("route metadata");

    assert_eq!(route.component_id, "aicore-cli");
    assert_eq!(route.app_id, "aicore-cli");
    assert_eq!(route.capability_id, "runtime.status");
    assert_eq!(route.contract_version, "kernel.app.v1");
}

#[test]
fn kernel_invocation_result_summary_is_derived_from_structured_result() {
    let runtime = runtime_with_handler(
        &[("runtime.status", "runtime.status")],
        KernelHandlerRegistry::new().with_handler("runtime.status", Box::new(structured_status_handler)),
    );

    let output = invoke(&runtime, envelope("runtime.status"));
    let result = output.result.expect("result envelope");

    assert_eq!(result.summary, "foundation_installed=yes | kernel_installed=yes | manifest_count=3");
    assert_eq!(result.public_fields.get("kernel_installed"), Some(&"yes".to_string()));
}

#[test]
fn invocation_runtime_missing_operation_does_not_execute_handler() {
    let runtime = runtime_with_handler(
        &[("memory.search", "memory.search")],
        KernelHandlerRegistry::new().with_handler("unknown.operation", Box::new(smoke_handler)),
    );

    let output = invoke(&runtime, envelope("unknown.operation"));

    assert_eq!(output.status, KernelInvocationStatus::Failed);
    assert!(!output.route_decision_made);
    assert!(!output.handler_executed);
    assert!(output.failure_reason.as_deref().expect("failure reason").contains("missing capability"));
}

#[test]
fn invocation_runtime_missing_handler_returns_structured_failure() {
    let runtime = runtime_with_handler(&[("memory.search", "memory.search")], KernelHandlerRegistry::new());

    let output = invoke(&runtime, envelope("memory.search"));

    assert_eq!(output.status, KernelInvocationStatus::Failed);
    assert!(output.route_decision_made);
    assert!(!output.handler_executed);
    assert_eq!(output.failure_stage.as_deref(), Some("handler_lookup"));
    assert!(output.failure_reason.as_deref().expect("failure reason").contains("missing handler"));
}

#[test]
fn invocation_runtime_ambiguous_route_does_not_execute_handler() {
    let runtime = runtime_over(
        vec![
            manifest_text("aicore-cli", "kernel.app.v1", &[("memory.search", "memory.search")]),
            manifest_text("aicore-memory", "kernel.app.v1", &[("memory.search", "memory.search")]),
        ],
        KernelHandlerRegistry::new().with_handler("memory.search", Box::new(smoke_handler)),
    );

    let output = invoke(&runtime, envelope("memory.search"));

    assert_eq!(output.status, KernelInvocationStatus::Failed);
    assert!(!output.handler_executed);
    assert!(output.failure_reason.as_deref().expect("failure reason").contains("ambiguous route"));
}

#[test]
fn invocation_runtime_contract_mismatch_does_not_execute_handler() {
    let runtime = runtime_over(
        vec![manifest_text("aicore-cli", "kernel.app.v2", &[("memory.search", "memory.search")])],
        KernelHandlerRegistry::new().with_handler("memory.search", Box::new(smoke_handler)),
    );

    let output = invoke(&runtime, envelope("memory.search"));

    assert_eq!(output.status, KernelInvocationStatus::Failed);
    assert!(!output.handler_executed);
    assert!(output.failure_reason.as_deref().expect("failure reason").contains("contract version mismatch"));
}

#[test]
fn invocation_runtime_handler_failure_returns_structured_failure() {
    let runtime = runtime_with_handler(
        &[("memory.search", "memory.search")],
        KernelHandlerRegistry::new().with_handler("memory.search", Box::new(failing_handler)),
    );

    let output = invoke(&runtime, envelope("memory.search"));

    assert_eq!(output.status, KernelInvocationStatus::Failed);
    assert!(output.route_decision_made);
    assert!(output.handler_executed);
    assert_eq!(output.failure_stage.as_deref(), Some("handler_execute"));
    assert!(output.failure_reason.as_deref().expect("failure reason").contains("smoke handler failed"));
}

#[test]
fn invocation_runtime_output_marks_handler_executed() {
    let runtime = runtime_with_handler(
        &[("memory.search", "memory.search")],
        KernelHandlerRegistry::new().with_handler("memory.search", Box::new(smoke_handler)),
    );

    let output = invoke(&runtime, envelope("memory.search"));

    assert!(output.handler_executed);
    assert!(output.event_generated);
    assert!(!output.spawned_process);
    assert!(!output.called_real_component);
}

#[test]
fn in_process_runtime_status_still_works() {
    let runtime = runtime_with_handler(
        &[("runtime.status", "runtime.status")],
        KernelHandlerRegistry::new().with_handler("runtime.status", Box::new(structured_status_handler)),
    );

    let output = invoke(&runtime, envelope("runtime.status"));

    assert_eq!(output.status, KernelInvocationStatus::Completed);
    assert_eq!(output.handler_kind.as_deref(), Some("in_process"));
    assert!(!output.spawned_process);
    assert_eq!(output.result.expect("result").result_kind.as_deref(), Some("runtime.status"));
}

#[test]
fn invocation_event_uses_same_invocation_id_as_envelope() {
    let runtime = runtime_with_handler(
        &[("memory.search", "memory.search")],
        KernelHandlerRegistry::new().with_handler("memory.search", Box::new(smoke_handler)),
    );
    let envelope = envelope("memory.search");
    let expected_invocation_id = envelope.invocation_id.clone();

    let output = invoke(&runtime, envelope);

    assert_eq!(output.event.expect("event should be generated").invocation_id, expected_invocation_id);
}

#[test]
fn route_failure_reports_the_route_error_text() {
    let runtime = runtime_with_handler(&[("memory.search", "memory.search")], KernelHandlerRegistry::new());

    let output = invoke(&runtime, envelope("missing.op"));

    assert_eq!(output.failure_stage.as_deref(), Some("route"));
    assert_eq!(output.failure_reason.as_deref(), Some("missing capability for operation: missing.op"));
    let result = output.result.expect("result");
    assert_eq!(result.summary, "missing capability for operation: missing.op");
    assert!(result.route.is_none());
}
