use aicore_kernel::app::{AppHandshake, AppManifest};
use aicore_kernel::capability::CapabilityDescriptor;
use aicore_kernel::context::Visibility;
use aicore_kernel::error::{KernelError, KernelErrorCode, KernelErrorStage};
use aicore_kernel::event::{KernelEventEnvelope, KernelEventType};
use aicore_kernel::invocation::{KernelInvocationEnvelope, KernelPayload};
use aicore_kernel::route::{KernelRouteDecision, KernelRouteRequest, KernelRouteTarget};
use aicore_kernel::versioning::{CompatibilityDecision, CompatibilityRange, ContractVersion};

#[test]
fn app_handshake_declares_contracts_and_capabilities() {
    let handshake = AppHandshake {
        app_id: "app.provider".to_string(),
        contracts: vec![ContractVersion::new("kernel.provider", 1, 0)],
        capabilities: vec![CapabilityDescriptor::new("provider.chat")],
    };

    assert_eq!(handshake.contracts[0].contract_id, "kernel.provider");
    assert_eq!(handshake.capabilities[0].capability_id, "provider.chat");
}

#[test]
fn kernel_error_has_user_message_and_machine_code() {
    let error = KernelError::new(KernelErrorCode::MissingCapability, KernelErrorStage::Route, "缺少能力");

    assert_eq!(error.code, KernelErrorCode::MissingCapability);
    assert_eq!(error.message_zh, "缺少能力");
}

#[test]
fn kernel_error_redaction_marks_secret_safe() {
    let error = KernelError::new(KernelErrorCode::Unavailable, KernelErrorStage::Invoke, "服务不可用")
        .with_safe_detail("provider unavailable")
        .mark_secret_safe();

    assert!(error.secret_safe);
    assert!(!error.safe_detail.unwrap().contains("secret"));
}

#[test]
fn event_envelope_carries_visibility_and_trace_context() {
    let event = KernelEventEnvelope::new(
        "evt.1",
        KernelEventType::InvocationStarted,
        "global-main",
        "app.provider",
        "invoke.1",
        Visibility::Audit,
    );

    assert_eq!(event.visibility, Visibility::Audit);
    assert_eq!(event.trace_context.trace_id, "trace.event");
}

#[test]
fn route_request_carries_instance_and_capability() {
    let request = KernelRouteRequest::new("global-main", "memory.search", "search");

    assert_eq!(request.instance_id, "global-main");
    assert_eq!(request.capability, "memory.search");
}

#[test]
fn route_decision_targets_app_and_contract_version() {
    let request = KernelRouteRequest::new("global-main", "provider.chat", "complete");
    let decision = KernelRouteDecision::new(
        request,
        KernelRouteTarget {
            app_id: "app.provider".to_string(),
            contract_version: ContractVersion::new("kernel.provider", 1, 0),
        },
    );

    assert_eq!(decision.target.app_id, "app.provider");
    assert_eq!(decision.target.contract_version.major, 1);
}

#[test]
fn contract_version_compatibility_accepts_supported_range() {
    let range = CompatibilityRange { contract_id: "kernel.route".to_string(), min_major: 1, max_major: 2 };

    assert_eq!(range.accepts(&ContractVersion::new("kernel.route", 1, 3)), CompatibilityDecision::Compatible);
}

#[test]
fn contract_version_compatibility_rejects_unsupported_range() {
    let range = CompatibilityRange { contract_id: "kernel.route".to_string(), min_major: 1, max_major: 1 };

    assert_eq!(range.accepts(&ContractVersion::new("kernel.route", 2, 0)), CompatibilityDecision::Incompatible);
}

#[test]
fn invocation_envelope_carries_typed_payload_summary() {
    let envelope = KernelInvocationEnvelope::new(
        "global-main",
        "provider.chat",
        "complete",
        KernelPayload::Text("hello".to_string()),
    );

    assert_eq!(envelope.instance_id, "global-main");
    assert_eq!(envelope.capability, "provider.chat");
    assert_eq!(envelope.payload.summary(), "text:5 bytes");
    assert!(envelope.invocation_id.starts_with("invoke."));
}

#[test]
fn kernel_invocation_envelope_assigns_unique_invocation_id() {
    let first = KernelInvocationEnvelope::new("global-main", "memory.search", "memory.search", KernelPayload::Empty);
    let second = KernelInvocationEnvelope::new("global-main", "memory.search", "memory.search", KernelPayload::Empty);

    assert_ne!(first.invocation_id, second.invocation_id);
    assert!(first.invocation_id.starts_with("invoke."));
    assert!(second.invocation_id.starts_with("invoke."));
}

#[test]
fn invocation_envelope_allows_explicit_invocation_id_for_tests() {
    let envelope = KernelInvocationEnvelope::new("global-main", "memory.search", "memory.search", KernelPayload::Empty)
        .with_invocation_id("invoke.test.fixed");

    assert_eq!(envelope.invocation_id, "invoke.test.fixed");
}

#[test]
fn kernel_crate_exports_core_types() {
    let _manifest = AppManifest::new("app.cli", "cli");
    let _capability = CapabilityDescriptor::new("provider.chat");
    let _route = KernelRouteRequest::new("global-main", "provider.chat", "complete");
}

#[test]
fn payload_summary_counts_utf8_bytes_and_keeps_json_summaries() {
    assert_eq!(KernelPayload::Text("缺少".to_string()).summary(), "text:6 bytes");
    assert_eq!(KernelPayload::JsonSummary("{\"a\":1}".to_string()).summary(), "json:{\"a\":1}");
    assert_eq!(KernelPayload::Empty.summary(), "empty");
}
