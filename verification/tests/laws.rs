use aicore_kernel::foundation::InstanceId;
use aicore_kernel::invocation_ledger::redact_failure_reason;
use aicore_kernel::invocation_runtime::process::sanitize_process_diagnostic;
use aicore_kernel::registry::{workspace_instance, InstanceRegistry};
use aicore_kernel::invocation::{KernelInvocationEnvelope, KernelPayload};
use aicore_kernel::invocation_ledger::KernelInvocationLedger;
use aicore_kernel::invocation_runtime::handler::{KernelHandlerError, KernelHandlerRegistry, KernelHandlerResult};
use aicore_kernel::invocation_runtime::result::KernelInvocationRuntimeOutput;
use aicore_kernel::invocation_runtime::runtime::{KernelInvocationRuntime, KernelInvocationStep};
use aicore_kernel::invocation_runtime::session::KernelLedgerStep;
use aicore_kernel::manifest_registry::InstalledManifestRegistry;
use aicore_kernel::route_runtime::{KernelRouteRuntimeError, KernelRouteRuntimeOutput};
use aicore_kernel::instance::model::{dedupe_outputs, DeliveryIdentity, OutputEvent, OutputTarget};

#[test]
fn redacted_reason_is_never_secret_like() {
    let once = redact_failure_reason("token=super-secret-token");
    assert_eq!(once, "[redacted:failure_reason]");
    assert_eq!(redact_failure_reason(&once), once);
    assert_eq!(redact_failure_reason("sk-123 and cookie"), "[redacted:failure_reason]");
}

#[test]
fn sanitized_diagnostic_is_one_short_line() {
    let long = format!("first line\nsecond\u{7}line\t{}", "x".repeat(400));
    let sanitized = sanitize_process_diagnostic(&long);
    assert!(!sanitized.contains('\n'));
    assert!(!sanitized.contains('\u{7}'));
    assert_eq!(sanitized.chars().count(), 243);
    assert!(sanitized.starts_with("first line secondline\t"));
    assert!(sanitized.ends_with("..."));
}

#[test]
fn sanitized_diagnostic_can_join_a_marker_across_a_line_break() {
    // The redaction runs before line breaks become spaces.
    assert_eq!(sanitize_process_diagnostic("api\nkey"), "api key");
}

#[test]
fn registered_workspace_instance_is_found_by_id() {
    let mut registry = InstanceRegistry::new();
    let record = workspace_instance("project-a", "/work/project-a", "/home/demo/.aicore/instances")
        .expect("workspace instance should be valid");
    registry.register(record.clone()).expect("new instance should register");

    let id = InstanceId::new("project-a").expect("valid id");
    let found = registry.get(&id).expect("registered instance should be found");
    assert_eq!(found, &record);
}

fn ledger_law_handler(
    envelope: &KernelInvocationEnvelope,
    _route: &KernelRouteRuntimeOutput,
) -> Result<KernelHandlerResult, KernelHandlerError> {
    Ok(KernelHandlerResult::summary(&format!("handled {}", envelope.operation)))
}

fn ledger_law_runtime() -> KernelInvocationRuntime {
    let text = "component_id = \"aicore-cli\"\napp_id = \"aicore-cli\"\nkind = \"app\"\nentrypoint = \"/home/demo/.aicore/bin/aicore-cli\"\ncontract_version = \"kernel.app.v1\"\n\n[[capabilities]]\nid = \"memory.search\"\noperation = \"memory.search\"\nvisibility = \"user\"\n\n[[capabilities]]\nid = \"memory.list\"\noperation = \"memory.list\"\nvisibility = \"user\"\n".to_string();
    KernelInvocationRuntime::new(
        InstalledManifestRegistry::from_manifest_texts(&vec![text]).expect("registry"),
        KernelHandlerRegistry::new().with_handler("memory.search", Box::new(ledger_law_handler)),
    )
}

fn ledgered(runtime: &KernelInvocationRuntime, envelope: KernelInvocationEnvelope, ledger: &KernelInvocationLedger) -> KernelInvocationRuntimeOutput {
    let mut session = runtime.invoke_with_ledger(envelope, ledger);
    loop {
        match session.next_step(runtime) {
            KernelLedgerStep::Finished(output) => return output,
            KernelLedgerStep::AppendLine(append) => session = append.done(Ok(())),
            KernelLedgerStep::RunComponentProcess(_) => panic!("no component process here"),
        }
    }
}

#[test]
fn ledger_changes_only_the_ledger_fields_of_an_outcome() {
    let runtime = ledger_law_runtime();
    let ledger = KernelInvocationLedger::new("/tmp/ledger-law/invocation-ledger.jsonl");
    for operation in ["memory.search", "memory.list", "memory.unknown"] {
        let envelope = KernelInvocationEnvelope::new("global-main", operation, operation, KernelPayload::Empty);
        let plain = match runtime.invoke(envelope.clone()) {
            KernelInvocationStep::Finished(output) => output,
            KernelInvocationStep::RunComponentProcess(_) => panic!("no component process here"),
        };
        let with_ledger = ledgered(&runtime, envelope, &ledger);
        assert!(with_ledger.ledger_appended);
        assert_eq!(with_ledger.ledger_path.as_deref(), Some("/tmp/ledger-law/invocation-ledger.jsonl"));
        let mut expected = plain.clone();
        expected.ledger_appended = true;
        expected.ledger_path = with_ledger.ledger_path.clone();
        expected.ledger_record_count = with_ledger.ledger_record_count;
        if let Some(result) = expected.result.as_mut() {
            result.ledger_appended = true;
        }
        assert_eq!(with_ledger, expected, "operation {operation}");
    }
}

#[test]
fn dedupe_twice_is_dedupe_once() {
    let views = |c: &str| OutputEvent { target: OutputTarget::ActiveViews, identity: DeliveryIdentity::ActiveViews, content: c.to_string() };
    let chat = |c: &str| OutputEvent {
        target: OutputTarget::ActiveViews,
        identity: DeliveryIdentity::External { platform: "tg".to_string(), target_id: "1".to_string() },
        content: c.to_string(),
    };
    let once = dedupe_outputs(vec![views("a"), chat("b"), views("c"), chat("d")]).events;
    assert_eq!(once.len(), 2);
    let twice = dedupe_outputs(once.clone()).events;
    assert_eq!(twice, once);
}

#[test]
fn components_compatible_with_a_version_are_compatible_with_later_ones() {
    let registry = aicore_kernel::registry::default_component_registry();
    assert!(registry.is_compatible_with("0.1.0"));
    assert!(registry.is_compatible_with("0.2.0"));
    assert!(registry.is_compatible_with("1.0"));
    assert!(!registry.is_compatible_with("0.0.9"));
    for app in registry.list() {
        assert_eq!(app.compatibility.min_runtime_version, "0.1.0");
        assert_eq!(app.permission_boundary.scope, format!("component.{}", app.id));
    }
}

#[test]
fn route_error_text_starts_with_code_and_operation() {
    let errors = vec![
        KernelRouteRuntimeError::MissingCapability { operation: "memory.search".to_string() },
        KernelRouteRuntimeError::AmbiguousRoute {
            operation: "memory.search".to_string(),
            candidates: vec!["a:memory.search".to_string(), "b:memory.search".to_string()],
        },
    ];
    for error in errors {
        let prefix = format!("{} for operation: {}", error.code(), error.operation());
        assert!(error.to_string().starts_with(&prefix), "{}", error.to_string());
    }
}

#[test]
fn public_fields_are_kept_in_key_order() {
    let mut fields = aicore_kernel::fields::PublicFields::new();
    fields.insert("b".to_string(), "2".to_string());
    fields.insert("c".to_string(), "3".to_string());
    fields.insert("a".to_string(), "1".to_string());
    fields.insert("b".to_string(), "two".to_string());
    let keys: Vec<&str> = fields.entries().iter().map(|(k, _)| k.as_str()).collect();
    assert_eq!(keys, vec!["a", "b", "c"]);
    assert_eq!(fields.get("b").map(|v| v.as_str()), Some("two"));
}

fn ledger_lines_for(payload: KernelPayload) -> Vec<serde_json::Value> {
    let runtime = ledger_law_runtime();
    let ledger = KernelInvocationLedger::new("/tmp/ledger-law/payload.jsonl");
    let envelope = KernelInvocationEnvelope::new("global-main", "memory.search", "memory.search", payload)
        .with_invocation_id("invoke.payload-law");
    let mut lines = Vec::new();
    let mut session = runtime.invoke_with_ledger(envelope, &ledger);
    loop {
        match session.next_step(&runtime) {
            KernelLedgerStep::Finished(_) => break,
            KernelLedgerStep::AppendLine(append) => {
                let mut value: serde_json::Value = serde_json::from_str(append.line()).expect("ledger line is JSON");
                let object = value.as_object_mut().expect("ledger line is an object");
                object.remove("record_id");
                object.remove("timestamp");
                lines.push(value);
                session = append.done(Ok(()));
            }
            KernelLedgerStep::RunComponentProcess(_) => panic!("no component process here"),
        }
    }
    lines
}

#[test]
fn ledger_records_do_not_depend_on_the_payload() {
    let empty = ledger_lines_for(KernelPayload::Empty);
    let other = ledger_lines_for(KernelPayload::Text("token=very-secret query".to_string()));
    assert_eq!(empty.len(), 5);
    assert_eq!(empty, other);
    assert_eq!(empty[2]["stage"], "handler_executed");
    assert_eq!(empty[2]["status"], "ok");
    assert_eq!(empty[2]["handler_kind"], "in_process");
    assert_eq!(empty[2]["handler_executed"], true);
    assert_eq!(empty[2]["event_generated"], false);
    assert_eq!(empty[3]["event_generated"], true);
}

fn other_handler(
    _envelope: &KernelInvocationEnvelope,
    _route: &KernelRouteRuntimeOutput,
) -> Result<KernelHandlerResult, KernelHandlerError> {
    Err(KernelHandlerError::new("other handler"))
}

#[test]
fn registry_gives_back_the_handler_registered_last_for_an_operation() {
    let registry = KernelHandlerRegistry::new()
        .with_handler("memory.search", Box::new(other_handler))
        .with_handler("memory.list", Box::new(other_handler))
        .with_handler("memory.search", Box::new(ledger_law_handler));
    let runtime = ledger_law_runtime();
    let envelope = KernelInvocationEnvelope::new("global-main", "memory.search", "memory.search", KernelPayload::Empty);
    let route = runtime.route_envelope(&envelope).expect("memory.search routes");
    let found = registry.get("memory.search").expect("a handler is registered");
    assert_eq!(found.handle(&envelope, &route).expect("the last handler succeeds").summary, "handled memory.search");
    let list = registry.get("memory.list").expect("memory.list keeps its handler");
    assert_eq!(list.handle(&envelope, &route).err().map(|e| e.message), Some("other handler".to_string()));
    assert!(registry.get("memory.unknown").is_none());
}

#[test]
fn contract_written_then_read_gives_id_and_major() {
    let contract = aicore_kernel::versioning::ContractVersion::new("kernel.app", 7, 3);
    let text = aicore_kernel::route_runtime::format_contract(&contract);
    assert_eq!(text, "kernel.app.v7");
    let read = aicore_kernel::installed_manifest::parse_contract_version(&text);
    assert_eq!(read.contract_id, "kernel.app");
    assert_eq!(read.major, 7);
    assert_eq!(read.minor, 0);
}

#[test]
fn ambiguous_route_text_names_every_candidate() {
    let error = KernelRouteRuntimeError::AmbiguousRoute {
        operation: "memory.search".to_string(),
        candidates: vec!["a:memory.search".to_string(), "b:memory.search".to_string(), "c:memory.search".to_string()],
    };
    let text = error.to_string();
    for candidate in ["a:memory.search", "b:memory.search", "c:memory.search"] {
        assert!(text.contains(candidate), "{text}");
    }
}

fn refused_at(stage: &str) -> (KernelInvocationRuntimeOutput, usize) {
    let runtime = ledger_law_runtime();
    let ledger = KernelInvocationLedger::failing_for_test("/tmp/ledger-law/refused.jsonl", stage);
    let envelope = KernelInvocationEnvelope::new("global-main", "memory.search", "memory.search", KernelPayload::Empty);
    let mut appended = 0;
    let mut session = runtime.invoke_with_ledger(envelope, &ledger);
    loop {
        match session.next_step(&runtime) {
            KernelLedgerStep::Finished(output) => return (output, appended),
            KernelLedgerStep::AppendLine(append) => {
                appended += 1;
                session = append.done(Ok(()));
            }
            KernelLedgerStep::RunComponentProcess(_) => panic!("no component process here"),
        }
    }
}

#[test]
fn refused_appends_report_how_far_the_invocation_got() {
    let (accepted, n) = refused_at("accepted");
    assert_eq!((n, accepted.ledger_record_count), (0, 0));
    assert_eq!(accepted.status, aicore_kernel::invocation_runtime::result::KernelInvocationStatus::Failed);
    assert!(!accepted.route_decision_made && !accepted.handler_executed && accepted.result.is_none());

    let (executed, n) = refused_at("handler_executed");
    assert_eq!((n, executed.ledger_record_count), (2, 2));
    assert!(executed.route_decision_made && executed.handler_executed && !executed.event_generated);
    assert!(executed.event.is_none() && executed.result.is_none());
    assert_eq!(executed.handler_kind.as_deref(), Some("in_process"));

    let (closing, n) = refused_at("invocation_completed");
    assert_eq!((n, closing.ledger_record_count), (4, 4));
    assert!(closing.handler_executed && closing.event_generated && closing.event.is_some());
    assert!(closing.failure_reason.as_deref().unwrap().starts_with("audit close failed after action happened"));
    assert_eq!(closing.failure_stage.as_deref(), Some("ledger_append"));
}
