use aicore_kernel::capability::{CapabilityDescriptor, SchemaRef};
use aicore_kernel::manifest_registry::InstalledManifestRegistry;
use aicore_kernel::route_runtime::{KernelRouteRuntime, KernelRouteRuntimeInput};
use aicore_kernel::versioning::ContractVersion;

fn routing_manifest_text(app_id: &str, contract_version: &str, capabilities: &[(&str, &str)]) -> String {
    let mut content = format!(
        "component_id = \"{app_id}\"\napp_id = \"{app_id}\"\nkind = \"app\"\nentrypoint = \"/home/demo/.aicore/bin/{app_id}\"\ncontract_version = \"{contract_version}\"\n"
    );
    for (id, operation) in capabilities {
        content.push_str(&format!(
            "\n[[capabilities]]\nid = \"{id}\"\noperation = \"{operation}\"\nvisibility = \"user\"\n"
        ));
    }
    content
}

fn routing_registry(texts: Vec<String>) -> InstalledManifestRegistry {
    InstalledManifestRegistry::from_manifest_texts(&texts).expect("manifest registry should load")
}

#[test]
fn capability_descriptor_declares_operations_and_schema_refs() {
    let mut descriptor = CapabilityDescriptor::new("memory.search").with_operation("search");
    descriptor.schema_refs.push(SchemaRef::new("schema.memory.search", "1.0"));

    assert_eq!(descriptor.operations[0].operation, "search");
    assert_eq!(descriptor.schema_refs[0].schema_id, "schema.memory.search");
}

#[test]
fn component_manifest_defaults_to_in_process_for_existing_manifests() {
    let registry = routing_registry(vec![routing_manifest_text("aicore-cli", "kernel.app.v1", &[("memory.search", "memory.search")])]);
    let manifest = &registry.manifests()[0];
    let candidate = registry.operation_candidates("memory.search").pop().expect("memory.search route candidate");

    assert_eq!(manifest.invocation_mode.as_str(), "in_process");
    assert_eq!(manifest.transport.as_str(), "unsupported");
    assert!(manifest.args.is_empty());
    assert_eq!(candidate.invocation_mode.as_str(), "in_process");
    assert_eq!(candidate.transport.as_str(), "unsupported");
}

#[test]
fn installed_manifest_registry_routes_memory_search() {
    let runtime = KernelRouteRuntime::from_registry(routing_registry(vec![routing_manifest_text(
        "aicore-cli",
        "kernel.app.v1",
        &[("memory.search", "memory.search")],
    )]));

    let output = runtime.route(KernelRouteRuntimeInput::new("memory.search")).expect("memory.search should route");

    assert_eq!(output.component_id, "aicore-cli");
    assert_eq!(output.app_id, "aicore-cli");
    assert_eq!(output.capability_id, "memory.search");
    assert_eq!(output.decision.request.operation, "memory.search");
    assert_eq!(output.decision.target.app_id, "aicore-cli");
    assert_eq!(output.decision.target.contract_version.contract_id, "kernel.app");
    assert_eq!(output.invocation_mode.as_str(), "in_process");
    assert_eq!(output.transport.as_str(), "unsupported");
}

#[test]
fn installed_manifest_registry_routes_provider_smoke() {
    let runtime = KernelRouteRuntime::from_registry(routing_registry(vec![routing_manifest_text(
        "aicore-cli",
        "kernel.app.v1",
        &[("provider.smoke", "provider.smoke")],
    )]));

    let output = runtime.route(KernelRouteRuntimeInput::new("provider.smoke")).expect("provider.smoke should route");

    assert_eq!(output.component_id, "aicore-cli");
    assert_eq!(output.capability_id, "provider.smoke");
    assert!(!output.handler_executed);
}

#[test]
fn installed_manifest_registry_rejects_missing_operation() {
    let runtime = KernelRouteRuntime::from_registry(routing_registry(vec![routing_manifest_text(
        "aicore-cli",
        "kernel.app.v1",
        &[("memory.search", "memory.search")],
    )]));

    let error = runtime
        .route(KernelRouteRuntimeInput::new("unknown.operation"))
        .expect_err("unknown operation should fail");

    assert!(error.to_string().contains("missing capability"));
    assert!(error.to_string().contains("unknown.operation"));
}

#[test]
fn installed_manifest_registry_missing_manifest_dir_returns_no_route() {
    let runtime = KernelRouteRuntime::from_registry(InstalledManifestRegistry::from_manifests(Vec::new()));

    let error = runtime
        .route(KernelRouteRuntimeInput::new("memory.search"))
        .expect_err("missing manifest dir should have no route");

    assert!(error.to_string().contains("missing capability"));
}

#[test]
fn route_decision_rejects_contract_version_mismatch() {
    let runtime = KernelRouteRuntime::from_registry(routing_registry(vec![routing_manifest_text(
        "aicore-cli",
        "kernel.app.v2",
        &[("memory.search", "memory.search")],
    )]));

    let error = runtime.route(KernelRouteRuntimeInput::new("memory.search")).expect_err("contract mismatch should fail");

    assert!(error.to_string().contains("contract version mismatch"));
}

#[test]
fn route_decision_rejects_requested_contract_version_mismatch() {
    let runtime = KernelRouteRuntime::from_registry(routing_registry(vec![routing_manifest_text(
        "aicore-cli",
        "kernel.app.v1",
        &[("memory.search", "memory.search")],
    )]));

    let error = runtime
        .route(
            KernelRouteRuntimeInput::new("memory.search").with_requested_contract(ContractVersion::new("kernel.app", 2, 0)),
        )
        .expect_err("requested contract mismatch should fail");

    assert!(error.to_string().contains("contract version mismatch"));
}

#[test]
fn route_decision_rejects_ambiguous_duplicate_capability() {
    let runtime = KernelRouteRuntime::from_registry(routing_registry(vec![
        routing_manifest_text("aicore-cli", "kernel.app.v1", &[("memory.search", "memory.search")]),
        routing_manifest_text("aicore-memory", "kernel.app.v1", &[("memory.search", "memory.search")]),
    ]));

    let error = runtime
        .route(KernelRouteRuntimeInput::new("memory.search"))
        .expect_err("duplicate operation should be ambiguous");

    assert!(error.to_string().contains("ambiguous route"));
    assert!(error.to_string().contains("aicore-cli"));
    assert!(error.to_string().contains("aicore-memory"));
}

fn registry_of(text: &str) -> InstalledManifestRegistry {
    InstalledManifestRegistry::from_manifest_texts(&vec![text.to_string()]).expect("manifest registry should load")
}

#[test]
fn installed_manifest_loader_reads_component_manifest() {
    let registry = registry_of(
        r#"
component_id = "aicore-cli"
app_id = "aicore-cli"
kind = "app"
entrypoint = "/home/demo/.aicore/bin/aicore-cli"
contract_version = "kernel.app.v1"

[[capabilities]]
id = "memory.status"
operation = "memory.status"
visibility = "user"

[[capabilities]]
id = "memory.search"
operation = "memory.search"
visibility = "user"
"#,
    );

    assert_eq!(registry.manifest_count(), 1);
    assert_eq!(registry.capability_count(), 2);
    assert_eq!(registry.manifests()[0].component_id, "aicore-cli");
    assert_eq!(registry.manifests()[0].capabilities[0].operation, "memory.status");
}

#[test]
fn installed_manifest_registry_builds_capability_registry() {
    let registry = registry_of(
        r#"
component_id = "aicore"
app_id = "aicore"
kind = "app"
entrypoint = "/home/demo/.aicore/bin/aicore"
contract_version = "kernel.app.v1"

[[capabilities]]
id = "runtime.status"
operation = "runtime.status"
visibility = "user"
"#,
    );
    let capability_registry = registry.to_capability_registry();
    let entry = capability_registry
        .find("runtime.status", "runtime.status")
        .expect("runtime.status should be registered");

    assert_eq!(entry.app_id, "aicore");
    assert_eq!(entry.contract_version.contract_id, "kernel.app");
    assert_eq!(entry.contract_version.major, 1);
}

const PROCESS_MANIFEST: &str = r#"
component_id = "aicore-component-smoke"
app_id = "aicore-cli"
kind = "app"
entrypoint = "/home/demo/.aicore/bin/aicore-cli"
invocation_mode = "local_process"
transport = "stdio_jsonl"
args = ["__component-smoke-stdio"]
working_dir = "/home/demo"
env_policy = "minimal"
contract_version = "kernel.app.v1"

[[capabilities]]
id = "component.process.smoke"
operation = "component.process.smoke"
visibility = "diagnostic"
"#;

#[test]
fn component_manifest_supports_invocation_mode_and_transport() {
    let registry = registry_of(PROCESS_MANIFEST);
    let manifest = &registry.manifests()[0];
    let candidate = registry
        .operation_candidates("component.process.smoke")
        .pop()
        .expect("process smoke route candidate");

    assert_eq!(manifest.invocation_mode.as_str(), "local_process");
    assert_eq!(manifest.transport.as_str(), "stdio_jsonl");
    assert_eq!(manifest.args, vec!["__component-smoke-stdio"]);
    assert_eq!(manifest.working_dir.as_deref(), Some("/home/demo"));
    assert_eq!(manifest.env_policy.as_deref(), Some("minimal"));
    assert_eq!(candidate.invocation_mode.as_str(), "local_process");
    assert_eq!(candidate.transport.as_str(), "stdio_jsonl");
    assert_eq!(candidate.args, vec!["__component-smoke-stdio"]);
}

#[test]
fn route_decision_exposes_component_process_metadata() {
    let runtime = KernelRouteRuntime::from_registry(registry_of(PROCESS_MANIFEST));

    let output = runtime
        .route(KernelRouteRuntimeInput::new("component.process.smoke"))
        .expect("component process smoke should route");

    assert_eq!(output.component_id, "aicore-component-smoke");
    assert_eq!(output.invocation_mode.as_str(), "local_process");
    assert_eq!(output.transport.as_str(), "stdio_jsonl");
    assert_eq!(output.args, vec!["__component-smoke-stdio"]);
    assert!(!output.handler_executed);
}

#[test]
fn manifest_files_are_the_toml_entries_in_order() {
    let names = vec![
        "zeta.toml".to_string(),
        "notes.txt".to_string(),
        ".toml".to_string(),
        "alpha.toml".to_string(),
        "beta.toml.bak".to_string(),
        "Beta.toml".to_string(),
    ];
    assert_eq!(
        aicore_kernel::manifest_registry::manifest_file_names(&names),
        vec!["Beta.toml".to_string(), "alpha.toml".to_string(), "zeta.toml".to_string()]
    );
}
