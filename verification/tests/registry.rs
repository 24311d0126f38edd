use aicore_kernel::app::AppManifest;
use aicore_kernel::capability::CapabilityDescriptor;
use aicore_kernel::context::InstanceKind;
use aicore_kernel::error::KernelErrorCode;
use aicore_kernel::foundation::InstanceId;
use aicore_kernel::registry::{
    default_capability_registry, default_component_registry, default_instance_registry_with_layout,
    workspace_instance, AppRegistry, ComponentRegistry, ControlPlane,
};
use aicore_kernel::route::KernelRouteRequest;
use aicore_kernel::routing::{CapabilityRegistry, KernelRoutePlanner};
use aicore_kernel::versioning::ContractVersion;

#[test]
fn app_registry_rejects_duplicate_app_id() {
    let mut registry = AppRegistry::new();
    registry.register(AppManifest::new("app.cli", "cli")).expect("first app should register");

    let error = registry.register(AppManifest::new("app.cli", "cli")).expect_err("duplicate app id should fail");

    assert_eq!(error.code, KernelErrorCode::Conflict);
}

#[test]
fn instance_registry_contains_global_main() {
    let registry = default_instance_registry_with_layout("/home/demo", "/home/demo/.aicore/instances/global-main");

    assert_eq!(registry.list()[0].id.as_str(), "global-main");
    assert_eq!(registry.list()[0].kind, InstanceKind::GlobalMain);
}

#[test]
fn workspace_instance_cannot_impersonate_global_main() {
    let error = workspace_instance("global-main", "/workspace/demo", "/home/demo/.aicore/instances")
        .expect_err("workspace cannot use global-main");

    assert_eq!(error.to_string(), "invalid state: workspace instance cannot use global-main id");
}

#[test]
fn workspace_instance_registration_rejects_global_kind_impersonation() {
    let mut registry = default_instance_registry_with_layout("/home/demo", "/home/demo/.aicore/instances/global-main");
    let mut record = workspace_instance("inst-a", "/workspace/a", "/home/demo/.aicore/instances").expect("workspace should build");
    record.id = InstanceId::new("inst-global").expect("id should be safe");
    record.kind = InstanceKind::GlobalMain;

    let error = registry.register(record).expect_err("workspace cannot claim global kind");

    assert_eq!(error.to_string(), "invalid state: only global-main can use InstanceKind::GlobalMain");
}

#[test]
fn capability_registry_finds_app_for_operation() {
    let mut registry = CapabilityRegistry::new();
    registry.register(
        "app.memory",
        CapabilityDescriptor::new("memory.search").with_operation("search"),
        ContractVersion::new("kernel.memory", 1, 0),
    );

    let entry = registry.find("memory.search", "search").expect("capability should resolve");

    assert_eq!(entry.app_id, "app.memory");
}

#[test]
fn route_planner_routes_provider_chat_to_provider_app() {
    let planner = KernelRoutePlanner::new(default_capability_registry());
    let decision = planner
        .plan(KernelRouteRequest::new("global-main", "provider.chat", "complete"))
        .expect("provider chat should route");

    assert_eq!(decision.target.app_id, "app.provider");
}

#[test]
fn route_planner_routes_memory_search_to_memory_app() {
    let planner = KernelRoutePlanner::new(default_capability_registry());
    let decision = planner
        .plan(KernelRouteRequest::new("global-main", "memory.search", "search"))
        .expect("memory search should route");

    assert_eq!(decision.target.app_id, "app.memory");
}

#[test]
fn route_planner_routes_tool_shell_to_tools_app() {
    let planner = KernelRoutePlanner::new(default_capability_registry());
    let decision = planner
        .plan(KernelRouteRequest::new("global-main", "tool.shell", "execute"))
        .expect("tool shell should route");

    assert_eq!(decision.target.app_id, "app.tools");
}

#[test]
fn route_planner_rejects_missing_capability() {
    let planner = KernelRoutePlanner::new(default_capability_registry());
    let error = planner
        .plan(KernelRouteRequest::new("global-main", "missing.cap", "run"))
        .expect_err("missing capability should fail");

    assert_eq!(error.code, KernelErrorCode::MissingCapability);
}

#[test]
fn route_planner_rejects_contract_version_mismatch() {
    let planner = KernelRoutePlanner::new(default_capability_registry());
    let mut request = KernelRouteRequest::new("global-main", "provider.chat", "complete");
    request.requested_contract = Some(ContractVersion::new("kernel.provider", 2, 0));

    let error = planner.plan(request).expect_err("version mismatch should fail");

    assert_eq!(error.code, KernelErrorCode::VersionMismatch);
}

#[test]
fn route_decision_includes_trace_and_audit_context() {
    let planner = KernelRoutePlanner::new(default_capability_registry());
    let decision = planner
        .plan(KernelRouteRequest::new("global-main", "provider.chat", "complete"))
        .expect("provider chat should route");

    assert_eq!(decision.request.trace_context.trace_id, "trace.route");
    assert_eq!(decision.request.audit_context.actor, "system");
}

#[test]
fn component_registry_rejects_duplicate_component_id() {
    let mut registry = default_component_registry();
    let names: Vec<String> = registry.list().iter().map(|c| c.id.clone()).collect();
    assert_eq!(names, vec!["app.cli", "ui.tui", "ui.web"]);
    let again = aicore_kernel::registry::component_manifest("ui.tui", "ui", "终端界面", "重复");
    assert_eq!(registry.register(again), Err("duplicate component id: ui.tui".to_string()));
    assert_eq!(registry.list().len(), 3);
}

#[test]
fn component_registry_compatibility_compares_versions_as_text() {
    let registry = default_component_registry();
    assert!(registry.is_compatible_with("0.1.0"));
    assert!(registry.is_compatible_with("0.2"));
    assert!(!registry.is_compatible_with("0.0.9"));
    assert!(ComponentRegistry::new().is_compatible_with(""));
}

#[test]
fn control_plane_summarizes_main_instance() {
    let mut plane = ControlPlane::new(
        default_component_registry(),
        default_instance_registry_with_layout("/home/demo", "/home/demo/.aicore/main"),
    );
    plane.start();
    let summary = plane.summary();
    assert_eq!(summary.component_count, 3);
    assert_eq!(summary.instance_count, 1);
    let main = plane.main_instance_summary();
    assert_eq!(main.id, "global-main");
    assert_eq!(main.kind, "global_main");
    assert_eq!(main.state_root, "/home/demo/.aicore/main");
}
