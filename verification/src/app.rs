//! App and component manifests, health and lifecycle.
use vstd::prelude::*;

use crate::capability::CapabilityDescriptor;
use crate::text::{owned, str_eq};
use crate::versioning::ContractVersion;

verus! {

/// Where a component is in its lifecycle.
#[derive(Debug, Clone, Copy, PartialEq, Eq, Structural)]
pub enum LifecycleState {
    Registered,
    Installed,
    Running,
    Stopped,
}

/// What an installer does.
#[derive(Debug, Clone, Copy, PartialEq, Eq, Structural)]
pub enum InstallAction {
    Install,
    Upgrade,
    Remove,
}

/// How healthy something is.
#[derive(Debug, Clone, Copy, PartialEq, Eq, Structural)]
pub enum HealthLevel {
    Healthy,
    Degraded,
    Unhealthy,
}

/// A health level with a summary.
#[derive(Debug, Clone, PartialEq, Eq)]
pub struct HealthStatus {
    pub level: HealthLevel,
    pub summary_zh: String,
}

/// A manifest's name, version and summary.
#[derive(Debug, Clone, PartialEq, Eq)]
pub struct ManifestMetadata {
    pub name: String,
    pub version: String,
    pub summary_zh: String,
}

/// The current version of a component.
#[derive(Debug, Clone, PartialEq, Eq)]
pub struct VersionDescriptor {
    pub current: String,
}

/// The oldest runtime a component works with.
#[derive(Debug, Clone, PartialEq, Eq)]
pub struct Compatibility {
    pub min_runtime_version: String,
}

/// A capability a component declares.
#[derive(Debug, Clone, PartialEq, Eq)]
pub struct Capability {
    pub id: String,
    pub description_en: String,
}

/// Whether using a capability needs approval.
#[derive(Debug, Clone, PartialEq, Eq)]
pub struct CapabilityBoundary {
    pub capability_id: String,
    pub requires_approval: bool,
}

/// The scope and capability boundaries of a component.
#[derive(Debug, Clone, PartialEq, Eq)]
pub struct PermissionBoundary {
    pub scope: String,
    pub capabilities: Vec<CapabilityBoundary>,
}

/// A component's manifest.
#[derive(Debug, Clone, PartialEq, Eq)]
pub struct ComponentManifest {
    pub id: String,
    pub kind: String,
    pub manifest: ManifestMetadata,
    pub display_name_zh: String,
    pub description_zh: String,
    pub version: VersionDescriptor,
    pub compatibility: Compatibility,
    pub permission_boundary: PermissionBoundary,
    pub capabilities: Vec<Capability>,
}

/// What kind of program an app is.
#[derive(Debug, Clone, Copy, PartialEq, Eq, Structural)]
pub enum AppRuntimeKind {
    Cli,
    Tui,
    Web,
    Provider,
    Toolset,
    Gateway,
    Service,
}

/// Whether an app is available.
#[derive(Debug, Clone, Copy, PartialEq, Eq, Structural)]
pub enum AppStatus {
    Registered,
    Available,
    Running,
    Unavailable,
}

/// A change in an app's lifecycle.
#[derive(Debug, Clone, Copy, PartialEq, Eq, Structural)]
pub enum AppLifecycleEvent {
    Registered,
    Started,
    Stopped,
    Removed,
}

/// An app's status and health.
#[derive(Debug, Clone, PartialEq, Eq)]
pub struct AppHealth {
    pub status: AppStatus,
    pub health: HealthStatus,
}

/// An app's manifest: its id, runtime kind, contracts, capabilities and permissions.
#[derive(Debug, Clone, PartialEq, Eq)]
pub struct AppManifest {
    pub app_id: String,
    pub runtime_kind: AppRuntimeKind,
    pub display_name_zh: String,
    pub contracts: Vec<ContractVersion>,
    pub capabilities: Vec<CapabilityDescriptor>,
    pub permission_boundary: PermissionBoundary,
}

/// The runtime kind named by `kind`; any other name is a service.
pub open spec fn runtime_kind_named(kind: Seq<char>) -> AppRuntimeKind {
    if kind == "cli"@ {
        AppRuntimeKind::Cli
    } else if kind == "tui"@ {
        AppRuntimeKind::Tui
    } else if kind == "web"@ {
        AppRuntimeKind::Web
    } else if kind == "provider"@ {
        AppRuntimeKind::Provider
    } else if kind == "toolset"@ {
        AppRuntimeKind::Toolset
    } else if kind == "gateway"@ {
        AppRuntimeKind::Gateway
    } else {
        AppRuntimeKind::Service
    }
}

impl AppManifest {
    /// A manifest for `app_id` of the runtime kind that `kind` names, with no
    /// contracts, capabilities or capability boundaries, in the `app` scope.
    pub fn new(app_id: &str, kind: &str) -> (r: Self)
        ensures
            r.app_id@ == app_id@,
            r.runtime_kind == runtime_kind_named(kind@),
            r.display_name_zh@ == "应用"@,
            r.contracts@.len() == 0,
            r.capabilities@.len() == 0,
            r.permission_boundary.scope@ == "app"@,
            r.permission_boundary.capabilities@.len() == 0,
    {
        let runtime_kind = if str_eq(kind, "cli") {
            AppRuntimeKind::Cli
        } else if str_eq(kind, "tui") {
            AppRuntimeKind::Tui
        } else if str_eq(kind, "web") {
            AppRuntimeKind::Web
        } else if str_eq(kind, "provider") {
            AppRuntimeKind::Provider
        } else if str_eq(kind, "toolset") {
            AppRuntimeKind::Toolset
        } else if str_eq(kind, "gateway") {
            AppRuntimeKind::Gateway
        } else {
            AppRuntimeKind::Service
        };
        AppManifest {
            app_id: owned(app_id),
            runtime_kind,
            display_name_zh: owned("应用"),
            contracts: Vec::new(),
            capabilities: Vec::new(),
            permission_boundary: PermissionBoundary { scope: owned("app"), capabilities: Vec::new() },
        }
    }
}

/// An app and its status in a registry.
#[derive(Debug, Clone, PartialEq, Eq)]
pub struct AppRegistration {
    pub app_id: String,
    pub status: AppStatus,
}

/// What an app declares when it connects: its contracts and capabilities.
#[derive(Debug, Clone, PartialEq, Eq)]
pub struct AppHandshake {
    pub app_id: String,
    pub contracts: Vec<ContractVersion>,
    pub capabilities: Vec<CapabilityDescriptor>,
}

} // verus!
