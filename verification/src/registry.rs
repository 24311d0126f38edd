//! The control plane's registries: components, apps and instances, and the
//! default registries of the kernel.
use vstd::prelude::*;

use crate::app::{AppManifest, Compatibility, ComponentManifest, HealthLevel, HealthStatus, InstallAction, LifecycleState, ManifestMetadata, PermissionBoundary, VersionDescriptor};
use crate::capability::{is_bare_operation, CapabilityDescriptor};
use crate::context::{InstanceKind, InstanceRecord};
use crate::error::{KernelError, KernelErrorCode, KernelErrorStage};
use crate::foundation::{global_main_id, is_valid_token, AicoreError, InstanceId};
use crate::routing::{CapabilityRegistry, CapabilityRegistryEntry};
use crate::text::{append_str, chars_of, lex_lt, owned, str_eq, str_lt};
use crate::versioning::ContractVersion;

verus! {

broadcast use vstd::string::group_string_axioms;

/// Which registry a registration belongs to.
#[derive(Debug, Clone, Copy, PartialEq, Eq, Structural)]
pub enum RegistryKind {
    Component,
    Instance,
}

/// One registered subject and its lifecycle state.
#[derive(Debug, Clone, PartialEq, Eq)]
pub struct RegistrationRecord {
    pub registry_kind: RegistryKind,
    pub subject_id: String,
    pub lifecycle_state: LifecycleState,
}

/// An app as listed: id, kind and description.
#[derive(Debug, Clone, PartialEq, Eq)]
pub struct AppSummary {
    pub id: String,
    pub kind: String,
    pub description_zh: String,
}

/// How many components are registered, and their lifecycle state.
#[derive(Debug, Clone, PartialEq, Eq)]
pub struct ComponentRegistrySummary {
    pub component_count: usize,
    pub lifecycle_state: LifecycleState,
}

/// The ids of `apps`, in order.
pub open spec fn component_ids(apps: Seq<ComponentManifest>) -> Seq<Seq<char>> {
    apps.map_values(|a: ComponentManifest| a.id@)
}

/// The registered components and their shared lifecycle state.
#[derive(Debug)]
pub struct ComponentRegistry {
    apps: Vec<ComponentManifest>,
    lifecycle_state: LifecycleState,
}

impl ComponentRegistry {
    /// The components, in registration order.
    pub closed spec fn apps_view(&self) -> Seq<ComponentManifest> {
        self.apps@
    }

    /// Their lifecycle state.
    pub closed spec fn lifecycle_view(&self) -> LifecycleState {
        self.lifecycle_state
    }

    /// No components, registered.
    pub fn new() -> (r: Self)
        ensures
            r.apps_view() == Seq::<ComponentManifest>::empty(),
            r.lifecycle_view() == LifecycleState::Registered,
    {
        ComponentRegistry { apps: Vec::new(), lifecycle_state: LifecycleState::Registered }
    }

    /// Registers `app`, unless a component with its id is registered.
    pub fn register(&mut self, app: ComponentManifest) -> (r: Result<(), String>)
        ensures
            component_ids(old(self).apps_view()).contains(app.id@) ==> (r matches Err(e)
                && e@ == "duplicate component id: "@ + app.id@) && final(self).apps_view() == old(self).apps_view(),
            !component_ids(old(self).apps_view()).contains(app.id@) ==> r is Ok
                && final(self).apps_view() == old(self).apps_view().push(app),
            component_ids(old(self).apps_view()).no_duplicates() ==> component_ids(final(self).apps_view()).no_duplicates(),
            final(self).lifecycle_view() == old(self).lifecycle_view(),
    {
        let ghost ids = component_ids(self.apps@);
        let mut i: usize = 0;
        while i < self.apps.len()
            invariant
                i <= self.apps.len(),
                ids == component_ids(self.apps@),
                forall|j: int| 0 <= j < i ==> ids[j] != app.id@,
            decreases self.apps.len() - i,
        {
            if str_eq(self.apps[i].id.as_str(), app.id.as_str()) {
                assert(ids[i as int] == app.id@);
                let mut e = owned("duplicate component id: ");
                append_str(&mut e, app.id.as_str());
                return Err(e);
            }
            i = i + 1;
        }
        assert(!ids.contains(app.id@));
        self.apps.push(app);
        proof {
            let nids = component_ids(self.apps@);
            assert(nids =~= ids.push(app.id@));
            if ids.no_duplicates() {
                assert forall|a: int, b: int| 0 <= a < nids.len() && 0 <= b < nids.len() && a != b implies nids[a] != nids[b] by {
                    if a == ids.len() as int {
                        assert(nids[b] == ids[b]);
                    } else if b == ids.len() as int {
                        assert(nids[a] == ids[a]);
                    }
                }
            }
        }
        Ok(())
    }

    /// The components, in registration order.
    pub fn list(&self) -> (r: &[ComponentManifest])
        ensures
            r@ == self.apps_view(),
    {
        self.apps.as_slice()
    }

    /// The components as app summaries, in order.
    pub fn summaries(&self) -> (r: Vec<AppSummary>)
        ensures
            r@.len() == self.apps_view().len(),
            forall|i: int| 0 <= i < r@.len() ==> (#[trigger] r@[i]).id@ == self.apps_view()[i].id@
                && r@[i].kind@ == self.apps_view()[i].kind@
                && r@[i].description_zh@ == self.apps_view()[i].description_zh@,
    {
        let mut out: Vec<AppSummary> = Vec::new();
        let mut i: usize = 0;
        while i < self.apps.len()
            invariant
                i <= self.apps.len(),
                out@.len() == i,
                forall|k: int| 0 <= k < i ==> (#[trigger] out@[k]).id@ == self.apps@[k].id@
                    && out@[k].kind@ == self.apps@[k].kind@
                    && out@[k].description_zh@ == self.apps@[k].description_zh@,
            decreases self.apps.len() - i,
        {
            let app = &self.apps[i];
            out.push(AppSummary { id: app.id.clone(), kind: app.kind.clone(), description_zh: app.description_zh.clone() });
            i = i + 1;
        }
        out
    }

    /// One registration per component, in order, with the registry's state.
    pub fn registrations(&self) -> (r: Vec<RegistrationRecord>)
        ensures
            r@.len() == self.apps_view().len(),
            forall|i: int| 0 <= i < r@.len() ==> (#[trigger] r@[i]).subject_id@ == self.apps_view()[i].id@
                && r@[i].registry_kind == RegistryKind::Component
                && r@[i].lifecycle_state == self.lifecycle_view(),
    {
        let mut out: Vec<RegistrationRecord> = Vec::new();
        let mut i: usize = 0;
        while i < self.apps.len()
            invariant
                i <= self.apps.len(),
                out@.len() == i,
                forall|k: int| 0 <= k < i ==> (#[trigger] out@[k]).subject_id@ == self.apps@[k].id@
                    && out@[k].registry_kind == RegistryKind::Component
                    && out@[k].lifecycle_state == self.lifecycle_state,
            decreases self.apps.len() - i,
        {
            out.push(RegistrationRecord {
                registry_kind: RegistryKind::Component,
                subject_id: self.apps[i].id.clone(),
                lifecycle_state: self.lifecycle_state,
            });
            i = i + 1;
        }
        out
    }

    /// The lifecycle state of the components.
    pub fn lifecycle_state(&self) -> (r: &LifecycleState)
        ensures
            *r == self.lifecycle_view(),
    {
        &self.lifecycle_state
    }

    /// How many components there are, and their state.
    pub fn summary(&self) -> (r: ComponentRegistrySummary)
        ensures
            r.component_count == self.apps_view().len(),
            r.lifecycle_state == self.lifecycle_view(),
    {
        ComponentRegistrySummary { component_count: self.apps.len(), lifecycle_state: self.lifecycle_state }
    }

    /// Applies an install action: installing or upgrading makes the
    /// components installed, removing stops them.
    pub fn apply_install_action(&mut self, action: InstallAction)
        ensures
            final(self).lifecycle_view() == (match action {
                InstallAction::Remove => LifecycleState::Stopped,
                _ => LifecycleState::Installed,
            }),
            final(self).apps_view() == old(self).apps_view(),
    {
        self.lifecycle_state = match action {
            InstallAction::Install | InstallAction::Upgrade => LifecycleState::Installed,
            InstallAction::Remove => LifecycleState::Stopped,
        };
    }

    /// Whether every component's minimum runtime version is at most
    /// `runtime_version`, compared as text.
    pub fn is_compatible_with(&self, runtime_version: &str) -> (r: bool)
        ensures
            r == runs_on(self.apps_view(), runtime_version@),
    {
        let rv = chars_of(runtime_version);
        let mut i: usize = 0;
        while i < self.apps.len()
            invariant
                i <= self.apps.len(),
                rv@ == runtime_version@,
                forall|j: int| 0 <= j < i ==> !lex_lt(runtime_version@, (#[trigger] self.apps@[j]).compatibility.min_runtime_version@),
            decreases self.apps.len() - i,
        {
            if str_lt(&rv, &chars_of(self.apps[i].compatibility.min_runtime_version.as_str())) {
                assert(lex_lt(runtime_version@, self.apps_view()[i as int].compatibility.min_runtime_version@));
                return false;
            }
            i = i + 1;
        }
        true
    }
}

impl Default for ComponentRegistry {
    fn default() -> (r: Self)
        ensures
            r.apps_view() == Seq::<ComponentManifest>::empty(),
            r.lifecycle_view() == LifecycleState::Registered,
    {
        ComponentRegistry::new()
    }
}

/// Whether every component of `apps` runs on `runtime_version`: none asks
/// for a minimum runtime version after it, compared as text.
pub open spec fn runs_on(apps: Seq<ComponentManifest>, runtime_version: Seq<char>) -> bool {
    forall|i: int| 0 <= i < apps.len()
        ==> !lex_lt(runtime_version, (#[trigger] apps[i]).compatibility.min_runtime_version@)
}

/// Whatever `b` is, a text before `c` is before `b` or `b` is before `c`.
proof fn lemma_lex_lt_split(a: Seq<char>, b: Seq<char>, c: Seq<char>)
    requires
        lex_lt(a, c),
    ensures
        lex_lt(a, b) || lex_lt(b, c),
    decreases a.len(),
{
    if a.len() > 0 && b.len() > 0 && c.len() > 0 {
        let (x, y, z) = (a[0] as u32, b[0] as u32, c[0] as u32);
        if a[0] == c[0] && b[0] == a[0] {
            lemma_lex_lt_split(a.drop_first(), b.drop_first(), c.drop_first());
        } else if a[0] == c[0] {
            crate::text::lemma_char_code_injective(a[0], b[0]);
            if x < y {
                assert(lex_lt(a, b));
            } else {
                assert(b[0] != c[0] && y < z);
                assert(lex_lt(b, c));
            }
        } else {
            assert(x < z);
            if a[0] == b[0] {
                assert(b[0] != c[0] && y < z);
                assert(lex_lt(b, c));
            } else if x < y {
                assert(lex_lt(a, b));
            } else if b[0] == c[0] {
                assert(false);
            } else {
                assert(y < z);
                assert(lex_lt(b, c));
            }
        }
    }
}

/// Components that run on a runtime version run on every later one.
pub proof fn lemma_runs_on_later(apps: Seq<ComponentManifest>, v: Seq<char>, w: Seq<char>)
    requires
        runs_on(apps, v),
        !lex_lt(w, v),
    ensures
        runs_on(apps, w),
{
    assert forall|i: int| 0 <= i < apps.len()
        implies !lex_lt(w, (#[trigger] apps[i]).compatibility.min_runtime_version@) by {
        if lex_lt(w, apps[i].compatibility.min_runtime_version@) {
            lemma_lex_lt_split(w, v, apps[i].compatibility.min_runtime_version@);
        }
    }
}

/// The ids of `apps`, in order.
pub open spec fn app_ids(apps: Seq<AppManifest>) -> Seq<Seq<char>> {
    apps.map_values(|a: AppManifest| a.app_id@)
}

/// The registered apps.
#[derive(Debug)]
pub struct AppRegistry {
    apps: Vec<AppManifest>,
}

impl AppRegistry {
    /// The apps, in registration order.
    pub closed spec fn apps_view(&self) -> Seq<AppManifest> {
        self.apps@
    }

    /// No apps.
    pub fn new() -> (r: Self)
        ensures
            r.apps_view() == Seq::<AppManifest>::empty(),
    {
        AppRegistry { apps: Vec::new() }
    }

    /// Registers `app`, unless an app with its id is registered (a conflict).
    pub fn register(&mut self, app: AppManifest) -> (r: Result<(), KernelError>)
        ensures
            app_ids(old(self).apps_view()).contains(app.app_id@) ==> (r matches Err(e)
                && e.code == KernelErrorCode::Conflict && e.stage == KernelErrorStage::Resolve
                && e.message_zh@ == "应用重复注册"@) && final(self).apps_view() == old(self).apps_view(),
            !app_ids(old(self).apps_view()).contains(app.app_id@) ==> r is Ok
                && final(self).apps_view() == old(self).apps_view().push(app),
            app_ids(old(self).apps_view()).no_duplicates() ==> app_ids(final(self).apps_view()).no_duplicates(),
    {
        let ghost ids = app_ids(self.apps@);
        let mut i: usize = 0;
        while i < self.apps.len()
            invariant
                i <= self.apps.len(),
                ids == app_ids(self.apps@),
                forall|j: int| 0 <= j < i ==> ids[j] != app.app_id@,
            decreases self.apps.len() - i,
        {
            if str_eq(self.apps[i].app_id.as_str(), app.app_id.as_str()) {
                assert(ids[i as int] == app.app_id@);
                return Err(KernelError::new(KernelErrorCode::Conflict, KernelErrorStage::Resolve, "应用重复注册"));
            }
            i = i + 1;
        }
        assert(!ids.contains(app.app_id@));
        self.apps.push(app);
        proof {
            let nids = app_ids(self.apps@);
            assert(nids =~= ids.push(app.app_id@));
            if ids.no_duplicates() {
                assert forall|a: int, b: int| 0 <= a < nids.len() && 0 <= b < nids.len() && a != b implies nids[a] != nids[b] by {
                    if a == ids.len() as int {
                        assert(nids[b] == ids[b]);
                    } else if b == ids.len() as int {
                        assert(nids[a] == ids[a]);
                    }
                }
            }
        }
        Ok(())
    }

    /// The apps, in registration order.
    pub fn list(&self) -> (r: &[AppManifest])
        ensures
            r@ == self.apps_view(),
    {
        self.apps.as_slice()
    }
}

impl Default for AppRegistry {
    fn default() -> (r: Self)
        ensures
            r.apps_view() == Seq::<AppManifest>::empty(),
    {
        AppRegistry::new()
    }
}

/// The ids of `instances`, in order.
pub open spec fn instance_ids(instances: Seq<InstanceRecord>) -> Seq<Seq<char>> {
    instances.map_values(|i: InstanceRecord| i.id@)
}

/// Whether `rec` is what looking up `id` in `instances` finds: the first
/// record with that id.
pub open spec fn found_first(instances: Seq<InstanceRecord>, id: Seq<char>, rec: InstanceRecord) -> bool {
    exists|i: int| 0 <= i < instances.len() && instances[i] == rec && rec.id@ == id
        && forall|j: int| 0 <= j < i ==> (#[trigger] instances[j]).id@ != id
}

/// A registered instance is what looking up its id then finds: after a new
/// id is registered, the first record with that id is the one registered.
pub proof fn lemma_registered_instance_is_found(before: Seq<InstanceRecord>, rec: InstanceRecord)
    requires
        !instance_ids(before).contains(rec.id@),
    ensures
        found_first(before.push(rec), rec.id@, rec),
{
    let after = before.push(rec);
    assert(after[before.len() as int] == rec);
    assert forall|j: int| 0 <= j < before.len() implies (#[trigger] after[j]).id@ != rec.id@ by {
        assert(after[j] == before[j]);
        assert(instance_ids(before)[j] == before[j].id@);
    }
}

/// The registered instances.
#[derive(Debug)]
pub struct InstanceRegistry {
    instances: Vec<InstanceRecord>,
}

impl InstanceRegistry {
    /// The instances, in registration order.
    pub closed spec fn instances_view(&self) -> Seq<InstanceRecord> {
        self.instances@
    }

    /// No instances.
    pub fn new() -> (r: Self)
        ensures
            r.instances_view() == Seq::<InstanceRecord>::empty(),
    {
        InstanceRegistry { instances: Vec::new() }
    }

    /// Registers `instance`. The id `global-main` must have the global main
    /// kind and no other id may; ids are unique.
    pub fn register(&mut self, instance: InstanceRecord) -> (r: Result<(), AicoreError>)
        ensures
            instance.id@ == global_main_id() && instance.kind != InstanceKind::GlobalMain ==> (r matches Err(
                AicoreError::InvalidState(m),
            ) && m@ == "global-main must use InstanceKind::GlobalMain"@) && final(self).instances_view() == old(self).instances_view(),
            instance.id@ != global_main_id() && instance.kind == InstanceKind::GlobalMain ==> (r matches Err(
                AicoreError::InvalidState(m),
            ) && m@ == "only global-main can use InstanceKind::GlobalMain"@) && final(self).instances_view() == old(self).instances_view(),
            (instance.id@ == global_main_id()) == (instance.kind == InstanceKind::GlobalMain)
                && instance_ids(old(self).instances_view()).contains(instance.id@) ==> (r matches Err(AicoreError::Duplicate(m))
                && m@ == "instance id: "@ + instance.id@) && final(self).instances_view() == old(self).instances_view(),
            (instance.id@ == global_main_id()) == (instance.kind == InstanceKind::GlobalMain)
                && !instance_ids(old(self).instances_view()).contains(instance.id@) ==> r is Ok
                && final(self).instances_view() == old(self).instances_view().push(instance),
            instance_ids(old(self).instances_view()).no_duplicates() ==> instance_ids(final(self).instances_view()).no_duplicates(),
    {
        let is_main = str_eq(instance.id.as_str(), "global-main");
        proof {
            reveal_strlit("global-main");
        }
        let kind_main = match instance.kind {
            InstanceKind::GlobalMain => true,
            InstanceKind::Workspace => false,
        };
        if is_main && !kind_main {
            return Err(AicoreError::InvalidState(owned("global-main must use InstanceKind::GlobalMain")));
        }
        if !is_main && kind_main {
            return Err(AicoreError::InvalidState(owned("only global-main can use InstanceKind::GlobalMain")));
        }
        let ghost ids = instance_ids(self.instances@);
        let mut i: usize = 0;
        while i < self.instances.len()
            invariant
                i <= self.instances.len(),
                ids == instance_ids(self.instances@),
                (instance.id@ == global_main_id()) == (instance.kind == InstanceKind::GlobalMain),
                forall|j: int| 0 <= j < i ==> ids[j] != instance.id@,
            decreases self.instances.len() - i,
        {
            if self.instances[i].id.same_as(&instance.id) {
                assert(ids[i as int] == instance.id@);
                let mut m = owned("instance id: ");
                append_str(&mut m, instance.id.as_str());
                return Err(AicoreError::Duplicate(m));
            }
            i = i + 1;
        }
        assert(!ids.contains(instance.id@));
        self.instances.push(instance);
        proof {
            let nids = instance_ids(self.instances@);
            assert(nids =~= ids.push(instance.id@));
            if ids.no_duplicates() {
                assert forall|a: int, b: int| 0 <= a < nids.len() && 0 <= b < nids.len() && a != b implies nids[a] != nids[b] by {
                    if a == ids.len() as int {
                        assert(nids[b] == ids[b]);
                    } else if b == ids.len() as int {
                        assert(nids[a] == ids[a]);
                    }
                }
            }
        }
        Ok(())
    }

    /// The instances, in registration order.
    pub fn list(&self) -> (r: &[InstanceRecord])
        ensures
            r@ == self.instances_view(),
    {
        self.instances.as_slice()
    }

    /// One registration per instance, in order, each registered.
    pub fn registrations(&self) -> (r: Vec<RegistrationRecord>)
        ensures
            r@.len() == self.instances_view().len(),
            forall|i: int| 0 <= i < r@.len() ==> (#[trigger] r@[i]).subject_id@ == self.instances_view()[i].id@
                && r@[i].registry_kind == RegistryKind::Instance
                && r@[i].lifecycle_state == LifecycleState::Registered,
    {
        let mut out: Vec<RegistrationRecord> = Vec::new();
        let mut i: usize = 0;
        while i < self.instances.len()
            invariant
                i <= self.instances.len(),
                out@.len() == i,
                forall|k: int| 0 <= k < i ==> (#[trigger] out@[k]).subject_id@ == self.instances@[k].id@
                    && out@[k].registry_kind == RegistryKind::Instance
                    && out@[k].lifecycle_state == LifecycleState::Registered,
            decreases self.instances.len() - i,
        {
            out.push(RegistrationRecord {
                registry_kind: RegistryKind::Instance,
                subject_id: owned(self.instances[i].id.as_str()),
                lifecycle_state: LifecycleState::Registered,
            });
            i = i + 1;
        }
        out
    }

    /// The position of the first instance with id `id`.
    fn position(&self, id: &str) -> (r: Option<usize>)
        ensures
            match r {
                Some(i) => i < self.instances_view().len() && self.instances_view()[i as int].id@ == id@
                    && forall|j: int| 0 <= j < i ==> (#[trigger] self.instances_view()[j]).id@ != id@,
                None => forall|j: int| 0 <= j < self.instances_view().len() ==> (#[trigger] self.instances_view()[j]).id@ != id@,
            },
    {
        let mut i: usize = 0;
        while i < self.instances.len()
            invariant
                i <= self.instances.len(),
                forall|j: int| 0 <= j < i ==> (#[trigger] self.instances@[j]).id@ != id@,
            decreases self.instances.len() - i,
        {
            if str_eq(self.instances[i].id.as_str(), id) {
                return Some(i);
            }
            i = i + 1;
        }
        None
    }

    /// The instance with id `id`, or a missing-instance error.
    pub fn get(&self, id: &InstanceId) -> (r: Result<&InstanceRecord, AicoreError>)
        ensures
            match r {
                Ok(rec) => found_first(self.instances_view(), id@, *rec),
                Err(e) => (e matches AicoreError::Missing(m) && m@ == "instance id: "@ + id@)
                    && forall|j: int| 0 <= j < self.instances_view().len() ==> (#[trigger] self.instances_view()[j]).id@ != id@,
            },
    {
        match self.position(id.as_str()) {
            Some(i) => Ok(&self.instances[i]),
            None => {
                let mut m = owned("instance id: ");
                append_str(&mut m, id.as_str());
                Err(AicoreError::Missing(m))
            },
        }
    }

    /// The global main instance, if registered.
    pub fn global_main(&self) -> (r: Option<&InstanceRecord>)
        ensures
            match r {
                Some(rec) => found_first(self.instances_view(), global_main_id(), *rec),
                None => forall|j: int| 0 <= j < self.instances_view().len() ==> (#[trigger] self.instances_view()[j]).id@ != global_main_id(),
            },
    {
        proof {
            reveal_strlit("global-main");
        }
        match self.position("global-main") {
            Some(i) => Some(&self.instances[i]),
            None => None,
        }
    }

    /// The workspace instances, in order.
    pub fn workspaces(&self) -> (r: Vec<&InstanceRecord>)
        ensures
            r@.map_values(|x: &InstanceRecord| *x) == self.instances_view().filter(|x: InstanceRecord| x.kind == InstanceKind::Workspace),
    {
        let ghost keep = |x: InstanceRecord| x.kind == InstanceKind::Workspace;
        let mut out: Vec<&InstanceRecord> = Vec::new();
        let mut i: usize = 0;
        while i < self.instances.len()
            invariant
                i <= self.instances.len(),
                keep == (|x: InstanceRecord| x.kind == InstanceKind::Workspace),
                out@.map_values(|x: &InstanceRecord| *x) == self.instances@.subrange(0, i as int).filter(keep),
            decreases self.instances.len() - i,
        {
            proof {
                reveal_with_fuel(Seq::<InstanceRecord>::filter, 1);
                assert(self.instances@.subrange(0, i + 1).drop_last() =~= self.instances@.subrange(0, i as int));
            }
            let rec = &self.instances[i];
            let ghost before = out@;
            let is_workspace = match rec.kind {
                InstanceKind::Workspace => true,
                InstanceKind::GlobalMain => false,
            };
            if is_workspace {
                out.push(rec);
                assert(out@.map_values(|x: &InstanceRecord| *x) =~= before.map_values(|x: &InstanceRecord| *x).push(*rec));
            }
            i = i + 1;
        }
        assert(self.instances@.subrange(0, self.instances.len() as int) =~= self.instances@);
        out
    }
}

impl Default for InstanceRegistry {
    fn default() -> (r: Self)
        ensures
            r.instances_view() == Seq::<InstanceRecord>::empty(),
    {
        InstanceRegistry::new()
    }
}

/// How many components and instances there are, and the control plane's state.
#[derive(Debug, Clone, PartialEq, Eq)]
pub struct ControlPlaneSummary {
    pub component_count: usize,
    pub instance_count: usize,
    pub lifecycle_state: LifecycleState,
}

/// The global main instance as listed.
#[derive(Debug, Clone, PartialEq, Eq)]
pub struct MainInstanceSummary {
    pub id: String,
    pub kind: String,
    pub workspace_root: String,
    pub state_root: String,
}

/// The registries of the control plane and its lifecycle state.
#[derive(Debug)]
pub struct ControlPlane {
    component_registry: ComponentRegistry,
    instance_registry: InstanceRegistry,
    lifecycle_state: LifecycleState,
}

impl ControlPlane {
    /// The components.
    pub closed spec fn components_view(&self) -> Seq<ComponentManifest> {
        self.component_registry.apps_view()
    }

    /// The instances.
    pub closed spec fn instances_view(&self) -> Seq<InstanceRecord> {
        self.instance_registry.instances_view()
    }

    /// The lifecycle state of the control plane.
    pub closed spec fn lifecycle_view(&self) -> LifecycleState {
        self.lifecycle_state
    }

    /// A registered control plane over these registries.
    pub fn new(component_registry: ComponentRegistry, instance_registry: InstanceRegistry) -> (r: Self)
        ensures
            r.components_view() == component_registry.apps_view(),
            r.instances_view() == instance_registry.instances_view(),
            r.lifecycle_view() == LifecycleState::Registered,
    {
        ControlPlane { component_registry, instance_registry, lifecycle_state: LifecycleState::Registered }
    }

    /// The components as app summaries.
    pub fn app_summaries(&self) -> (r: Vec<AppSummary>)
        ensures
            r@.len() == self.components_view().len(),
            forall|i: int| 0 <= i < r@.len() ==> (#[trigger] r@[i]).id@ == self.components_view()[i].id@
                && r@[i].kind@ == self.components_view()[i].kind@
                && r@[i].description_zh@ == self.components_view()[i].description_zh@,
    {
        self.component_registry.summaries()
    }

    /// The component registry.
    pub fn component_registry(&self) -> (r: &ComponentRegistry)
        ensures
            r.apps_view() == self.components_view(),
    {
        &self.component_registry
    }

    /// The instance registry.
    pub fn instance_registry(&self) -> (r: &InstanceRegistry)
        ensures
            r.instances_view() == self.instances_view(),
    {
        &self.instance_registry
    }

    /// The lifecycle state of the control plane.
    pub fn lifecycle_state(&self) -> (r: &LifecycleState)
        ensures
            *r == self.lifecycle_view(),
    {
        &self.lifecycle_state
    }

    /// How many components and instances there are, and the state.
    pub fn summary(&self) -> (r: ControlPlaneSummary)
        ensures
            r.component_count == self.components_view().len(),
            r.instance_count == self.instances_view().len(),
            r.lifecycle_state == self.lifecycle_view(),
    {
        ControlPlaneSummary {
            component_count: self.component_registry.list().len(),
            instance_count: self.instance_registry.list().len(),
            lifecycle_state: self.lifecycle_state,
        }
    }

    /// The global main instance as listed; it must be registered.
    pub fn main_instance_summary(&self) -> (r: MainInstanceSummary)
        requires
            exists|i: int| 0 <= i < self.instances_view().len() && (#[trigger] self.instances_view()[i]).id@ == global_main_id(),
        ensures
            exists|i: int| 0 <= i < self.instances_view().len() && {
                let rec = #[trigger] self.instances_view()[i];
                &&& rec.id@ == global_main_id()
                &&& r.id@ == rec.id@
                &&& r.kind@ == (match rec.kind {
                    InstanceKind::GlobalMain => "global_main"@,
                    InstanceKind::Workspace => "workspace"@,
                })
                &&& r.workspace_root@ == rec.workspace_root@
                &&& r.state_root@ == rec.state_root@
            },
    {
        match self.instance_registry.global_main() {
            Some(instance) => MainInstanceSummary {
                id: owned(instance.id.as_str()),
                kind: match instance.kind {
                    InstanceKind::GlobalMain => owned("global_main"),
                    InstanceKind::Workspace => owned("workspace"),
                },
                workspace_root: instance.workspace_root.clone(),
                state_root: instance.state_root.clone(),
            },
            None => {
                proof {
                    let i = choose|i: int| 0 <= i < self.instances_view().len() && (#[trigger] self.instances_view()[i]).id@ == global_main_id();
                    assert(self.instances_view()[i].id@ != global_main_id());
                }
                MainInstanceSummary { id: String::new(), kind: String::new(), workspace_root: String::new(), state_root: String::new() }
            },
        }
    }

    /// Marks the control plane installed.
    pub fn install(&mut self)
        ensures
            final(self).lifecycle_view() == LifecycleState::Installed,
            final(self).components_view() == old(self).components_view(),
            final(self).instances_view() == old(self).instances_view(),
    {
        self.lifecycle_state = LifecycleState::Installed;
    }

    /// Marks the control plane running.
    pub fn start(&mut self)
        ensures
            final(self).lifecycle_view() == LifecycleState::Running,
            final(self).components_view() == old(self).components_view(),
            final(self).instances_view() == old(self).instances_view(),
    {
        self.lifecycle_state = LifecycleState::Running;
    }

    /// Marks the control plane stopped.
    pub fn stop(&mut self)
        ensures
            final(self).lifecycle_view() == LifecycleState::Stopped,
            final(self).components_view() == old(self).components_view(),
            final(self).instances_view() == old(self).instances_view(),
    {
        self.lifecycle_state = LifecycleState::Stopped;
    }

    /// The health of the control plane: healthy.
    pub fn health_status(&self) -> (r: HealthStatus)
        ensures
            r.level == HealthLevel::Healthy,
            r.summary_zh@ == "控制内核骨架可用"@,
    {
        HealthStatus { level: HealthLevel::Healthy, summary_zh: owned("控制内核骨架可用") }
    }
}

/// The record of the global main instance with these roots.
pub fn global_main_instance(home_root: &str, main_root: &str) -> (r: InstanceRecord)
    ensures
        r.id@ == global_main_id(),
        r.kind == InstanceKind::GlobalMain,
        r.workspace_root@ == home_root@,
        r.state_root@ == main_root@,
{
    InstanceRecord {
        id: InstanceId::global_main(),
        kind: InstanceKind::GlobalMain,
        workspace_root: owned(home_root),
        state_root: owned(main_root),
    }
}

/// The record of workspace instance `id` rooted at `workspace_root`, with
/// its state under `instances_root`. The id must be a valid token and not
/// `global-main`.
pub fn workspace_instance(id: &str, workspace_root: &str, instances_root: &str) -> (r: Result<InstanceRecord, AicoreError>)
    ensures
        !is_valid_token(id@) ==> (r matches Err(AicoreError::InvalidId { kind, value }) && kind@ == "instance id"@ && value@ == id@),
        is_valid_token(id@) && id@ == global_main_id() ==> (r matches Err(AicoreError::InvalidState(m))
            && m@ == "workspace instance cannot use global-main id"@),
        is_valid_token(id@) && id@ != global_main_id() ==> (r matches Ok(rec)
            && rec.id@ == id@
            && rec.kind == InstanceKind::Workspace
            && rec.workspace_root@ == workspace_root@
            && rec.state_root@ == instances_root@ + "/"@ + id@),
{
    let iid = InstanceId::new(id)?;
    if iid.same_as(&InstanceId::global_main()) {
        return Err(AicoreError::InvalidState(owned("workspace instance cannot use global-main id")));
    }
    let mut state_root = owned(instances_root);
    append_str(&mut state_root, "/");
    append_str(&mut state_root, iid.as_str());
    Ok(InstanceRecord { id: iid, kind: InstanceKind::Workspace, workspace_root: owned(workspace_root), state_root })
}

/// The instance registry holding only the global main instance with these roots.
pub fn default_instance_registry_with_layout(home_root: &str, main_root: &str) -> (r: InstanceRegistry)
    ensures
        r.instances_view().len() == 1,
        r.instances_view()[0].id@ == global_main_id(),
        r.instances_view()[0].kind == InstanceKind::GlobalMain,
        r.instances_view()[0].workspace_root@ == home_root@,
        r.instances_view()[0].state_root@ == main_root@,
{
    let mut registry = InstanceRegistry::new();
    let main = global_main_instance(home_root, main_root);
    let registered = registry.register(main);
    assert(instance_ids(Seq::<InstanceRecord>::empty()) =~= Seq::<Seq<char>>::empty());
    registry
}

/// The manifest of a first-party component: version 0.1.0 throughout, no
/// capabilities, and the permission scope `component.<id>`.
pub fn component_manifest(id: &str, kind: &str, display_name_zh: &str, description_zh: &str) -> (r: ComponentManifest)
    ensures
        r.id@ == id@,
        r.kind@ == kind@,
        r.manifest.name@ == id@,
        r.manifest.version@ == "0.1.0"@,
        r.manifest.summary_zh@ == display_name_zh@,
        r.display_name_zh@ == id@,
        r.description_zh@ == description_zh@,
        r.version.current@ == "0.1.0"@,
        r.compatibility.min_runtime_version@ == "0.1.0"@,
        r.permission_boundary.scope@ == "component."@ + id@,
        r.permission_boundary.capabilities@.len() == 0,
        r.capabilities@.len() == 0,
{
    let mut scope = owned("component.");
    append_str(&mut scope, id);
    ComponentManifest {
        id: owned(id),
        kind: owned(kind),
        manifest: ManifestMetadata { name: owned(id), version: owned("0.1.0"), summary_zh: owned(display_name_zh) },
        display_name_zh: owned(id),
        description_zh: owned(description_zh),
        version: VersionDescriptor { current: owned("0.1.0") },
        compatibility: Compatibility { min_runtime_version: owned("0.1.0") },
        permission_boundary: PermissionBoundary { scope, capabilities: Vec::new() },
        capabilities: Vec::new(),
    }
}

/// The kernel's first-party components: the command line, the terminal UI
/// and the web UI, registered.
pub fn default_component_registry() -> (r: ComponentRegistry)
    ensures
        component_ids(r.apps_view()) == seq!["app.cli"@, "ui.tui"@, "ui.web"@],
        r.apps_view()[0].kind@ == "ui"@ && r.apps_view()[1].kind@ == "ui"@ && r.apps_view()[2].kind@ == "ui"@,
        r.apps_view()[0].description_zh@ == "固定总入口与脚本化控制界面"@,
        r.apps_view()[1].description_zh@ == "交互式本地终端界面组件"@,
        r.apps_view()[2].description_zh@ == "可选网页界面组件"@,
        forall|i: int| 0 <= i < 3 ==> (#[trigger] r.apps_view()[i]).compatibility.min_runtime_version@ == "0.1.0"@
            && r.apps_view()[i].version.current@ == "0.1.0"@
            && r.apps_view()[i].permission_boundary.scope@ == "component."@ + r.apps_view()[i].id@
            && r.apps_view()[i].capabilities@.len() == 0,
        r.lifecycle_view() == LifecycleState::Registered,
{
    proof {
        reveal_strlit("app.cli");
        reveal_strlit("ui.tui");
        reveal_strlit("ui.web");
    }
    let mut registry = ComponentRegistry::new();
    let a = component_manifest("app.cli", "ui", "命令行", "固定总入口与脚本化控制界面");
    let _ = registry.register(a);
    assert(component_ids(registry.apps_view()) =~= seq!["app.cli"@]);
    let b = component_manifest("ui.tui", "ui", "终端界面", "交互式本地终端界面组件");
    let _ = registry.register(b);
    assert(component_ids(registry.apps_view()) =~= seq!["app.cli"@, "ui.tui"@]);
    let c = component_manifest("ui.web", "ui", "网页界面", "可选网页界面组件");
    assert("ui.web"@[3] != "ui.tui"@[3]);
    assert("ui.web"@[0] != "app.cli"@[0]);
    let _ = registry.register(c);
    assert(component_ids(registry.apps_view()) =~= seq!["app.cli"@, "ui.tui"@, "ui.web"@]);
    registry
}

/// Whether `e` is the registry entry of `app` serving `operation` of
/// `capability` under contract `contract` major 1.
pub open spec fn is_default_entry(e: CapabilityRegistryEntry, app: Seq<char>, capability: Seq<char>, operation: Seq<char>, contract: Seq<char>) -> bool {
    &&& e.app_id@ == app
    &&& e.capability.capability_id@ == capability
    &&& e.capability.operations@.len() == 1
    &&& is_bare_operation(e.capability.operations@[0], operation)
    &&& e.contract_version.contract_id@ == contract
    &&& e.contract_version.major == 1
    &&& e.contract_version.minor == 0
}

/// The kernel's default capabilities: chat completion by the provider app,
/// memory search by the memory app, and shell execution by the tools app.
pub fn default_capability_registry() -> (r: CapabilityRegistry)
    ensures
        r.entries_view().len() == 3,
        is_default_entry(r.entries_view()[0], "app.provider"@, "provider.chat"@, "complete"@, "kernel.provider"@),
        is_default_entry(r.entries_view()[1], "app.memory"@, "memory.search"@, "search"@, "kernel.memory"@),
        is_default_entry(r.entries_view()[2], "app.tools"@, "tool.shell"@, "execute"@, "kernel.tool"@),
{
    let mut registry = CapabilityRegistry::new();
    registry.register("app.provider", CapabilityDescriptor::new("provider.chat").with_operation("complete"), ContractVersion::new("kernel.provider", 1, 0));
    registry.register("app.memory", CapabilityDescriptor::new("memory.search").with_operation("search"), ContractVersion::new("kernel.memory", 1, 0));
    registry.register("app.tools", CapabilityDescriptor::new("tool.shell").with_operation("execute"), ContractVersion::new("kernel.tool", 1, 0));
    registry
}

} // verus!
