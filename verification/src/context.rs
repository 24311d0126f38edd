//! Instance, session, trace and audit context.
use vstd::prelude::*;

use crate::foundation::InstanceId;
use crate::text::owned;

verus! {

/// Whether an instance is the global main instance or a workspace instance.
#[derive(Debug, Clone, Copy, PartialEq, Eq, Structural)]
pub enum InstanceKind {
    GlobalMain,
    Workspace,
}

/// A registered instance with its roots.
#[derive(Debug, Clone, PartialEq, Eq)]
pub struct InstanceRecord {
    pub id: InstanceId,
    pub kind: InstanceKind,
    pub workspace_root: String,
    pub state_root: String,
}

/// The scope an instance covers.
#[derive(Debug, Clone, PartialEq, Eq)]
pub enum InstanceScope {
    GlobalMain,
    Workspace(String),
}

/// The instance a request belongs to.
#[derive(Debug, Clone, PartialEq, Eq)]
pub struct InstanceContext {
    pub instance_id: String,
    pub kind: InstanceKind,
    pub scope: InstanceScope,
}

/// The session and conversation a request belongs to.
#[derive(Debug, Clone, PartialEq, Eq)]
pub struct SessionContext {
    pub session_id: String,
    pub conversation_id: String,
}

/// The trace a request belongs to.
#[derive(Debug, Clone, PartialEq, Eq)]
pub struct TraceContext {
    pub trace_id: String,
    pub parent_span_id: Option<String>,
}

impl TraceContext {
    /// A root trace context with the given trace id.
    pub fn new(trace_id: &str) -> (r: Self)
        ensures
            r.trace_id@ == trace_id@,
            r.parent_span_id is None,
    {
        TraceContext { trace_id: owned(trace_id), parent_span_id: None }
    }

    pub(crate) fn duplicate(&self) -> (r: Self)
        ensures
            r == *self,
    {
        TraceContext { trace_id: self.trace_id.clone(), parent_span_id: self.parent_span_id.clone() }
    }
}

/// Who acts and why, for the audit trail.
#[derive(Debug, Clone, PartialEq, Eq)]
pub struct AuditContext {
    pub actor: String,
    pub reason: String,
}

impl AuditContext {
    /// An audit context whose actor is the system.
    pub fn system(reason: &str) -> (r: Self)
        ensures
            r.actor@ == "system"@,
            r.reason@ == reason@,
    {
        AuditContext { actor: owned("system"), reason: owned(reason) }
    }
}

/// Who may see an event.
#[derive(Debug, Clone, Copy, PartialEq, Eq, Structural)]
pub enum Visibility {
    Internal,
    User,
    Audit,
}

} // verus!
