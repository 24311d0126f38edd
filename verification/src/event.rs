//! Kernel events.
use vstd::prelude::*;

use crate::context::{TraceContext, Visibility};
use crate::text::owned;

verus! {

/// What happened.
#[derive(Debug, Clone, Copy, PartialEq, Eq, Structural)]
pub enum KernelEventType {
    AppRegistered,
    InvocationStarted,
    InvocationCompleted,
    InvocationFailed,
    RouteDecided,
    WorkQueued,
    WorkStarted,
    WorkCompleted,
}

/// How much it matters.
#[derive(Debug, Clone, Copy, PartialEq, Eq, Structural)]
pub enum KernelEventSeverity {
    Debug,
    Info,
    Warning,
    Error,
}

/// What an event carries.
#[derive(Debug, Clone, PartialEq, Eq)]
pub enum KernelEventPayload {
    Summary(String),
    Empty,
}

/// An event with its instance, app, invocation and trace.
#[derive(Debug, Clone, PartialEq, Eq)]
pub struct KernelEventEnvelope {
    pub event_id: String,
    pub event_type: KernelEventType,
    pub instance_id: String,
    pub app_id: String,
    pub invocation_id: String,
    pub visibility: Visibility,
    pub severity: KernelEventSeverity,
    pub payload: KernelEventPayload,
    pub trace_context: TraceContext,
}

impl KernelEventEnvelope {
    /// An informational event with an empty payload in the trace `trace.event`.
    pub fn new(
        event_id: &str,
        event_type: KernelEventType,
        instance_id: &str,
        app_id: &str,
        invocation_id: &str,
        visibility: Visibility,
    ) -> (r: Self)
        ensures
            r.event_id@ == event_id@,
            r.event_type == event_type,
            r.instance_id@ == instance_id@,
            r.app_id@ == app_id@,
            r.invocation_id@ == invocation_id@,
            r.visibility == visibility,
            r.severity == KernelEventSeverity::Info,
            r.payload == KernelEventPayload::Empty,
            r.trace_context.trace_id@ == "trace.event"@,
            r.trace_context.parent_span_id is None,
    {
        KernelEventEnvelope {
            event_id: owned(event_id),
            event_type,
            instance_id: owned(instance_id),
            app_id: owned(app_id),
            invocation_id: owned(invocation_id),
            visibility,
            severity: KernelEventSeverity::Info,
            payload: KernelEventPayload::Empty,
            trace_context: TraceContext::new("trace.event"),
        }
    }
}

} // verus!
