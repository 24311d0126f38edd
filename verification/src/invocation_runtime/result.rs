//! The results of an invocation, and what each kind of result holds.
use vstd::prelude::*;

use crate::event::{KernelEventEnvelope, KernelEventPayload, KernelEventSeverity, KernelEventType};
use crate::context::Visibility;
use crate::fields::PublicFields;
use crate::installed_manifest::transport_name;
use crate::invocation::KernelInvocationEnvelope;
use crate::invocation_runtime::handler::KernelHandlerResult;
use crate::route_runtime::{contract_text, KernelRouteRuntimeOutput};
use crate::text::opt_view;

verus! {

/// Whether an invocation completed.
#[derive(Debug, Clone, Copy, PartialEq, Eq, Structural)]
pub enum KernelInvocationStatus {
    Completed,
    Failed,
}

/// The route of an invocation as its result reports it.
#[derive(Debug, Clone, PartialEq, Eq)]
pub struct KernelInvocationResultRoute {
    pub component_id: String,
    pub app_id: String,
    pub capability_id: String,
    pub contract_version: String,
}

/// The public result of an invocation.
#[derive(Debug, Clone, PartialEq, Eq)]
pub struct KernelInvocationResultEnvelope {
    pub invocation_id: String,
    pub trace_id: String,
    pub operation: String,
    pub status: KernelInvocationStatus,
    pub route: Option<KernelInvocationResultRoute>,
    pub handler_kind: Option<String>,
    pub result_kind: Option<String>,
    pub summary: String,
    pub public_fields: PublicFields,
    pub failure_stage: Option<String>,
    pub failure_reason: Option<String>,
    pub handler_executed: bool,
    pub event_generated: bool,
    pub ledger_appended: bool,
}

/// Everything an invocation did and produced.
#[derive(Debug, Clone, PartialEq, Eq)]
pub struct KernelInvocationRuntimeOutput {
    pub status: KernelInvocationStatus,
    pub route: Option<KernelRouteRuntimeOutput>,
    pub event: Option<KernelEventEnvelope>,
    pub result: Option<KernelInvocationResultEnvelope>,
    pub route_decision_made: bool,
    pub handler_executed: bool,
    pub event_generated: bool,
    pub handler_kind: Option<String>,
    pub failure_stage: Option<String>,
    pub failure_reason: Option<String>,
    pub spawned_process: bool,
    pub called_real_component: bool,
    pub transport: Option<String>,
    pub process_exit_code: Option<i32>,
    pub ledger_appended: bool,
    pub ledger_path: Option<String>,
    pub ledger_record_count: usize,
}

/// Whether `rr` reports `route`: its component, app, capability and contract text.
pub open spec fn is_result_route(rr: KernelInvocationResultRoute, route: KernelRouteRuntimeOutput) -> bool {
    &&& rr.component_id@ == route.component_id@
    &&& rr.app_id@ == route.app_id@
    &&& rr.capability_id@ == route.capability_id@
    &&& rr.contract_version@ == contract_text(route.contract_version)
}

/// Whether `r` reports `route`, or no route when there is none.
pub open spec fn reports_route(r: Option<KernelInvocationResultRoute>, route: Option<KernelRouteRuntimeOutput>) -> bool {
    match route {
        Some(rt) => r matches Some(rr) && is_result_route(rr, rt),
        None => r is None,
    }
}

/// Whether `r` names the invocation of `env`: its id, trace and operation.
pub open spec fn names_invocation(r: KernelInvocationResultEnvelope, env: KernelInvocationEnvelope) -> bool {
    &&& r.invocation_id@ == env.invocation_id@
    &&& r.trace_id@ == env.trace_context.trace_id@
    &&& r.operation@ == env.operation@
}

/// Whether `r` is the failed result of `env` at `stage` for `reason`: the
/// reason is also its summary, and it has no result kind and no public fields.
pub open spec fn is_failure_result(
    r: KernelInvocationResultEnvelope,
    env: KernelInvocationEnvelope,
    route: Option<KernelRouteRuntimeOutput>,
    stage: Seq<char>,
    reason: Seq<char>,
    handler_executed: bool,
    event_generated: bool,
    handler_kind: Option<Seq<char>>,
) -> bool {
    &&& names_invocation(r, env)
    &&& r.status == KernelInvocationStatus::Failed
    &&& reports_route(r.route, route)
    &&& opt_view(r.handler_kind) == handler_kind
    &&& r.result_kind is None
    &&& r.summary@ == reason
    &&& r.public_fields@ == Map::<Seq<char>, Seq<char>>::empty()
    &&& opt_view(r.failure_stage) == Some(stage)
    &&& opt_view(r.failure_reason) == Some(reason)
    &&& r.handler_executed == handler_executed
    &&& r.event_generated == event_generated
    &&& !r.ledger_appended
}

/// Whether `r` is the completed result of `env` over `route` carrying the
/// handler's result `res`, produced by a handler of kind `handler_kind`.
pub open spec fn is_success_result(
    r: KernelInvocationResultEnvelope,
    env: KernelInvocationEnvelope,
    route: KernelRouteRuntimeOutput,
    res: KernelHandlerResult,
    handler_kind: Seq<char>,
) -> bool {
    &&& names_invocation(r, env)
    &&& r.status == KernelInvocationStatus::Completed
    &&& reports_route(r.route, Some(route))
    &&& opt_view(r.handler_kind) == Some(handler_kind)
    &&& r.result_kind == res.result_kind
    &&& r.summary == res.summary
    &&& r.public_fields == res.public_fields
    &&& r.failure_stage is None
    &&& r.failure_reason is None
    &&& r.handler_executed
    &&& r.event_generated
    &&& !r.ledger_appended
}

/// Whether `ev` is the user-visible completion event of `env` over `route`
/// with `summary` as its payload.
pub open spec fn is_completion_event(ev: KernelEventEnvelope, env: KernelInvocationEnvelope, route: KernelRouteRuntimeOutput, summary: Seq<char>) -> bool {
    &&& ev.event_id@ == "event."@ + env.operation@
    &&& ev.event_type == KernelEventType::InvocationCompleted
    &&& ev.instance_id@ == env.instance_id@
    &&& ev.app_id@ == route.app_id@
    &&& ev.invocation_id@ == env.invocation_id@
    &&& ev.visibility == Visibility::User
    &&& ev.severity == KernelEventSeverity::Info
    &&& ev.payload matches KernelEventPayload::Summary(s) && s@ == summary
    &&& ev.trace_context == env.trace_context
}

/// The transport an output reports for `route`.
pub open spec fn route_transport(route: KernelRouteRuntimeOutput) -> Option<Seq<char>> {
    Some(transport_name(route.transport))
}

/// Whether `o` made no use of a ledger.
pub open spec fn without_ledger(o: KernelInvocationRuntimeOutput) -> bool {
    &&& !o.ledger_appended
    &&& o.ledger_path is None
    &&& o.ledger_record_count == 0
}

/// Whether `o` has these flags and failure details.
pub open spec fn has_flags(
    o: KernelInvocationRuntimeOutput,
    route_decision_made: bool,
    handler_executed: bool,
    event_generated: bool,
    handler_kind: Option<Seq<char>>,
    failure_stage: Option<Seq<char>>,
    failure_reason: Option<Seq<char>>,
    spawned_process: bool,
    transport: Option<Seq<char>>,
    process_exit_code: Option<i32>,
) -> bool {
    &&& o.route_decision_made == route_decision_made
    &&& o.handler_executed == handler_executed
    &&& o.event_generated == event_generated
    &&& opt_view(o.handler_kind) == handler_kind
    &&& opt_view(o.failure_stage) == failure_stage
    &&& opt_view(o.failure_reason) == failure_reason
    &&& o.spawned_process == spawned_process
    &&& !o.called_real_component
    &&& opt_view(o.transport) == transport
    &&& o.process_exit_code == process_exit_code
}

} // verus!
