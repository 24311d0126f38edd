//! How each outcome of an invocation is reported.
use vstd::prelude::*;

use crate::context::Visibility;
use crate::event::{KernelEventEnvelope, KernelEventPayload, KernelEventType};
use crate::fields::PublicFields;
use crate::invocation::KernelInvocationEnvelope;
use crate::invocation_ledger::KernelInvocationLedger;
use crate::invocation_runtime::handler::{KernelHandlerError, KernelHandlerResult};
use crate::invocation_runtime::result::{
    has_flags, is_completion_event, is_failure_result, is_success_result, route_transport, without_ledger,
    is_result_route, KernelInvocationResultEnvelope, KernelInvocationResultRoute, KernelInvocationRuntimeOutput,
    KernelInvocationStatus,
};
use crate::invocation_runtime::runtime::KernelInvocationRuntime;
use crate::route_runtime::{format_contract, route_error_text, KernelRouteRuntimeError, KernelRouteRuntimeOutput};
use crate::text::{append_str, opt_view, owned};

verus! {

broadcast use vstd::string::group_string_axioms;

/// The reason given when no handler is registered for the operation.
pub open spec fn missing_handler_reason() -> Seq<char> {
    "missing handler for operation"@
}

/// The prefix of a ledger failure after the action already happened.
pub open spec fn audit_close_prefix() -> Seq<char> {
    "audit close failed after action happened: "@
}

/// The route behind an optional reference.
pub open spec fn route_of(route: Option<&KernelRouteRuntimeOutput>) -> Option<KernelRouteRuntimeOutput> {
    match route {
        Some(r) => Some(*r),
        None => None,
    }
}

/// Whether `o` reports that routing `env` failed with `error`.
pub open spec fn is_route_failure(o: KernelInvocationRuntimeOutput, env: KernelInvocationEnvelope, error: KernelRouteRuntimeError) -> bool {
    let reason = route_error_text(error);
    &&& o.status == KernelInvocationStatus::Failed
    &&& o.route is None
    &&& o.event is None
    &&& o.result matches Some(r) && is_failure_result(r, env, None, "route"@, reason, false, false, None)
    &&& has_flags(o, false, false, false, None, Some("route"@), Some(reason), false, None, None)
    &&& without_ledger(o)
}

/// Whether `o` reports that `env` was routed to `route` but no handler serves it.
pub open spec fn is_missing_handler(o: KernelInvocationRuntimeOutput, env: KernelInvocationEnvelope, route: KernelRouteRuntimeOutput) -> bool {
    let reason = missing_handler_reason();
    &&& o.status == KernelInvocationStatus::Failed
    &&& o.route == Some(route)
    &&& o.event is None
    &&& o.result matches Some(r) && is_failure_result(r, env, Some(route), "handler_lookup"@, reason, false, false, None)
    &&& has_flags(o, true, false, false, None, Some("handler_lookup"@), Some(reason), false, route_transport(route), None)
    &&& without_ledger(o)
}

/// Whether `o` reports that the in-process handler for `env` failed with `error`.
pub open spec fn is_handler_failure(
    o: KernelInvocationRuntimeOutput,
    env: KernelInvocationEnvelope,
    route: KernelRouteRuntimeOutput,
    error: KernelHandlerError,
) -> bool {
    let reason = error.message@;
    &&& o.status == KernelInvocationStatus::Failed
    &&& o.route == Some(route)
    &&& o.event is None
    &&& o.result matches Some(r) && is_failure_result(r, env, Some(route), "handler_execute"@, reason, true, false, Some("in_process"@))
    &&& has_flags(o, true, true, false, Some("in_process"@), Some("handler_execute"@), Some(reason), false, route_transport(route), None)
    &&& without_ledger(o)
}

/// Whether `o` reports a completed invocation with `event` and `result`,
/// and the handler metadata given.
pub open spec fn is_completed_with(
    o: KernelInvocationRuntimeOutput,
    route: KernelRouteRuntimeOutput,
    event: KernelEventEnvelope,
    result: Option<KernelInvocationResultEnvelope>,
    handler_kind: Option<Seq<char>>,
    spawned_process: bool,
    transport: Option<Seq<char>>,
    process_exit_code: Option<i32>,
) -> bool {
    &&& o.status == KernelInvocationStatus::Completed
    &&& o.route == Some(route)
    &&& o.event == Some(event)
    &&& o.result == result
    &&& has_flags(o, true, true, true, handler_kind, None, None, spawned_process, transport, process_exit_code)
    &&& without_ledger(o)
}

/// Whether `o` reports that the in-process handler for `env` returned `res`.
pub open spec fn is_completed(o: KernelInvocationRuntimeOutput, env: KernelInvocationEnvelope, route: KernelRouteRuntimeOutput, res: KernelHandlerResult) -> bool {
    &&& o.event matches Some(ev) && is_completion_event(ev, env, route, res.summary@)
    &&& o.result matches Some(r) && is_success_result(r, env, route, res, "in_process"@)
    &&& o.status == KernelInvocationStatus::Completed
    &&& o.route == Some(route)
    &&& has_flags(o, true, true, true, Some("in_process"@), None, None, false, None, None)
    &&& without_ledger(o)
}

/// Whether `o` is `output` with the ledger's path, the number of records
/// appended, and whether the ledger was appended (also marked on its result).
pub open spec fn is_with_ledger(
    o: KernelInvocationRuntimeOutput,
    output: KernelInvocationRuntimeOutput,
    ledger: KernelInvocationLedger,
    count: usize,
    appended: bool,
) -> bool {
    &&& o == (KernelInvocationRuntimeOutput {
        ledger_appended: appended,
        ledger_path: o.ledger_path,
        ledger_record_count: count,
        result: o.result,
        ..output
    })
    &&& opt_view(o.ledger_path) == Some(ledger.path_view())
    &&& match output.result {
        Some(r) => o.result == Some(KernelInvocationResultEnvelope { ledger_appended: appended, ..r }),
        None => o.result is None,
    }
}

/// Whether `o` reports that the ledger refused a record with `error`, after
/// the given progress, with `count` records appended.
pub open spec fn is_ledger_failure(
    o: KernelInvocationRuntimeOutput,
    route: Option<KernelRouteRuntimeOutput>,
    event: Option<KernelEventEnvelope>,
    handler_executed: bool,
    event_generated: bool,
    handler_kind: Option<Seq<char>>,
    route_decision_made: bool,
    error: Seq<char>,
    ledger: KernelInvocationLedger,
    count: usize,
) -> bool {
    let transport = match route {
        Some(rt) => route_transport(rt),
        None => None,
    };
    &&& o.status == KernelInvocationStatus::Failed
    &&& o.route == route
    &&& o.event == event
    &&& o.result is None
    &&& has_flags(o, route_decision_made, handler_executed, event_generated, handler_kind, Some("ledger_append"@), Some(error), false, transport, None)
    &&& !o.ledger_appended
    &&& opt_view(o.ledger_path) == Some(ledger.path_view())
    &&& o.ledger_record_count == count
}

impl KernelInvocationRuntime {
    /// The route as an invocation result reports it.
    pub fn result_route(route: &KernelRouteRuntimeOutput) -> (r: KernelInvocationResultRoute)
        ensures
            is_result_route(r, *route),
    {
        KernelInvocationResultRoute {
            component_id: route.component_id.clone(),
            app_id: route.app_id.clone(),
            capability_id: route.capability_id.clone(),
            contract_version: format_contract(&route.contract_version),
        }
    }

    /// The failed result of `envelope` at `failure_stage` for `failure_reason`.
    pub fn failure_result(
        envelope: &KernelInvocationEnvelope,
        route: Option<&KernelRouteRuntimeOutput>,
        failure_stage: &str,
        failure_reason: &str,
        handler_executed: bool,
        event_generated: bool,
        handler_kind: Option<String>,
    ) -> (r: KernelInvocationResultEnvelope)
        ensures
            is_failure_result(r, *envelope, route_of(route), failure_stage@, failure_reason@, handler_executed, event_generated, opt_view(handler_kind)),
    {
        let rr = match route {
            Some(rt) => Some(Self::result_route(rt)),
            None => None,
        };
        KernelInvocationResultEnvelope {
            invocation_id: envelope.invocation_id.clone(),
            trace_id: envelope.trace_context.trace_id.clone(),
            operation: envelope.operation.clone(),
            status: KernelInvocationStatus::Failed,
            route: rr,
            handler_kind,
            result_kind: None,
            summary: owned(failure_reason),
            public_fields: PublicFields::new(),
            failure_stage: Some(owned(failure_stage)),
            failure_reason: Some(owned(failure_reason)),
            handler_executed,
            event_generated,
            ledger_appended: false,
        }
    }

    /// The completed result of `envelope` carrying the handler's `result`.
    pub fn success_result(
        envelope: &KernelInvocationEnvelope,
        route: &KernelRouteRuntimeOutput,
        result: KernelHandlerResult,
        handler_kind: &str,
    ) -> (r: KernelInvocationResultEnvelope)
        ensures
            is_success_result(r, *envelope, *route, result, handler_kind@),
    {
        KernelInvocationResultEnvelope {
            invocation_id: envelope.invocation_id.clone(),
            trace_id: envelope.trace_context.trace_id.clone(),
            operation: envelope.operation.clone(),
            status: KernelInvocationStatus::Completed,
            route: Some(Self::result_route(route)),
            handler_kind: Some(owned(handler_kind)),
            result_kind: result.result_kind,
            summary: result.summary,
            public_fields: result.public_fields,
            failure_stage: None,
            failure_reason: None,
            handler_executed: true,
            event_generated: true,
            ledger_appended: false,
        }
    }

    /// The failure of an invocation whose operation could not be routed.
    pub fn route_failure(envelope: &KernelInvocationEnvelope, error: KernelRouteRuntimeError) -> (o: KernelInvocationRuntimeOutput)
        ensures
            is_route_failure(o, *envelope, error),
    {
        let reason = error.to_string();
        KernelInvocationRuntimeOutput {
            status: KernelInvocationStatus::Failed,
            route: None,
            event: None,
            result: Some(Self::failure_result(envelope, None, "route", reason.as_str(), false, false, None)),
            route_decision_made: false,
            handler_executed: false,
            event_generated: false,
            handler_kind: None,
            failure_stage: Some(owned("route")),
            failure_reason: Some(reason),
            spawned_process: false,
            called_real_component: false,
            transport: None,
            process_exit_code: None,
            ledger_appended: false,
            ledger_path: None,
            ledger_record_count: 0,
        }
    }

    /// The failure of an invocation whose operation has no handler.
    pub fn missing_handler(envelope: &KernelInvocationEnvelope, route: KernelRouteRuntimeOutput) -> (o: KernelInvocationRuntimeOutput)
        ensures
            is_missing_handler(o, *envelope, route),
    {
        let reason = "missing handler for operation";
        let result = Self::failure_result(envelope, Some(&route), "handler_lookup", reason, false, false, None);
        let transport = owned(route.transport.as_str());
        KernelInvocationRuntimeOutput {
            status: KernelInvocationStatus::Failed,
            route: Some(route),
            event: None,
            result: Some(result),
            route_decision_made: true,
            handler_executed: false,
            event_generated: false,
            handler_kind: None,
            failure_stage: Some(owned("handler_lookup")),
            failure_reason: Some(owned(reason)),
            spawned_process: false,
            called_real_component: false,
            transport: Some(transport),
            process_exit_code: None,
            ledger_appended: false,
            ledger_path: None,
            ledger_record_count: 0,
        }
    }

    /// The failure of an invocation whose in-process handler failed with `error`.
    pub fn handler_failure(
        envelope: &KernelInvocationEnvelope,
        route: KernelRouteRuntimeOutput,
        error: KernelHandlerError,
    ) -> (o: KernelInvocationRuntimeOutput)
        ensures
            is_handler_failure(o, *envelope, route, error),
    {
        let reason = error.to_string();
        let result = Self::failure_result(
            envelope,
            Some(&route),
            "handler_execute",
            reason.as_str(),
            true,
            false,
            Some(owned("in_process")),
        );
        let transport = owned(route.transport.as_str());
        KernelInvocationRuntimeOutput {
            status: KernelInvocationStatus::Failed,
            route: Some(route),
            event: None,
            result: Some(result),
            route_decision_made: true,
            handler_executed: true,
            event_generated: false,
            handler_kind: Some(owned("in_process")),
            failure_stage: Some(owned("handler_execute")),
            failure_reason: Some(reason),
            spawned_process: false,
            called_real_component: false,
            transport: Some(transport),
            process_exit_code: None,
            ledger_appended: false,
            ledger_path: None,
            ledger_record_count: 0,
        }
    }

    /// The completion event and the completed result of a handler of kind
    /// `handler_kind` that returned `result`.
    pub fn event_from_result_with_handler_kind(
        envelope: &KernelInvocationEnvelope,
        route: &KernelRouteRuntimeOutput,
        result: KernelHandlerResult,
        handler_kind: &str,
    ) -> (r: (KernelEventEnvelope, KernelInvocationResultEnvelope))
        ensures
            is_completion_event(r.0, *envelope, *route, result.summary@),
            is_success_result(r.1, *envelope, *route, result, handler_kind@),
    {
        let mut event_id = owned("event.");
        append_str(&mut event_id, envelope.operation.as_str());
        let mut event = KernelEventEnvelope::new(
            event_id.as_str(),
            KernelEventType::InvocationCompleted,
            envelope.instance_id.as_str(),
            route.app_id.as_str(),
            envelope.invocation_id.as_str(),
            Visibility::User,
        );
        event.payload = KernelEventPayload::Summary(result.summary.clone());
        event.trace_context = envelope.trace_context.duplicate();
        let r = Self::success_result(envelope, route, result, handler_kind);
        (event, r)
    }

    /// The completion event and result of an in-process handler.
    pub fn event_from_result(
        envelope: &KernelInvocationEnvelope,
        route: &KernelRouteRuntimeOutput,
        result: KernelHandlerResult,
    ) -> (r: (KernelEventEnvelope, KernelInvocationResultEnvelope))
        ensures
            is_completion_event(r.0, *envelope, *route, result.summary@),
            is_success_result(r.1, *envelope, *route, result, "in_process"@),
    {
        Self::event_from_result_with_handler_kind(envelope, route, result, "in_process")
    }

    /// The completion event and result of a component process.
    pub fn event_from_process_result(
        envelope: &KernelInvocationEnvelope,
        route: &KernelRouteRuntimeOutput,
        result: KernelHandlerResult,
    ) -> (r: (KernelEventEnvelope, KernelInvocationResultEnvelope))
        ensures
            is_completion_event(r.0, *envelope, *route, result.summary@),
            is_success_result(r.1, *envelope, *route, result, "local_process"@),
    {
        Self::event_from_result_with_handler_kind(envelope, route, result, "local_process")
    }

    /// A completed invocation with `event`, `result` and the handler metadata given.
    pub fn completed_from_event_with_metadata(
        route: KernelRouteRuntimeOutput,
        event: KernelEventEnvelope,
        result: Option<KernelInvocationResultEnvelope>,
        handler_kind: Option<String>,
        spawned_process: bool,
        called_real_component: bool,
        transport: Option<String>,
        process_exit_code: Option<i32>,
    ) -> (o: KernelInvocationRuntimeOutput)
        ensures
            o == (KernelInvocationRuntimeOutput {
                status: KernelInvocationStatus::Completed,
                route: Some(route),
                event: Some(event),
                result,
                route_decision_made: true,
                handler_executed: true,
                event_generated: true,
                handler_kind,
                failure_stage: None,
                failure_reason: None,
                spawned_process,
                called_real_component,
                transport,
                process_exit_code,
                ledger_appended: false,
                ledger_path: None,
                ledger_record_count: 0,
            }),
    {
        KernelInvocationRuntimeOutput {
            status: KernelInvocationStatus::Completed,
            route: Some(route),
            event: Some(event),
            result,
            route_decision_made: true,
            handler_executed: true,
            event_generated: true,
            handler_kind,
            failure_stage: None,
            failure_reason: None,
            spawned_process,
            called_real_component,
            transport,
            process_exit_code,
            ledger_appended: false,
            ledger_path: None,
            ledger_record_count: 0,
        }
    }

    /// A completed in-process invocation with `event` and `result`.
    pub fn completed_from_event(
        route: KernelRouteRuntimeOutput,
        event: KernelEventEnvelope,
        result: Option<KernelInvocationResultEnvelope>,
    ) -> (o: KernelInvocationRuntimeOutput)
        ensures
            is_completed_with(o, route, event, result, Some("in_process"@), false, None, None),
    {
        Self::completed_from_event_with_metadata(route, event, result, Some(owned("in_process")), false, false, None, None)
    }

    /// The completed invocation of `envelope` whose in-process handler returned `result`.
    pub fn completed(envelope: KernelInvocationEnvelope, route: KernelRouteRuntimeOutput, result: KernelHandlerResult) -> (o: KernelInvocationRuntimeOutput)
        ensures
            is_completed(o, envelope, route, result),
    {
        let (event, r) = Self::event_from_result(&envelope, &route, result);
        Self::completed_from_event(route, event, Some(r))
    }

    /// `output` with the ledger's path, the number of records appended, and
    /// whether the ledger was appended, also marked on its result.
    pub fn with_ledger(
        output: KernelInvocationRuntimeOutput,
        ledger: &KernelInvocationLedger,
        ledger_record_count: usize,
        ledger_appended: bool,
    ) -> (o: KernelInvocationRuntimeOutput)
        ensures
            is_with_ledger(o, output, *ledger, ledger_record_count, ledger_appended),
    {
        let result = match output.result {
            Some(r) => Some(KernelInvocationResultEnvelope { ledger_appended, ..r }),
            None => None,
        };
        KernelInvocationRuntimeOutput {
            ledger_appended,
            ledger_path: Some(owned(ledger.path())),
            ledger_record_count,
            result,
            ..output
        }
    }

    /// The failure of an invocation whose ledger refused a record with `error`.
    pub fn ledger_failure(
        route: Option<KernelRouteRuntimeOutput>,
        event: Option<KernelEventEnvelope>,
        handler_executed: bool,
        event_generated: bool,
        handler_kind: Option<String>,
        route_decision_made: bool,
        error: String,
        ledger: &KernelInvocationLedger,
        ledger_record_count: usize,
    ) -> (o: KernelInvocationRuntimeOutput)
        ensures
            is_ledger_failure(o, route, event, handler_executed, event_generated, opt_view(handler_kind),
                route_decision_made, error@, *ledger, ledger_record_count),
            o.handler_kind == handler_kind,
    {
        let transport = match &route {
            Some(rt) => Some(owned(rt.transport.as_str())),
            None => None,
        };
        KernelInvocationRuntimeOutput {
            status: KernelInvocationStatus::Failed,
            route,
            event,
            result: None,
            route_decision_made,
            handler_executed,
            event_generated,
            handler_kind,
            failure_stage: Some(owned("ledger_append")),
            failure_reason: Some(error),
            spawned_process: false,
            called_real_component: false,
            transport,
            process_exit_code: None,
            ledger_appended: false,
            ledger_path: Some(owned(ledger.path())),
            ledger_record_count,
        }
    }

    /// The failure of an in-process invocation whose handler ran and whose
    /// event was made, but whose closing ledger record was refused.
    pub fn completed_ledger_failure(
        route: KernelRouteRuntimeOutput,
        event: KernelEventEnvelope,
        error: String,
        ledger: &KernelInvocationLedger,
        ledger_record_count: usize,
    ) -> (o: KernelInvocationRuntimeOutput)
        ensures
            is_ledger_failure(o, Some(route), Some(event), true, true, Some("in_process"@), true,
                audit_close_prefix() + error@, *ledger, ledger_record_count),
    {
        let mut reason = owned("audit close failed after action happened: ");
        append_str(&mut reason, error.as_str());
        Self::ledger_failure(Some(route), Some(event), true, true, Some(owned("in_process")), true, reason, ledger, ledger_record_count)
    }

    /// The failure of an invocation whose action happened and whose result
    /// is kept, but whose closing ledger record was refused: the result is
    /// marked failed at `ledger_append`, and a result that reports
    /// `write_applied` also reports `audit_closed` as `false`.
    pub fn completed_ledger_failure_with_result(
        route: KernelRouteRuntimeOutput,
        event: KernelEventEnvelope,
        result: KernelInvocationResultEnvelope,
        handler_kind: Option<String>,
        spawned_process: bool,
        transport: Option<String>,
        process_exit_code: Option<i32>,
        error: String,
        ledger: &KernelInvocationLedger,
        ledger_record_count: usize,
    ) -> (o: KernelInvocationRuntimeOutput)
        ensures
            o.status == KernelInvocationStatus::Failed,
            o.route == Some(route),
            o.event == Some(event),
            o.result matches Some(r) && r == (KernelInvocationResultEnvelope {
                status: KernelInvocationStatus::Failed,
                failure_stage: r.failure_stage,
                failure_reason: r.failure_reason,
                ledger_appended: false,
                public_fields: r.public_fields,
                ..result
            }) && opt_view(r.failure_stage) == Some("ledger_append"@)
                && opt_view(r.failure_reason) == Some(audit_close_prefix() + error@)
                && r.public_fields@ == (if result.public_fields@.contains_key("write_applied"@) {
                    result.public_fields@.insert("audit_closed"@, "false"@)
                } else {
                    result.public_fields@
                }),
            o.route_decision_made && o.handler_executed && o.event_generated,
            o.handler_kind == handler_kind,
            opt_view(o.failure_stage) == Some("ledger_append"@),
            opt_view(o.failure_reason) == Some(audit_close_prefix() + error@),
            o.spawned_process == spawned_process,
            !o.called_real_component,
            o.transport == transport,
            o.process_exit_code == process_exit_code,
            !o.ledger_appended,
            opt_view(o.ledger_path) == Some(ledger.path_view()),
            o.ledger_record_count == ledger_record_count,
    {
        let mut reason = owned("audit close failed after action happened: ");
        append_str(&mut reason, error.as_str());
        let mut fields = result.public_fields;
        if fields.get("write_applied").is_some() {
            fields.insert(owned("audit_closed"), owned("false"));
        }
        let r = KernelInvocationResultEnvelope {
            status: KernelInvocationStatus::Failed,
            failure_stage: Some(owned("ledger_append")),
            failure_reason: Some(reason.clone()),
            ledger_appended: false,
            public_fields: fields,
            ..result
        };
        KernelInvocationRuntimeOutput {
            status: KernelInvocationStatus::Failed,
            route: Some(route),
            event: Some(event),
            result: Some(r),
            route_decision_made: true,
            handler_executed: true,
            event_generated: true,
            handler_kind,
            failure_stage: Some(owned("ledger_append")),
            failure_reason: Some(reason),
            spawned_process,
            called_real_component: false,
            transport,
            process_exit_code,
            ledger_appended: false,
            ledger_path: Some(owned(ledger.path())),
            ledger_record_count,
        }
    }
}

} // verus!
