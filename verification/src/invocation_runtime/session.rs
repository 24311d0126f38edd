//! Ledgered invocations: the same invocation, with each stage recorded in
//! the invocation ledger before the next one happens. Writing the ledger
//! and running component processes are the caller's part; a ledger that
//! refuses a record ends the invocation there.
use vstd::prelude::*;

use crate::event::KernelEventEnvelope;
use crate::installed_manifest::{transport_name, ComponentInvocationMode, InstalledComponentManifest};
use crate::invocation::KernelInvocationEnvelope;
use crate::invocation_ledger::{record_json_line, redacted, refusal_text, KernelInvocationLedger, KernelInvocationLedgerRecord};
use crate::invocation_runtime::handler::{KernelHandlerError, KernelHandlerRegistry, KernelHandlerResult};
use crate::invocation_runtime::outputs::{audit_close_prefix, is_completed, is_handler_failure, is_route_failure, is_with_ledger};
use crate::invocation_runtime::process::{event_outcome_ok, finish_component_process, is_prepared_request, prepare_component_process, ComponentProcessEvent, ComponentProcessFailure, ComponentProcessRequest, ComponentProcessSuccess};
use crate::invocation_runtime::result::{
    is_completion_event, is_success_result, KernelInvocationResultEnvelope, KernelInvocationRuntimeOutput, KernelInvocationStatus,
};
use crate::invocation_runtime::runtime::{in_process_outcome, is_process_completed, process_outcome, routes_envelope, unledgered_outcome, KernelInvocationRuntime};
use crate::route_runtime::{contract_text, route_error_text, KernelRouteRuntimeError, KernelRouteRuntimeOutput};
use crate::text::{append_str, opt_view, owned};

verus! {

broadcast use vstd::string::group_string_axioms;

/// Which handler a refused record reports.
#[derive(Debug, Clone, Copy, PartialEq, Eq, Structural)]
enum HandlerTag {
    NoHandler,
    InProcess,
    LocalProcess,
}

/// How a refused record is reported: what the handler had done, whether the
/// event is reported, and whether the action had already happened.
#[derive(Debug, Clone, Copy, PartialEq, Eq, Structural)]
struct RefusalShape {
    handler_executed: bool,
    event_generated: bool,
    handler: HandlerTag,
    with_event: bool,
    after_action: bool,
}

/// How the invocation ends once its queued records are appended.
pub enum Finish {
    RouteFailure(KernelRouteRuntimeError),
    MissingHandler,
    HandlerFailure(KernelHandlerError),
    Completed(KernelInvocationResultEnvelope),
    ProcessCompleted(KernelInvocationResultEnvelope, Option<i32>),
    ProcessFailure(ComponentProcessFailure),
    Output(KernelInvocationRuntimeOutput),
}

/// What comes after the queued records.
pub enum Next {
    Route,
    Handle,
    Process,
    Done(Finish),
}

/// Whether `r` is a fresh record of `stage` for the invocation `env` with
/// `status`, naming the route `route` where there is one, the failure stage
/// and (redacted) reason `failure` where there is one, the handler kind, what
/// the handler did, and the transport and exit code of a component process.
pub open spec fn record_says(
    r: KernelInvocationLedgerRecord,
    env: KernelInvocationEnvelope,
    stage: Seq<char>,
    status: Seq<char>,
    route: Option<KernelRouteRuntimeOutput>,
    failure: Option<(Seq<char>, Seq<char>)>,
    handler_kind: Option<Seq<char>>,
    handler_executed: bool,
    event_generated: bool,
    spawned_process: bool,
    transport: Option<Seq<char>>,
    process_exit_code: Option<i32>,
) -> bool {
    &&& is_record_of(r, env)
    &&& r.stage@ == stage
    &&& r.status@ == status
    &&& match route {
        Some(rt) => opt_view(r.component_id) == Some(rt.component_id@)
            && opt_view(r.app_id) == Some(rt.app_id@)
            && opt_view(r.capability_id) == Some(rt.capability_id@)
            && opt_view(r.contract_version) == Some(contract_text(rt.contract_version)),
        None => r.component_id is None && r.app_id is None && r.capability_id is None && r.contract_version is None,
    }
    &&& match failure {
        Some((fs, fr)) => opt_view(r.failure_stage) == Some(fs) && opt_view(r.failure_reason) == Some(redacted(fr)),
        None => r.failure_stage is None && r.failure_reason is None,
    }
    &&& opt_view(r.handler_kind) == handler_kind
    &&& r.handler_executed == handler_executed
    &&& r.event_generated == event_generated
    &&& r.spawned_process == spawned_process
    &&& !r.called_real_component
    &&& opt_view(r.transport) == transport
    &&& r.process_exit_code == process_exit_code
}

/// Whether `r` is the record of `stage` that the invocation `env` writes
/// where it was routed to `route` (if it was) and `next` is what follows:
/// what each stage reports of the route, the failure and the handler.
pub open spec fn expected_record(
    r: KernelInvocationLedgerRecord,
    env: KernelInvocationEnvelope,
    route: Option<KernelRouteRuntimeOutput>,
    next: Next,
    stage: Seq<char>,
) -> bool {
    let in_process = Some("in_process"@);
    let local = Some("local_process"@);
    match next {
        Next::Route => stage == "accepted"@ && route is None && record_says(r, env, stage, "ok"@, None, None, None, false, false, false, None, None),
        Next::Handle | Next::Process => stage == "route_decision_made"@
            && record_says(r, env, stage, "ok"@, route, None, None, false, false, false, None, None),
        Next::Done(Finish::RouteFailure(e)) => (stage == "route_failed"@ || stage == "invocation_failed"@) && route is None
            && record_says(r, env, stage, "failed"@, None, Some(("route"@, route_error_text(e))), None, false, false, false, None, None),
        Next::Done(Finish::MissingHandler) => (stage == "handler_lookup_failed"@ || stage == "invocation_failed"@)
            && record_says(r, env, stage, "failed"@, route, Some(("handler_lookup"@, "missing handler for operation"@)), None,
                false, false, false, None, None),
        Next::Done(Finish::HandlerFailure(err)) => (stage == "handler_failed"@ || stage == "invocation_failed"@)
            && record_says(r, env, stage, "failed"@, route, Some(("handler_execute"@, err.message@)), in_process,
                true, false, false, None, None),
        Next::Done(Finish::Completed(_)) => (stage == "handler_executed"@
            && record_says(r, env, stage, "ok"@, route, None, in_process, true, false, false, None, None))
            || ((stage == "event_generated"@ || stage == "invocation_completed"@)
            && record_says(r, env, stage, "ok"@, route, None, in_process, true, true, false, None, None)),
        Next::Done(Finish::ProcessCompleted(_, exit_code)) => route matches Some(rt) && ((stage == "handler_executed"@
            && record_says(r, env, stage, "ok"@, route, None, local, true, false, true, Some(transport_name(rt.transport)), exit_code))
            || ((stage == "event_generated"@ || stage == "invocation_completed"@)
            && record_says(r, env, stage, "ok"@, route, None, local, true, true, true, Some(transport_name(rt.transport)), exit_code))),
        Next::Done(Finish::ProcessFailure(f)) => route matches Some(rt) && (stage == "handler_failed"@ || stage == "invocation_failed"@)
            && record_says(r, env, stage, "failed"@, route, Some((f.stage@, f.reason@)), local,
                f.spawned_process, false, f.spawned_process, Some(transport_name(rt.transport)), f.exit_code),
        Next::Done(Finish::Output(_)) => false,
    }
}

/// What a ledger record says depends on the invocation's ids, never on its
/// payload: two envelopes that differ only in their payload expect the same
/// records.
pub proof fn lemma_records_ignore_payload(
    r: KernelInvocationLedgerRecord,
    env: KernelInvocationEnvelope,
    other: KernelInvocationEnvelope,
    route: Option<KernelRouteRuntimeOutput>,
    next: Next,
    stage: Seq<char>,
)
    requires
        other == (KernelInvocationEnvelope { payload: other.payload, ..env }),
    ensures
        expected_record(r, env, route, next, stage) == expected_record(r, other, route, next, stage),
{
}

/// What a ledger record says never depends on the handler's result (its
/// summary, kind or public fields): a completion with either of two results
/// expects the same records.
pub proof fn lemma_records_ignore_result(
    r: KernelInvocationLedgerRecord,
    env: KernelInvocationEnvelope,
    route: Option<KernelRouteRuntimeOutput>,
    first: KernelInvocationResultEnvelope,
    second: KernelInvocationResultEnvelope,
    exit_code: Option<i32>,
    stage: Seq<char>,
)
    ensures
        expected_record(r, env, route, Next::Done(Finish::Completed(first)), stage)
            == expected_record(r, env, route, Next::Done(Finish::Completed(second)), stage),
        expected_record(r, env, route, Next::Done(Finish::ProcessCompleted(first, exit_code)), stage)
            == expected_record(r, env, route, Next::Done(Finish::ProcessCompleted(second, exit_code)), stage),
{
}

/// Whether `r` is a record of the invocation `env`.
pub open spec fn is_record_of(r: KernelInvocationLedgerRecord, env: KernelInvocationEnvelope) -> bool {
    &&& r.invocation_id@ == env.invocation_id@
    &&& r.trace_id@ == env.trace_context.trace_id@
    &&& r.instance_id@ == env.instance_id@
    &&& r.operation@ == env.operation@
}

/// Whether `o` reports a refused record of `ledger` after `count` appended records.
pub open spec fn refusal_output(o: KernelInvocationRuntimeOutput, ledger: KernelInvocationLedger, count: nat) -> bool {
    &&& opt_view(o.failure_stage) == Some("ledger_append"@)
    &&& !o.ledger_appended
    &&& o.ledger_record_count == count
    &&& opt_view(o.ledger_path) == Some(ledger.path_view())
}

spec fn records_left(next: Next) -> int {
    match next {
        Next::Route => 4,
        Next::Handle => 3,
        Next::Process => 3,
        Next::Done(_) => 0,
    }
}

spec fn next_rank(next: Next) -> int {
    match next {
        Next::Route => 3,
        Next::Handle => 2,
        Next::Process => 1,
        Next::Done(_) => 0,
    }
}

/// The stages of the records of `q` from position `from` on.
spec fn queued_stages(q: Seq<(KernelInvocationLedgerRecord, RefusalShape)>, from: int) -> Seq<Seq<char>> {
    Seq::new((q.len() - from) as nat, |i: int| q[from + i].0.stage@)
}

/// The records of a completed invocation, by stage.
pub open spec fn completed_stages() -> Seq<Seq<char>> {
    seq!["accepted"@, "route_decision_made"@, "handler_executed"@, "event_generated"@, "invocation_completed"@]
}

/// The stages a ledgered invocation records, in order, when its outcome is
/// `o` and every record was appended: the five stages of a completed
/// invocation; `route_failed` for a routing failure (no route); a failed
/// handler lookup for a missing handler (no handler kind); and
/// `handler_failed` for a failed in-process handler or component process.
pub open spec fn ledger_stages_of(o: KernelInvocationRuntimeOutput) -> Seq<Seq<char>> {
    if o.status == KernelInvocationStatus::Completed {
        completed_stages()
    } else if o.route is None {
        seq!["accepted"@, "route_failed"@, "invocation_failed"@]
    } else if o.handler_kind is None {
        seq!["accepted"@, "route_decision_made"@, "handler_lookup_failed"@, "invocation_failed"@]
    } else {
        seq!["accepted"@, "route_decision_made"@, "handler_failed"@, "invocation_failed"@]
    }
}

/// The stages the invocation records in all, once `next` is known; none is
/// planned once the ledger refused a record.
spec fn planned_stages(next: Next) -> Option<Seq<Seq<char>>> {
    match next {
        Next::Route => Some(seq!["accepted"@]),
        Next::Handle => Some(seq!["accepted"@, "route_decision_made"@]),
        Next::Process => Some(seq!["accepted"@, "route_decision_made"@]),
        Next::Done(Finish::RouteFailure(_)) => Some(seq!["accepted"@, "route_failed"@, "invocation_failed"@]),
        Next::Done(Finish::MissingHandler) => Some(seq!["accepted"@, "route_decision_made"@, "handler_lookup_failed"@, "invocation_failed"@]),
        Next::Done(Finish::HandlerFailure(_)) => Some(seq!["accepted"@, "route_decision_made"@, "handler_failed"@, "invocation_failed"@]),
        Next::Done(Finish::ProcessFailure(_)) => Some(seq!["accepted"@, "route_decision_made"@, "handler_failed"@, "invocation_failed"@]),
        Next::Done(Finish::Completed(_)) => Some(completed_stages()),
        Next::Done(Finish::ProcessCompleted(_, _)) => Some(completed_stages()),
        Next::Done(Finish::Output(_)) => None,
    }
}

/// Whether `route` is where `env` routes over `ms`, run in process or as a
/// local process as `local` says.
spec fn routed_to(ms: Seq<InstalledComponentManifest>, env: KernelInvocationEnvelope, route: Option<KernelRouteRuntimeOutput>, local: bool) -> bool {
    route matches Some(rt) && routes_envelope(ms, env, Ok(rt))
        && (rt.invocation_mode == ComponentInvocationMode::LocalProcess) == local
}

/// What the invocation has decided so far agrees with routing `env` over
/// `ms`, what the in-process `handlers` returned, and what the component
/// process came to (`process`).
spec fn decided(
    next: Next,
    ms: Seq<InstalledComponentManifest>,
    env: KernelInvocationEnvelope,
    handlers: KernelHandlerRegistry,
    route: Option<KernelRouteRuntimeOutput>,
    event: Option<KernelEventEnvelope>,
    process: Option<Result<ComponentProcessSuccess, ComponentProcessFailure>>,
) -> bool {
    let ops = handlers.operations();
    match next {
        Next::Route => true,
        Next::Handle => routed_to(ms, env, route, false),
        Next::Process => routed_to(ms, env, route, true),
        Next::Done(Finish::RouteFailure(e)) => routes_envelope(ms, env, Err(e)),
        Next::Done(Finish::MissingHandler) => routed_to(ms, env, route, false) && !ops.contains(env.operation@),
        Next::Done(Finish::HandlerFailure(err)) => routed_to(ms, env, route, false) && ops.contains(env.operation@)
            && handlers.handler_handles(env.operation@, env, route->Some_0, Err(err)),
        Next::Done(Finish::Completed(result)) => routed_to(ms, env, route, false) && ops.contains(env.operation@)
            && (event matches Some(ev) && exists|res: KernelHandlerResult| #[trigger] is_success_result(result, env, route->Some_0, res, "in_process"@)
                && is_completion_event(ev, env, route->Some_0, res.summary@)
                && handlers.handler_handles(env.operation@, env, route->Some_0, Ok(res))),
        Next::Done(Finish::ProcessCompleted(result, exit_code)) => routed_to(ms, env, route, true)
            && (event matches Some(ev) && process matches Some(Ok(sc))
                && is_success_result(result, env, route->Some_0, sc.result, "local_process"@)
                && is_completion_event(ev, env, route->Some_0, sc.result.summary@)
                && exit_code == sc.exit_code),
        Next::Done(Finish::ProcessFailure(f)) => routed_to(ms, env, route, true) && process == Some(Err::<ComponentProcessSuccess, ComponentProcessFailure>(f)),
        Next::Done(Finish::Output(_)) => true,
    }
}

/// A ledgered invocation in progress.
pub struct KernelLedgerSession {
    envelope: KernelInvocationEnvelope,
    ledger: KernelInvocationLedger,
    route: Option<KernelRouteRuntimeOutput>,
    event: Option<KernelEventEnvelope>,
    queue: Vec<(KernelInvocationLedgerRecord, RefusalShape)>,
    next_index: usize,
    appended: usize,
    next: Next,
    stages: Ghost<Seq<Seq<char>>>,
    manifests: Ghost<Seq<InstalledComponentManifest>>,
    handlers: Ghost<KernelHandlerRegistry>,
    process: Ghost<Option<Result<ComponentProcessSuccess, ComponentProcessFailure>>>,
}

/// A ledgered invocation waiting for a line to be appended to the ledger file.
pub struct LedgerAppend {
    path: String,
    line: String,
    session: KernelLedgerSession,
}

/// A ledgered invocation waiting for its component process.
pub struct LedgerProcess {
    request: ComponentProcessRequest,
    session: KernelLedgerSession,
}

/// What a ledgered invocation asks of its caller next.
pub enum KernelLedgerStep {
    /// The invocation is over.
    Finished(KernelInvocationRuntimeOutput),
    /// Append a line to the ledger, then report how it went with `LedgerAppend::done`.
    AppendLine(LedgerAppend),
    /// Run a component process, then report what happened with `LedgerProcess::done`.
    RunComponentProcess(LedgerProcess),
}

/// Whether `o` reports that the ledger refused the record `rec` with
/// `error`, after `count` records: a failed invocation without a result,
/// failed at `ledger_append`, with the route `route` (a route decision made
/// exactly when there is one), what the handler had done and its kind as the
/// refused record says, the event only once it was generated, and a reason
/// that marks a refused closing record as coming after the action.
pub open spec fn is_refused_record_output(
    o: KernelInvocationRuntimeOutput,
    rec: KernelInvocationLedgerRecord,
    route: Option<KernelRouteRuntimeOutput>,
    event: Option<KernelEventEnvelope>,
    ledger: KernelInvocationLedger,
    count: nat,
    error: Seq<char>,
) -> bool {
    &&& refusal_output(o, ledger, count)
    &&& o.status == KernelInvocationStatus::Failed
    &&& o.result is None
    &&& o.route == route
    &&& o.route_decision_made == route is Some
    &&& o.handler_executed == rec.handler_executed
    &&& o.event_generated == rec.event_generated
    &&& opt_view(o.handler_kind) == opt_view(rec.handler_kind)
    &&& o.event == (if rec.event_generated { event } else { None })
    &&& !o.spawned_process
    &&& opt_view(o.failure_reason) == Some(if rec.stage@ == "invocation_completed"@ { audit_close_prefix() + error } else { error })
}

/// Only the closing record of a completed invocation has the stage
/// `invocation_completed`.
proof fn lemma_closing_stage_is_distinct()
    ensures
        "accepted"@ != "invocation_completed"@,
        "route_decision_made"@ != "invocation_completed"@,
        "route_failed"@ != "invocation_completed"@,
        "handler_lookup_failed"@ != "invocation_completed"@,
        "handler_failed"@ != "invocation_completed"@,
        "handler_executed"@ != "invocation_completed"@,
        "event_generated"@ != "invocation_completed"@,
        "invocation_failed"@ != "invocation_completed"@,
{
    reveal_strlit("accepted");
    reveal_strlit("route_decision_made");
    reveal_strlit("route_failed");
    reveal_strlit("handler_lookup_failed");
    reveal_strlit("handler_failed");
    reveal_strlit("handler_executed");
    reveal_strlit("event_generated");
    reveal_strlit("invocation_failed");
    reveal_strlit("invocation_completed");
    assert("accepted"@[0] != "invocation_completed"@[0]);
    assert("route_decision_made"@[0] != "invocation_completed"@[0]);
    assert("route_failed"@[0] != "invocation_completed"@[0]);
    assert("handler_lookup_failed"@[0] != "invocation_completed"@[0]);
    assert("handler_failed"@[0] != "invocation_completed"@[0]);
    assert("handler_executed"@[0] != "invocation_completed"@[0]);
    assert("event_generated"@[0] != "invocation_completed"@[0]);
    assert("invocation_failed"@.len() != "invocation_completed"@.len());
}

/// Whether `shape` reports what the record `rec` says of the handler.
spec fn shape_fits(shape: RefusalShape, rec: KernelInvocationLedgerRecord) -> bool {
    &&& shape.handler_executed == rec.handler_executed
    &&& shape.event_generated == rec.event_generated
    &&& shape.with_event == rec.event_generated
    &&& shape.after_action == (rec.stage@ == "invocation_completed"@)
    &&& match shape.handler {
        HandlerTag::NoHandler => rec.handler_kind is None,
        HandlerTag::InProcess => opt_view(rec.handler_kind) == Some("in_process"@),
        HandlerTag::LocalProcess => opt_view(rec.handler_kind) == Some("local_process"@),
    }
}

/// The output of an invocation whose ledger refused a record of `shape`
/// with `error`, after `appended` records.
fn refused_output(
    ledger: &KernelInvocationLedger,
    route: Option<KernelRouteRuntimeOutput>,
    event: Option<KernelEventEnvelope>,
    shape: RefusalShape,
    error: String,
    appended: usize,
    Ghost(rec): Ghost<KernelInvocationLedgerRecord>,
) -> (o: KernelInvocationRuntimeOutput)
    requires
        shape_fits(shape, rec),
    ensures
        is_refused_record_output(o, rec, route, event, *ledger, appended as nat, error@),
        refusal_output(o, *ledger, appended as nat),
        opt_view(o.failure_reason) == Some(if shape.after_action { audit_close_prefix() + error@ } else { error@ }),
        o.route == route,
        o.route_decision_made == route is Some,
        o.handler_executed == shape.handler_executed,
        o.event_generated == shape.event_generated,
{
    proof {
        reveal_strlit("in_process");
        reveal_strlit("local_process");
    }
    let reason = if shape.after_action {
        let mut r = owned("audit close failed after action happened: ");
        append_str(&mut r, error.as_str());
        r
    } else {
        error
    };
    let handler_kind = match shape.handler {
        HandlerTag::NoHandler => None,
        HandlerTag::InProcess => Some(owned("in_process")),
        HandlerTag::LocalProcess => Some(owned("local_process")),
    };
    let route_decision_made = route.is_some();
    let event = if shape.with_event { event } else { None };
    KernelInvocationRuntime::ledger_failure(
        route,
        event,
        shape.handler_executed,
        shape.event_generated,
        handler_kind,
        route_decision_made,
        reason,
        ledger,
        appended,
    )
}

/// The shape of a record refused before any handler ran.
fn plain() -> (r: RefusalShape)
    ensures
        r == (RefusalShape { handler_executed: false, event_generated: false, handler: HandlerTag::NoHandler, with_event: false, after_action: false }),
{
    RefusalShape { handler_executed: false, event_generated: false, handler: HandlerTag::NoHandler, with_event: false, after_action: false }
}

impl KernelLedgerSession {
    #[verifier::type_invariant]
    spec fn well_formed(self) -> bool {
        &&& self.next_index <= self.queue@.len()
        &&& forall|i: int| 0 <= i < self.queue@.len() ==> is_record_of(#[trigger] self.queue@[i].0, self.envelope)
        &&& forall|i: int| self.next_index <= i < self.queue@.len()
            ==> expected_record(#[trigger] self.queue@[i].0, self.envelope, self.route, self.next, self.queue@[i].0.stage@)
        &&& forall|i: int| self.next_index <= i < self.queue@.len() ==> shape_fits(#[trigger] self.queue@[i].1, self.queue@[i].0)
        &&& self.appended + (self.queue@.len() - self.next_index) + records_left(self.next) <= 5
        &&& self.next matches Next::Done(Finish::Output(o)) ==> refusal_output(o, self.ledger, self.appended as nat)
            && self.next_index == self.queue@.len()
        &&& (self.next is Handle || self.next is Process) ==> self.route is Some
        &&& self.stages@.len() == self.appended
        &&& planned_stages(self.next) matches Some(p) ==> self.stages@ + queued_stages(self.queue@, self.next_index as int) == p
        &&& (self.next matches Next::Done(Finish::Completed(_)) || self.next matches Next::Done(Finish::ProcessCompleted(_, _)))
            ==> self.route is Some && self.event is Some
        &&& (self.next matches Next::Done(Finish::MissingHandler) || self.next matches Next::Done(Finish::HandlerFailure(_))
            || self.next matches Next::Done(Finish::ProcessFailure(_))) ==> self.route is Some
        &&& decided(self.next, self.manifests@, self.envelope, self.handlers@, self.route, self.event, self.process@)
        &&& self.process@ is Some ==> (self.next matches Next::Done(Finish::ProcessCompleted(_, _))
            || self.next matches Next::Done(Finish::ProcessFailure(_)) || self.next matches Next::Done(Finish::Output(_)))
    }

    /// The stages of the records appended so far, in order.
    pub closed spec fn stages_view(&self) -> Seq<Seq<char>> {
        self.stages@
    }

    /// The installed manifests of the runtime that started the invocation.
    pub closed spec fn manifests_view(&self) -> Seq<InstalledComponentManifest> {
        self.manifests@
    }

    /// The in-process handlers of that runtime.
    pub closed spec fn handlers_view(&self) -> KernelHandlerRegistry {
        self.handlers@
    }

    /// The route the invocation took, once it is routed.
    pub closed spec fn route_view(&self) -> Option<KernelRouteRuntimeOutput> {
        self.route
    }

    /// What the component process came to, once it ran.
    pub closed spec fn process_view(&self) -> Option<Result<ComponentProcessSuccess, ComponentProcessFailure>> {
        self.process@
    }

    /// What follows the queued records: routing, the in-process handler, the
    /// component process, or the outcome decided.
    pub closed spec fn next_view(&self) -> Next {
        self.next
    }

    /// Whether the invocation's outcome is decided.
    pub closed spec fn is_over(&self) -> bool {
        self.next is Done
    }

    /// Whether the ledger refused a record and the invocation is over.
    pub closed spec fn is_refused(&self) -> bool {
        self.next matches Next::Done(Finish::Output(_))
    }

    /// The invocation being recorded.
    pub closed spec fn envelope_view(&self) -> KernelInvocationEnvelope {
        self.envelope
    }

    /// The ledger it is recorded in.
    pub closed spec fn ledger_view(&self) -> KernelInvocationLedger {
        self.ledger
    }

    /// How many records have been appended so far.
    pub closed spec fn appended_count(&self) -> nat {
        self.appended as nat
    }

    /// Whether a record is queued for appending.
    pub closed spec fn has_queued_record(&self) -> bool {
        self.next_index < self.queue@.len()
    }

    /// The next queued record.
    pub closed spec fn queued_record(&self) -> KernelInvocationLedgerRecord {
        self.queue@[self.next_index as int].0
    }

    /// The completion event, once there is one.
    pub closed spec fn event_view(&self) -> Option<KernelEventEnvelope> {
        self.event
    }

    /// The stage of the next queued record.
    pub closed spec fn queued_stage(&self) -> Seq<char> {
        self.queue@[self.next_index as int].0.stage@
    }

    fn start(
        envelope: KernelInvocationEnvelope,
        ledger: KernelInvocationLedger,
        manifests: Ghost<Seq<InstalledComponentManifest>>,
        handlers: Ghost<KernelHandlerRegistry>,
    ) -> (s: Self)
        ensures
            s.manifests_view() == manifests@,
            s.handlers_view() == handlers@,
            s.envelope_view() == envelope,
            s.ledger_view() == ledger,
            s.appended_count() == 0,
            s.has_queued_record(),
            s.queued_stage() == "accepted"@,
            !s.is_refused(),
    {
        proof { lemma_closing_stage_is_distinct(); }
        let record = KernelInvocationLedgerRecord::new("accepted", "ok", &envelope);
        let mut queue = Vec::new();
        queue.push((record, plain()));
        proof {
            assert(Seq::<Seq<char>>::empty() + queued_stages(queue@, 0) =~= seq!["accepted"@]);
        }
        KernelLedgerSession { envelope, ledger, route: None, event: None, queue, next_index: 0, appended: 0, next: Next::Route, stages: Ghost(Seq::empty()), manifests, handlers, process: Ghost(None) }
    }

    /// Routes the invocation once `accepted` is appended.
    fn after_accepted(self, runtime: &KernelInvocationRuntime) -> (s: Self)
        requires
            runtime.manifests() == self.manifests_view(),
            runtime.handler_registry() == self.handlers_view(),
            !self.has_queued_record(),
            self.next is Route,
        ensures
            s.envelope_view() == self.envelope_view(),
            s.ledger_view() == self.ledger_view(),
            s.appended_count() == self.appended_count(),
            next_rank(s.next) < next_rank(self.next),
            !s.is_refused(),
            s.stages_view() == self.stages_view(),
            s.manifests_view() == self.manifests_view(),
            s.handlers_view() == self.handlers_view(),
    {
        proof { lemma_closing_stage_is_distinct(); }
        proof { use_type_invariant(&self); }
        let KernelLedgerSession { envelope, ledger, route, event, queue, next_index, appended, next, stages, manifests, handlers, process } = self;
        proof {
            assert(queued_stages(queue@, next_index as int) =~= Seq::<Seq<char>>::empty());
            assert(stages@ + queued_stages(queue@, next_index as int) =~= stages@);
        }
        let mut q: Vec<(KernelInvocationLedgerRecord, RefusalShape)> = Vec::new();
        match runtime.route_envelope(&envelope) {
            Err(e) => {
                let reason = e.to_string();
                q.push((KernelInvocationLedgerRecord::new("route_failed", "failed", &envelope).with_failure("route", reason.as_str()), plain()));
                q.push((KernelInvocationLedgerRecord::new("invocation_failed", "failed", &envelope).with_failure("route", reason.as_str()), plain()));
                proof {
                    assert(stages@ + queued_stages(q@, 0) =~= seq!["accepted"@, "route_failed"@, "invocation_failed"@]);
                }
                KernelLedgerSession { envelope, ledger, route: None, event: None, queue: q, next_index: 0, appended, next: Next::Done(Finish::RouteFailure(e)), stages, manifests, handlers, process }
            },
            Ok(rt) => {
                q.push((KernelInvocationLedgerRecord::new("route_decision_made", "ok", &envelope).with_route(&rt), plain()));
                let n = if rt.invocation_mode == ComponentInvocationMode::LocalProcess { Next::Process } else { Next::Handle };
                proof {
                    assert(stages@ + queued_stages(q@, 0) =~= seq!["accepted"@, "route_decision_made"@]);
                }
                KernelLedgerSession { envelope, ledger, route: Some(rt), event: None, queue: q, next_index: 0, appended, next: n, stages, manifests, handlers, process }
            },
        }
    }

    /// Runs the in-process handler once the route is recorded.
    fn handle(self, runtime: &KernelInvocationRuntime) -> (s: Self)
        requires
            runtime.manifests() == self.manifests_view(),
            runtime.handler_registry() == self.handlers_view(),
            !self.has_queued_record(),
            self.next is Handle,
        ensures
            s.envelope_view() == self.envelope_view(),
            s.ledger_view() == self.ledger_view(),
            s.appended_count() == self.appended_count(),
            next_rank(s.next) < next_rank(self.next),
            !s.is_refused(),
            s.stages_view() == self.stages_view(),
            s.manifests_view() == self.manifests_view(),
            s.handlers_view() == self.handlers_view(),
    {
        proof { lemma_closing_stage_is_distinct(); }
        proof { use_type_invariant(&self); }
        let KernelLedgerSession { envelope, ledger, route, event, queue, next_index, appended, next, stages, manifests, handlers, process } = self;
        proof {
            assert(queued_stages(queue@, next_index as int) =~= Seq::<Seq<char>>::empty());
            assert(stages@ + queued_stages(queue@, next_index as int) =~= stages@);
        }
        let rt = match route {
            Some(rt) => rt,
            None => {
                return KernelLedgerSession { envelope, ledger, route: None, event: None, queue, next_index, appended, next: Next::Done(Finish::MissingHandler), stages, manifests, handlers, process };
            },
        };
        let mut q: Vec<(KernelInvocationLedgerRecord, RefusalShape)> = Vec::new();
        match runtime.call_handler(&envelope, &rt) {
            None => {
                let reason = "missing handler for operation";
                q.push((KernelInvocationLedgerRecord::new("handler_lookup_failed", "failed", &envelope).with_route(&rt).with_failure("handler_lookup", reason), plain()));
                q.push((KernelInvocationLedgerRecord::new("invocation_failed", "failed", &envelope).with_route(&rt).with_failure("handler_lookup", reason), plain()));
                proof {
                    assert(stages@ + queued_stages(q@, 0) =~= seq!["accepted"@, "route_decision_made"@, "handler_lookup_failed"@, "invocation_failed"@]);
                }
                KernelLedgerSession { envelope, ledger, route: Some(rt), event: None, queue: q, next_index: 0, appended, next: Next::Done(Finish::MissingHandler), stages, manifests, handlers, process }
            },
            Some(Err(err)) => {
                assert(handlers@.handler_handles(envelope.operation@, envelope, rt, Err(err)));
                let reason = err.to_string();
                let shape = RefusalShape { handler_executed: true, event_generated: false, handler: HandlerTag::InProcess, with_event: false, after_action: false };
                q.push((KernelInvocationLedgerRecord::new("handler_failed", "failed", &envelope).with_route(&rt)
                    .with_failure("handler_execute", reason.as_str()).with_handler(Some("in_process"), true, false, false, false), shape));
                q.push((KernelInvocationLedgerRecord::new("invocation_failed", "failed", &envelope).with_route(&rt)
                    .with_failure("handler_execute", reason.as_str()).with_handler(Some("in_process"), true, false, false, false), shape));
                proof {
                    assert(stages@ + queued_stages(q@, 0) =~= seq!["accepted"@, "route_decision_made"@, "handler_failed"@, "invocation_failed"@]);
                }
                KernelLedgerSession { envelope, ledger, route: Some(rt), event: None, queue: q, next_index: 0, appended, next: Next::Done(Finish::HandlerFailure(err)), stages, manifests, handlers, process }
            },
            Some(Ok(res)) => {
                let ghost gres = res;
                let (ev, result) = KernelInvocationRuntime::event_from_result(&envelope, &rt, res);
                assert(is_success_result(result, envelope, rt, gres, "in_process"@));
                assert(handlers@.handler_handles(envelope.operation@, envelope, rt, Ok(gres)));
                q.push((KernelInvocationLedgerRecord::new("handler_executed", "ok", &envelope).with_route(&rt)
                    .with_handler(Some("in_process"), true, false, false, false),
                    RefusalShape { handler_executed: true, event_generated: false, handler: HandlerTag::InProcess, with_event: false, after_action: false }));
                q.push((KernelInvocationLedgerRecord::new("event_generated", "ok", &envelope).with_route(&rt)
                    .with_handler(Some("in_process"), true, true, false, false),
                    RefusalShape { handler_executed: true, event_generated: true, handler: HandlerTag::InProcess, with_event: true, after_action: false }));
                q.push((KernelInvocationLedgerRecord::new("invocation_completed", "ok", &envelope).with_route(&rt)
                    .with_handler(Some("in_process"), true, true, false, false),
                    RefusalShape { handler_executed: true, event_generated: true, handler: HandlerTag::InProcess, with_event: true, after_action: true }));
                proof {
                    assert(stages@ + queued_stages(q@, 0) =~= completed_stages());
                }
                KernelLedgerSession { envelope, ledger, route: Some(rt), event: Some(ev), queue: q, next_index: 0, appended, next: Next::Done(Finish::Completed(result)), stages, manifests, handlers, process }
            },
        }
    }

    /// Records what the component process came to.
    fn process_result(self, r: Result<ComponentProcessSuccess, ComponentProcessFailure>) -> (s: Self)
        requires
            !self.has_queued_record(),
            self.next is Process,
        ensures
            s.process_view() == Some(r),
            s.route_view() == self.route_view(),
            s.envelope_view() == self.envelope_view(),
            s.ledger_view() == self.ledger_view(),
            s.appended_count() == self.appended_count(),
            next_rank(s.next) < next_rank(self.next),
            !s.is_refused(),
            s.stages_view() == self.stages_view(),
            s.manifests_view() == self.manifests_view(),
            s.handlers_view() == self.handlers_view(),
    {
        proof { lemma_closing_stage_is_distinct(); }
        proof { use_type_invariant(&self); }
        let KernelLedgerSession { envelope, ledger, route, event, queue, next_index, appended, next, stages, manifests, handlers, process: _ } = self;
        let process: Ghost<Option<Result<ComponentProcessSuccess, ComponentProcessFailure>>> = Ghost(Some(r));
        proof {
            assert(queued_stages(queue@, next_index as int) =~= Seq::<Seq<char>>::empty());
            assert(stages@ + queued_stages(queue@, next_index as int) =~= stages@);
        }
        let rt = match route {
            Some(rt) => rt,
            None => {
                return KernelLedgerSession { envelope, ledger, route: None, event: None, queue, next_index, appended, next: Next::Done(Finish::MissingHandler), stages, manifests, handlers, process };
            },
        };
        let mut q: Vec<(KernelInvocationLedgerRecord, RefusalShape)> = Vec::new();
        let transport = rt.transport.as_str();
        match r {
            Ok(success) => {
                let exit_code = success.exit_code;
                let ghost gres = success.result;
                let (ev, result) = KernelInvocationRuntime::event_from_process_result(&envelope, &rt, success.result);
                assert(is_success_result(result, envelope, rt, gres, "local_process"@));
                q.push((KernelInvocationLedgerRecord::new("handler_executed", "ok", &envelope).with_route(&rt)
                    .with_handler(Some("local_process"), true, false, true, false).with_transport(Some(transport)).with_process_exit_code(exit_code),
                    RefusalShape { handler_executed: true, event_generated: false, handler: HandlerTag::LocalProcess, with_event: false, after_action: false }));
                q.push((KernelInvocationLedgerRecord::new("event_generated", "ok", &envelope).with_route(&rt)
                    .with_handler(Some("local_process"), true, true, true, false).with_transport(Some(transport)).with_process_exit_code(exit_code),
                    RefusalShape { handler_executed: true, event_generated: true, handler: HandlerTag::LocalProcess, with_event: true, after_action: false }));
                q.push((KernelInvocationLedgerRecord::new("invocation_completed", "ok", &envelope).with_route(&rt)
                    .with_handler(Some("local_process"), true, true, true, false).with_transport(Some(transport)).with_process_exit_code(exit_code),
                    RefusalShape { handler_executed: true, event_generated: true, handler: HandlerTag::LocalProcess, with_event: true, after_action: true }));
                proof {
                    assert(stages@ + queued_stages(q@, 0) =~= completed_stages());
                }
                KernelLedgerSession { envelope, ledger, route: Some(rt), event: Some(ev), queue: q, next_index: 0, appended, next: Next::Done(Finish::ProcessCompleted(result, exit_code)), stages, manifests, handlers, process }
            },
            Err(f) => {
                let spawned = f.spawned_process;
                let shape = RefusalShape { handler_executed: spawned, event_generated: false, handler: HandlerTag::LocalProcess, with_event: false, after_action: false };
                q.push((KernelInvocationLedgerRecord::new("handler_failed", "failed", &envelope).with_route(&rt)
                    .with_failure(f.stage.as_str(), f.reason.as_str()).with_handler(Some("local_process"), spawned, false, spawned, false)
                    .with_transport(Some(transport)).with_process_exit_code(f.exit_code), shape));
                q.push((KernelInvocationLedgerRecord::new("invocation_failed", "failed", &envelope).with_route(&rt)
                    .with_failure(f.stage.as_str(), f.reason.as_str()).with_handler(Some("local_process"), spawned, false, spawned, false)
                    .with_transport(Some(transport)).with_process_exit_code(f.exit_code), shape));
                proof {
                    assert(stages@ + queued_stages(q@, 0) =~= seq!["accepted"@, "route_decision_made"@, "handler_failed"@, "invocation_failed"@]);
                }
                KernelLedgerSession { envelope, ledger, route: Some(rt), event: None, queue: q, next_index: 0, appended, next: Next::Done(Finish::ProcessFailure(f)), stages, manifests, handlers, process }
            },
        }
    }

    /// What the invocation asks of its caller next: the next record to
    /// append (unless the ledger refuses it, which ends the invocation),
    /// its component process to run, or its output. Routing and in-process
    /// handlers run here, each only after the records before it are appended.
    pub fn next_step(self, runtime: &KernelInvocationRuntime) -> (step: KernelLedgerStep)
        requires
            runtime.manifests() == self.manifests_view(),
            runtime.handler_registry() == self.handlers_view(),
        ensures
            match step {
                KernelLedgerStep::Finished(o) => o.ledger_record_count == self.appended_count()
                    && opt_view(o.ledger_path) == Some(self.ledger_view().path_view())
                    && (o.ledger_appended || opt_view(o.failure_stage) == Some("ledger_append"@)),
                KernelLedgerStep::AppendLine(a) => a.session_view().envelope_view() == self.envelope_view()
                    && a.session_view().ledger_view() == self.ledger_view()
                    && a.session_view().appended_count() == self.appended_count()
                    && a.path_view() == self.ledger_view().path_view()
                    && a.is_record_line(),
                KernelLedgerStep::RunComponentProcess(p) => p.session_view().envelope_view() == self.envelope_view()
                    && p.session_view().ledger_view() == self.ledger_view()
                    && p.session_view().appended_count() == self.appended_count()
                    && p.session_view().stages_view() == self.stages_view()
                    && is_prepared_request(p.request_view(), self.envelope_view(), p.route_view()),
            },
            step matches KernelLedgerStep::AppendLine(a) ==> a.session_view().stages_view() == self.stages_view(),
            self.has_queued_record() && self.ledger_view().failing_stage() != Some(self.queued_stage())
                ==> (step matches KernelLedgerStep::AppendLine(a) && a.session_view() == self && a.stage_view() == self.queued_stage()),
            step matches KernelLedgerStep::Finished(o) ==> o.ledger_record_count == self.stages_view().len(),
            step matches KernelLedgerStep::Finished(o) ==> (o.ledger_appended ==> self.stages_view() == ledger_stages_of(o)),
            step matches KernelLedgerStep::Finished(o) && !o.ledger_appended
                ==> (self.is_refused() || self.ledger_view().failing_stage() is Some),
            !self.has_queued_record() && self.is_over() && !self.is_refused()
                ==> (step matches KernelLedgerStep::Finished(o) && o.ledger_appended),
            self.process_view() matches Some(r) ==> (self.route_view() matches Some(rt) ==> (step matches KernelLedgerStep::Finished(o)
                ==> (o.ledger_appended ==> exists|base: KernelInvocationRuntimeOutput| process_outcome(base, self.envelope_view(), rt, r)
                && #[trigger] is_with_ledger(o, base, self.ledger_view(), o.ledger_record_count, true)))),
            step matches KernelLedgerStep::Finished(o) ==> (o.ledger_appended ==> exists|base: KernelInvocationRuntimeOutput|
                unledgered_outcome(base, self.manifests_view(), self.envelope_view(), self.handlers_view())
                && #[trigger] is_with_ledger(o, base, self.ledger_view(), o.ledger_record_count, true)),
            self.is_refused() ==> (step matches KernelLedgerStep::Finished(o)
                && refusal_output(o, self.ledger_view(), self.appended_count())),
            self.next_view() matches Next::Done(Finish::Output(out)) ==> (step matches KernelLedgerStep::Finished(o) && o == out),
            self.has_queued_record() ==> expected_record(self.queued_record(), self.envelope_view(), self.route_view(),
                self.next_view(), self.queued_stage()),
            self.has_queued_record() && self.ledger_view().failing_stage() == Some(self.queued_stage())
                ==> (step matches KernelLedgerStep::Finished(o)
                && is_refused_record_output(o, self.queued_record(), self.route_view(), self.event_view(), self.ledger_view(),
                    self.appended_count(), refusal_text(self.queued_stage()))),
            step matches KernelLedgerStep::Finished(o) ==> (!o.ledger_appended && !self.is_refused()
                ==> exists|rec: KernelInvocationLedgerRecord, route: Option<KernelRouteRuntimeOutput>, event: Option<KernelEventEnvelope>, next: Next|
                    #![trigger expected_record(rec, self.envelope_view(), route, next, rec.stage@), is_refused_record_output(o, rec, route, event, self.ledger_view(), self.appended_count(), refusal_text(rec.stage@))]
                    expected_record(rec, self.envelope_view(), route, next, rec.stage@)
                    && self.ledger_view().failing_stage() == Some(rec.stage@)
                    && is_refused_record_output(o, rec, route, event, self.ledger_view(), self.appended_count(),
                        refusal_text(rec.stage@))),
    {
        proof { use_type_invariant(&self); }
        let mut s = self;
        loop
            invariant
                s.envelope_view() == self.envelope_view(),
                s.ledger_view() == self.ledger_view(),
                s.appended_count() == self.appended_count(),
                s.stages_view() == self.stages_view(),
                s.manifests_view() == self.manifests_view(),
                s.handlers_view() == self.handlers_view(),
                runtime.manifests() == self.manifests_view(),
                runtime.handler_registry() == self.handlers_view(),
                self.is_refused() ==> s == self,
                self.has_queued_record() ==> s == self,
                s.is_refused() ==> self.is_refused(),
                self.is_over() && !self.has_queued_record() ==> s == self,
                self.process_view() is Some ==> self.is_over() && s == self,
            decreases next_rank(s.next),
        {
            proof { use_type_invariant(&s); }
            if s.next_index < s.queue.len() {
                let refusal = s.ledger.append_refusal(&s.queue[s.next_index].0);
                match refusal {
                    Some(err) => {
                        let KernelLedgerSession { envelope, ledger, route, event, queue, next_index, appended, next, stages, manifests, handlers, process } = s;
                        let shape = queue[next_index].1;
                        let ghost (grec, groute, gevent, gnext) = (queue@[next_index as int].0, route, event, next);
                        let o = refused_output(&ledger, route, event, shape, err, appended, Ghost(queue@[next_index as int].0));
                        assert(expected_record(grec, envelope, groute, gnext, grec.stage@));
                        assert(is_refused_record_output(o, grec, groute, gevent, ledger, appended as nat, refusal_text(grec.stage@)));
                        return KernelLedgerStep::Finished(o);
                    },
                    None => {
                        let line = s.queue[s.next_index].0.to_json_line();
                        let path = owned(s.ledger.path());
                        let ghost rec = s.queue@[s.next_index as int].0;
                        let a = LedgerAppend { path, line, session: s };
                        assert(is_record_of(rec, a.session.envelope));
                        return KernelLedgerStep::AppendLine(a);
                    },
                }
            }
            match s.next {
                Next::Route => {
                    s = s.after_accepted(runtime);
                },
                Next::Handle => {
                    s = s.handle(runtime);
                },
                Next::Process => {
                    let prepared = match &s.route {
                        Some(rt) => prepare_component_process(&s.envelope, rt),
                        None => Err(ComponentProcessFailure {
                            stage: String::new(),
                            reason: String::new(),
                            result: None,
                            spawned_process: false,
                            exit_code: None,
                        }),
                    };
                    match prepared {
                        Ok(request) => {
                            return KernelLedgerStep::RunComponentProcess(LedgerProcess { request, session: s });
                        },
                        Err(f) => {
                            s = s.process_result(Err(f));
                        },
                    }
                },
                Next::Done(_) => {
                    return KernelLedgerStep::Finished(s.finish());
                },
            }
        }
    }

    /// The output of an invocation whose records are all appended.
    fn finish(self) -> (o: KernelInvocationRuntimeOutput)
        requires
            !self.has_queued_record(),
            self.next is Done,
        ensures
            o.ledger_record_count == self.appended_count(),
            opt_view(o.ledger_path) == Some(self.ledger_view().path_view()),
            (self.next matches Next::Done(Finish::Output(_))) ==> refusal_output(o, self.ledger_view(), self.appended_count()),
            self.next matches Next::Done(Finish::Output(out)) ==> o == out,
            !(self.next matches Next::Done(Finish::Output(_))) ==> o.ledger_appended,
            !(self.next matches Next::Done(Finish::Output(_))) ==> exists|base: KernelInvocationRuntimeOutput|
                unledgered_outcome(base, self.manifests_view(), self.envelope_view(), self.handlers_view())
                && #[trigger] is_with_ledger(o, base, self.ledger_view(), self.appended, true),
            self.process@ matches Some(r) ==> (self.route matches Some(rt) ==> (!(self.next matches Next::Done(Finish::Output(_)))
                ==> exists|base: KernelInvocationRuntimeOutput| process_outcome(base, self.envelope, rt, r)
                && #[trigger] is_with_ledger(o, base, self.ledger, self.appended, true))),
            !(self.next matches Next::Done(Finish::Output(_))) ==> planned_stages(self.next) == Some(ledger_stages_of(o)),
            (self.next matches Next::Done(Finish::Completed(_)) || self.next matches Next::Done(Finish::ProcessCompleted(_, _)))
                ==> o.status == KernelInvocationStatus::Completed,
            (self.next matches Next::Done(Finish::RouteFailure(_)) || self.next matches Next::Done(Finish::MissingHandler)
                || self.next matches Next::Done(Finish::HandlerFailure(_)) || self.next matches Next::Done(Finish::ProcessFailure(_)))
                ==> o.status == KernelInvocationStatus::Failed,
    {
        proof { use_type_invariant(&self); }
        let ghost whole = self;
        let KernelLedgerSession { envelope, ledger, route, event, queue, next_index, appended, next, stages, manifests, handlers, process } = self;
        let ghost ms = manifests@;
        let ghost opv = handlers@;
        let base = match next {
            Next::Done(Finish::Output(o)) => {
                return o;
            },
            Next::Done(Finish::RouteFailure(e)) => {
                let b = KernelInvocationRuntime::route_failure(&envelope, e);
                assert(unledgered_outcome(b, ms, envelope, opv));
                b
            },
            Next::Done(Finish::MissingHandler) => match route {
                Some(rt) => {
                    let b = KernelInvocationRuntime::missing_handler(&envelope, rt);
                    assert(in_process_outcome(b, envelope, rt, opv));
                    assert(unledgered_outcome(b, ms, envelope, opv));
                    b
                },
                None => {
                    assert(false);
                    KernelInvocationRuntime::ledger_failure(None, None, false, false, None, false, String::new(), &ledger, appended)
                },
            },
            Next::Done(Finish::HandlerFailure(err)) => match route {
                Some(rt) => {
                    let ghost gerr = err;
                    let b = KernelInvocationRuntime::handler_failure(&envelope, rt, err);
                    assert(is_handler_failure(b, envelope, rt, gerr));
                    assert(in_process_outcome(b, envelope, rt, opv));
                    assert(unledgered_outcome(b, ms, envelope, opv));
                    b
                },
                None => {
                    assert(false);
                    KernelInvocationRuntime::ledger_failure(None, None, false, false, None, false, String::new(), &ledger, appended)
                },
            },
            Next::Done(Finish::Completed(result)) => match (route, event) {
                (Some(rt), Some(ev)) => {
                    let ghost gres = result;
                    let ghost gev = ev;
                    let b = KernelInvocationRuntime::completed_from_event(rt, ev, Some(result));
                    proof {
                        let res = choose|res: KernelHandlerResult| #[trigger] is_success_result(gres, envelope, rt, res, "in_process"@)
                            && is_completion_event(gev, envelope, rt, res.summary@);
                        assert(is_completed(b, envelope, rt, res));
                        assert(in_process_outcome(b, envelope, rt, opv));
                    }
                    assert(unledgered_outcome(b, ms, envelope, opv));
                    b
                },
                _ => {
                assert(false);
                KernelInvocationRuntime::ledger_failure(None, None, false, false, None, false, String::new(), &ledger, appended)
            },
            },
            Next::Done(Finish::ProcessCompleted(result, exit_code)) => match (route, event) {
                (Some(rt), Some(ev)) => {
                    let ghost gres = result;
                    let ghost gev = ev;
                    let b = KernelInvocationRuntime::completed_from_event_with_metadata(
                        rt,
                        ev,
                        Some(result),
                        Some(owned("local_process")),
                        true,
                        false,
                        Some(owned("stdio_jsonl")),
                        exit_code,
                    );
                    proof {
                        let sc = process@->Some_0->Ok_0;
                        assert(is_process_completed(b, envelope, rt, sc));
                        assert(process_outcome(b, envelope, rt, Ok(sc)));
                        assert(process_outcome(b, envelope, rt, process@->Some_0));
                    }
                    assert(unledgered_outcome(b, ms, envelope, opv));
                    b
                },
                _ => {
                assert(false);
                KernelInvocationRuntime::ledger_failure(None, None, false, false, None, false, String::new(), &ledger, appended)
            },
            },
            Next::Done(Finish::ProcessFailure(f)) => match route {
                Some(rt) => {
                    let ghost gf = f;
                    let b = KernelInvocationRuntime::process_failure(&envelope, rt, f);
                    assert(process_outcome(b, envelope, rt, Err(gf)));
                    assert(process_outcome(b, envelope, rt, process@->Some_0));
                    assert(unledgered_outcome(b, ms, envelope, opv));
                    b
                },
                None => {
                    assert(false);
                    KernelInvocationRuntime::ledger_failure(None, None, false, false, None, false, String::new(), &ledger, appended)
                },
            },
            _ => {
                assert(false);
                KernelInvocationRuntime::ledger_failure(None, None, false, false, None, false, String::new(), &ledger, appended)
            },
        };
        assert(unledgered_outcome(base, ms, envelope, opv));
        let o = KernelInvocationRuntime::with_ledger(base, &ledger, appended, true);
        assert(is_with_ledger(o, base, whole.ledger_view(), whole.appended, true));
        assert(unledgered_outcome(base, whole.manifests_view(), whole.envelope_view(), whole.handlers_view()));
        o
    }
}

impl LedgerAppend {
    #[verifier::type_invariant]
    spec fn appends_queued_record(self) -> bool {
        &&& self.session.has_queued_record() && !self.session.is_refused()
        &&& self.line@ == record_json_line(self.session.queue@[self.session.next_index as int].0)
        &&& self.session.ledger.failing_stage() != Some(self.session.queue@[self.session.next_index as int].0.stage@)
    }

    /// The session waiting for this append.
    pub closed spec fn session_view(&self) -> KernelLedgerSession {
        self.session
    }

    /// The ledger file.
    pub closed spec fn path_view(&self) -> Seq<char> {
        self.path@
    }

    /// Whether the line is the JSON line of a record of this invocation,
    /// of a stage the ledger does not refuse.
    pub closed spec fn is_record_line(&self) -> bool {
        exists|r: KernelInvocationLedgerRecord|
            expected_record(r, self.session.envelope_view(), self.session.route_view(), self.session.next_view(), r.stage@)
            && #[trigger] record_json_line(r) == self.line@
            && self.session.ledger_view().failing_stage() != Some(r.stage@)
            && r.stage@ == self.stage_view()
    }

    /// The stage of the record this line holds.
    pub closed spec fn stage_view(&self) -> Seq<char> {
        self.session.queue@[self.session.next_index as int].0.stage@
    }

    /// The ledger file to append to.
    pub fn path(&self) -> (r: &str)
        ensures
            r@ == self.path_view(),
    {
        self.path.as_str()
    }

    /// The line to append (a line break follows it).
    pub fn line(&self) -> (r: &str)
        ensures
            exists|rec: KernelInvocationLedgerRecord|
                expected_record(rec, self.session_view().envelope_view(), self.session_view().route_view(),
                    self.session_view().next_view(), rec.stage@)
                && #[trigger] record_json_line(rec) == r@
                && rec.stage@ == self.stage_view(),
    {
        proof {
            use_type_invariant(self);
            use_type_invariant(&self.session);
            let rec = self.session.queue@[self.session.next_index as int].0;
            assert(expected_record(rec, self.session.envelope, self.session.route, self.session.next, rec.stage@));
        }
        self.line.as_str()
    }

    /// The invocation after the append: one more record appended, or, when
    /// the append failed with an error, over with that error.
    pub fn done(self, result: Result<(), String>) -> (s: KernelLedgerSession)
        ensures
            s.envelope_view() == self.session_view().envelope_view(),
            s.ledger_view() == self.session_view().ledger_view(),
            result is Ok ==> s.appended_count() == self.session_view().appended_count() + 1 && !s.is_refused()
                && s.stages_view() == self.session_view().stages_view().push(self.stage_view()),
            result is Err ==> s.stages_view() == self.session_view().stages_view(),
            result is Err ==> s.appended_count() == self.session_view().appended_count() && s.is_refused(),
            result matches Err(e) ==> (s.next_view() matches Next::Done(Finish::Output(o))
                && is_refused_record_output(o, self.session_view().queued_record(), self.session_view().route_view(),
                    self.session_view().event_view(), self.session_view().ledger_view(), self.session_view().appended_count(), e@)),
    {
        proof { use_type_invariant(&self); }
        let LedgerAppend { path, line, session } = self;
        proof { use_type_invariant(&session); }
        let KernelLedgerSession { envelope, ledger, route, event, queue, next_index, appended, next, stages, manifests, handlers, process } = session;
        let len = queue.len();
        assert(next_index < len);
        match result {
            Ok(()) => {
                let ghost appended_stages = stages@.push(queue@[next_index as int].0.stage@);
                proof {
                    assert(appended_stages + queued_stages(queue@, next_index + 1) =~= stages@ + queued_stages(queue@, next_index as int));
                }
                KernelLedgerSession { envelope, ledger, route, event, queue, next_index: next_index + 1, appended: appended + 1, next, stages: Ghost(appended_stages), manifests, handlers, process }
            },
            Err(e) => {
                let shape = queue[next_index].1;
                let o = refused_output(&ledger, route, event, shape, e, appended, Ghost(queue@[next_index as int].0));
                let n = queue.len();
                KernelLedgerSession { envelope, ledger, route: None, event: None, queue, next_index: n, appended, next: Next::Done(Finish::Output(o)), stages, manifests, handlers, process }
            },
        }
    }
}

impl LedgerProcess {
    #[verifier::type_invariant]
    spec fn waits_for_process(self) -> bool {
        &&& !self.session.has_queued_record() && self.session.next is Process
        &&& self.session.route matches Some(rt) && is_prepared_request(self.request, self.session.envelope, rt)
    }

    /// What to run.
    pub closed spec fn request_view(&self) -> ComponentProcessRequest {
        self.request
    }

    /// The route the invocation took.
    pub closed spec fn route_view(&self) -> KernelRouteRuntimeOutput {
        self.session.route->Some_0
    }

    /// The session waiting for the process.
    pub closed spec fn session_view(&self) -> KernelLedgerSession {
        self.session
    }

    /// What to run.
    pub fn request(&self) -> (r: &ComponentProcessRequest)
        ensures
            *r == self.request_view(),
            is_prepared_request(*r, self.session_view().envelope_view(), self.route_view()),
    {
        proof { use_type_invariant(self); }
        &self.request
    }

    /// The invocation after its component process, from what happened.
    pub fn done(self, event: ComponentProcessEvent) -> (s: KernelLedgerSession)
        ensures
            s.envelope_view() == self.session_view().envelope_view(),
            s.ledger_view() == self.session_view().ledger_view(),
            s.appended_count() == self.session_view().appended_count(),
            s.stages_view() == self.session_view().stages_view(),
            !s.is_refused(),
            s.route_view() == Some(self.route_view()),
            exists|r: Result<ComponentProcessSuccess, ComponentProcessFailure>|
                #[trigger] event_outcome_ok(event, self.session_view().envelope_view(), self.route_view(), r)
                && s.process_view() == Some(r),
    {
        proof { use_type_invariant(&self); }
        let LedgerProcess { request, session } = self;
        proof { use_type_invariant(&session); }
        let r = match &session.route {
            Some(rt) => finish_component_process(&session.envelope, rt, event),
            None => Err(ComponentProcessFailure { stage: String::new(), reason: String::new(), result: None, spawned_process: false, exit_code: None }),
        };
        let ghost gr = r;
        assert(event_outcome_ok(event, session.envelope, session.route->Some_0, gr));
        session.process_result(r)
    }
}

impl KernelInvocationRuntime {
    /// Starts a ledgered invocation of `envelope`: its first step appends
    /// the `accepted` record.
    pub fn invoke_with_ledger(&self, envelope: KernelInvocationEnvelope, ledger: &KernelInvocationLedger) -> (s: KernelLedgerSession)
        ensures
            s.manifests_view() == self.manifests(),
            s.handlers_view() == self.handler_registry(),
            s.envelope_view() == envelope,
            s.ledger_view() == *ledger,
            s.appended_count() == 0,
            s.has_queued_record(),
            s.queued_stage() == "accepted"@,
            !s.is_refused(),
    {
        KernelLedgerSession::start(envelope, ledger.duplicate(), Ghost(self.manifests()), Ghost(self.handler_registry()))
    }
}

} // verus!
