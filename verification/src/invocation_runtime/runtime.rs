//! The invocation runtime: routes an invocation and runs its handler.
use vstd::prelude::*;

use crate::installed_manifest::{ComponentInvocationMode, InstalledComponentManifest};
use crate::invocation::KernelInvocationEnvelope;
use crate::invocation_runtime::handler::{KernelHandlerError, KernelHandlerRegistry, KernelHandlerResult};
use crate::invocation_runtime::outputs::{is_completed, is_handler_failure, is_missing_handler, is_route_failure};
use crate::invocation_runtime::process::{event_outcome_ok, is_prepared_request, is_unspawned_failure, prepare_refusal, finish_component_process, is_process_failure, prepare_component_process, ComponentProcessEvent, ComponentProcessFailure, ComponentProcessRequest, ComponentProcessSuccess};
use crate::invocation_runtime::result::{is_completion_event, is_success_result, KernelInvocationRuntimeOutput, KernelInvocationStatus};
use crate::manifest_registry::InstalledManifestRegistry;
use crate::route_runtime::{route_outcome, KernelRouteRuntime, KernelRouteRuntimeError, KernelRouteRuntimeInput, KernelRouteRuntimeOutput};
use crate::text::owned;

verus! {

broadcast use vstd::string::group_string_axioms;

/// Routes invocations over the installed manifests and runs their handlers.
pub struct KernelInvocationRuntime {
    route_runtime: KernelRouteRuntime,
    handlers: KernelHandlerRegistry,
}

/// What an invocation asks of its caller.
pub enum KernelInvocationStep {
    /// The invocation is over.
    Finished(KernelInvocationRuntimeOutput),
    /// Run this component process and hand back what happened with
    /// `KernelInvocationRuntime::finish_local_process`.
    RunComponentProcess(PendingComponentProcess),
}

/// An invocation waiting for its component process.
pub struct PendingComponentProcess {
    pub envelope: KernelInvocationEnvelope,
    pub route: KernelRouteRuntimeOutput,
    pub request: ComponentProcessRequest,
}

/// Whether `r` is what routing `env` over `ms` gives.
pub open spec fn routes_envelope(ms: Seq<InstalledComponentManifest>, env: KernelInvocationEnvelope, r: Result<KernelRouteRuntimeOutput, KernelRouteRuntimeError>) -> bool {
    route_outcome(ms, env.operation@, env.instance_id@, None, r)
}

/// Whether `o` is what running the in-process handler for `env` over `route`
/// gives, with `handlers` the registered handlers: a missing handler, or the
/// completion or failure that the operation's handler returned when called
/// with `env` and `route`.
pub open spec fn in_process_outcome(
    o: KernelInvocationRuntimeOutput,
    env: KernelInvocationEnvelope,
    route: KernelRouteRuntimeOutput,
    handlers: KernelHandlerRegistry,
) -> bool {
    if !handlers.operations().contains(env.operation@) {
        is_missing_handler(o, env, route)
    } else {
        (exists|res: KernelHandlerResult| #[trigger] is_completed(o, env, route, res)
            && handlers.handler_handles(env.operation@, env, route, Ok(res)))
            || (exists|err: KernelHandlerError| #[trigger] is_handler_failure(o, env, route, err)
            && handlers.handler_handles(env.operation@, env, route, Err(err)))
    }
}

/// Whether `o` reports that the component process of `env` completed with `s`.
pub open spec fn is_process_completed(o: KernelInvocationRuntimeOutput, env: KernelInvocationEnvelope, route: KernelRouteRuntimeOutput, s: ComponentProcessSuccess) -> bool {
    &&& o.status == KernelInvocationStatus::Completed
    &&& o.route == Some(route)
    &&& o.event matches Some(ev) && is_completion_event(ev, env, route, s.result.summary@)
    &&& o.result matches Some(r) && is_success_result(r, env, route, s.result, "local_process"@)
    &&& crate::invocation_runtime::result::has_flags(o, true, true, true, Some("local_process"@), None, None, true, Some("stdio_jsonl"@), s.exit_code)
    &&& crate::invocation_runtime::result::without_ledger(o)
}

/// Whether `o` is the outcome of a component process run for `env` over
/// `route`, given what the process outcome `r` was.
pub open spec fn process_outcome(o: KernelInvocationRuntimeOutput, env: KernelInvocationEnvelope, route: KernelRouteRuntimeOutput, r: Result<ComponentProcessSuccess, ComponentProcessFailure>) -> bool {
    match r {
        Ok(s) => is_process_completed(o, env, route, s),
        Err(f) => is_process_failure(o, env, route, f),
    }
}

/// Whether `o` is what invoking `env` without a ledger gives, over the
/// installed manifests `ms` with the in-process `handlers`: a routing
/// failure, the outcome of the in-process handler, or the outcome of the
/// component process for some result of it.
pub open spec fn unledgered_outcome(
    o: KernelInvocationRuntimeOutput,
    ms: Seq<InstalledComponentManifest>,
    env: KernelInvocationEnvelope,
    handlers: KernelHandlerRegistry,
) -> bool {
    ||| exists|e: KernelRouteRuntimeError| #[trigger] routes_envelope(ms, env, Err(e)) && is_route_failure(o, env, e)
    ||| exists|route: KernelRouteRuntimeOutput| #[trigger] routes_envelope(ms, env, Ok(route)) && if route.invocation_mode
        == ComponentInvocationMode::LocalProcess {
        exists|r: Result<ComponentProcessSuccess, ComponentProcessFailure>| #[trigger] process_outcome(o, env, route, r)
    } else {
        in_process_outcome(o, env, route, handlers)
    }
}

impl KernelInvocationRuntime {
    /// The installed manifests invocations are routed over.
    pub closed spec fn manifests(&self) -> Seq<InstalledComponentManifest> {
        self.route_runtime.manifests_view()
    }

    /// The operations that have in-process handlers.
    pub open spec fn handler_operations(&self) -> Seq<Seq<char>> {
        self.handler_registry().operations()
    }

    /// The in-process handlers.
    pub closed spec fn handler_registry(&self) -> KernelHandlerRegistry {
        self.handlers
    }

    /// A runtime over the installed manifests of `registry` with `handlers`.
    pub fn new(registry: InstalledManifestRegistry, handlers: KernelHandlerRegistry) -> (r: Self)
        ensures
            r.manifests() == registry.manifests_view(),
            r.handler_operations() == handlers.operations(),
            r.handler_registry() == handlers,
    {
        KernelInvocationRuntime { route_runtime: KernelRouteRuntime::from_registry(registry), handlers }
    }

    /// Routes the operation of `envelope` for its instance.
    pub fn route_envelope(&self, envelope: &KernelInvocationEnvelope) -> (r: Result<KernelRouteRuntimeOutput, KernelRouteRuntimeError>)
        ensures
            routes_envelope(self.manifests(), *envelope, r),
    {
        let input = KernelRouteRuntimeInput::new(envelope.operation.as_str()).with_instance_id(envelope.instance_id.as_str());
        self.route_runtime.route(input)
    }

    /// Calls the in-process handler registered for the operation of
    /// `envelope`, if there is one.
    pub fn call_handler(&self, envelope: &KernelInvocationEnvelope, route: &KernelRouteRuntimeOutput) -> (r: Option<Result<KernelHandlerResult, KernelHandlerError>>)
        ensures
            r is None <==> !self.handler_operations().contains(envelope.operation@),
            r matches Some(x) ==> self.handler_registry().handler_handles(envelope.operation@, *envelope, *route, x),
    {
        match self.handlers.get(envelope.operation.as_str()) {
            None => None,
            Some(handler) => Some(handler.handle(envelope, route)),
        }
    }

    /// Runs the in-process handler for `envelope` over `route`.
    pub fn run_in_process(&self, envelope: KernelInvocationEnvelope, route: KernelRouteRuntimeOutput) -> (o: KernelInvocationRuntimeOutput)
        ensures
            in_process_outcome(o, envelope, route, self.handler_registry()),
    {
        match self.handlers.get(envelope.operation.as_str()) {
            None => Self::missing_handler(&envelope, route),
            Some(handler) => match handler.handle(&envelope, &route) {
                Ok(res) => {
                    let ghost gres = res;
                    let o = Self::completed(envelope, route, res);
                    assert(is_completed(o, envelope, route, gres));
                    assert(self.handler_registry().handler_handles(envelope.operation@, envelope, route, Ok(gres)));
                    o
                },
                Err(err) => {
                    let ghost gerr = err;
                    let o = Self::handler_failure(&envelope, route, err);
                    assert(is_handler_failure(o, envelope, route, gerr));
                    assert(self.handler_registry().handler_handles(envelope.operation@, envelope, route, Err(gerr)));
                    o
                },
            },
        }
    }

    /// The invocation of `envelope` whose component process came to `result`.
    pub fn complete_local_process(
        envelope: &KernelInvocationEnvelope,
        route: KernelRouteRuntimeOutput,
        result: Result<ComponentProcessSuccess, ComponentProcessFailure>,
    ) -> (o: KernelInvocationRuntimeOutput)
        ensures
            process_outcome(o, *envelope, route, result),
    {
        match result {
            Ok(success) => {
                let (event, r) = Self::event_from_process_result(envelope, &route, success.result);
                Self::completed_from_event_with_metadata(
                    route,
                    event,
                    Some(r),
                    Some(owned("local_process")),
                    true,
                    false,
                    Some(owned("stdio_jsonl")),
                    success.exit_code,
                )
            },
            Err(error) => Self::process_failure(envelope, route, error),
        }
    }

    /// Invokes `envelope`: routes its operation, then runs its in-process
    /// handler, or asks the caller to run its component process. A routing
    /// failure or a missing handler runs nothing.
    pub fn invoke(&self, envelope: KernelInvocationEnvelope) -> (step: KernelInvocationStep)
        ensures
            match step {
                KernelInvocationStep::Finished(o) => (exists|e: KernelRouteRuntimeError|
                    #[trigger] routes_envelope(self.manifests(), envelope, Err(e)) && is_route_failure(o, envelope, e))
                    || (exists|route: KernelRouteRuntimeOutput| #[trigger] routes_envelope(self.manifests(), envelope, Ok(route))
                        && (if route.invocation_mode == ComponentInvocationMode::LocalProcess {
                            prepare_refusal(route) is Some && exists|f: ComponentProcessFailure| #[trigger] is_process_failure(o, envelope, route, f)
                                && is_unspawned_failure(f, prepare_refusal(route)->Some_0.0, prepare_refusal(route)->Some_0.1)
                        } else {
                            in_process_outcome(o, envelope, route, self.handler_registry())
                        })),
                KernelInvocationStep::RunComponentProcess(p) => routes_envelope(self.manifests(), envelope, Ok(p.route))
                    && p.route.invocation_mode == ComponentInvocationMode::LocalProcess
                    && p.envelope == envelope
                    && is_prepared_request(p.request, envelope, p.route),
            },
            step matches KernelInvocationStep::Finished(o) ==> unledgered_outcome(o, self.manifests(), envelope, self.handler_registry()),
    {
        let routed = self.route_envelope(&envelope);
        match routed {
            Err(error) => {
                let o = Self::route_failure(&envelope, error);
                assert(routes_envelope(self.manifests(), envelope, Err(error)));
                KernelInvocationStep::Finished(o)
            },
            Ok(route) => {
                assert(routes_envelope(self.manifests(), envelope, Ok(route)));
                if route.invocation_mode == ComponentInvocationMode::LocalProcess {
                    match prepare_component_process(&envelope, &route) {
                        Ok(request) => KernelInvocationStep::RunComponentProcess(PendingComponentProcess { envelope, route, request }),
                        Err(failure) => {
                            let ghost f = failure;
                            let o = Self::process_failure(&envelope, route, failure);
                            assert(is_process_failure(o, envelope, route, f));
                            assert(process_outcome(o, envelope, route, Err(f)));
                            KernelInvocationStep::Finished(o)
                        },
                    }
                } else {
                    KernelInvocationStep::Finished(self.run_in_process(envelope, route))
                }
            },
        }
    }

    /// Finishes an invocation whose component process was run, from what happened.
    pub fn finish_local_process(pending: PendingComponentProcess, event: ComponentProcessEvent) -> (o: KernelInvocationRuntimeOutput)
        ensures
            exists|r: Result<ComponentProcessSuccess, ComponentProcessFailure>|
                #[trigger] event_outcome_ok(event, pending.envelope, pending.route, r)
                && process_outcome(o, pending.envelope, pending.route, r),
    {
        let PendingComponentProcess { envelope, route, request } = pending;
        let r = finish_component_process(&envelope, &route, event);
        let ghost rr = r;
        let o = Self::complete_local_process(&envelope, route, r);
        assert(event_outcome_ok(event, envelope, route, rr));
        o
    }
}

} // verus!
