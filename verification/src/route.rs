//! Route requests and route decisions.
use vstd::prelude::*;

use crate::context::{AuditContext, TraceContext};
use crate::text::owned;
use crate::versioning::ContractVersion;

verus! {

/// A request to route an operation of a capability for an instance.
#[derive(Debug, Clone, PartialEq, Eq)]
pub struct KernelRouteRequest {
    pub instance_id: String,
    pub capability: String,
    pub operation: String,
    pub requested_contract: Option<ContractVersion>,
    pub trace_context: TraceContext,
    pub audit_context: AuditContext,
}

/// Whether `r` is the request that `KernelRouteRequest::new` builds.
pub open spec fn is_new_route_request(
    r: KernelRouteRequest,
    instance_id: Seq<char>,
    capability: Seq<char>,
    operation: Seq<char>,
) -> bool {
    &&& r.instance_id@ == instance_id
    &&& r.capability@ == capability
    &&& r.operation@ == operation
    &&& r.requested_contract is None
    &&& r.trace_context.trace_id@ == "trace.route"@
    &&& r.trace_context.parent_span_id is None
    &&& r.audit_context.actor@ == "system"@
    &&& r.audit_context.reason@ == "route request"@
}

impl KernelRouteRequest {
    /// A request without a requested contract, in trace `trace.route`, on behalf of the system.
    pub fn new(instance_id: &str, capability: &str, operation: &str) -> (r: Self)
        ensures
            is_new_route_request(r, instance_id@, capability@, operation@),
    {
        KernelRouteRequest {
            instance_id: owned(instance_id),
            capability: owned(capability),
            operation: owned(operation),
            requested_contract: None,
            trace_context: TraceContext::new("trace.route"),
            audit_context: AuditContext::system("route request"),
        }
    }
}

/// The app and contract a request is routed to.
#[derive(Debug, Clone, PartialEq, Eq)]
pub struct KernelRouteTarget {
    pub app_id: String,
    pub contract_version: ContractVersion,
}

/// Whether a route may fall back to other targets.
#[derive(Debug, Clone, PartialEq, Eq, Structural)]
pub enum KernelRoutePolicy {
    PrimaryOnly,
    AllowFallback,
}

/// Why a target was chosen.
#[derive(Debug, Clone, PartialEq, Eq, Structural)]
pub enum RouteReason {
    ExactCapabilityOperation,
    FallbackCapability,
}

/// Targets to try after the primary one.
#[derive(Debug, Clone, PartialEq, Eq)]
pub struct FallbackChain {
    pub targets: Vec<KernelRouteTarget>,
}

/// A routing decision: the request, its target, and how the target was chosen.
#[derive(Debug, Clone, PartialEq, Eq)]
pub struct KernelRouteDecision {
    pub request: KernelRouteRequest,
    pub target: KernelRouteTarget,
    pub route_policy: KernelRoutePolicy,
    pub route_reason: RouteReason,
    pub fallback_chain: FallbackChain,
}

impl KernelRouteDecision {
    /// A primary-only decision for an exact capability operation, without fallbacks.
    pub fn new(request: KernelRouteRequest, target: KernelRouteTarget) -> (r: Self)
        ensures
            r.request == request,
            r.target == target,
            r.route_policy == KernelRoutePolicy::PrimaryOnly,
            r.route_reason == RouteReason::ExactCapabilityOperation,
            r.fallback_chain.targets@.len() == 0,
    {
        KernelRouteDecision {
            request,
            target,
            route_policy: KernelRoutePolicy::PrimaryOnly,
            route_reason: RouteReason::ExactCapabilityOperation,
            fallback_chain: FallbackChain { targets: Vec::new() },
        }
    }
}

} // verus!
