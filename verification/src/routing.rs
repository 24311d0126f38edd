//! The capability registry and the route planner that resolves a request to an app.
use vstd::prelude::*;

use crate::capability::CapabilityDescriptor;
use crate::error::{KernelError, KernelErrorCode, KernelErrorStage};
use crate::route::{
    FallbackChain, KernelRouteDecision, KernelRoutePolicy, KernelRouteRequest, KernelRouteTarget,
    RouteReason,
};
use crate::text::{owned, str_eq};
use crate::versioning::ContractVersion;

verus! {

/// A capability that an app serves under a contract version.
#[derive(Debug, Clone, PartialEq, Eq)]
pub struct CapabilityRegistryEntry {
    pub app_id: String,
    pub capability: CapabilityDescriptor,
    pub contract_version: ContractVersion,
}

/// The capabilities that apps serve, in registration order.
#[derive(Debug, Clone, PartialEq, Eq)]
pub struct CapabilityRegistry {
    entries: Vec<CapabilityRegistryEntry>,
}

/// Whether `e` serves operation `operation` of capability `capability`.
pub open spec fn entry_serves(e: CapabilityRegistryEntry, capability: Seq<char>, operation: Seq<char>) -> bool {
    e.capability.capability_id@ == capability && exists|j: int|
        0 <= j < e.capability.operations@.len() && (#[trigger] e.capability.operations@[j]).operation@
            == operation
}

/// Whether `i` is the first index of `entries` whose entry serves the operation.
pub open spec fn is_first_serving(
    entries: Seq<CapabilityRegistryEntry>,
    capability: Seq<char>,
    operation: Seq<char>,
    i: int,
) -> bool {
    &&& 0 <= i < entries.len()
    &&& entry_serves(entries[i], capability, operation)
    &&& forall|j: int| 0 <= j < i ==> !entry_serves(#[trigger] entries[j], capability, operation)
}

/// Whether no entry serves the operation.
pub open spec fn none_serving(
    entries: Seq<CapabilityRegistryEntry>,
    capability: Seq<char>,
    operation: Seq<char>,
) -> bool {
    forall|j: int| 0 <= j < entries.len() ==> !entry_serves(#[trigger] entries[j], capability, operation)
}

impl CapabilityRegistry {
    /// The registered entries, in registration order.
    pub closed spec fn entries_view(&self) -> Seq<CapabilityRegistryEntry> {
        self.entries@
    }

    /// An empty registry.
    pub fn new() -> (r: Self)
        ensures
            r.entries_view().len() == 0,
    {
        CapabilityRegistry { entries: Vec::new() }
    }

    /// Adds an entry at the end.
    pub fn register(&mut self, app_id: &str, capability: CapabilityDescriptor, contract_version: ContractVersion)
        ensures
            final(self).entries_view().len() == old(self).entries_view().len() + 1,
            final(self).entries_view().drop_last() == old(self).entries_view(),
            final(self).entries_view().last().app_id@ == app_id@,
            final(self).entries_view().last().capability == capability,
            final(self).entries_view().last().contract_version == contract_version,
    {
        self.entries.push(CapabilityRegistryEntry { app_id: owned(app_id), capability, contract_version });
        assert(self.entries@.drop_last() == old(self).entries@);
    }

    /// The index of the first entry that serves `operation` of `capability`.
    pub fn find_index(&self, capability: &str, operation: &str) -> (r: Option<usize>)
        ensures
            match r {
                Some(i) => is_first_serving(self.entries_view(), capability@, operation@, i as int),
                None => none_serving(self.entries_view(), capability@, operation@),
            },
    {
        let mut i: usize = 0;
        while i < self.entries.len()
            invariant
                i <= self.entries.len(),
                forall|j: int| 0 <= j < i ==> !entry_serves(#[trigger] self.entries@[j], capability@, operation@),
            decreases self.entries.len() - i,
        {
            let e = &self.entries[i];
            if str_eq(e.capability.capability_id.as_str(), capability) {
                let mut k: usize = 0;
                while k < e.capability.operations.len()
                    invariant
                        i < self.entries.len(),
                        *e == self.entries@[i as int],
                        e.capability.capability_id@ == capability@,
                        forall|j: int| 0 <= j < i ==> !entry_serves(#[trigger] self.entries@[j], capability@, operation@),
                        k <= e.capability.operations.len(),
                        forall|j: int| 0 <= j < k ==> (#[trigger] e.capability.operations@[j]).operation@ != operation@,
                    decreases e.capability.operations.len() - k,
                {
                    if str_eq(e.capability.operations[k].operation.as_str(), operation) {
                        assert(e.capability.operations@[k as int].operation@ == operation@);
                        assert(entry_serves(self.entries@[i as int], capability@, operation@));
                        return Some(i);
                    }
                    k = k + 1;
                }
            }
            i = i + 1;
        }
        None
    }

    /// The first entry that serves `operation` of `capability`.
    pub fn find(&self, capability: &str, operation: &str) -> (r: Option<&CapabilityRegistryEntry>)
        ensures
            match r {
                Some(e) => exists|i: int|
                    is_first_serving(self.entries_view(), capability@, operation@, i) && *e
                        == self.entries_view()[i],
                None => none_serving(self.entries_view(), capability@, operation@),
            },
    {
        match self.find_index(capability, operation) {
            Some(i) => Some(&self.entries[i]),
            None => None,
        }
    }
}

/// Resolves route requests against a capability registry.
#[derive(Debug, Clone, PartialEq, Eq)]
pub struct KernelRoutePlanner {
    capability_registry: CapabilityRegistry,
}

/// Whether a requested contract, if any, has the entry's contract id and major version.
pub open spec fn requested_contract_fits(requested: Option<ContractVersion>, installed: ContractVersion) -> bool {
    match requested {
        Some(c) => c.contract_id@ == installed.contract_id@ && c.major == installed.major,
        None => true,
    }
}

/// Whether `d` routes `request` to the entry `e`, primary only, without fallbacks.
pub open spec fn decision_targets(d: KernelRouteDecision, request: KernelRouteRequest, e: CapabilityRegistryEntry) -> bool {
    &&& d.request == request
    &&& d.target.app_id@ == e.app_id@
    &&& d.target.contract_version == e.contract_version
    &&& d.route_policy == KernelRoutePolicy::PrimaryOnly
    &&& d.route_reason == RouteReason::ExactCapabilityOperation
    &&& d.fallback_chain.targets@.len() == 0
}

/// Whether `e` is a route-stage error with the given code and message, no detail, not retried.
pub open spec fn is_route_error(e: KernelError, code: KernelErrorCode, message: Seq<char>) -> bool {
    &&& e.code == code
    &&& e.stage == KernelErrorStage::Route
    &&& e.message_zh@ == message
    &&& e.safe_detail is None
    &&& e.secret_safe
}

impl KernelRoutePlanner {
    /// The registry the planner resolves against.
    pub closed spec fn registry_view(&self) -> CapabilityRegistry {
        self.capability_registry
    }

    /// A planner over `capability_registry`.
    pub fn new(capability_registry: CapabilityRegistry) -> (r: Self)
        ensures
            r.registry_view() == capability_registry,
    {
        KernelRoutePlanner { capability_registry }
    }

    /// Routes `request` to the first entry that serves its operation. Fails
    /// with a missing-capability error when none does, and with a version
    /// mismatch when the request names a contract of another id or major version.
    pub fn plan(&self, request: KernelRouteRequest) -> (r: Result<KernelRouteDecision, KernelError>)
        ensures
            ({
                let entries = self.registry_view().entries_view();
                let cap = request.capability@;
                let op = request.operation@;
                &&& none_serving(entries, cap, op) ==> (r matches Err(e) && is_route_error(
                    e,
                    KernelErrorCode::MissingCapability,
                    "缺少能力路由"@,
                ))
                &&& forall|i: int| #[trigger]
                    is_first_serving(entries, cap, op, i) ==> if requested_contract_fits(
                        request.requested_contract,
                        entries[i].contract_version,
                    ) {
                        r matches Ok(d) && decision_targets(d, request, entries[i])
                    } else {
                        r matches Err(e) && is_route_error(e, KernelErrorCode::VersionMismatch, "合同版本不兼容"@)
                    }
            }),
    {
        let idx = match self.capability_registry.find_index(request.capability.as_str(), request.operation.as_str()) {
            Some(i) => i,
            None => {
                return Err(KernelError::new(KernelErrorCode::MissingCapability, KernelErrorStage::Route, "缺少能力路由"));
            },
        };
        let entry = &self.capability_registry.entries[idx];
        proof {
            let entries = self.registry_view().entries_view();
            assert forall|i: int| #[trigger] is_first_serving(entries, request.capability@, request.operation@, i) implies i == idx by {
                if i < idx {
                    assert(!entry_serves(entries[i], request.capability@, request.operation@));
                } else if i > idx {
                    assert(!entry_serves(entries[idx as int], request.capability@, request.operation@));
                }
            }
        }
        match &request.requested_contract {
            Some(requested) => {
                if !str_eq(requested.contract_id.as_str(), entry.contract_version.contract_id.as_str())
                    || requested.major != entry.contract_version.major
                {
                    return Err(KernelError::new(KernelErrorCode::VersionMismatch, KernelErrorStage::Route, "合同版本不兼容"));
                }
            },
            None => {},
        }
        let target = KernelRouteTarget {
            app_id: entry.app_id.clone(),
            contract_version: entry.contract_version.duplicate(),
        };
        Ok(KernelRouteDecision {
            target,
            request,
            route_policy: KernelRoutePolicy::PrimaryOnly,
            route_reason: RouteReason::ExactCapabilityOperation,
            fallback_chain: FallbackChain { targets: Vec::new() },
        })
    }
}

} // verus!
