//! Routing an operation to the one installed component that serves it.
use vstd::prelude::*;

use crate::error::{code_debug_name, code_name, KernelErrorCode};
use crate::installed_manifest::{contract_view, ComponentInvocationMode, ComponentTransport, InstalledCapability, InstalledComponentManifest};
use crate::manifest_registry::{position_before, any_cap, candidate_matches, entry_matches, positions, serves_op, InstalledManifestRegistry};
use crate::manifest_text::{contract_from_text, last_dot_v, last_dot_v_from};
use crate::route::{is_new_route_request, KernelRouteDecision, KernelRouteRequest};
use crate::routing::{entry_serves, is_first_serving, KernelRoutePlanner};
use crate::text::{append_str, contains_seq, decimal, is_digit, lemma_decimal_digits, occurs_at, owned, parse_u16_spec, push_decimal, str_eq};
use crate::versioning::ContractVersion;

verus! {

broadcast use vstd::string::group_string_axioms;

/// What to route: an operation, for an instance, optionally under a requested contract.
#[derive(Debug, Clone, PartialEq, Eq)]
pub struct KernelRouteRuntimeInput {
    pub instance_id: String,
    pub operation: String,
    pub requested_contract: Option<ContractVersion>,
}

impl KernelRouteRuntimeInput {
    /// Routing `operation` for the global main instance, without a requested contract.
    pub fn new(operation: &str) -> (r: Self)
        ensures
            r.instance_id@ == "global-main"@,
            r.operation@ == operation@,
            r.requested_contract is None,
    {
        KernelRouteRuntimeInput { instance_id: owned("global-main"), operation: owned(operation), requested_contract: None }
    }

    /// The same input for instance `instance_id`.
    pub fn with_instance_id(self, instance_id: &str) -> (r: Self)
        ensures
            r.instance_id@ == instance_id@,
            r.operation == self.operation,
            r.requested_contract == self.requested_contract,
    {
        KernelRouteRuntimeInput { instance_id: owned(instance_id), ..self }
    }

    /// The same input requesting contract `contract`.
    pub fn with_requested_contract(self, contract: ContractVersion) -> (r: Self)
        ensures
            r.instance_id == self.instance_id,
            r.operation == self.operation,
            r.requested_contract == Some(contract),
    {
        KernelRouteRuntimeInput { requested_contract: Some(contract), ..self }
    }
}

/// Where an operation was routed: the decision and the component's launch metadata.
#[derive(Debug, Clone, PartialEq, Eq)]
pub struct KernelRouteRuntimeOutput {
    pub decision: KernelRouteDecision,
    pub component_id: String,
    pub app_id: String,
    pub capability_id: String,
    pub operation: String,
    pub entrypoint: String,
    pub invocation_mode: ComponentInvocationMode,
    pub transport: ComponentTransport,
    pub args: Vec<String>,
    pub working_dir: Option<String>,
    pub env_policy: Option<String>,
    pub visibility: String,
    pub contract_version: ContractVersion,
    pub handler_executed: bool,
}

/// Why an operation could not be routed.
#[derive(Debug, Clone, PartialEq, Eq)]
pub enum KernelRouteRuntimeError {
    MissingCapability { operation: String },
    AmbiguousRoute { operation: String, candidates: Vec<String> },
    ContractVersionMismatch { operation: String, installed: ContractVersion, expected: ContractVersion },
    RoutePlanner { operation: String, code: KernelErrorCode, message: String },
}

/// `<id>.v<major>`, the text of a contract.
pub open spec fn contract_text(c: ContractVersion) -> Seq<char> {
    c.contract_id@ + ".v"@ + decimal(c.major as nat)
}

/// Below `end`, down to the `.v` at `k`, a text whose characters after `k`
/// are no `.` finds its last `.v` at `k`.
proof fn lemma_last_dot_v_at(s: Seq<char>, k: int, end: int)
    requires
        0 <= k <= end,
        occurs_at(s, ".v"@, k),
        forall|p: int| k < p < s.len() ==> #[trigger] s[p] != '.',
    ensures
        last_dot_v_from(s, end) == Some(k),
    decreases end - k,
{
    reveal_strlit(".v");
    if end > k {
        if end + 2 <= s.len() {
            assert(s.subrange(end, end + 2)[0] == s[end]);
            assert(!occurs_at(s, ".v"@, end));
        }
        lemma_last_dot_v_at(s, k, end - 1);
    }
}

/// Reading back a contract written as `<id>.v<major>` gives its id and
/// major version, with minor version 0.
pub proof fn lemma_contract_text_round_trip(c: ContractVersion)
    ensures
        contract_from_text(contract_text(c)) == (c.contract_id@, c.major, 0u16),
{
    reveal_strlit(".v");
    let id = c.contract_id@;
    let ds = decimal(c.major as nat);
    lemma_decimal_digits(c.major as nat);
    let s = contract_text(c);
    assert(s =~= id + ".v"@ + ds);
    let k = id.len() as int;
    assert(s.subrange(k, k + 2) =~= ".v"@);
    assert forall|p: int| k < p < s.len() implies #[trigger] s[p] != '.' by {
        if p == k + 1 {
            assert(s[p] == 'v');
        } else {
            assert(s[p] == ds[p - k - 2]);
            assert(is_digit(ds[p - k - 2]));
        }
    }
    lemma_last_dot_v_at(s, k, s.len() - 2);
    assert(last_dot_v(s) == Some(k));
    assert(s.take(k) =~= id);
    assert(s.skip(k + 2) =~= ds);
    assert(is_digit(ds[0]));
    assert(parse_u16_spec(ds) == Some(c.major));
}

/// Writes a contract as `<id>.v<major>`.
pub fn format_contract(contract: &ContractVersion) -> (r: String)
    ensures
        r@ == contract_text(*contract),
{
    let mut s = contract.contract_id.clone();
    append_str(&mut s, ".v");
    push_decimal(&mut s, contract.major as u64);
    s
}

/// The items joined by `sep`.
pub open spec fn join(items: Seq<Seq<char>>, sep: Seq<char>) -> Seq<char>
    decreases items.len(),
{
    if items.len() == 0 {
        Seq::empty()
    } else if items.len() == 1 {
        items[0]
    } else {
        join(items.drop_last(), sep) + sep + items.last()
    }
}

/// Joins strings with `sep` between them.
pub fn join_strings(items: &Vec<String>, sep: &str) -> (r: String)
    ensures
        r@ == join(items@.map_values(|s: String| s@), sep@),
{
    let ghost v = items@.map_values(|s: String| s@);
    let mut out = String::new();
    let mut i: usize = 0;
    assert(v.take(0) =~= Seq::<Seq<char>>::empty());
    while i < items.len()
        invariant
            i <= items.len(),
            v == items@.map_values(|s: String| s@),
            out@ == join(v.take(i as int), sep@),
        decreases items.len() - i,
    {
        if i > 0 {
            append_str(&mut out, sep);
        }
        append_str(&mut out, items[i].as_str());
        proof {
            let t = v.take(i + 1);
            assert(t.drop_last() == v.take(i as int));
            assert(t.last() == items@[i as int]@);
            if i == 0 {
                assert(t.len() == 1);
            }
        }
        assert(out@ =~= join(v.take(i + 1), sep@));
        i = i + 1;
    }
    assert(v.take(items.len() as int) == v);
    out
}

/// The names of the route candidates at `ps`, each `component:capability`.
pub open spec fn candidate_names(ms: Seq<InstalledComponentManifest>, ps: Seq<(int, int)>) -> Seq<Seq<char>> {
    ps.map_values(|p: (int, int)| ms[p.0].component_id@ + ":"@ + ms[p.0].capabilities@[p.1].id@)
}

/// The text shown for a routing error.
pub open spec fn route_error_text(e: KernelRouteRuntimeError) -> Seq<char> {
    match e {
        KernelRouteRuntimeError::MissingCapability { operation } => "missing capability for operation: "@ + operation@,
        KernelRouteRuntimeError::AmbiguousRoute { operation, candidates } => "ambiguous route for operation: "@
            + operation@ + "; candidates: "@ + join(candidates@.map_values(|s: String| s@), ", "@),
        KernelRouteRuntimeError::ContractVersionMismatch { operation, installed, expected } =>
            "contract version mismatch for operation: "@ + operation@ + "; installed: "@ + contract_text(installed)
            + "; expected: "@ + contract_text(expected),
        KernelRouteRuntimeError::RoutePlanner { operation, code, message } => "route planner failed for operation: "@
            + operation@ + "; code: "@ + code_name(code) + "; message: "@ + message@,
    }
}

/// The machine code of a routing error.
pub open spec fn route_error_code(e: KernelRouteRuntimeError) -> Seq<char> {
    match e {
        KernelRouteRuntimeError::MissingCapability { .. } => "missing capability"@,
        KernelRouteRuntimeError::AmbiguousRoute { .. } => "ambiguous route"@,
        KernelRouteRuntimeError::ContractVersionMismatch { .. } => "contract version mismatch"@,
        KernelRouteRuntimeError::RoutePlanner { .. } => "route planner failed"@,
    }
}

/// The operation a routing error is about.
pub open spec fn route_error_operation(e: KernelRouteRuntimeError) -> Seq<char> {
    match e {
        KernelRouteRuntimeError::MissingCapability { operation } => operation@,
        KernelRouteRuntimeError::AmbiguousRoute { operation, .. } => operation@,
        KernelRouteRuntimeError::ContractVersionMismatch { operation, .. } => operation@,
        KernelRouteRuntimeError::RoutePlanner { operation, .. } => operation@,
    }
}

/// The text of a routing error starts with its code, then " for
/// operation: " and its operation.
pub proof fn lemma_route_error_text_names_code_and_operation(e: KernelRouteRuntimeError)
    ensures
        (route_error_code(e) + " for operation: "@ + route_error_operation(e)).is_prefix_of(route_error_text(e)),
{
    reveal_strlit("missing capability");
    reveal_strlit("ambiguous route");
    reveal_strlit("contract version mismatch");
    reveal_strlit("route planner failed");
    reveal_strlit(" for operation: ");
    reveal_strlit("missing capability for operation: ");
    reveal_strlit("ambiguous route for operation: ");
    reveal_strlit("contract version mismatch for operation: ");
    reveal_strlit("route planner failed for operation: ");
    let p = route_error_code(e) + " for operation: "@ + route_error_operation(e);
    let t = route_error_text(e);
    match e {
        KernelRouteRuntimeError::MissingCapability { operation } => {
            assert(p =~= t);
        },
        KernelRouteRuntimeError::AmbiguousRoute { operation, candidates } => {
            assert(t.subrange(0, p.len() as int) =~= p);
        },
        KernelRouteRuntimeError::ContractVersionMismatch { operation, installed, expected } => {
            assert(t.subrange(0, p.len() as int) =~= p);
        },
        KernelRouteRuntimeError::RoutePlanner { operation, code, message } => {
            assert(t.subrange(0, p.len() as int) =~= p);
        },
    }
}

/// Each item occurs in the items joined by a separator.
proof fn lemma_join_contains(items: Seq<Seq<char>>, sep: Seq<char>, i: int)
    requires
        0 <= i < items.len(),
    ensures
        exists|p: int| occurs_at(join(items, sep), items[i], p),
    decreases items.len(),
{
    let j = join(items, sep);
    if items.len() == 1 {
        assert(j.subrange(0, items[i].len() as int) =~= items[i]);
        assert(occurs_at(j, items[i], 0));
    } else {
        let d = items.drop_last();
        let jd = join(d, sep);
        if i == items.len() - 1 {
            let p: int = (jd.len() + sep.len()) as int;
            assert(j.subrange(p, p + items[i].len()) =~= items[i]);
            assert(occurs_at(j, items[i], p));
        } else {
            lemma_join_contains(d, sep, i);
            let p = choose|p: int| occurs_at(jd, d[i], p);
            assert(j.subrange(p, p + items[i].len()) =~= jd.subrange(p, p + items[i].len()));
            assert(occurs_at(j, items[i], p));
        }
    }
}

/// The text of an ambiguous-route error names every candidate.
pub proof fn lemma_ambiguous_route_text_names_candidates(e: KernelRouteRuntimeError, k: int)
    requires
        e matches KernelRouteRuntimeError::AmbiguousRoute { candidates, .. } && 0 <= k < candidates@.len(),
    ensures
        contains_seq(route_error_text(e), e->candidates@[k]@),
{
    let cs = e->candidates@.map_values(|s: String| s@);
    let prefix = "ambiguous route for operation: "@ + e->AmbiguousRoute_operation@ + "; candidates: "@;
    let j = join(cs, ", "@);
    assert(route_error_text(e) == prefix + j);
    lemma_join_contains(cs, ", "@, k);
    let p = choose|p: int| occurs_at(j, cs[k], p);
    let t = prefix + j;
    let q: int = prefix.len() as int + p;
    assert(t.subrange(q, q + cs[k].len()) =~= j.subrange(p, p + cs[k].len()));
    assert(occurs_at(t, e->candidates@[k]@, q));
}

impl KernelRouteRuntimeError {
    /// The machine code of this error.
    pub fn code(&self) -> (r: &'static str)
        ensures
            r@ == route_error_code(*self),
    {
        match self {
            KernelRouteRuntimeError::MissingCapability { .. } => "missing capability",
            KernelRouteRuntimeError::AmbiguousRoute { .. } => "ambiguous route",
            KernelRouteRuntimeError::ContractVersionMismatch { .. } => "contract version mismatch",
            KernelRouteRuntimeError::RoutePlanner { .. } => "route planner failed",
        }
    }

    /// The operation this error is about.
    pub fn operation(&self) -> (r: &str)
        ensures
            r@ == route_error_operation(*self),
    {
        match self {
            KernelRouteRuntimeError::MissingCapability { operation } => operation.as_str(),
            KernelRouteRuntimeError::AmbiguousRoute { operation, .. } => operation.as_str(),
            KernelRouteRuntimeError::ContractVersionMismatch { operation, .. } => operation.as_str(),
            KernelRouteRuntimeError::RoutePlanner { operation, .. } => operation.as_str(),
        }
    }

    /// The text shown for this error.
    pub fn to_string(&self) -> (r: String)
        ensures
            r@ == route_error_text(*self),
    {
        match self {
            KernelRouteRuntimeError::MissingCapability { operation } => {
                let mut s = owned("missing capability for operation: ");
                append_str(&mut s, operation.as_str());
                s
            },
            KernelRouteRuntimeError::AmbiguousRoute { operation, candidates } => {
                let mut s = owned("ambiguous route for operation: ");
                append_str(&mut s, operation.as_str());
                append_str(&mut s, "; candidates: ");
                let j = join_strings(candidates, ", ");
                append_str(&mut s, j.as_str());
                s
            },
            KernelRouteRuntimeError::ContractVersionMismatch { operation, installed, expected } => {
                let mut s = owned("contract version mismatch for operation: ");
                append_str(&mut s, operation.as_str());
                append_str(&mut s, "; installed: ");
                let a = format_contract(installed);
                append_str(&mut s, a.as_str());
                append_str(&mut s, "; expected: ");
                let b = format_contract(expected);
                append_str(&mut s, b.as_str());
                s
            },
            KernelRouteRuntimeError::RoutePlanner { operation, code, message } => {
                let mut s = owned("route planner failed for operation: ");
                append_str(&mut s, operation.as_str());
                append_str(&mut s, "; code: ");
                append_str(&mut s, code_debug_name(code));
                append_str(&mut s, "; message: ");
                append_str(&mut s, message.as_str());
                s
            },
        }
    }
}

/// Routes operations over the installed manifests; it supports the `kernel.app` contract, major 1.
#[derive(Debug, PartialEq, Eq)]
pub struct KernelRouteRuntime {
    registry: InstalledManifestRegistry,
    supported_contract: ContractVersion,
}

/// The contract the route runtime supports: `kernel.app`, major version 1.
pub open spec fn supported_contract_fits(installed: (Seq<char>, u16, u16)) -> bool {
    installed.0 == "kernel.app"@ && installed.1 == 1
}

/// What routing `input` over the manifests `ms` comes to.
pub enum RouteVerdict {
    /// No capability serves the operation.
    Missing,
    /// More than one capability serves it.
    Ambiguous,
    /// One serves it, at this position, but its contract is not `kernel.app` major 1.
    UnsupportedContract((int, int)),
    /// One serves it, at this position, but not under the requested contract.
    RequestedMismatch((int, int)),
    /// It is routed to the capability at this position.
    Routed((int, int)),
}

/// The routing verdict for operation `op`, under the requested contract if
/// there is one, over the manifests `ms`.
pub open spec fn route_verdict(ms: Seq<InstalledComponentManifest>, op: Seq<char>, requested: Option<ContractVersion>) -> RouteVerdict {
    let ps = positions(ms, serves_op(op));
    if ps.len() == 0 {
        RouteVerdict::Missing
    } else if ps.len() > 1 {
        RouteVerdict::Ambiguous
    } else {
        let p = ps[0];
        let installed = contract_from_text(ms[p.0].contract_version@);
        if !supported_contract_fits(installed) {
            RouteVerdict::UnsupportedContract(p)
        } else {
            match requested {
                Some(c) => if installed.0 == c.contract_id@ && installed.1 == c.major {
                    RouteVerdict::Routed(p)
                } else {
                    RouteVerdict::RequestedMismatch(p)
                },
                None => RouteVerdict::Routed(p),
            }
        }
    }
}

/// Whether `out` is the route to capability `cap` of manifest `m` for
/// operation `op` from `instance`: the component's metadata, and a
/// primary-only decision for a request from that instance for the capability
/// and operation, under the requested contract.
pub open spec fn route_output_matches(
    out: KernelRouteRuntimeOutput,
    m: InstalledComponentManifest,
    cap: InstalledCapability,
    op: Seq<char>,
    instance: Seq<char>,
    requested: Option<ContractVersion>,
) -> bool {
    let req = out.decision.request;
    &&& out.component_id@ == m.component_id@
    &&& out.app_id@ == m.app_id@
    &&& out.capability_id@ == cap.id@
    &&& out.operation@ == cap.operation@
    &&& out.entrypoint@ == m.entrypoint@
    &&& out.invocation_mode == m.invocation_mode
    &&& out.transport == m.transport
    &&& out.args@ == m.args@
    &&& out.working_dir == m.working_dir
    &&& out.env_policy == m.env_policy
    &&& out.visibility@ == cap.visibility@
    &&& contract_view(out.contract_version) == contract_from_text(m.contract_version@)
    &&& !out.handler_executed
    &&& is_new_route_request(
        KernelRouteRequest { requested_contract: None, ..req },
        instance,
        cap.id@,
        op,
    )
    &&& req.requested_contract == requested
    &&& out.decision.target.app_id@ == m.app_id@
    &&& contract_view(out.decision.target.contract_version) == contract_from_text(m.contract_version@)
    &&& out.decision.route_policy == crate::route::KernelRoutePolicy::PrimaryOnly
    &&& out.decision.route_reason == crate::route::RouteReason::ExactCapabilityOperation
    &&& out.decision.fallback_chain.targets@.len() == 0
}

/// What routing operation `op` from `instance`, under the requested contract
/// if there is one, gives over the manifests `ms`: the error each failing
/// verdict names, or the route to the one capability that serves `op`.
pub open spec fn route_outcome(
    ms: Seq<InstalledComponentManifest>,
    op: Seq<char>,
    instance: Seq<char>,
    requested: Option<ContractVersion>,
    r: Result<KernelRouteRuntimeOutput, KernelRouteRuntimeError>,
) -> bool {
    match route_verdict(ms, op, requested) {
        RouteVerdict::Missing => r matches Err(e) && e matches KernelRouteRuntimeError::MissingCapability {
            operation,
        } && operation@ == op,
        RouteVerdict::Ambiguous => r matches Err(e) && e matches KernelRouteRuntimeError::AmbiguousRoute {
            operation,
            candidates,
        } && operation@ == op && candidates@.map_values(|s: String| s@)
            == candidate_names(ms, positions(ms, serves_op(op))),
        RouteVerdict::UnsupportedContract(p) => r matches Err(e)
            && e matches KernelRouteRuntimeError::ContractVersionMismatch { operation, installed, expected }
            && operation@ == op && contract_view(installed) == contract_from_text(
            ms[p.0].contract_version@,
        ) && contract_view(expected) == ("kernel.app"@, 1u16, 0u16),
        RouteVerdict::RequestedMismatch(p) => r matches Err(e)
            && e matches KernelRouteRuntimeError::ContractVersionMismatch { operation, installed, expected }
            && operation@ == op && contract_view(installed) == contract_from_text(
            ms[p.0].contract_version@,
        ) && Some(expected) == requested,
        RouteVerdict::Routed(p) => r matches Ok(out) && route_output_matches(
            out,
            ms[p.0],
            ms[p.0].capabilities@[p.1],
            op,
            instance,
            requested,
        ),
    }
}

impl KernelRouteRuntime {
    #[verifier::type_invariant]
    spec fn supports_kernel_app_v1(self) -> bool {
        contract_view(self.supported_contract) == ("kernel.app"@, 1u16, 0u16)
    }

    /// The installed manifests routed over.
    pub closed spec fn manifests_view(&self) -> Seq<InstalledComponentManifest> {
        self.registry.manifests_view()
    }

    /// A route runtime over `registry`.
    pub fn from_registry(registry: InstalledManifestRegistry) -> (r: Self)
        ensures
            r.manifests_view() == registry.manifests_view(),
    {
        KernelRouteRuntime { registry, supported_contract: ContractVersion::new("kernel.app", 1, 0) }
    }

    /// Routes `input` to the one installed capability that serves its
    /// operation. Fails when none or several serve it, when that capability's
    /// contract is not `kernel.app` major 1, or when it is not the requested
    /// contract (same id and major version).
    pub fn route(&self, input: KernelRouteRuntimeInput) -> (r: Result<KernelRouteRuntimeOutput, KernelRouteRuntimeError>)
        ensures
            route_outcome(self.manifests_view(), input.operation@, input.instance_id@, input.requested_contract, r),
    {
        let ghost ms = self.manifests_view();
        let ghost op = input.operation@;
        let ghost ps = positions(ms, serves_op(input.operation@));
        let candidates = self.registry.operation_candidates(input.operation.as_str());
        if candidates.len() == 0 {
            return Err(KernelRouteRuntimeError::MissingCapability { operation: input.operation });
        }
        if candidates.len() > 1 {
            let mut names: Vec<String> = Vec::new();
            let mut i: usize = 0;
            while i < candidates.len()
                invariant
                    i <= candidates.len(),
                    candidates@.len() == ps.len(),
                    forall|k: int| 0 <= k < ps.len() ==> candidate_matches(
                        #[trigger] candidates@[k],
                        ms[ps[k].0],
                        ms[ps[k].0].capabilities@[ps[k].1],
                    ),
                    names@.map_values(|s: String| s@) == candidate_names(ms, ps.take(i as int)),
                decreases candidates.len() - i,
            {
                let mut name = candidates[i].component_id.clone();
                append_str(&mut name, ":");
                append_str(&mut name, candidates[i].capability_id.as_str());
                let ghost before = names@;
                names.push(name);
                proof {
                    let q = ps[i as int];
                    assert(ps.take(i + 1) == ps.take(i as int).push(q));
                    assert(candidate_matches(candidates@[i as int], ms[q.0], ms[q.0].capabilities@[q.1]));
                    assert(candidate_names(ms, ps.take(i + 1)) =~= candidate_names(ms, ps.take(i as int)).push(
                        ms[q.0].component_id@ + ":"@ + ms[q.0].capabilities@[q.1].id@,
                    ));
                    assert(names@ == before.push(names@.last()));
                    assert(names@.map_values(|s: String| s@) =~= before.map_values(|s: String| s@).push(names@.last()@));
                }
                i = i + 1;
            }
            assert(ps.take(ps.len() as int) == ps);
            return Err(KernelRouteRuntimeError::AmbiguousRoute { operation: input.operation, candidates: names });
        }
        let candidate = &candidates[0];
        let ghost p = ps[0];
        assert(candidate_matches(*candidate, ms[p.0], ms[p.0].capabilities@[p.1]));
        let supported = &self.supported_contract;
        proof {
            use_type_invariant(self);
        }
        if !(str_eq(candidate.contract_version.contract_id.as_str(), "kernel.app")
            && candidate.contract_version.major == 1)
        {
            return Err(KernelRouteRuntimeError::ContractVersionMismatch {
                operation: input.operation,
                installed: candidate.contract_version.duplicate(),
                expected: supported.duplicate(),
            });
        }
        match &input.requested_contract {
            Some(requested) => {
                if !(str_eq(candidate.contract_version.contract_id.as_str(), requested.contract_id.as_str())
                    && candidate.contract_version.major == requested.major)
                {
                    return Err(KernelRouteRuntimeError::ContractVersionMismatch {
                        operation: input.operation,
                        installed: candidate.contract_version.duplicate(),
                        expected: requested.duplicate(),
                    });
                }
            },
            None => {},
        }
        let KernelRouteRuntimeInput { instance_id, operation, requested_contract } = input;
        let mut request = KernelRouteRequest::new(
            instance_id.as_str(),
            candidate.capability_id.as_str(),
            operation.as_str(),
        );
        request.requested_contract = requested_contract;
        let registry = self.registry.to_capability_registry();
        let planner = KernelRoutePlanner::new(registry);
        proof {
            lemma_single_serving_entry(ms, planner.registry_view().entries_view(), op);
        }
        let decision = match planner.plan(request) {
            Ok(d) => d,
            Err(e) => {
                proof {
                    assert(false);
                }
                return Err(KernelRouteRuntimeError::RoutePlanner {
                    operation,
                    code: e.code,
                    message: e.message_zh,
                });
            },
        };
        Ok(KernelRouteRuntimeOutput {
            decision,
            component_id: candidate.component_id.clone(),
            app_id: candidate.app_id.clone(),
            capability_id: candidate.capability_id.clone(),
            operation: candidate.operation.clone(),
            entrypoint: candidate.entrypoint.clone(),
            invocation_mode: match candidate.invocation_mode {
                ComponentInvocationMode::InProcess => ComponentInvocationMode::InProcess,
                ComponentInvocationMode::LocalProcess => ComponentInvocationMode::LocalProcess,
            },
            transport: match candidate.transport {
                ComponentTransport::StdioJsonl => ComponentTransport::StdioJsonl,
                ComponentTransport::UnixSocket => ComponentTransport::UnixSocket,
                ComponentTransport::Unsupported => ComponentTransport::Unsupported,
            },
            args: crate::text::clone_strings(&candidate.args),
            working_dir: match &candidate.working_dir {
                Some(w) => Some(w.clone()),
                None => None,
            },
            env_policy: match &candidate.env_policy {
                Some(e) => Some(e.clone()),
                None => None,
            },
            visibility: candidate.visibility.clone(),
            contract_version: candidate.contract_version.duplicate(),
            handler_executed: false,
        })
    }
}

/// When exactly one capability serves `operation`, the capability registry
/// built from the manifests has exactly one entry serving that capability's
/// operation, and it is the entry for that capability.
proof fn lemma_single_serving_entry(
    ms: Seq<InstalledComponentManifest>,
    entries: Seq<crate::routing::CapabilityRegistryEntry>,
    operation: Seq<char>,
)
    requires
        positions(ms, serves_op(operation)).len() == 1,
        entries.len() == positions(ms, any_cap()).len(),
        forall|k: int| 0 <= k < positions(ms, any_cap()).len() ==> entry_matches(
            #[trigger] entries[k],
            ms[positions(ms, any_cap())[k].0],
            ms[positions(ms, any_cap())[k].0].capabilities@[positions(ms, any_cap())[k].1],
        ),
    ensures
        ({
            let p = positions(ms, serves_op(operation))[0];
            let cap = ms[p.0].capabilities@[p.1];
            exists|k: int| is_first_serving(entries, cap.id@, operation, k) && positions(ms, any_cap())[k] == p
        }),
{
    let pa = positions(ms, any_cap());
    let po = positions(ms, serves_op(operation));
    let p = po[0];
    let cap = ms[p.0].capabilities@[p.1];
    crate::manifest_registry::lemma_positions_valid(ms, serves_op(operation));
    crate::manifest_registry::lemma_positions_valid(ms, any_cap());
    crate::manifest_registry::lemma_positions_sorted(ms, any_cap());
    crate::manifest_registry::lemma_positions_complete(ms, any_cap(), p);
    let k0 = choose|k: int| 0 <= k < pa.len() && pa[k] == p;
    assert(entry_matches(entries[k0], ms[p.0], cap));
    assert(entry_serves(entries[k0], cap.id@, operation)) by {
        assert(entries[k0].capability.operations@[0].operation@ == operation);
    }
    assert forall|j: int| 0 <= j < k0 implies !entry_serves(#[trigger] entries[j], cap.id@, operation) by {
        if entry_serves(entries[j], cap.id@, operation) {
            let q = pa[j];
            assert(entry_matches(entries[j], ms[q.0], ms[q.0].capabilities@[q.1]));
            let w = choose|w: int| 0 <= w < entries[j].capability.operations@.len()
                && (#[trigger] entries[j].capability.operations@[w]).operation@ == operation;
            assert(w == 0);
            assert(ms[q.0].capabilities@[q.1].operation@ == operation);
            crate::manifest_registry::lemma_positions_complete(ms, serves_op(operation), q);
            let t = choose|t: int| 0 <= t < po.len() && po[t] == q;
            assert(t == 0);
            assert(position_before(pa[j], pa[k0]));
        }
    }
    assert(is_first_serving(entries, cap.id@, operation, k0));
}

} // verus!
