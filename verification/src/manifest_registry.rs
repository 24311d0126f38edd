//! The registry of installed component manifests and what it offers to routing.
use vstd::prelude::*;

use crate::capability::{is_bare_operation, CapabilityDescriptor};
use crate::installed_manifest::{
    contract_view, manifest_draft, manifest_matches, missing_field_message, missing_required, parse_manifest, InstalledCapability, InstalledComponentManifest,
    InstalledRouteCandidate,
};
use crate::manifest_text::contract_from_text;
use crate::routing::{CapabilityRegistry, CapabilityRegistryEntry};
use crate::text::{chars_of, clone_strings, lemma_lex_lt_transitive, lex_lt, str_eq, str_lt};

verus! {

/// The installed manifests, in the order they were read.
#[derive(Debug, Clone, PartialEq, Eq)]
pub struct InstalledManifestRegistry {
    manifests: Vec<InstalledComponentManifest>,
}

/// The positions `(manifest, capability)` of the capabilities of manifest
/// `i` whose index is below `n` and that satisfy `keep`, in order.
pub open spec fn cap_positions(
    m: InstalledComponentManifest,
    i: int,
    n: int,
    keep: spec_fn(InstalledCapability) -> bool,
) -> Seq<(int, int)>
    decreases n,
{
    if n <= 0 {
        Seq::empty()
    } else {
        let prev = cap_positions(m, i, n - 1, keep);
        if keep(m.capabilities@[n - 1]) {
            prev.push((i, n - 1))
        } else {
            prev
        }
    }
}

/// The positions of all capabilities of `ms` that satisfy `keep`: manifests in
/// order, and within a manifest its capabilities in order.
pub open spec fn positions(ms: Seq<InstalledComponentManifest>, keep: spec_fn(InstalledCapability) -> bool) -> Seq<(int, int)>
    decreases ms.len(),
{
    if ms.len() == 0 {
        Seq::empty()
    } else {
        positions(ms.drop_last(), keep) + cap_positions(
            ms.last(),
            ms.len() - 1,
            ms.last().capabilities@.len() as int,
            keep,
        )
    }
}

/// Every capability.
pub open spec fn any_cap() -> spec_fn(InstalledCapability) -> bool {
    |c: InstalledCapability| true
}

/// The capabilities serving `operation`.
pub open spec fn serves_op(operation: Seq<char>) -> spec_fn(InstalledCapability) -> bool {
    |c: InstalledCapability| c.operation@ == operation
}

/// The number of capabilities over all manifests.
pub open spec fn total_capabilities(ms: Seq<InstalledComponentManifest>) -> nat {
    positions(ms, any_cap()).len()
}

/// Whether `c` is the route candidate for capability `cap` of manifest `m`.
pub open spec fn candidate_matches(c: InstalledRouteCandidate, m: InstalledComponentManifest, cap: InstalledCapability) -> bool {
    &&& c.component_id@ == m.component_id@
    &&& c.app_id@ == m.app_id@
    &&& c.entrypoint@ == m.entrypoint@
    &&& c.invocation_mode == m.invocation_mode
    &&& c.transport == m.transport
    &&& c.args@ == m.args@
    &&& c.working_dir == m.working_dir
    &&& c.env_policy == m.env_policy
    &&& contract_view(c.contract_version) == contract_from_text(m.contract_version@)
    &&& c.capability_id@ == cap.id@
    &&& c.operation@ == cap.operation@
    &&& c.visibility@ == cap.visibility@
}

/// Whether `e` is the capability registry entry for capability `cap` of manifest `m`:
/// the manifest's app serves the capability's one operation under the manifest's contract.
pub open spec fn entry_matches(e: CapabilityRegistryEntry, m: InstalledComponentManifest, cap: InstalledCapability) -> bool {
    &&& e.app_id@ == m.app_id@
    &&& e.capability.capability_id@ == cap.id@
    &&& e.capability.operations@.len() == 1
    &&& is_bare_operation(e.capability.operations@[0], cap.operation@)
    &&& e.capability.schema_refs@.len() == 0
    &&& e.capability.credential_requirement is None
    &&& e.capability.sandbox_requirement is None
    &&& contract_view(e.contract_version) == contract_from_text(m.contract_version@)
}

proof fn lemma_cap_positions_bounds(
    m: InstalledComponentManifest,
    i: int,
    n: int,
    keep: spec_fn(InstalledCapability) -> bool,
)
    ensures
        cap_positions(m, i, n, keep).len() <= if n < 0 { 0 } else { n },
        forall|k: int| 0 <= k < cap_positions(m, i, n, keep).len() ==> {
            let p = #[trigger] cap_positions(m, i, n, keep)[k];
            p.0 == i && 0 <= p.1 < n && keep(m.capabilities@[p.1])
        },
    decreases n,
{
    if n > 0 {
        lemma_cap_positions_bounds(m, i, n - 1, keep);
    }
}

fn clone_opt(o: &Option<String>) -> (r: Option<String>)
    ensures
        r == *o,
{
    match o {
        Some(s) => Some(s.clone()),
        None => None,
    }
}

/// The views of a list of texts.
pub open spec fn text_views(v: Seq<String>) -> Seq<Seq<char>> {
    v.map_values(|s: String| s@)
}

/// Whether a directory entry named `name` is a manifest: its extension is
/// `toml` (a `.toml` ending after a non-empty stem, as `Path::extension` reads it).
pub open spec fn is_manifest_file_name(name: Seq<char>) -> bool {
    name.len() > 5 && name.subrange(name.len() - 5, name.len() as int) == ".toml"@
}

/// The manifest names among `names`, in their order.
pub open spec fn manifest_names(names: Seq<Seq<char>>) -> Seq<Seq<char>>
    decreases names.len(),
{
    if names.len() == 0 {
        Seq::empty()
    } else {
        let rest = manifest_names(names.drop_last());
        if is_manifest_file_name(names.last()) { rest.push(names.last()) } else { rest }
    }
}

/// Whether `s` is in ascending order (as `str`'s `<`).
pub open spec fn ascending(s: Seq<Seq<char>>) -> bool {
    forall|a: int, b: int| 0 <= a < b < s.len() ==> !lex_lt(#[trigger] s[b], #[trigger] s[a])
}

fn is_manifest_file(name: &str) -> (r: bool)
    ensures
        r == is_manifest_file_name(name@),
{
    let cs = chars_of(name);
    let suffix = chars_of(".toml");
    proof {
        reveal_strlit(".toml");
    }
    if cs.len() <= 5 {
        return false;
    }
    let start = cs.len() - 5;
    let mut j: usize = 0;
    while j < 5
        invariant
            j <= 5,
            start + 5 == cs.len(),
            cs@ == name@,
            suffix@ == ".toml"@,
            suffix@.len() == 5,
            forall|k: int| 0 <= k < j ==> cs@[start + k] == suffix@[k],
        decreases 5 - j,
    {
        if cs[start + j] != suffix[j] {
            assert(name@.subrange(name@.len() - 5, name@.len() as int)[j as int] != ".toml"@[j as int]);
            return false;
        }
        j = j + 1;
    }
    assert(name@.subrange(name@.len() - 5, name@.len() as int) =~= ".toml"@);
    true
}

/// The manifest files among the entries `names` of the manifest directory,
/// in ascending order: the files that are read, in the order they are read.
pub fn manifest_file_names(names: &Vec<String>) -> (r: Vec<String>)
    ensures
        text_views(r@).to_multiset() == manifest_names(text_views(names@)).to_multiset(),
        ascending(text_views(r@)),
{
    let mut r: Vec<String> = Vec::new();
    let mut i: usize = 0;
    assert(text_views(names@.subrange(0, 0)) =~= Seq::<Seq<char>>::empty());
    assert(text_views(r@) =~= Seq::<Seq<char>>::empty());
    while i < names.len()
        invariant
            i <= names.len(),
            text_views(r@).to_multiset() == manifest_names(text_views(names@.subrange(0, i as int))).to_multiset(),
            ascending(text_views(r@)),
        decreases names.len() - i,
    {
        let ghost pre = text_views(names@.subrange(0, i + 1));
        assert(pre.drop_last() =~= text_views(names@.subrange(0, i as int)));
        assert(pre.last() == names@[i as int]@);
        let ghost before = text_views(r@);
        if is_manifest_file(names[i].as_str()) {
            let x = chars_of(names[i].as_str());
            let mut j: usize = 0;
            while j < r.len() && !str_lt(&x, &chars_of(r[j].as_str()))
                invariant
                    j <= r.len(),
                    x@ == names@[i as int]@,
                    forall|k: int| 0 <= k < j ==> !lex_lt(x@, #[trigger] text_views(r@)[k]),
                decreases r.len() - j,
            {
                j = j + 1;
            }
            let ghost old_v = text_views(r@);
            r.insert(j, names[i].clone());
            proof {
                let v = text_views(r@);
                assert(v =~= old_v.insert(j as int, x@));
                assert forall|a: int, b: int| 0 <= a < b < v.len() implies !lex_lt(#[trigger] v[b], #[trigger] v[a]) by {
                    if b < j {
                        assert(v[a] == old_v[a] && v[b] == old_v[b]);
                    } else if a > j {
                        assert(v[a] == old_v[a - 1] && v[b] == old_v[b - 1]);
                    } else if a == j {
                        assert(v[b] == old_v[b - 1]);
                        if lex_lt(v[b], v[a]) {
                            // x comes before old_v[j], which no later entry comes before.
                            assert(lex_lt(x@, old_v[j as int]));
                            lemma_lex_lt_transitive(old_v[b - 1], x@, old_v[j as int]);
                            if b - 1 == j {
                                crate::fields::lemma_lex_lt_irreflexive(old_v[j as int]);
                            }
                        }
                    } else if b == j {
                        assert(v[a] == old_v[a]);
                    } else {
                        assert(v[a] == old_v[a] && v[b] == old_v[b - 1]);
                    }
                }
                assert(manifest_names(pre) == manifest_names(pre.drop_last()).push(x@));
                vstd::seq_lib::to_multiset_insert(old_v, j as int, x@);
                vstd::seq_lib::to_multiset_build(manifest_names(pre.drop_last()), x@);
            }
        } else {
            assert(manifest_names(pre) == manifest_names(pre.drop_last()));
        }
        assert(text_views(names@.subrange(0, i + 1)) == pre);
        i = i + 1;
    }
    assert(names@.subrange(0, names@.len() as int) =~= names@);
    r
}

impl InstalledManifestRegistry {
    /// The manifests, in order.
    pub closed spec fn manifests_view(&self) -> Seq<InstalledComponentManifest> {
        self.manifests@
    }

    /// A registry holding `manifests`, in order.
    pub fn from_manifests(manifests: Vec<InstalledComponentManifest>) -> (r: Self)
        ensures
            r.manifests_view() == manifests@,
    {
        InstalledManifestRegistry { manifests }
    }

    /// A registry read from manifest texts in order; the first text that is
    /// not a valid manifest makes it fail with that text's error.
    pub fn from_manifest_texts(texts: &Vec<String>) -> (r: Result<Self, String>)
        ensures
            match r {
                Ok(reg) => reg.manifests_view().len() == texts@.len() && forall|i: int|
                    0 <= i < texts@.len() ==> text_describes(#[trigger] texts@[i]@, reg.manifests_view()[i]),
                Err(e) => exists|i: int|
                    0 <= i < texts@.len() && (forall|j: int| 0 <= j < i ==> text_is_manifest(#[trigger] texts@[j]@))
                        && text_error(texts@[i]@, e@),
            },
    {
        let mut manifests: Vec<InstalledComponentManifest> = Vec::new();
        let mut i: usize = 0;
        while i < texts.len()
            invariant
                i <= texts.len(),
                manifests@.len() == i,
                forall|j: int| 0 <= j < i ==> text_describes(#[trigger] texts@[j]@, manifests@[j]),
            decreases texts.len() - i,
        {
            let r = parse_manifest(texts[i].as_str());
            match r {
                Ok(m) => {
                    manifests.push(m);
                },
                Err(e) => {
                    assert(forall|j: int| 0 <= j < i ==> text_is_manifest(#[trigger] texts@[j]@));
                    assert(text_error(texts@[i as int]@, e@));
                    return Err(e);
                },
            }
            i = i + 1;
        }
        Ok(InstalledManifestRegistry { manifests })
    }

    /// The manifests, in order.
    pub fn manifests(&self) -> (r: &[InstalledComponentManifest])
        ensures
            r@ == self.manifests_view(),
    {
        self.manifests.as_slice()
    }

    /// The number of manifests.
    pub fn manifest_count(&self) -> (r: usize)
        ensures
            r == self.manifests_view().len(),
    {
        self.manifests.len()
    }

    /// The number of capabilities over all manifests.
    pub fn capability_count(&self) -> (r: usize)
        requires
            total_capabilities(self.manifests_view()) <= usize::MAX,
        ensures
            r == total_capabilities(self.manifests_view()),
    {
        let mut total: usize = 0;
        let mut i: usize = 0;
        while i < self.manifests.len()
            invariant
                i <= self.manifests.len(),
                total == positions(self.manifests@.take(i as int), any_cap()).len(),
                total_capabilities(self.manifests@) <= usize::MAX,
            decreases self.manifests.len() - i,
        {
            let ghost prev = self.manifests@.take(i as int);
            let ghost next = self.manifests@.take(i + 1);
            proof {
                assert(next.drop_last() == prev);
                lemma_cap_positions_total(self.manifests@[i as int], i as int, self.manifests@[i as int].capabilities@.len() as int);
                lemma_positions_prefix_len(self.manifests@, i + 1);
                assert(self.manifests@.take(self.manifests@.len() as int) == self.manifests@);
            }
            total = total + self.manifests[i].capabilities.len();
            i = i + 1;
        }
        assert(self.manifests@.take(self.manifests@.len() as int) == self.manifests@);
        total
    }

    /// A capability registry with one entry per capability, manifests in order.
    pub fn to_capability_registry(&self) -> (r: CapabilityRegistry)
        ensures
            ({
                let ps = positions(self.manifests_view(), any_cap());
                &&& r.entries_view().len() == ps.len()
                &&& forall|k: int| 0 <= k < ps.len() ==> entry_matches(
                    #[trigger] r.entries_view()[k],
                    self.manifests_view()[ps[k].0],
                    self.manifests_view()[ps[k].0].capabilities@[ps[k].1],
                )
            }),
    {
        let mut registry = CapabilityRegistry::new();
        let mut i: usize = 0;
        while i < self.manifests.len()
            invariant
                i <= self.manifests.len(),
                ({
                    let ps = positions(self.manifests@.take(i as int), any_cap());
                    &&& registry.entries_view().len() == ps.len()
                    &&& forall|k: int| 0 <= k < ps.len() ==> entry_matches(
                        #[trigger] registry.entries_view()[k],
                        self.manifests@[ps[k].0],
                        self.manifests@[ps[k].0].capabilities@[ps[k].1],
                    )
                }),
            decreases self.manifests.len() - i,
        {
            let manifest = &self.manifests[i];
            let ghost prev = positions(self.manifests@.take(i as int), any_cap());
            proof {
                assert(self.manifests@.take(i + 1).drop_last() == self.manifests@.take(i as int));
                lemma_positions_in_prefix(self.manifests@, i as int, any_cap());
            }
            let mut j: usize = 0;
            while j < manifest.capabilities.len()
                invariant
                    i < self.manifests.len(),
                    *manifest == self.manifests@[i as int],
                    j <= manifest.capabilities.len(),
                    prev == positions(self.manifests@.take(i as int), any_cap()),
                    forall|k: int| 0 <= k < prev.len() ==> 0 <= (#[trigger] prev[k]).0 < i,
                    ({
                        let ps = prev + cap_positions(*manifest, i as int, j as int, any_cap());
                        &&& registry.entries_view().len() == ps.len()
                        &&& forall|k: int| 0 <= k < ps.len() ==> entry_matches(
                            #[trigger] registry.entries_view()[k],
                            self.manifests@[ps[k].0],
                            self.manifests@[ps[k].0].capabilities@[ps[k].1],
                        )
                    }),
                decreases manifest.capabilities.len() - j,
            {
                let cap = &manifest.capabilities[j];
                let contract = manifest.contract_version_descriptor();
                let desc = CapabilityDescriptor::new(cap.id.as_str()).with_operation(cap.operation.as_str());
                let ghost before = registry.entries_view();
                registry.register(manifest.app_id.as_str(), desc, contract);
                proof {
                    let ps = prev + cap_positions(*manifest, i as int, j as int, any_cap());
                    let ps2 = prev + cap_positions(*manifest, i as int, j + 1, any_cap());
                    assert(ps2 == ps.push((i as int, j as int)));
                    assert forall|k: int| 0 <= k < ps2.len() implies entry_matches(
                        #[trigger] registry.entries_view()[k],
                        self.manifests@[ps2[k].0],
                        self.manifests@[ps2[k].0].capabilities@[ps2[k].1],
                    ) by {
                        if k < ps.len() {
                            assert(registry.entries_view()[k] == before[k]);
                            assert(ps2[k] == ps[k]);
                        } else {
                            assert(ps2[k] == (i as int, j as int));
                        }
                    }
                }
                j = j + 1;
            }
            proof {
                assert(positions(self.manifests@.take(i + 1), any_cap()) == prev + cap_positions(
                    self.manifests@[i as int],
                    i as int,
                    self.manifests@[i as int].capabilities@.len() as int,
                    any_cap(),
                ));
            }
            i = i + 1;
        }
        assert(self.manifests@.take(self.manifests@.len() as int) == self.manifests@);
        registry
    }

    /// The route candidates for `operation`: one per capability serving it,
    /// manifests in order.
    pub fn operation_candidates(&self, operation: &str) -> (r: Vec<InstalledRouteCandidate>)
        ensures
            ({
                let ps = positions(self.manifests_view(), serves_op(operation@));
                &&& r@.len() == ps.len()
                &&& forall|k: int| 0 <= k < ps.len() ==> candidate_matches(
                    #[trigger] r@[k],
                    self.manifests_view()[ps[k].0],
                    self.manifests_view()[ps[k].0].capabilities@[ps[k].1],
                )
            }),
    {
        let ghost keep = serves_op(operation@);
        let mut out: Vec<InstalledRouteCandidate> = Vec::new();
        let mut i: usize = 0;
        while i < self.manifests.len()
            invariant
                i <= self.manifests.len(),
                keep == serves_op(operation@),
                ({
                    let ps = positions(self.manifests@.take(i as int), keep);
                    &&& out@.len() == ps.len()
                    &&& forall|k: int| 0 <= k < ps.len() ==> candidate_matches(
                        #[trigger] out@[k],
                        self.manifests@[ps[k].0],
                        self.manifests@[ps[k].0].capabilities@[ps[k].1],
                    )
                }),
            decreases self.manifests.len() - i,
        {
            let manifest = &self.manifests[i];
            let ghost prev = positions(self.manifests@.take(i as int), keep);
            proof {
                assert(self.manifests@.take(i + 1).drop_last() == self.manifests@.take(i as int));
                lemma_positions_in_prefix(self.manifests@, i as int, keep);
            }
            let mut j: usize = 0;
            while j < manifest.capabilities.len()
                invariant
                    i < self.manifests.len(),
                    *manifest == self.manifests@[i as int],
                    j <= manifest.capabilities.len(),
                    keep == serves_op(operation@),
                    prev == positions(self.manifests@.take(i as int), keep),
                    forall|k: int| 0 <= k < prev.len() ==> 0 <= (#[trigger] prev[k]).0 < i,
                    ({
                        let ps = prev + cap_positions(*manifest, i as int, j as int, keep);
                        &&& out@.len() == ps.len()
                        &&& forall|k: int| 0 <= k < ps.len() ==> candidate_matches(
                            #[trigger] out@[k],
                            self.manifests@[ps[k].0],
                            self.manifests@[ps[k].0].capabilities@[ps[k].1],
                        )
                    }),
                decreases manifest.capabilities.len() - j,
            {
                let cap = &manifest.capabilities[j];
                let ghost before = out@;
                let ghost ps = prev + cap_positions(*manifest, i as int, j as int, keep);
                if str_eq(cap.operation.as_str(), operation) {
                    let candidate = InstalledRouteCandidate {
                        component_id: manifest.component_id.clone(),
                        app_id: manifest.app_id.clone(),
                        entrypoint: manifest.entrypoint.clone(),
                        invocation_mode: match manifest.invocation_mode {
                            crate::installed_manifest::ComponentInvocationMode::InProcess =>
                                crate::installed_manifest::ComponentInvocationMode::InProcess,
                            crate::installed_manifest::ComponentInvocationMode::LocalProcess =>
                                crate::installed_manifest::ComponentInvocationMode::LocalProcess,
                        },
                        transport: match manifest.transport {
                            crate::installed_manifest::ComponentTransport::StdioJsonl =>
                                crate::installed_manifest::ComponentTransport::StdioJsonl,
                            crate::installed_manifest::ComponentTransport::UnixSocket =>
                                crate::installed_manifest::ComponentTransport::UnixSocket,
                            crate::installed_manifest::ComponentTransport::Unsupported =>
                                crate::installed_manifest::ComponentTransport::Unsupported,
                        },
                        args: clone_strings(&manifest.args),
                        working_dir: clone_opt(&manifest.working_dir),
                        env_policy: clone_opt(&manifest.env_policy),
                        contract_version: manifest.contract_version_descriptor(),
                        capability_id: cap.id.clone(),
                        operation: cap.operation.clone(),
                        visibility: cap.visibility.clone(),
                    };
                    out.push(candidate);
                    proof {
                        let ps2 = prev + cap_positions(*manifest, i as int, j + 1, keep);
                        assert(ps2 == ps.push((i as int, j as int)));
                        assert forall|k: int| 0 <= k < ps2.len() implies candidate_matches(
                            #[trigger] out@[k],
                            self.manifests@[ps2[k].0],
                            self.manifests@[ps2[k].0].capabilities@[ps2[k].1],
                        ) by {
                            if k < ps.len() {
                                assert(out@[k] == before[k]);
                                assert(ps2[k] == ps[k]);
                            } else {
                                assert(ps2[k] == (i as int, j as int));
                            }
                        }
                    }
                } else {
                    assert(prev + cap_positions(*manifest, i as int, j + 1, keep) == ps);
                }
                j = j + 1;
            }
            proof {
                assert(positions(self.manifests@.take(i + 1), keep) == prev + cap_positions(
                    self.manifests@[i as int],
                    i as int,
                    self.manifests@[i as int].capabilities@.len() as int,
                    keep,
                ));
            }
            i = i + 1;
        }
        assert(self.manifests@.take(self.manifests@.len() as int) == self.manifests@);
        out
    }
}

/// Whether `content` reads as a manifest, all required keys present.
pub open spec fn text_is_manifest(content: Seq<char>) -> bool {
    missing_required(manifest_draft(content)) is None
}

/// Whether `m` is the manifest that `content` describes.
pub open spec fn text_describes(content: Seq<char>, m: InstalledComponentManifest) -> bool {
    text_is_manifest(content) && manifest_matches(m, manifest_draft(content))
}

/// Whether `e` is the error for a text that lacks a required key.
pub open spec fn text_error(content: Seq<char>, e: Seq<char>) -> bool {
    match missing_required(manifest_draft(content)) {
        Some(key) => e == missing_field_message(key),
        None => false,
    }
}

proof fn lemma_cap_positions_total(m: InstalledComponentManifest, i: int, n: int)
    requires
        0 <= n,
    ensures
        cap_positions(m, i, n, any_cap()).len() == n,
    decreases n,
{
    if n > 0 {
        lemma_cap_positions_total(m, i, n - 1);
    }
}

proof fn lemma_positions_prefix_len(ms: Seq<InstalledComponentManifest>, i: int)
    requires
        0 <= i <= ms.len(),
    ensures
        positions(ms.take(i), any_cap()).len() <= positions(ms, any_cap()).len(),
    decreases ms.len(),
{
    if i < ms.len() {
        assert(ms.drop_last().take(i) == ms.take(i));
        lemma_positions_prefix_len(ms.drop_last(), i);
    } else {
        assert(ms.take(i) == ms);
    }
}

/// Every position of a prefix of `i` manifests names one of those manifests
/// and a capability inside it.
proof fn lemma_positions_in_prefix(ms: Seq<InstalledComponentManifest>, i: int, keep: spec_fn(InstalledCapability) -> bool)
    requires
        0 <= i <= ms.len(),
    ensures
        forall|k: int| 0 <= k < positions(ms.take(i), keep).len() ==> {
            let p = #[trigger] positions(ms.take(i), keep)[k];
            0 <= p.0 < i && 0 <= p.1 < ms[p.0].capabilities@.len() && keep(ms[p.0].capabilities@[p.1])
        },
    decreases i,
{
    if i > 0 {
        let t = ms.take(i);
        assert(t.drop_last() == ms.take(i - 1));
        lemma_positions_in_prefix(ms, i - 1, keep);
        lemma_cap_positions_bounds(t.last(), i - 1, t.last().capabilities@.len() as int, keep);
        assert(t.last() == ms[i - 1]);
    }
}

/// Whether position `a` comes before position `b`.
pub open spec fn position_before(a: (int, int), b: (int, int)) -> bool {
    a.0 < b.0 || (a.0 == b.0 && a.1 < b.1)
}

proof fn lemma_cap_positions_complete(m: InstalledComponentManifest, i: int, n: int, keep: spec_fn(InstalledCapability) -> bool, j: int)
    requires
        0 <= j < n,
        keep(m.capabilities@[j]),
    ensures
        cap_positions(m, i, n, keep).contains((i, j)),
    decreases n,
{
    if j < n - 1 {
        lemma_cap_positions_complete(m, i, n - 1, keep, j);
        let prev = cap_positions(m, i, n - 1, keep);
        let k = choose|k: int| 0 <= k < prev.len() && prev[k] == (i, j);
        if keep(m.capabilities@[n - 1]) {
            assert(cap_positions(m, i, n, keep)[k] == (i, j));
        }
    } else {
        let c = cap_positions(m, i, n, keep);
        assert(c[c.len() - 1] == (i, j));
    }
}

proof fn lemma_cap_positions_sorted(m: InstalledComponentManifest, i: int, n: int, keep: spec_fn(InstalledCapability) -> bool)
    ensures
        forall|a: int, b: int|
            #![trigger cap_positions(m, i, n, keep)[a], cap_positions(m, i, n, keep)[b]]
            0 <= a < b < cap_positions(m, i, n, keep).len() ==> cap_positions(m, i, n, keep)[a].0 == i
                && cap_positions(m, i, n, keep)[b].0 == i && cap_positions(m, i, n, keep)[a].1
                < cap_positions(m, i, n, keep)[b].1,
    decreases n,
{
    if n > 0 {
        lemma_cap_positions_sorted(m, i, n - 1, keep);
        lemma_cap_positions_bounds(m, i, n - 1, keep);
    }
}

/// Every position of a capability that satisfies `keep` is listed.
pub proof fn lemma_positions_complete(ms: Seq<InstalledComponentManifest>, keep: spec_fn(InstalledCapability) -> bool, q: (int, int))
    requires
        0 <= q.0 < ms.len(),
        0 <= q.1 < ms[q.0].capabilities@.len(),
        keep(ms[q.0].capabilities@[q.1]),
    ensures
        positions(ms, keep).contains(q),
    decreases ms.len(),
{
    let prefix = positions(ms.drop_last(), keep);
    let last = cap_positions(ms.last(), ms.len() - 1, ms.last().capabilities@.len() as int, keep);
    if q.0 < ms.len() - 1 {
        assert(ms.drop_last()[q.0] == ms[q.0]);
        lemma_positions_complete(ms.drop_last(), keep, q);
        let k = choose|k: int| 0 <= k < prefix.len() && prefix[k] == q;
        assert((prefix + last)[k] == q);
    } else {
        lemma_cap_positions_complete(ms.last(), ms.len() - 1, ms.last().capabilities@.len() as int, keep, q.1);
        let k = choose|k: int| 0 <= k < last.len() && last[k] == q;
        assert((prefix + last)[prefix.len() + k] == q);
    }
}

/// Every listed position is a capability of `ms` that satisfies `keep`.
pub proof fn lemma_positions_valid(ms: Seq<InstalledComponentManifest>, keep: spec_fn(InstalledCapability) -> bool)
    ensures
        forall|k: int| 0 <= k < positions(ms, keep).len() ==> {
            let p = #[trigger] positions(ms, keep)[k];
            0 <= p.0 < ms.len() && 0 <= p.1 < ms[p.0].capabilities@.len() && keep(ms[p.0].capabilities@[p.1])
        },
{
    lemma_positions_in_prefix(ms, ms.len() as int, keep);
    assert(ms.take(ms.len() as int) == ms);
}

/// Listed positions are in strictly increasing order, so none repeats.
pub proof fn lemma_positions_sorted(ms: Seq<InstalledComponentManifest>, keep: spec_fn(InstalledCapability) -> bool)
    ensures
        forall|a: int, b: int| 0 <= a < b < positions(ms, keep).len() ==> position_before(
            #[trigger] positions(ms, keep)[a],
            #[trigger] positions(ms, keep)[b],
        ),
    decreases ms.len(),
{
    if ms.len() > 0 {
        let prefix = positions(ms.drop_last(), keep);
        let n = ms.last().capabilities@.len() as int;
        let last = cap_positions(ms.last(), ms.len() - 1, n, keep);
        lemma_positions_sorted(ms.drop_last(), keep);
        lemma_positions_valid(ms.drop_last(), keep);
        lemma_cap_positions_sorted(ms.last(), ms.len() - 1, n, keep);
        lemma_cap_positions_bounds(ms.last(), ms.len() - 1, n, keep);
        let all = prefix + last;
        assert forall|a: int, b: int| 0 <= a < b < all.len() implies position_before(#[trigger] all[a], #[trigger] all[b]) by {
            if b < prefix.len() {
                assert(all[a] == prefix[a] && all[b] == prefix[b]);
            } else if a < prefix.len() {
                assert(all[a] == prefix[a]);
                assert(all[b] == last[b - prefix.len()]);
            } else {
                assert(all[a] == last[a - prefix.len()]);
                assert(all[b] == last[b - prefix.len()]);
            }
        }
    }
}

} // verus!
