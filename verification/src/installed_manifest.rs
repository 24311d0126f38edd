//! Installed component manifests: how they are read from text and written back,
//! and the route candidates they offer.
use vstd::prelude::*;

use crate::manifest_text::{array_spec, contract_from_text, key_value_spec, last_dot_v, line_pieces, parse_array_value, parse_key_value_raw, parse_scalar_value, push_toml_escaped, scalar_spec, split_lines, toml_escape, views};
use crate::text::{append_str, chars_eq_str, chars_of, matches_at, opt_string_of, opt_view, parse_u16, string_of, string_views, trim, trim_spec};
use crate::versioning::ContractVersion;

verus! {

broadcast use vstd::string::group_string_axioms;

/// How a component is invoked.
#[derive(Debug, Clone, Copy, PartialEq, Eq, Structural)]
pub enum ComponentInvocationMode {
    InProcess,
    LocalProcess,
}

/// The manifest name of an invocation mode.
pub open spec fn mode_name(m: ComponentInvocationMode) -> Seq<char> {
    match m {
        ComponentInvocationMode::InProcess => "in_process"@,
        ComponentInvocationMode::LocalProcess => "local_process"@,
    }
}

/// The invocation mode a manifest value names; anything but `local_process` is in-process.
pub open spec fn mode_named(v: Seq<char>) -> ComponentInvocationMode {
    if v == "local_process"@ {
        ComponentInvocationMode::LocalProcess
    } else {
        ComponentInvocationMode::InProcess
    }
}

impl ComponentInvocationMode {
    /// The manifest name of this mode.
    pub fn as_str(&self) -> (r: &'static str)
        ensures
            r@ == mode_name(*self),
    {
        match self {
            ComponentInvocationMode::InProcess => "in_process",
            ComponentInvocationMode::LocalProcess => "local_process",
        }
    }

    fn parse(value: &[char]) -> (r: Self)
        ensures
            r == mode_named(value@),
    {
        if chars_eq_str(value, "local_process") {
            ComponentInvocationMode::LocalProcess
        } else {
            ComponentInvocationMode::InProcess
        }
    }
}

/// How a local process component is talked to.
#[derive(Debug, Clone, Copy, PartialEq, Eq, Structural)]
pub enum ComponentTransport {
    StdioJsonl,
    UnixSocket,
    Unsupported,
}

/// The manifest name of a transport.
pub open spec fn transport_name(t: ComponentTransport) -> Seq<char> {
    match t {
        ComponentTransport::StdioJsonl => "stdio_jsonl"@,
        ComponentTransport::UnixSocket => "unix_socket"@,
        ComponentTransport::Unsupported => "unsupported"@,
    }
}

/// The transport a manifest value names; unknown names are unsupported.
pub open spec fn transport_named(v: Seq<char>) -> ComponentTransport {
    if v == "stdio_jsonl"@ {
        ComponentTransport::StdioJsonl
    } else if v == "unix_socket"@ {
        ComponentTransport::UnixSocket
    } else {
        ComponentTransport::Unsupported
    }
}

impl ComponentTransport {
    /// The manifest name of this transport.
    pub fn as_str(&self) -> (r: &'static str)
        ensures
            r@ == transport_name(*self),
    {
        match self {
            ComponentTransport::StdioJsonl => "stdio_jsonl",
            ComponentTransport::UnixSocket => "unix_socket",
            ComponentTransport::Unsupported => "unsupported",
        }
    }

    fn parse(value: &[char]) -> (r: Self)
        ensures
            r == transport_named(value@),
    {
        if chars_eq_str(value, "stdio_jsonl") {
            ComponentTransport::StdioJsonl
        } else if chars_eq_str(value, "unix_socket") {
            ComponentTransport::UnixSocket
        } else {
            ComponentTransport::Unsupported
        }
    }
}

/// An installed component and the capabilities it offers.
#[derive(Debug, Clone, PartialEq, Eq)]
pub struct InstalledComponentManifest {
    pub component_id: String,
    pub app_id: String,
    pub kind: String,
    pub entrypoint: String,
    pub invocation_mode: ComponentInvocationMode,
    pub transport: ComponentTransport,
    pub args: Vec<String>,
    pub working_dir: Option<String>,
    pub env_policy: Option<String>,
    pub contract_version: String,
    pub capabilities: Vec<InstalledCapability>,
}

/// One capability of an installed component.
#[derive(Debug, Clone, PartialEq, Eq)]
pub struct InstalledCapability {
    pub id: String,
    pub operation: String,
    pub visibility: String,
}

/// A capability of an installed component that can serve an operation.
#[derive(Debug, Clone, PartialEq, Eq)]
pub struct InstalledRouteCandidate {
    pub component_id: String,
    pub app_id: String,
    pub entrypoint: String,
    pub invocation_mode: ComponentInvocationMode,
    pub transport: ComponentTransport,
    pub args: Vec<String>,
    pub working_dir: Option<String>,
    pub env_policy: Option<String>,
    pub contract_version: ContractVersion,
    pub capability_id: String,
    pub operation: String,
    pub visibility: String,
}

/// `(contract id, major, minor)` of a contract version.
pub open spec fn contract_view(c: ContractVersion) -> (Seq<char>, u16, u16) {
    (c.contract_id@, c.major, c.minor)
}

// ---------------------------------------------------------------------------
// Reading manifests
// ---------------------------------------------------------------------------

/// A capability section as read so far.
pub struct CapDraft {
    pub id: Seq<char>,
    pub operation: Seq<char>,
    pub visibility: Seq<char>,
}

/// A manifest as read so far: top-level values seen, finished capability
/// sections, and the capability section being read, if any.
pub struct ManifestDraft {
    pub component_id: Option<Seq<char>>,
    pub app_id: Option<Seq<char>>,
    pub kind: Option<Seq<char>>,
    pub entrypoint: Option<Seq<char>>,
    pub invocation_mode: Option<ComponentInvocationMode>,
    pub transport: Option<ComponentTransport>,
    pub args: Seq<Seq<char>>,
    pub working_dir: Option<Seq<char>>,
    pub env_policy: Option<Seq<char>>,
    pub contract_version: Option<Seq<char>>,
    pub capabilities: Seq<CapDraft>,
    pub current: Option<CapDraft>,
}

/// The draft before any line is read.
pub open spec fn empty_draft() -> ManifestDraft {
    ManifestDraft {
        component_id: None,
        app_id: None,
        kind: None,
        entrypoint: None,
        invocation_mode: None,
        transport: None,
        args: Seq::empty(),
        working_dir: None,
        env_policy: None,
        contract_version: None,
        capabilities: Seq::empty(),
        current: None,
    }
}

/// All capability sections of a draft, the one being read included.
pub open spec fn all_sections(d: ManifestDraft) -> Seq<CapDraft> {
    match d.current {
        Some(c) => d.capabilities.push(c),
        None => d.capabilities,
    }
}

/// A value inside a capability section: `id`, `operation` and `visibility` are kept.
pub open spec fn section_set(c: CapDraft, key: Seq<char>, value: Seq<char>) -> CapDraft {
    if key == "id"@ {
        CapDraft { id: value, ..c }
    } else if key == "operation"@ {
        CapDraft { operation: value, ..c }
    } else if key == "visibility"@ {
        CapDraft { visibility: value, ..c }
    } else {
        c
    }
}

/// A top-level value: known keys are kept, `args` is read as an array from the
/// raw value, and unknown keys are ignored.
pub open spec fn top_set(d: ManifestDraft, key: Seq<char>, raw: Seq<char>) -> ManifestDraft {
    let value = scalar_spec(raw);
    if key == "component_id"@ {
        ManifestDraft { component_id: Some(value), ..d }
    } else if key == "app_id"@ {
        ManifestDraft { app_id: Some(value), ..d }
    } else if key == "kind"@ {
        ManifestDraft { kind: Some(value), ..d }
    } else if key == "entrypoint"@ {
        ManifestDraft { entrypoint: Some(value), ..d }
    } else if key == "invocation_mode"@ {
        ManifestDraft { invocation_mode: Some(mode_named(value)), ..d }
    } else if key == "transport"@ {
        ManifestDraft { transport: Some(transport_named(value)), ..d }
    } else if key == "args"@ {
        ManifestDraft { args: array_spec(raw), ..d }
    } else if key == "working_dir"@ {
        ManifestDraft { working_dir: Some(value), ..d }
    } else if key == "env_policy"@ {
        ManifestDraft { env_policy: Some(value), ..d }
    } else if key == "contract_version"@ {
        ManifestDraft { contract_version: Some(value), ..d }
    } else {
        d
    }
}

/// One line of a manifest: blank lines and `#` comments are skipped,
/// `[[capabilities]]` opens a new capability section, and a `key = value` line
/// sets a value in the open section or, outside sections, at the top level.
pub open spec fn manifest_step(d: ManifestDraft, raw_line: Seq<char>) -> ManifestDraft {
    let line = trim_spec(raw_line);
    if line.len() == 0 || line[0] == '#' {
        d
    } else if line == "[[capabilities]]"@ {
        ManifestDraft {
            capabilities: all_sections(d),
            current: Some(CapDraft { id: Seq::empty(), operation: Seq::empty(), visibility: Seq::empty() }),
            ..d
        }
    } else {
        match key_value_spec(line) {
            None => d,
            Some((key, raw)) => match d.current {
                Some(c) => ManifestDraft { current: Some(section_set(c, key, scalar_spec(raw))), ..d },
                None => top_set(d, key, raw),
            },
        }
    }
}

/// The draft after reading `lines` in order.
pub open spec fn manifest_scan(lines: Seq<Seq<char>>) -> ManifestDraft
    decreases lines.len(),
{
    if lines.len() == 0 {
        empty_draft()
    } else {
        manifest_step(manifest_scan(lines.drop_last()), lines.last())
    }
}

/// The draft for a whole manifest text.
pub open spec fn manifest_draft(content: Seq<char>) -> ManifestDraft {
    manifest_scan(line_pieces(content))
}

/// The first required key that the draft lacks, in the order component_id,
/// app_id, kind, entrypoint, contract_version.
pub open spec fn missing_required(d: ManifestDraft) -> Option<Seq<char>> {
    if d.component_id is None {
        Some("component_id"@)
    } else if d.app_id is None {
        Some("app_id"@)
    } else if d.kind is None {
        Some("kind"@)
    } else if d.entrypoint is None {
        Some("entrypoint"@)
    } else if d.contract_version is None {
        Some("contract_version"@)
    } else {
        None
    }
}

/// Whether a capability section has both an id and an operation.
pub open spec fn section_complete(c: CapDraft) -> bool {
    c.id.len() > 0 && c.operation.len() > 0
}

/// Whether `cap` holds the values of the section `c`.
pub open spec fn capability_matches(cap: InstalledCapability, c: CapDraft) -> bool {
    cap.id@ == c.id && cap.operation@ == c.operation && cap.visibility@ == c.visibility
}

/// Whether `m` is the manifest that the complete draft `d` describes: the
/// invocation mode defaults to in-process, the transport to unsupported, and
/// only capability sections with an id and an operation are kept, in order.
pub open spec fn manifest_matches(m: InstalledComponentManifest, d: ManifestDraft) -> bool {
    let kept = all_sections(d).filter(|c: CapDraft| section_complete(c));
    &&& d.component_id == Some(m.component_id@)
    &&& d.app_id == Some(m.app_id@)
    &&& d.kind == Some(m.kind@)
    &&& d.entrypoint == Some(m.entrypoint@)
    &&& d.contract_version == Some(m.contract_version@)
    &&& m.invocation_mode == match d.invocation_mode {
        Some(x) => x,
        None => ComponentInvocationMode::InProcess,
    }
    &&& m.transport == match d.transport {
        Some(x) => x,
        None => ComponentTransport::Unsupported,
    }
    &&& string_views(m.args@) == d.args
    &&& opt_view(m.working_dir) == d.working_dir
    &&& opt_view(m.env_policy) == d.env_policy
    &&& m.capabilities@.len() == kept.len()
    &&& forall|i: int| 0 <= i < kept.len() ==> capability_matches(#[trigger] m.capabilities@[i], kept[i])
}

/// The message for a manifest without the required key `key`.
pub open spec fn missing_field_message(key: Seq<char>) -> Seq<char> {
    "manifest 缺少字段: "@ + key
}

struct ExecCap {
    id: Vec<char>,
    operation: Vec<char>,
    visibility: Vec<char>,
}

impl ExecCap {
    spec fn view(&self) -> CapDraft {
        CapDraft { id: self.id@, operation: self.operation@, visibility: self.visibility@ }
    }
}

struct ExecDraft {
    component_id: Option<Vec<char>>,
    app_id: Option<Vec<char>>,
    kind: Option<Vec<char>>,
    entrypoint: Option<Vec<char>>,
    invocation_mode: Option<ComponentInvocationMode>,
    transport: Option<ComponentTransport>,
    args: Vec<Vec<char>>,
    working_dir: Option<Vec<char>>,
    env_policy: Option<Vec<char>>,
    contract_version: Option<Vec<char>>,
    capabilities: Vec<ExecCap>,
    current: Option<ExecCap>,
}

spec fn ov(o: Option<Vec<char>>) -> Option<Seq<char>> {
    match o {
        Some(v) => Some(v@),
        None => None,
    }
}

spec fn caps_view(v: Seq<ExecCap>) -> Seq<CapDraft> {
    v.map_values(|c: ExecCap| c.view())
}

impl ExecDraft {
    spec fn view(&self) -> ManifestDraft {
        ManifestDraft {
            component_id: ov(self.component_id),
            app_id: ov(self.app_id),
            kind: ov(self.kind),
            entrypoint: ov(self.entrypoint),
            invocation_mode: self.invocation_mode,
            transport: self.transport,
            args: views(self.args@),
            working_dir: ov(self.working_dir),
            env_policy: ov(self.env_policy),
            contract_version: ov(self.contract_version),
            capabilities: caps_view(self.capabilities@),
            current: match self.current {
                Some(c) => Some(c.view()),
                None => None,
            },
        }
    }
}

fn set_section_value(c: ExecCap, key: &[char], value: Vec<char>) -> (r: ExecCap)
    ensures
        r.view() == section_set(c.view(), key@, value@),
{
    let mut c = c;
    if chars_eq_str(key, "id") {
        c.id = value;
    } else if chars_eq_str(key, "operation") {
        c.operation = value;
    } else if chars_eq_str(key, "visibility") {
        c.visibility = value;
    }
    c
}

fn set_top_value(d: ExecDraft, key: &[char], raw: &[char]) -> (r: ExecDraft)
    ensures
        r.view() == top_set(d.view(), key@, raw@),
{
    let mut d = d;
    let value = parse_scalar_value(raw);
    if chars_eq_str(key, "component_id") {
        d.component_id = Some(value);
    } else if chars_eq_str(key, "app_id") {
        d.app_id = Some(value);
    } else if chars_eq_str(key, "kind") {
        d.kind = Some(value);
    } else if chars_eq_str(key, "entrypoint") {
        d.entrypoint = Some(value);
    } else if chars_eq_str(key, "invocation_mode") {
        d.invocation_mode = Some(ComponentInvocationMode::parse(&value));
    } else if chars_eq_str(key, "transport") {
        d.transport = Some(ComponentTransport::parse(&value));
    } else if chars_eq_str(key, "args") {
        d.args = parse_array_value(raw);
    } else if chars_eq_str(key, "working_dir") {
        d.working_dir = Some(value);
    } else if chars_eq_str(key, "env_policy") {
        d.env_policy = Some(value);
    } else if chars_eq_str(key, "contract_version") {
        d.contract_version = Some(value);
    }
    d
}

fn manifest_line(d: ExecDraft, raw_line: &[char]) -> (r: ExecDraft)
    ensures
        r.view() == manifest_step(d.view(), raw_line@),
{
    let line = trim(raw_line);
    if line.len() == 0 || line[0] == '#' {
        return d;
    }
    if chars_eq_str(&line, "[[capabilities]]") {
        let mut d = d;
        let ghost old_d = d.view();
        let prev = d.current.take();
        match prev {
            Some(c) => {
                d.capabilities.push(c);
            },
            None => {},
        }
        let e1: Vec<char> = Vec::new();
        let e2: Vec<char> = Vec::new();
        let e3: Vec<char> = Vec::new();
        assert(e1@ =~= Seq::<char>::empty());
        assert(e2@ =~= Seq::<char>::empty());
        assert(e3@ =~= Seq::<char>::empty());
        d.current = Some(ExecCap { id: e1, operation: e2, visibility: e3 });
        assert(d.view().capabilities =~= all_sections(old_d));
        return d;
    }
    match parse_key_value_raw(&line) {
        None => d,
        Some((key, raw)) => {
            let mut d = d;
            match d.current.take() {
                Some(c) => {
                    let value = parse_scalar_value(&raw);
                    d.current = Some(set_section_value(c, &key, value));
                    d
                },
                None => set_top_value(d, &key, &raw),
            }
        },
    }
}

fn to_strings(v: &Vec<Vec<char>>) -> (r: Vec<String>)
    ensures
        string_views(r@) == views(v@),
{
    let mut r: Vec<String> = Vec::new();
    let mut i: usize = 0;
    while i < v.len()
        invariant
            i <= v.len(),
            string_views(r@) == views(v@.take(i as int)),
        decreases v.len() - i,
    {
        let ghost prev = r@;
        r.push(string_of(&v[i]));
        assert(r@ == prev.push(r@.last()));
        assert(string_views(r@) =~= string_views(prev).push(v@[i as int]@));
        assert(v@.take(i + 1) == v@.take(i as int).push(v@[i as int]));
        assert(views(v@.take(i + 1)) =~= views(v@.take(i as int)).push(v@[i as int]@));
        i = i + 1;
    }
    assert(v@.take(v.len() as int) == v@);
    r
}

fn missing_field(key: &str) -> (r: String)
    ensures
        r@ == missing_field_message(key@),
{
    let mut s = String::new();
    append_str(&mut s, "manifest 缺少字段: ");
    append_str(&mut s, key);
    s
}

/// Takes a required value, or fails with the message for a missing `key`.
fn required(value: Option<Vec<char>>, key: &str) -> (r: Result<String, String>)
    ensures
        match value {
            Some(v) => r matches Ok(s) && s@ == v@,
            None => r matches Err(e) && e@ == missing_field_message(key@),
        },
{
    match value {
        Some(v) => Ok(string_of(&v)),
        None => Err(missing_field(key)),
    }
}

/// Reads a manifest from its text.
pub fn parse_manifest(content: &str) -> (r: Result<InstalledComponentManifest, String>)
    ensures
        match missing_required(manifest_draft(content@)) {
            Some(key) => r matches Err(e) && e@ == missing_field_message(key),
            None => r matches Ok(m) && manifest_matches(m, manifest_draft(content@)),
        },
{
    let text = chars_of(content);
    let lines = split_lines(&text);
    let mut d = ExecDraft {
        component_id: None,
        app_id: None,
        kind: None,
        entrypoint: None,
        invocation_mode: None,
        transport: None,
        args: Vec::new(),
        working_dir: None,
        env_policy: None,
        contract_version: None,
        capabilities: Vec::new(),
        current: None,
    };
    assert(d.view() =~= empty_draft()) by {
        assert(views(d.args@) =~= Seq::<Seq<char>>::empty());
        assert(caps_view(d.capabilities@) =~= Seq::<CapDraft>::empty());
    }
    let mut i: usize = 0;
    while i < lines.len()
        invariant
            i <= lines.len(),
            views(lines@) == line_pieces(content@),
            d.view() == manifest_scan(views(lines@).take(i as int)),
        decreases lines.len() - i,
    {
        proof {
            assert(views(lines@).take(i + 1).drop_last() == views(lines@).take(i as int));
            assert(views(lines@).take(i + 1).last() == lines@[i as int]@);
        }
        d = manifest_line(d, &lines[i]);
        i = i + 1;
    }
    assert(views(lines@).take(lines.len() as int) == views(lines@));
    let ghost fin = d.view();
    let ExecDraft {
        component_id,
        app_id,
        kind,
        entrypoint,
        invocation_mode,
        transport,
        args,
        working_dir,
        env_policy,
        contract_version,
        capabilities,
        current,
    } = d;
    let mut sections = capabilities;
    match current {
        Some(c) => sections.push(c),
        None => {},
    }
    assert(caps_view(sections@) =~= all_sections(fin));
    let component_id = required(component_id, "component_id")?;
    let app_id = required(app_id, "app_id")?;
    let kind = required(kind, "kind")?;
    let entrypoint = required(entrypoint, "entrypoint")?;
    let contract_version = required(contract_version, "contract_version")?;
    let ghost pred = |c: CapDraft| section_complete(c);
    let mut kept: Vec<InstalledCapability> = Vec::new();
    let mut k: usize = 0;
    while k < sections.len()
        invariant
            k <= sections.len(),
            pred == (|c: CapDraft| section_complete(c)),
            kept@.len() == caps_view(sections@).take(k as int).filter(pred).len(),
            forall|j: int|
                0 <= j < kept@.len() ==> capability_matches(
                    #[trigger] kept@[j],
                    caps_view(sections@).take(k as int).filter(pred)[j],
                ),
        decreases sections.len() - k,
    {
        let s = &sections[k];
        let ghost prev = caps_view(sections@).take(k as int);
        let ghost next = caps_view(sections@).take(k + 1);
        proof {
            assert(next.drop_last() == prev);
            assert(next.last() == s.view());
            reveal_with_fuel(Seq::<CapDraft>::filter, 1);
        }
        if s.id.len() > 0 && s.operation.len() > 0 {
            let cap = InstalledCapability {
                id: string_of(&s.id),
                operation: string_of(&s.operation),
                visibility: string_of(&s.visibility),
            };
            kept.push(cap);
            assert(next.filter(pred) == prev.filter(pred).push(s.view()));
        } else {
            assert(next.filter(pred) == prev.filter(pred));
        }
        k = k + 1;
    }
    assert(caps_view(sections@).take(sections.len() as int) == caps_view(sections@));
    let invocation_mode = match invocation_mode {
        Some(m) => m,
        None => ComponentInvocationMode::InProcess,
    };
    let transport = match transport {
        Some(t) => t,
        None => ComponentTransport::Unsupported,
    };
    Ok(InstalledComponentManifest {
        component_id,
        app_id,
        kind,
        entrypoint,
        invocation_mode,
        transport,
        args: to_strings(&args),
        working_dir: opt_string_of(&working_dir),
        env_policy: opt_string_of(&env_policy),
        contract_version,
        capabilities: kept,
    })
}

// ---------------------------------------------------------------------------
// Contract versions
// ---------------------------------------------------------------------------

/// Reads a contract written as `<id>.v<major>`.
pub fn parse_contract_version(value: &str) -> (r: ContractVersion)
    ensures
        contract_view(r) == contract_from_text(value@),
{
    let cs = chars_of(value);
    let dot_v = chars_of(".v");
    proof {
        reveal_strlit(".v");
    }
    if cs.len() < 2 {
        assert(last_dot_v(cs@) is None);
        return ContractVersion::new(value, 1, 0);
    }
    let mut i: usize = cs.len() - 1;
    // Scan down from the last position where `.v` fits.
    while i > 0
        invariant
            i <= cs.len() - 1,
            cs@ == value@,
            dot_v@ == ".v"@,
            cs.len() >= 2,
            last_dot_v(cs@) == crate::manifest_text::last_dot_v_from(cs@, i - 1),
        decreases i,
    {
        let at = i - 1;
        if matches_at(&cs, &dot_v, at) {
            let mut id: Vec<char> = Vec::new();
            let mut j: usize = 0;
            while j < at
                invariant
                    j <= at < cs.len(),
                    id@ == cs@.take(j as int),
                decreases at - j,
            {
                id.push(cs[j]);
                assert(cs@.take(j + 1) == cs@.take(j as int).push(cs@[j as int]));
                j = j + 1;
            }
            let mut rest: Vec<char> = Vec::new();
            let mut k: usize = at + 2;
            while k < cs.len()
                invariant
                    at + 2 <= k <= cs.len(),
                    rest@ == cs@.subrange(at + 2, k as int),
                decreases cs.len() - k,
            {
                rest.push(cs[k]);
                assert(cs@.subrange(at + 2, k + 1) == cs@.subrange(at + 2, k as int).push(cs@[k as int]));
                k = k + 1;
            }
            assert(cs@.skip(at + 2) == rest@);
            let major = match parse_u16(&rest) {
                Some(m) => m,
                None => 1,
            };
            let s = string_of(&id);
            return ContractVersion { contract_id: s, major, minor: 0 };
        }
        i = i - 1;
    }
    assert(crate::manifest_text::last_dot_v_from(cs@, -1) is None);
    ContractVersion::new(value, 1, 0)
}

// ---------------------------------------------------------------------------
// Writing manifests
// ---------------------------------------------------------------------------

/// `key = "<escaped value>"` followed by a newline.
pub open spec fn toml_line(key: Seq<char>, value: Seq<char>) -> Seq<char> {
    key + " = \""@ + toml_escape(value) + "\"\n"@
}

/// The quoted, escaped items of an array, separated by `, `.
pub open spec fn toml_items(items: Seq<Seq<char>>) -> Seq<char>
    decreases items.len(),
{
    if items.len() == 0 {
        Seq::empty()
    } else if items.len() == 1 {
        "\""@ + toml_escape(items[0]) + "\""@
    } else {
        toml_items(items.drop_last()) + ", \""@ + toml_escape(items.last()) + "\""@
    }
}

/// The capability sections of a manifest's text.
pub open spec fn toml_sections(caps: Seq<InstalledCapability>) -> Seq<char>
    decreases caps.len(),
{
    if caps.len() == 0 {
        Seq::empty()
    } else {
        let c = caps.last();
        toml_sections(caps.drop_last()) + "\n[[capabilities]]\n"@ + toml_line("id"@, c.id@)
            + toml_line("operation"@, c.operation@) + toml_line("visibility"@, c.visibility@)
    }
}

/// The text of a manifest: the top-level values in a fixed order (`args`
/// only when there are some, `working_dir` and `env_policy` only when set),
/// then one section per capability.
pub open spec fn manifest_text(m: InstalledComponentManifest) -> Seq<char> {
    toml_line("component_id"@, m.component_id@) + toml_line("app_id"@, m.app_id@) + toml_line(
        "kind"@,
        m.kind@,
    ) + toml_line("entrypoint"@, m.entrypoint@) + "invocation_mode = \""@ + mode_name(
        m.invocation_mode,
    ) + "\"\n"@ + "transport = \""@ + transport_name(m.transport) + "\"\n"@ + (if m.args@.len()
        > 0 {
        "args = ["@ + toml_items(string_views(m.args@)) + "]\n"@
    } else {
        Seq::empty()
    }) + (match m.working_dir {
        Some(w) => toml_line("working_dir"@, w@),
        None => Seq::empty(),
    }) + (match m.env_policy {
        Some(e) => toml_line("env_policy"@, e@),
        None => Seq::empty(),
    }) + toml_line("contract_version"@, m.contract_version@) + toml_sections(m.capabilities@)
}

fn push_toml_line(out: &mut String, key: &str, value: &str)
    ensures
        final(out)@ == old(out)@ + toml_line(key@, value@),
{
    append_str(out, key);
    append_str(out, " = \"");
    push_toml_escaped(out, value);
    append_str(out, "\"\n");
    assert(final(out)@ =~= old(out)@ + toml_line(key@, value@));
}

fn push_toml_items(out: &mut String, args: &Vec<String>)
    ensures
        final(out)@ == old(out)@ + toml_items(string_views(args@)),
{
    let ghost head = out@;
    let mut i: usize = 0;
    assert(string_views(args@).take(0) =~= Seq::<Seq<char>>::empty());
    while i < args.len()
        invariant
            i <= args.len(),
            out@ == head + toml_items(string_views(args@).take(i as int)),
        decreases args.len() - i,
    {
        if i > 0 {
            append_str(out, ", ");
        }
        append_str(out, "\"");
        push_toml_escaped(out, args[i].as_str());
        append_str(out, "\"");
        proof {
            reveal_strlit(", ");
            reveal_strlit("\"");
            reveal_strlit(", \"");
            let items = string_views(args@).take(i + 1);
            assert(items.drop_last() == string_views(args@).take(i as int));
            assert(items.last() == args@[i as int]@);
            if i == 0 {
                assert(items.len() == 1);
                assert(toml_items(items) == "\""@ + toml_escape(items[0]) + "\""@);
            }
        }
        assert(out@ =~= head + toml_items(string_views(args@).take(i + 1)));
        i = i + 1;
    }
    assert(string_views(args@).take(args.len() as int) == string_views(args@));
}

fn push_toml_sections(out: &mut String, caps: &Vec<InstalledCapability>)
    ensures
        final(out)@ == old(out)@ + toml_sections(caps@),
{
    let ghost tail = out@;
    let mut j: usize = 0;
    assert(caps@.take(0) =~= Seq::<InstalledCapability>::empty());
    assert(out@ =~= tail + toml_sections(caps@.take(0)));
    while j < caps.len()
        invariant
            j <= caps.len(),
            out@ == tail + toml_sections(caps@.take(j as int)),
        decreases caps.len() - j,
    {
        let c = &caps[j];
        append_str(out, "\n[[capabilities]]\n");
        push_toml_line(out, "id", c.id.as_str());
        push_toml_line(out, "operation", c.operation.as_str());
        push_toml_line(out, "visibility", c.visibility.as_str());
        proof {
            let cs = caps@.take(j + 1);
            assert(cs.drop_last() == caps@.take(j as int));
            assert(cs.last() == *c);
        }
        assert(out@ =~= tail + toml_sections(caps@.take(j + 1)));
        j = j + 1;
    }
    assert(caps@.take(caps.len() as int) == caps@);
}

impl InstalledComponentManifest {
    /// The manifest written as TOML: the top-level keys, then one `[[capabilities]]` section per capability.
    pub fn to_toml(&self) -> (r: String)
        ensures
            r@ == manifest_text(*self),
    {
        let mut out = String::new();
        push_toml_line(&mut out, "component_id", self.component_id.as_str());
        push_toml_line(&mut out, "app_id", self.app_id.as_str());
        push_toml_line(&mut out, "kind", self.kind.as_str());
        push_toml_line(&mut out, "entrypoint", self.entrypoint.as_str());
        append_str(&mut out, "invocation_mode = \"");
        append_str(&mut out, self.invocation_mode.as_str());
        append_str(&mut out, "\"\n");
        append_str(&mut out, "transport = \"");
        append_str(&mut out, self.transport.as_str());
        append_str(&mut out, "\"\n");
        let ghost p1 = out@;
        if self.args.len() > 0 {
            append_str(&mut out, "args = [");
            push_toml_items(&mut out, &self.args);
            append_str(&mut out, "]\n");
        }
        let ghost p2 = out@;
        match &self.working_dir {
            Some(w) => push_toml_line(&mut out, "working_dir", w.as_str()),
            None => {},
        }
        let ghost p3 = out@;
        match &self.env_policy {
            Some(e) => push_toml_line(&mut out, "env_policy", e.as_str()),
            None => {},
        }
        let ghost p4 = out@;
        push_toml_line(&mut out, "contract_version", self.contract_version.as_str());
        push_toml_sections(&mut out, &self.capabilities);
        assert(out@ =~= manifest_text(*self));
        out
    }

    /// The manifest's contract, read from its `<id>.v<major>` text.
    pub fn contract_version_descriptor(&self) -> (r: ContractVersion)
        ensures
            contract_view(r) == contract_from_text(self.contract_version@),
    {
        parse_contract_version(self.contract_version.as_str())
    }
}

} // verus!
