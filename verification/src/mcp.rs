//! The contract types of the MCP adapter: servers, tool candidates, their
//! mapping to kernel tools, and the boundary on what results may carry.
use vstd::prelude::*;

use crate::foundation::{is_valid_token, valid_token, AicoreError};
use crate::text::owned;

verus! {

broadcast use vstd::string::group_string_axioms;

/// Where an MCP server stands.
#[derive(Debug, Clone, Copy, PartialEq, Eq, Hash, Structural)]
pub enum McpServerStatus {
    Configured,
    Discovered,
    Enabled,
    Disabled,
    Unavailable,
    Broken,
}

/// Where a tool candidate stands.
#[derive(Debug, Clone, Copy, PartialEq, Eq, Hash, Structural)]
pub enum McpToolCandidateStatus {
    Discovered,
    Mapped,
    Rejected,
    Unavailable,
}

/// Where a mapping stands.
#[derive(Debug, Clone, Copy, PartialEq, Eq, Hash, Structural)]
pub enum McpMappingStatus {
    Candidate,
    RegisteredToolModule,
    Rejected,
}

/// How far a server is trusted.
#[derive(Debug, Clone, Copy, PartialEq, Eq, Hash, Structural)]
pub enum McpTrustLevel {
    Untrusted,
    UserConfirmed,
    SystemManaged,
}

/// What a result may carry.
#[derive(Debug, Clone, Copy, PartialEq, Eq, Hash, Structural)]
pub enum McpRedactionMode {
    SummaryOnly,
    ArtifactRefOnly,
    Blocked,
}

/// Whether a tool candidate may be mapped, and why not.
#[derive(Debug, Clone, Copy, PartialEq, Eq, Hash, Structural)]
pub enum McpMappingValidationOutcome {
    AllowedMappingCandidate,
    RejectedUnknownTool,
    RejectedUntrustedServer,
    RejectedCandidateNotDiscovered,
}

/// The identifier of an MCP server.
#[derive(Debug, Clone, PartialEq, Eq, PartialOrd, Ord, Hash)]
pub struct McpServerId(String);

/// The name of an MCP tool.
#[derive(Debug, Clone, PartialEq, Eq, PartialOrd, Ord, Hash)]
pub struct McpToolName(String);

/// The identifier of a discovery.
#[derive(Debug, Clone, PartialEq, Eq, PartialOrd, Ord, Hash)]
pub struct McpDiscoveryId(String);

/// The identifier of a mapping.
#[derive(Debug, Clone, PartialEq, Eq, PartialOrd, Ord, Hash)]
pub struct McpMappingId(String);

/// Whether `r` is the identifier `value` of kind `label`, or the invalid-id
/// error for it when it is not a token.
pub open spec fn id_result<T>(r: Result<T, AicoreError>, value: Seq<char>, label: Seq<char>, view: spec_fn(T) -> Seq<char>) -> bool {
    if is_valid_token(value) {
        r matches Ok(id) && view(id) == value
    } else {
        r matches Err(AicoreError::InvalidId { kind, value: v }) && kind@ == label && v@ == value
    }
}

impl McpServerId {
    /// The identifier's text.
    pub closed spec fn text(&self) -> Seq<char> {
        self.0@
    }

    /// The server id `value`, when it is a valid token.
    pub fn new(value: &str) -> (r: Result<Self, AicoreError>)
        ensures
            id_result(r, value@, "mcp server id"@, |id: Self| id.text()),
    {
        if valid_token(value) {
            Ok(McpServerId(owned(value)))
        } else {
            Err(AicoreError::InvalidId { kind: owned("mcp server id"), value: owned(value) })
        }
    }

    /// The identifier's text.
    pub fn as_str(&self) -> (r: &str)
        ensures
            r@ == self.text(),
    {
        self.0.as_str()
    }
}

impl McpToolName {
    /// The name's text.
    pub closed spec fn text(&self) -> Seq<char> {
        self.0@
    }

    /// The tool name `value`, when it is a valid token.
    pub fn new(value: &str) -> (r: Result<Self, AicoreError>)
        ensures
            id_result(r, value@, "mcp tool name"@, |id: Self| id.text()),
    {
        if valid_token(value) {
            Ok(McpToolName(owned(value)))
        } else {
            Err(AicoreError::InvalidId { kind: owned("mcp tool name"), value: owned(value) })
        }
    }

    /// The name's text.
    pub fn as_str(&self) -> (r: &str)
        ensures
            r@ == self.text(),
    {
        self.0.as_str()
    }
}

impl McpDiscoveryId {
    /// The identifier's text.
    pub closed spec fn text(&self) -> Seq<char> {
        self.0@
    }

    /// The discovery id `value`, when it is a valid token.
    pub fn new(value: &str) -> (r: Result<Self, AicoreError>)
        ensures
            id_result(r, value@, "mcp discovery id"@, |id: Self| id.text()),
    {
        if valid_token(value) {
            Ok(McpDiscoveryId(owned(value)))
        } else {
            Err(AicoreError::InvalidId { kind: owned("mcp discovery id"), value: owned(value) })
        }
    }

    /// The identifier's text.
    pub fn as_str(&self) -> (r: &str)
        ensures
            r@ == self.text(),
    {
        self.0.as_str()
    }
}

impl McpMappingId {
    /// The identifier's text.
    pub closed spec fn text(&self) -> Seq<char> {
        self.0@
    }

    /// The mapping id `value`, when it is a valid token.
    pub fn new(value: &str) -> (r: Result<Self, AicoreError>)
        ensures
            id_result(r, value@, "mcp mapping id"@, |id: Self| id.text()),
    {
        if valid_token(value) {
            Ok(McpMappingId(owned(value)))
        } else {
            Err(AicoreError::InvalidId { kind: owned("mcp mapping id"), value: owned(value) })
        }
    }

    /// The identifier's text.
    pub fn as_str(&self) -> (r: &str)
        ensures
            r@ == self.text(),
    {
        self.0.as_str()
    }
}

/// A point in time, in milliseconds since the Unix epoch.
#[derive(Debug, Clone, Copy, PartialEq, Eq, PartialOrd, Ord, Hash, Structural)]
pub struct Timestamp {
    pub unix_millis: u64,
}

/// An MCP server as discovered or configured.
#[derive(Debug, Clone, PartialEq, Eq)]
pub struct McpServerDescriptor {
    pub server_id: McpServerId,
    pub display_name: String,
    pub status: McpServerStatus,
    pub trust_level: McpTrustLevel,
    pub discovery_id: McpDiscoveryId,
    pub summary_en: String,
    pub configured_by_user: bool,
    pub created_at: Timestamp,
}

/// What one discovery found.
#[derive(Debug, Clone, PartialEq, Eq)]
pub struct McpDiscoveryReport {
    pub discovery_id: McpDiscoveryId,
    pub servers: Vec<McpServerDescriptor>,
    pub tool_candidates: Vec<McpToolCandidate>,
    pub created_at: Timestamp,
}

/// A tool a server offers, before it is mapped.
#[derive(Debug, Clone, PartialEq, Eq)]
pub struct McpToolCandidate {
    pub server_id: McpServerId,
    pub tool_name: McpToolName,
    pub status: McpToolCandidateStatus,
    pub summary_en: String,
    pub input_schema_summary: String,
    pub output_schema_summary: String,
    pub prompt_visible: bool,
    pub executable: bool,
    pub discovered_at: Timestamp,
}

impl McpToolCandidate {
    /// A freshly discovered candidate: neither prompt-visible nor executable,
    /// with unavailable schema summaries.
    pub fn discovered(server_id: McpServerId, tool_name: McpToolName, summary_en: String, discovered_at: Timestamp) -> (r: Self)
        ensures
            r.server_id == server_id,
            r.tool_name == tool_name,
            r.status == McpToolCandidateStatus::Discovered,
            r.summary_en == summary_en,
            r.input_schema_summary@ == "candidate input summary unavailable"@,
            r.output_schema_summary@ == "candidate output summary unavailable"@,
            !r.prompt_visible,
            !r.executable,
            r.discovered_at == discovered_at,
    {
        McpToolCandidate {
            server_id,
            tool_name,
            status: McpToolCandidateStatus::Discovered,
            summary_en,
            input_schema_summary: owned("candidate input summary unavailable"),
            output_schema_summary: owned("candidate output summary unavailable"),
            prompt_visible: false,
            executable: false,
            discovered_at,
        }
    }
}

/// What every MCP-backed tool must still pass through.
#[derive(Debug, Clone, PartialEq, Eq)]
pub struct McpPermissionHook {
    pub mapping_id: McpMappingId,
    pub requires_tool_registry_registration: bool,
    pub requires_approval: bool,
    pub requires_sandbox: bool,
    pub summary_en: String,
}

/// What an MCP result may carry: a summary or an artifact reference.
#[derive(Debug, Clone, PartialEq, Eq)]
pub struct McpResultSummaryBoundary {
    pub mapping_id: McpMappingId,
    pub redaction_mode: McpRedactionMode,
    pub summary_en: String,
    pub artifact_ref: Option<String>,
    pub redaction_applied: bool,
    pub payload_omitted: bool,
}

/// Whether a candidate may be mapped for a server: an unknown tool, an
/// untrusted server and a candidate that is not freshly discovered are
/// refused, in that order.
pub open spec fn mapping_outcome(candidate: Option<McpToolCandidate>, server: McpServerDescriptor) -> McpMappingValidationOutcome {
    match candidate {
        None => McpMappingValidationOutcome::RejectedUnknownTool,
        Some(c) => if server.trust_level == McpTrustLevel::Untrusted {
            McpMappingValidationOutcome::RejectedUntrustedServer
        } else if c.status != McpToolCandidateStatus::Discovered {
            McpMappingValidationOutcome::RejectedCandidateNotDiscovered
        } else {
            McpMappingValidationOutcome::AllowedMappingCandidate
        },
    }
}

/// Decides whether `candidate` may be mapped for `server`.
pub fn validate_mcp_tool_mapping(candidate: Option<&McpToolCandidate>, server: &McpServerDescriptor) -> (r: McpMappingValidationOutcome)
    ensures
        r == mapping_outcome(match candidate {
            Some(c) => Some(*c),
            None => None,
        }, *server),
{
    let candidate = match candidate {
        Some(c) => c,
        None => {
            return McpMappingValidationOutcome::RejectedUnknownTool;
        },
    };
    if server.trust_level == McpTrustLevel::Untrusted {
        return McpMappingValidationOutcome::RejectedUntrustedServer;
    }
    if candidate.status != McpToolCandidateStatus::Discovered {
        return McpMappingValidationOutcome::RejectedCandidateNotDiscovered;
    }
    McpMappingValidationOutcome::AllowedMappingCandidate
}

/// How much a mapped tool may do: a mapped MCP tool may only read, safely.
#[derive(Debug, Clone, Copy, PartialEq, Eq, Structural)]
pub enum ToolPermissionClass {
    SafeRead,
}

/// Whether a mapped tool needs approval before it runs: a mapped MCP tool does.
#[derive(Debug, Clone, Copy, PartialEq, Eq, Structural)]
pub enum ToolApprovalRequirement {
    Required,
}

/// An MCP tool mapped to an AICore tool module: the tool id, schema hash and
/// sandbox profile it gets, safe-read only, approval required, and not yet
/// registered in the runtime.
#[derive(Debug, Clone, PartialEq, Eq)]
pub struct McpToolToAicoreToolMapping {
    pub mapping_id: McpMappingId,
    pub server: McpServerDescriptor,
    pub candidate: McpToolCandidate,
    pub tool_id: String,
    pub schema_hash: String,
    pub sandbox_profile_id: String,
    pub status: McpMappingStatus,
    pub permission_class: ToolPermissionClass,
    pub approval_requirement: ToolApprovalRequirement,
    pub registered_in_runtime: bool,
    pub created_at: Timestamp,
}

impl McpToolToAicoreToolMapping {
    /// Maps `candidate` of `server` to a tool module, where the mapping is
    /// allowed; else the validation outcome that refuses it.
    pub fn new_candidate(
        mapping_id: McpMappingId,
        server: McpServerDescriptor,
        candidate: McpToolCandidate,
        tool_id: &str,
        schema_hash: &str,
        sandbox_profile_id: &str,
        created_at: Timestamp,
    ) -> (r: Result<Self, McpMappingValidationOutcome>)
        ensures
            mapping_outcome(Some(candidate), server) == McpMappingValidationOutcome::AllowedMappingCandidate ==> r == Ok::<Self, McpMappingValidationOutcome>(
                McpToolToAicoreToolMapping {
                    mapping_id,
                    server,
                    candidate,
                    tool_id: r->Ok_0.tool_id,
                    schema_hash: r->Ok_0.schema_hash,
                    sandbox_profile_id: r->Ok_0.sandbox_profile_id,
                    status: McpMappingStatus::RegisteredToolModule,
                    permission_class: ToolPermissionClass::SafeRead,
                    approval_requirement: ToolApprovalRequirement::Required,
                    registered_in_runtime: false,
                    created_at,
                },
            ) && r->Ok_0.tool_id@ == tool_id@ && r->Ok_0.schema_hash@ == schema_hash@
                && r->Ok_0.sandbox_profile_id@ == sandbox_profile_id@,
            mapping_outcome(Some(candidate), server) != McpMappingValidationOutcome::AllowedMappingCandidate
                ==> r == Err::<Self, McpMappingValidationOutcome>(mapping_outcome(Some(candidate), server)),
    {
        match validate_mcp_tool_mapping(Some(&candidate), &server) {
            McpMappingValidationOutcome::AllowedMappingCandidate => Ok(McpToolToAicoreToolMapping {
                mapping_id,
                server,
                candidate,
                tool_id: owned(tool_id),
                schema_hash: owned(schema_hash),
                sandbox_profile_id: owned(sandbox_profile_id),
                status: McpMappingStatus::RegisteredToolModule,
                permission_class: ToolPermissionClass::SafeRead,
                approval_requirement: ToolApprovalRequirement::Required,
                registered_in_runtime: false,
                created_at,
            }),
            outcome => Err(outcome),
        }
    }
}

/// The contract symbols the adapter exports: descriptors and boundaries only.
pub open spec fn contract_symbols() -> Seq<Seq<char>> {
    seq![
        "McpServerDescriptor"@,
        "McpToolCandidate"@,
        "McpToolToAicoreToolMapping"@,
        "McpPermissionHook"@,
        "McpResultSummaryBoundary"@,
        "McpDiscoveryReport"@,
    ]
}

/// The contract symbols the adapter exports.
pub fn exported_contract_symbols() -> (r: Vec<&'static str>)
    ensures
        r@.map_values(|s: &'static str| s@) == contract_symbols(),
{
    let r: Vec<&'static str> = vec![
        "McpServerDescriptor",
        "McpToolCandidate",
        "McpToolToAicoreToolMapping",
        "McpPermissionHook",
        "McpResultSummaryBoundary",
        "McpDiscoveryReport",
    ];
    proof {
        reveal_strlit("McpServerDescriptor");
        reveal_strlit("McpToolCandidate");
        reveal_strlit("McpToolToAicoreToolMapping");
        reveal_strlit("McpPermissionHook");
        reveal_strlit("McpResultSummaryBoundary");
        reveal_strlit("McpDiscoveryReport");
        assert(r@.map_values(|s: &'static str| s@) =~= contract_symbols());
    }
    r
}

/// Only a freshly discovered candidate of a server that is not untrusted may
/// be mapped: a candidate that is mapped, rejected or unavailable never is,
/// and an unknown tool is refused as unknown.
pub proof fn lemma_only_discovered_candidates_map(candidate: Option<McpToolCandidate>, server: McpServerDescriptor)
    ensures
        (mapping_outcome(candidate, server) == McpMappingValidationOutcome::AllowedMappingCandidate) == (candidate matches Some(c)
            && c.status == McpToolCandidateStatus::Discovered && server.trust_level != McpTrustLevel::Untrusted),
        candidate matches Some(c) && c.status != McpToolCandidateStatus::Discovered
            ==> mapping_outcome(candidate, server) != McpMappingValidationOutcome::AllowedMappingCandidate,
        candidate is None ==> mapping_outcome(candidate, server) == McpMappingValidationOutcome::RejectedUnknownTool,
        candidate is Some && server.trust_level == McpTrustLevel::Untrusted
            ==> mapping_outcome(candidate, server) == McpMappingValidationOutcome::RejectedUntrustedServer,
        candidate matches Some(c) && server.trust_level != McpTrustLevel::Untrusted && c.status != McpToolCandidateStatus::Discovered
            ==> mapping_outcome(candidate, server) == McpMappingValidationOutcome::RejectedCandidateNotDiscovered,
{
}

} // verus!
