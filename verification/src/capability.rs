//! Capability descriptors: the operations an app offers and their schemas.
use vstd::prelude::*;

use crate::text::owned;

verus! {

/// A reference to a versioned schema.
#[derive(Debug, Clone, PartialEq, Eq)]
pub struct SchemaRef {
    pub schema_id: String,
    pub version: String,
}

impl SchemaRef {
    /// A schema reference with the given identifier and version.
    pub fn new(schema_id: &str, version: &str) -> (r: Self)
        ensures
            r.schema_id@ == schema_id@,
            r.version@ == version@,
    {
        SchemaRef { schema_id: owned(schema_id), version: owned(version) }
    }
}

/// Whether a capability needs a credential, and which one.
#[derive(Debug, Clone, PartialEq, Eq)]
pub struct CredentialRequirement {
    pub auth_ref: Option<String>,
    pub required: bool,
}

/// The sandbox that a capability runs in.
#[derive(Debug, Clone, PartialEq, Eq)]
pub struct SandboxRequirement {
    pub boundary: String,
    pub network: bool,
    pub filesystem: bool,
}

/// One operation of a capability, with optional input and output schemas.
#[derive(Debug, Clone, PartialEq, Eq)]
pub struct CapabilityOperation {
    pub operation: String,
    pub input_schema: Option<SchemaRef>,
    pub output_schema: Option<SchemaRef>,
}

/// Whether `op` is the operation named `name`, without schemas.
pub open spec fn is_bare_operation(op: CapabilityOperation, name: Seq<char>) -> bool {
    op.operation@ == name && op.input_schema is None && op.output_schema is None
}

impl CapabilityOperation {
    /// An operation without schemas.
    pub fn new(operation: &str) -> (r: Self)
        ensures
            is_bare_operation(r, operation@),
    {
        CapabilityOperation { operation: owned(operation), input_schema: None, output_schema: None }
    }
}

/// A capability: its identifier, operations, schemas and requirements.
#[derive(Debug, Clone, PartialEq, Eq)]
pub struct CapabilityDescriptor {
    pub capability_id: String,
    pub operations: Vec<CapabilityOperation>,
    pub schema_refs: Vec<SchemaRef>,
    pub credential_requirement: Option<CredentialRequirement>,
    pub sandbox_requirement: Option<SandboxRequirement>,
}

impl CapabilityDescriptor {
    /// A capability with no operations, schemas or requirements.
    pub fn new(capability_id: &str) -> (r: Self)
        ensures
            r.capability_id@ == capability_id@,
            r.operations@.len() == 0,
            r.schema_refs@.len() == 0,
            r.credential_requirement is None,
            r.sandbox_requirement is None,
    {
        CapabilityDescriptor {
            capability_id: owned(capability_id),
            operations: Vec::new(),
            schema_refs: Vec::new(),
            credential_requirement: None,
            sandbox_requirement: None,
        }
    }

    /// The same capability with one more operation, without schemas, at the end.
    pub fn with_operation(self, operation: &str) -> (r: Self)
        ensures
            r.capability_id == self.capability_id,
            r.operations@.len() == self.operations@.len() + 1,
            r.operations@.drop_last() == self.operations@,
            is_bare_operation(r.operations@.last(), operation@),
            r.schema_refs == self.schema_refs,
            r.credential_requirement == self.credential_requirement,
            r.sandbox_requirement == self.sandbox_requirement,
    {
        let mut s = self;
        s.operations.push(CapabilityOperation::new(operation));
        assert(s.operations@.drop_last() == self.operations@);
        s
    }
}

} // verus!
