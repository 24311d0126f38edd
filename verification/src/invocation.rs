//! Invocation envelopes: what is invoked, with which payload and policy.
use vstd::prelude::*;


use crate::clock::{new_random_state, random_state_token, unix_millis_now};
use crate::context::{AuditContext, TraceContext};
use crate::text::{append_str, decimal, owned, push_decimal};

verus! {

broadcast use vstd::string::group_string_axioms;

/// The length in bytes of the UTF-8 encoding of `s`, as `str::len` reports it.
pub open spec fn utf8_len(s: Seq<char>) -> nat {
    (vstd::utf8::encode_utf8(s).len() as usize) as nat
}

/// What an invocation carries.
#[derive(Debug, Clone, PartialEq, Eq)]
pub enum KernelPayload {
    Text(String),
    JsonSummary(String),
    Empty,
}

/// A one-line description of a payload that never repeats text content:
/// text gives only its length in bytes.
pub open spec fn payload_summary(p: KernelPayload) -> Seq<char> {
    match p {
        KernelPayload::Text(v) => "text:"@ + decimal(utf8_len(v@)) + " bytes"@,
        KernelPayload::JsonSummary(v) => "json:"@ + v@,
        KernelPayload::Empty => "empty"@,
    }
}

impl KernelPayload {
    /// The payload's one-line description.
    pub fn summary(&self) -> (r: String)
        ensures
            r@ == payload_summary(*self),
    {
        match self {
            KernelPayload::Text(v) => {
                let mut s = owned("text:");
                push_decimal(&mut s, v.as_str().len() as u64);
                append_str(&mut s, " bytes");
                s
            },
            KernelPayload::JsonSummary(v) => {
                let mut s = owned("json:");
                append_str(&mut s, v.as_str());
                s
            },
            KernelPayload::Empty => owned("empty"),
        }
    }
}

/// How long an invocation may run.
#[derive(Debug, Clone, PartialEq, Eq, Structural)]
pub enum TimeoutPolicy {
    Inherit,
    Millis(u64),
    /// No timeout at all.
    NoTimeout,
}

/// A reference to a credential.
#[derive(Debug, Clone, PartialEq, Eq)]
pub struct CredentialRef {
    pub auth_ref: String,
}

/// The timeout, credential and parallelism policy of an invocation.
#[derive(Debug, Clone, PartialEq, Eq)]
pub struct InvocationPolicy {
    pub timeout: TimeoutPolicy,
    pub credential_ref: Option<CredentialRef>,
    pub allow_parallel_reads: bool,
}

impl Default for InvocationPolicy {
    fn default() -> (r: Self)
        ensures
            r == (InvocationPolicy { timeout: TimeoutPolicy::Inherit, credential_ref: None, allow_parallel_reads: true }),
    {
        InvocationPolicy { timeout: TimeoutPolicy::Inherit, credential_ref: None, allow_parallel_reads: true }
    }
}

/// An invocation of an operation of a capability for an instance.
#[derive(Debug, Clone, PartialEq, Eq)]
pub struct KernelInvocationEnvelope {
    pub invocation_id: String,
    pub instance_id: String,
    pub capability: String,
    pub operation: String,
    pub payload: KernelPayload,
    pub policy: InvocationPolicy,
    pub trace_context: TraceContext,
    pub audit_context: AuditContext,
}

/// Whether `id` has the shape of a generated invocation id: `invoke.`, the
/// time in milliseconds, `.`, and a random number.
pub open spec fn is_generated_invocation_id(id: Seq<char>) -> bool {
    exists|t: nat, n: nat| id == "invoke."@ + decimal(t) + "."@ + decimal(n)
}

/// A fresh invocation id made of the current time and a random number.
pub fn generate_invocation_id() -> (r: String)
    ensures
        is_generated_invocation_id(r@),
{
    let timestamp = unix_millis_now();
    let state = new_random_state();
    let token = random_state_token(&state);
    let mut s = owned("invoke.");
    push_decimal(&mut s, timestamp);
    append_str(&mut s, ".");
    push_decimal(&mut s, token);
    assert(s@ == "invoke."@ + decimal(timestamp as nat) + "."@ + decimal(token as nat));
    s
}

impl KernelInvocationEnvelope {
    /// An invocation with a fresh invocation id, the default policy, in trace
    /// `trace.default`, on behalf of the system.
    pub fn new(instance_id: &str, capability: &str, operation: &str, payload: KernelPayload) -> (r: Self)
        ensures
            is_generated_invocation_id(r.invocation_id@),
            r.instance_id@ == instance_id@,
            r.capability@ == capability@,
            r.operation@ == operation@,
            r.payload == payload,
            r.policy == (InvocationPolicy { timeout: TimeoutPolicy::Inherit, credential_ref: None, allow_parallel_reads: true }),
            r.trace_context.trace_id@ == "trace.default"@,
            r.trace_context.parent_span_id is None,
            r.audit_context.actor@ == "system"@,
            r.audit_context.reason@ == "kernel invocation"@,
    {
        KernelInvocationEnvelope {
            invocation_id: generate_invocation_id(),
            instance_id: owned(instance_id),
            capability: owned(capability),
            operation: owned(operation),
            payload,
            policy: InvocationPolicy::default(),
            trace_context: TraceContext::new("trace.default"),
            audit_context: AuditContext::system("kernel invocation"),
        }
    }

    /// The same invocation under the id `invocation_id`.
    pub fn with_invocation_id(self, invocation_id: &str) -> (r: Self)
        ensures
            r == (KernelInvocationEnvelope { invocation_id: r.invocation_id, ..self }),
            r.invocation_id@ == invocation_id@,
    {
        KernelInvocationEnvelope { invocation_id: owned(invocation_id), ..self }
    }
}

} // verus!
