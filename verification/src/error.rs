//! Kernel errors: a machine code, the stage that failed and a user message.
use vstd::prelude::*;

use crate::text::{append_str, owned};

verus! {

/// What went wrong, for machines.
#[derive(Debug, Clone, Copy, PartialEq, Eq, Structural)]
pub enum KernelErrorCode {
    MissingCapability,
    VersionMismatch,
    PermissionDenied,
    Unavailable,
    Conflict,
    InvalidRequest,
    Internal,
}

/// Where it went wrong.
#[derive(Debug, Clone, Copy, PartialEq, Eq, Structural)]
pub enum KernelErrorStage {
    Resolve,
    Route,
    Invoke,
    Dispatch,
    Runtime,
}

/// Whether and when a caller may retry.
#[derive(Debug, Clone, Copy, PartialEq, Eq, Structural)]
pub enum RetryPolicyHint {
    DoNotRetry,
    RetryLater,
    RetryAfterMillis(u64),
}

/// A kernel error with a user message and an optional detail that is safe to show.
#[derive(Debug, Clone, PartialEq, Eq)]
pub struct KernelError {
    pub code: KernelErrorCode,
    pub stage: KernelErrorStage,
    pub message_zh: String,
    pub safe_detail: Option<String>,
    pub retry_hint: RetryPolicyHint,
    pub secret_safe: bool,
}

/// The name of a code, as `{:?}` prints it.
pub open spec fn code_name(code: KernelErrorCode) -> Seq<char> {
    match code {
        KernelErrorCode::MissingCapability => "MissingCapability"@,
        KernelErrorCode::VersionMismatch => "VersionMismatch"@,
        KernelErrorCode::PermissionDenied => "PermissionDenied"@,
        KernelErrorCode::Unavailable => "Unavailable"@,
        KernelErrorCode::Conflict => "Conflict"@,
        KernelErrorCode::InvalidRequest => "InvalidRequest"@,
        KernelErrorCode::Internal => "Internal"@,
    }
}

/// The name of a code, as `{:?}` prints it.
pub fn code_debug_name(code: &KernelErrorCode) -> (r: &'static str)
    ensures
        r@ == code_name(*code),
{
    match code {
        KernelErrorCode::MissingCapability => "MissingCapability",
        KernelErrorCode::VersionMismatch => "VersionMismatch",
        KernelErrorCode::PermissionDenied => "PermissionDenied",
        KernelErrorCode::Unavailable => "Unavailable",
        KernelErrorCode::Conflict => "Conflict",
        KernelErrorCode::InvalidRequest => "InvalidRequest",
        KernelErrorCode::Internal => "Internal",
    }
}

impl KernelError {
    /// An error that must not be retried, with no detail, marked secret-safe.
    pub fn new(code: KernelErrorCode, stage: KernelErrorStage, message_zh: &str) -> (r: Self)
        ensures
            r.code == code,
            r.stage == stage,
            r.message_zh@ == message_zh@,
            r.safe_detail is None,
            r.retry_hint == RetryPolicyHint::DoNotRetry,
            r.secret_safe,
    {
        KernelError {
            code,
            stage,
            message_zh: owned(message_zh),
            safe_detail: None,
            retry_hint: RetryPolicyHint::DoNotRetry,
            secret_safe: true,
        }
    }

    /// The same error with `detail` as its safe detail.
    pub fn with_safe_detail(self, detail: &str) -> (r: Self)
        ensures
            r.code == self.code,
            r.stage == self.stage,
            r.message_zh == self.message_zh,
            r.safe_detail matches Some(d) && d@ == detail@,
            r.retry_hint == self.retry_hint,
            r.secret_safe == self.secret_safe,
    {
        let mut e = self;
        e.safe_detail = Some(owned(detail));
        e
    }

    /// The same error, marked safe to show.
    pub fn mark_secret_safe(self) -> (r: Self)
        ensures
            r == (KernelError { secret_safe: true, ..self }),
    {
        let mut e = self;
        e.secret_safe = true;
        e
    }

    /// The text shown for this error: the message, then the code in brackets.
    pub fn to_string(&self) -> (r: String)
        ensures
            r@ == self.message_zh@ + " ("@ + code_name(self.code) + ")"@,
    {
        let mut s = self.message_zh.clone();
        append_str(&mut s, " (");
        append_str(&mut s, code_debug_name(&self.code));
        append_str(&mut s, ")");
        s
    }
}

} // verus!
