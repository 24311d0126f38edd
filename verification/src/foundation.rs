//! Identifiers and errors shared by the kernel's registries and scheduler.
use vstd::prelude::*;

use crate::text::{append_str, chars_of, owned, str_eq};

verus! {

/// The identifier of the global main instance.
pub open spec fn global_main_id() -> Seq<char> {
    "global-main"@
}

/// Whether `c` may appear in an identifier token: an ASCII letter or digit, `.`, `-` or `_`.
pub open spec fn is_token_char(c: char) -> bool {
    ('a' <= c && c <= 'z') || ('A' <= c && c <= 'Z') || ('0' <= c && c <= '9') || c == '.'
        || c == '-' || c == '_'
}

/// Whether `s` is a non-empty identifier token.
pub open spec fn is_valid_token(s: Seq<char>) -> bool {
    s.len() > 0 && forall|i: int| 0 <= i < s.len() ==> is_token_char(#[trigger] s[i])
}

/// Checks that `value` is a non-empty identifier token.
pub fn valid_token(value: &str) -> (r: bool)
    ensures
        r == is_valid_token(value@),
{
    let cs = chars_of(value);
    if cs.len() == 0 {
        return false;
    }
    let mut i: usize = 0;
    while i < cs.len()
        invariant
            i <= cs.len(),
            cs@ == value@,
            forall|j: int| 0 <= j < i ==> is_token_char(#[trigger] cs@[j]),
        decreases cs.len() - i,
    {
        let c = cs[i];
        let ok = ('a' <= c && c <= 'z') || ('A' <= c && c <= 'Z') || ('0' <= c && c <= '9')
            || c == '.' || c == '-' || c == '_';
        if !ok {
            assert(!is_token_char(cs@[i as int]));
            return false;
        }
        i = i + 1;
    }
    true
}

/// The errors of the kernel's registries and scheduler.
#[derive(Debug, Clone, PartialEq, Eq)]
pub enum AicoreError {
    InvalidState(String),
    Duplicate(String),
    Missing(String),
    Conflict(String),
    InvalidId { kind: String, value: String },
}

/// The text shown for an error.
pub open spec fn error_text(e: AicoreError) -> Seq<char> {
    match e {
        AicoreError::InvalidState(m) => "invalid state: "@ + m@,
        AicoreError::Duplicate(m) => "duplicate: "@ + m@,
        AicoreError::Missing(m) => "missing: "@ + m@,
        AicoreError::Conflict(m) => "conflict: "@ + m@,
        AicoreError::InvalidId { kind, value } => "invalid "@ + kind@ + ": "@ + value@,
    }
}

impl AicoreError {
    /// The text shown for this error.
    pub fn to_string(&self) -> (r: String)
        ensures
            r@ == error_text(*self),
    {
        match self {
            AicoreError::InvalidState(m) => {
                let mut s = owned("invalid state: ");
                append_str(&mut s, m.as_str());
                s
            },
            AicoreError::Duplicate(m) => {
                let mut s = owned("duplicate: ");
                append_str(&mut s, m.as_str());
                s
            },
            AicoreError::Missing(m) => {
                let mut s = owned("missing: ");
                append_str(&mut s, m.as_str());
                s
            },
            AicoreError::Conflict(m) => {
                let mut s = owned("conflict: ");
                append_str(&mut s, m.as_str());
                s
            },
            AicoreError::InvalidId { kind, value } => {
                let mut s = owned("invalid ");
                append_str(&mut s, kind.as_str());
                append_str(&mut s, ": ");
                append_str(&mut s, value.as_str());
                s
            },
        }
    }
}

/// The identifier of a runtime instance.
#[derive(Debug, Clone, PartialEq, Eq)]
pub struct InstanceId {
    value: String,
}

impl View for InstanceId {
    type V = Seq<char>;

    closed spec fn view(&self) -> Seq<char> {
        self.value@
    }
}

impl InstanceId {
    /// The identifier `value`, when it is a valid token.
    pub fn new(value: &str) -> (r: Result<Self, AicoreError>)
        ensures
            is_valid_token(value@) ==> (r matches Ok(id) && id@ == value@),
            !is_valid_token(value@) ==> (r matches Err(e) && e matches AicoreError::InvalidId {
                kind,
                value: v,
            } && kind@ == "instance id"@ && v@ == value@),
    {
        if valid_token(value) {
            Ok(InstanceId { value: owned(value) })
        } else {
            Err(AicoreError::InvalidId { kind: owned("instance id"), value: owned(value) })
        }
    }

    /// The identifier of the global main instance.
    pub fn global_main() -> (r: Self)
        ensures
            r@ == global_main_id(),
    {
        InstanceId { value: owned("global-main") }
    }

    /// The identifier's text.
    pub fn as_str(&self) -> (r: &str)
        ensures
            r@ == self@,
    {
        self.value.as_str()
    }

    /// Whether two identifiers are the same.
    pub fn same_as(&self, other: &InstanceId) -> (r: bool)
        ensures
            r == (self@ == other@),
    {
        str_eq(self.value.as_str(), other.value.as_str())
    }

    pub(crate) fn duplicate(&self) -> (r: Self)
        ensures
            r@ == self@,
    {
        InstanceId { value: self.value.clone() }
    }
}

} // verus!
