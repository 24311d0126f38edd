//! Contract versions and compatibility ranges.
use vstd::prelude::*;

use crate::text::{owned, str_eq};

verus! {

/// A versioned contract: an identifier with a major and a minor version.
#[derive(Debug, Clone, PartialEq, Eq)]
pub struct ContractVersion {
    pub contract_id: String,
    pub major: u16,
    pub minor: u16,
}

impl ContractVersion {
    /// A contract version with the given identifier and numbers.
    pub fn new(contract_id: &str, major: u16, minor: u16) -> (r: Self)
        ensures
            r.contract_id@ == contract_id@,
            r.major == major,
            r.minor == minor,
    {
        ContractVersion { contract_id: owned(contract_id), major, minor }
    }

    /// An identical copy.
    pub(crate) fn duplicate(&self) -> (r: Self)
        ensures
            r == *self,
    {
        ContractVersion { contract_id: self.contract_id.clone(), major: self.major, minor: self.minor }
    }
}

/// The range of major versions of one contract that a component accepts.
#[derive(Debug, Clone, PartialEq, Eq)]
pub struct CompatibilityRange {
    pub contract_id: String,
    pub min_major: u16,
    pub max_major: u16,
}

/// Whether a contract version falls inside a compatibility range.
#[derive(Debug, Clone, PartialEq, Eq, Structural)]
pub enum CompatibilityDecision {
    Compatible,
    Incompatible,
}

/// Whether `range` accepts `version`: same contract and a major version inside the range.
pub open spec fn range_accepts(range: CompatibilityRange, version: ContractVersion) -> bool {
    range.contract_id@ == version.contract_id@ && range.min_major <= version.major
        && version.major <= range.max_major
}

impl CompatibilityRange {
    /// Decides whether `version` is compatible with this range.
    pub fn accepts(&self, version: &ContractVersion) -> (r: CompatibilityDecision)
        ensures
            r == (if range_accepts(*self, *version) {
                CompatibilityDecision::Compatible
            } else {
                CompatibilityDecision::Incompatible
            }),
    {
        if str_eq(self.contract_id.as_str(), version.contract_id.as_str())
            && version.major >= self.min_major && version.major <= self.max_major
        {
            CompatibilityDecision::Compatible
        } else {
            CompatibilityDecision::Incompatible
        }
    }
}

/// A named feature switch.
#[derive(Debug, Clone, PartialEq, Eq)]
pub struct FeatureFlag {
    pub name: String,
    pub enabled: bool,
}

/// A compatibility range is inclusive at both ends: a version of the same
/// contract whose major version is the range's lowest or highest is
/// accepted, one just outside either end is not, and one of another
/// contract never is.
pub proof fn lemma_range_inclusive(range: CompatibilityRange, version: ContractVersion)
    ensures
        version.contract_id@ == range.contract_id@ && range.min_major <= range.max_major
            && (version.major == range.min_major || version.major == range.max_major) ==> range_accepts(range, version),
        version.contract_id@ == range.contract_id@ && range.min_major <= version.major <= range.max_major
            ==> range_accepts(range, version),
        version.major > range.max_major || version.major < range.min_major ==> !range_accepts(range, version),
        version.contract_id@ != range.contract_id@ ==> !range_accepts(range, version),
{
}

} // verus!
