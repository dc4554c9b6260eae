//! Policies controlling fallback after provider creation failures.

use vstd::prelude::*;

use crate::error::ProviderFailureKind;

verus! {

/// Controls which provider creation failures permit another candidate.
///
/// The policy applies to automatic and chained selection after a provider
/// factory returns an error. Named selection always uses exactly one provider
/// and never falls back.
#[derive(Clone, Copy, Debug, PartialEq, Eq, Structural)]
#[non_exhaustive]
pub enum FallbackPolicy {
    /// Stops after the first provider creation failure.
    Never,
    /// Continues only after an unsupported or unavailable provider.
    OnAbsence,
    /// Continues after every leaf provider creation failure.
    OnAnyError,
}

impl FallbackPolicy {
    /// Whether the policy lets traversal go on after a failure of `kind`.
    pub open spec fn permits_after(self, kind: ProviderFailureKind) -> bool {
        match self {
            FallbackPolicy::Never => false,
            FallbackPolicy::OnAbsence => kind.denotes_absence(),
            FallbackPolicy::OnAnyError => true,
        }
    }

    /// Reports whether another candidate may be tried after a provider
    /// failed with `kind`.
    pub fn should_continue_after(self, kind: ProviderFailureKind) -> (r: bool)
        ensures
            r == self.permits_after(kind),
    {
        match self {
            FallbackPolicy::Never => false,
            FallbackPolicy::OnAbsence => kind.is_absence(),
            FallbackPolicy::OnAnyError => true,
        }
    }
}

impl Default for FallbackPolicy {
    /// The default policy falls back only after an absent provider.
    fn default() -> (r: Self)
        ensures
            r == FallbackPolicy::OnAbsence,
    {
        FallbackPolicy::OnAbsence
    }
}

} // verus!
