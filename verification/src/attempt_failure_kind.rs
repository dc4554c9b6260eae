//! Classifications for individual provider resolution failures.

use vstd::prelude::*;

verus! {

/// Classification of one failed resolution attempt.
#[derive(Clone, Copy, Debug, PartialEq, Eq, Structural)]
#[non_exhaustive]
pub enum AttemptFailureKind {
    /// Selector lookup reached no provider.
    UnknownProvider,
    /// A resolved provider failed to create its service.
    ProviderError,
}

} // verus!
