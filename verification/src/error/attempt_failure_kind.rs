//! Stable classifications for individual failed provider attempts.

use vstd::prelude::*;

verus! {

/// Classification of one failed resolution attempt.
#[derive(Clone, Copy, Debug, PartialEq, Eq, Structural)]
#[non_exhaustive]
pub enum AttemptFailureKind {
    /// A selector matched no registered provider.
    UnknownProvider,
    /// A selected provider returned a classified creation error.
    ProviderError,
}

} // verus!
