//! Stable classifications for provider resolution failures.

use vstd::prelude::*;

verus! {

/// Classification of a provider resolution failure.
#[derive(Clone, Copy, Debug, PartialEq, Eq, Structural)]
#[non_exhaustive]
pub enum ResolutionErrorKind {
    /// Raw selector input was invalid.
    InvalidSelector,
    /// A raw chained selection was empty.
    EmptySelection,
    /// A valid selector matched no provider.
    UnknownProvider,
    /// Automatic selection was requested from an empty registry.
    EmptyRegistry,
    /// Candidate traversal ended without a successful provider.
    NoProviderSucceeded,
}

} // verus!
