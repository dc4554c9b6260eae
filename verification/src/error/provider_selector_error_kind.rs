//! Stable classifications for provider selector failures.

use vstd::prelude::*;

verus! {

/// Classification of a provider selector parsing failure.
#[derive(Clone, Copy, Debug, PartialEq, Eq, Structural)]
#[non_exhaustive]
pub enum ProviderSelectorErrorKind {
    /// Trimming produced an empty selector.
    Empty,
    /// The normalized selector violated selector syntax.
    Invalid,
}

} // verus!
