//! Stable classifications for provider selection failures.

use vstd::prelude::*;

verus! {

/// Classification of a provider selection construction failure.
#[derive(Clone, Copy, Debug, PartialEq, Eq, Structural)]
#[non_exhaustive]
pub enum ProviderSelectionErrorKind {
    /// A selector input was invalid.
    InvalidSelector,
    /// A chained selection contained no selectors.
    EmptyChain,
}

} // verus!
