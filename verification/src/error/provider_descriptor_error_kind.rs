//! Stable classifications for provider descriptor failures.

use vstd::prelude::*;

verus! {

/// Classification of a provider descriptor construction failure.
#[derive(Clone, Copy, Debug, PartialEq, Eq, Structural)]
#[non_exhaustive]
pub enum ProviderDescriptorErrorKind {
    /// An alias could not be parsed.
    InvalidAlias,
    /// Two aliases normalized to the same selector.
    DuplicateAlias,
    /// An alias normalized to the canonical provider ID.
    AliasMatchesId,
}

} // verus!
