//! Error classifications for canonical provider ID validation failures.

use vstd::prelude::*;

verus! {

/// Classification of a canonical provider ID validation failure.
#[derive(Clone, Copy, Debug, PartialEq, Eq, Structural)]
#[non_exhaustive]
pub enum ProviderIdErrorKind {
    /// The supplied provider ID is empty.
    Empty,
    /// The supplied provider ID is not in canonical form.
    NonCanonical,
}

} // verus!
