//! Reasons provider creation ended without producing a service.

use vstd::prelude::*;

verus! {

/// Describes why candidate traversal ended unsuccessfully.
#[derive(Clone, Copy, Debug, PartialEq, Eq, Structural)]
#[non_exhaustive]
pub enum ProviderCreationTermination {
    /// Every candidate admitted by the selection was attempted.
    Exhausted,
    /// Fallback policy rejected continuing after the terminal failure.
    StoppedByPolicy,
}

} // verus!
