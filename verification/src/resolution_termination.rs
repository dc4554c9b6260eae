//! Reasons provider resolution ended without producing a service.

use vstd::prelude::*;

verus! {

/// Describes why resolution traversal ended unsuccessfully.
#[derive(Clone, Copy, Debug, PartialEq, Eq, Structural)]
#[non_exhaustive]
pub enum ResolutionTermination {
    /// Every considered candidate was attempted.
    Exhausted,
    /// Fallback policy rejected continuing after the terminal failure.
    StoppedByPolicy,
}

} // verus!
