//! Private storage for one failed provider resolution attempt.

use vstd::prelude::*;

use crate::error::ProviderError;
use crate::{ProviderId, ProviderSelector};

verus! {

/// Variant-specific diagnostics for one failed resolution attempt.
#[derive(Clone, Debug)]
pub(crate) enum AttemptFailureRepr {
    /// Selector lookup reached no provider.
    UnknownProvider {
        /// Selector retained from the request.
        requested_selector: ProviderSelector,
        /// Human-readable lookup failure.
        reason: String,
    },
    /// A provider factory returned a classified error.
    ProviderError {
        /// Explicit selector, or `None` for automatic selection.
        requested_selector: Option<ProviderSelector>,
        /// Canonical provider reached by lookup.
        provider_id: ProviderId,
        /// Original provider error retained without diagnostic copying.
        error: ProviderError,
    },
}

} // verus!
