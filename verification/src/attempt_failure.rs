//! Diagnostics for individual provider resolution attempts.

use vstd::prelude::*;
use vstd::string::StringExecFns;

use crate::error::{
    render_provider_failed, AttemptFailureView, ErrorCause, ProviderError, ProviderErrorKind,
};
use crate::internal::AttemptFailureRepr;
use crate::{AttemptFailureKind, ProviderId, ProviderSelector};

verus! {

/// Diagnostic record for one candidate that could not produce a service.
#[derive(Debug)]
pub struct AttemptFailure {
    /// Variant-specific attempt diagnostics.
    repr: AttemptFailureRepr,
}

impl View for AttemptFailure {
    type V = AttemptFailureView;

    closed spec fn view(&self) -> AttemptFailureView {
        match self.repr {
            AttemptFailureRepr::UnknownProvider { requested_selector, .. } => {
                AttemptFailureView::UnknownProvider { requested_selector: requested_selector@ }
            },
            AttemptFailureRepr::ProviderError { requested_selector, provider_id, error } => {
                AttemptFailureView::ProviderError {
                    requested_selector: match requested_selector {
                        Some(s) => Some(s@),
                        None => None,
                    },
                    provider_id: provider_id@,
                    error: error@,
                }
            },
        }
    }
}

/// The explanation of a failed attempt: the lookup diagnostic, or the
/// provider-supplied reason.
pub open spec fn attempt_reason(attempt: AttemptFailureView) -> Seq<char> {
    match attempt {
        AttemptFailureView::UnknownProvider { requested_selector } => "unknown provider: "@
            + requested_selector,
        AttemptFailureView::ProviderError { error, .. } => error.reason,
    }
}

impl AttemptFailure {
    #[verifier::type_invariant]
    closed spec fn wf(self) -> bool {
        match self.repr {
            AttemptFailureRepr::UnknownProvider { requested_selector, reason } => reason@
                == "unknown provider: "@ + requested_selector@,
            _ => true,
        }
    }

    /// Creates a failed attempt for a selector that matched no provider.
    pub fn unknown_provider(selector: ProviderSelector) -> (r: Self)
        ensures
            r@ == (AttemptFailureView::UnknownProvider { requested_selector: selector@ }),
    {
        let mut reason = "unknown provider: ".to_owned();
        reason.append(selector.as_str());
        AttemptFailure {
            repr: AttemptFailureRepr::UnknownProvider { reason, requested_selector: selector },
        }
    }

    /// Creates a failed attempt from an error returned by a provider factory.
    pub fn provider_error(
        requested_selector: Option<ProviderSelector>,
        provider_id: ProviderId,
        error: ProviderError,
    ) -> (r: Self)
        ensures
            r@ == (AttemptFailureView::ProviderError {
                requested_selector: match requested_selector {
                    Some(s) => Some(s@),
                    None => None,
                },
                provider_id: provider_id@,
                error: error@,
            }),
    {
        AttemptFailure {
            repr: AttemptFailureRepr::ProviderError { requested_selector, provider_id, error },
        }
    }

    /// Returns the explicit attempt classification.
    pub fn kind(&self) -> (r: AttemptFailureKind)
        ensures
            r == (match self@ {
                AttemptFailureView::UnknownProvider { .. } => AttemptFailureKind::UnknownProvider,
                AttemptFailureView::ProviderError { .. } => AttemptFailureKind::ProviderError,
            }),
    {
        match &self.repr {
            AttemptFailureRepr::UnknownProvider { .. } => AttemptFailureKind::UnknownProvider,
            AttemptFailureRepr::ProviderError { .. } => AttemptFailureKind::ProviderError,
        }
    }

    /// Returns the selector that requested this attempt: `Some` for explicit
    /// lookup and chain attempts, `None` for automatic provider selection.
    pub fn requested_selector(&self) -> (r: Option<&ProviderSelector>)
        ensures
            match (r, self@) {
                (Some(s), AttemptFailureView::UnknownProvider { requested_selector }) => s@
                    == requested_selector,
                (Some(s), AttemptFailureView::ProviderError { requested_selector, .. }) => Some(s@)
                    == requested_selector,
                (None, AttemptFailureView::ProviderError { requested_selector, .. }) => requested_selector is None,
                (None, AttemptFailureView::UnknownProvider { .. }) => false,
            },
    {
        match &self.repr {
            AttemptFailureRepr::UnknownProvider { requested_selector, .. } => Some(
                requested_selector,
            ),
            AttemptFailureRepr::ProviderError { requested_selector, .. } => match requested_selector {
                Some(s) => Some(s),
                None => None,
            },
        }
    }

    /// Returns the canonical provider reached by selector lookup: `Some` when
    /// a provider was invoked, `None` when lookup failed.
    pub fn provider_id(&self) -> (r: Option<&ProviderId>)
        ensures
            match (r, self@) {
                (Some(id), AttemptFailureView::ProviderError { provider_id, .. }) => id@
                    == provider_id,
                (None, AttemptFailureView::UnknownProvider { .. }) => true,
                _ => false,
            },
    {
        match &self.repr {
            AttemptFailureRepr::UnknownProvider { .. } => None,
            AttemptFailureRepr::ProviderError { provider_id, .. } => Some(provider_id),
        }
    }

    /// Returns the provider-reported creation failure classification, or
    /// `None` for an unknown selector.
    pub fn provider_error_kind(&self) -> (r: Option<ProviderErrorKind>)
        ensures
            r == (match self@ {
                AttemptFailureView::UnknownProvider { .. } => None,
                AttemptFailureView::ProviderError { error, .. } => Some(error.kind),
            }),
    {
        match &self.repr {
            AttemptFailureRepr::UnknownProvider { .. } => None,
            AttemptFailureRepr::ProviderError { error, .. } => Some(error.kind()),
        }
    }

    /// Returns the human-readable explanation for this failed attempt: the
    /// lookup diagnostic or the original provider-supplied reason.
    pub fn reason(&self) -> (r: &str)
        ensures
            r@ == attempt_reason(self@),
    {
        proof {
            use_type_invariant(self);
        }
        match &self.repr {
            AttemptFailureRepr::UnknownProvider { reason, .. } => reason.as_str(),
            AttemptFailureRepr::ProviderError { error, .. } => error.reason(),
        }
    }

    /// Returns the underlying cause retained from the provider error, or
    /// `None` for lookup failures and provider errors without a source.
    pub fn source(&self) -> (r: Option<&ErrorCause>)
        ensures
            r is Some == (match self@ {
                AttemptFailureView::UnknownProvider { .. } => false,
                AttemptFailureView::ProviderError { error, .. } => error.has_source,
            }),
    {
        match &self.repr {
            AttemptFailureRepr::UnknownProvider { .. } => None,
            AttemptFailureRepr::ProviderError { error, .. } => error.source(),
        }
    }

    /// Returns the diagnostic text of this attempt.
    pub fn message(&self) -> (r: String)
        ensures
            r@ == self@.message(),
    {
        proof {
            use_type_invariant(self);
        }
        match &self.repr {
            AttemptFailureRepr::UnknownProvider { reason, .. } => reason.clone(),
            AttemptFailureRepr::ProviderError { requested_selector, provider_id, error } => {
                let selector = match requested_selector {
                    Some(s) => Some(s),
                    None => None,
                };
                render_provider_failed(selector, provider_id, error)
            },
        }
    }
}

impl Clone for AttemptFailure {
    fn clone(&self) -> (r: Self)
        ensures
            r@ == self@,
    {
        proof {
            use_type_invariant(self);
        }
        let repr = match &self.repr {
            AttemptFailureRepr::UnknownProvider { requested_selector, reason } => {
                AttemptFailureRepr::UnknownProvider {
                    requested_selector: requested_selector.clone(),
                    reason: reason.clone(),
                }
            },
            AttemptFailureRepr::ProviderError { requested_selector, provider_id, error } => {
                let selector = match requested_selector {
                    Some(s) => Some(s.clone()),
                    None => None,
                };
                AttemptFailureRepr::ProviderError {
                    requested_selector: selector,
                    provider_id: provider_id.clone(),
                    error: error.clone(),
                }
            },
        };
        AttemptFailure { repr }
    }
}

} // verus!
