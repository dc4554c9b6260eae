//! Diagnostics for individual provider resolution attempts.

use vstd::prelude::*;
use vstd::string::StringExecFns;

use super::{ProviderError, ProviderErrorView};
use crate::{ProviderId, ProviderSelector};

verus! {

/// Diagnostic text of an invoked provider's failure, with the selector that
/// requested it when there was one.
pub open spec fn provider_failed_text(
    requested_selector: Option<Seq<char>>,
    provider_id: Seq<char>,
    error: ProviderErrorView,
) -> Seq<char> {
    "provider "@ + provider_id + " failed with "@ + error.kind.name() + ": "@ + error.reason + (
    match requested_selector {
        Some(selector) => " (requested as "@ + selector + ")"@,
        None => Seq::empty(),
    })
}

/// Renders [`provider_failed_text`].
pub(crate) fn render_provider_failed(
    requested_selector: Option<&ProviderSelector>,
    provider_id: &ProviderId,
    error: &ProviderError,
) -> (r: String)
    ensures
        r@ == provider_failed_text(
            match requested_selector {
                Some(s) => Some(s@),
                None => None,
            },
            provider_id@,
            error@,
        ),
{
    let mut s = "provider ".to_owned();
    s.append(provider_id.as_str());
    s.append(" failed with ");
    s.append(error.kind().name_str());
    s.append(": ");
    s.append(error.reason());
    match requested_selector {
        Some(selector) => {
            s.append(" (requested as ");
            s.append(selector.as_str());
            s.append(")");
        },
        None => {
            assert(s@ =~= s@ + Seq::<char>::empty());
        },
    }
    s
}

/// Diagnostic record for one candidate that could not produce a service.
#[derive(Debug)]
#[non_exhaustive]
pub enum AttemptFailure {
    /// Selector lookup reached no provider.
    UnknownProvider {
        /// Normalized selector retained from the request.
        requested_selector: ProviderSelector,
    },
    /// A provider factory returned a classified error.
    ProviderError {
        /// Explicit selector, or `None` for automatic selection.
        requested_selector: Option<ProviderSelector>,
        /// Canonical provider reached by lookup.
        provider_id: ProviderId,
        /// Original provider error retained with its causal source.
        error: ProviderError,
    },
}

/// Mathematical content of an [`AttemptFailure`].
pub enum AttemptFailureView {
    UnknownProvider { requested_selector: Seq<char> },
    ProviderError {
        requested_selector: Option<Seq<char>>,
        provider_id: Seq<char>,
        error: ProviderErrorView,
    },
}

impl AttemptFailureView {
    /// Whether the attempt shows the provider absent: an unknown selector, or
    /// an unsupported or unavailable provider.
    pub open spec fn denotes_absence(self) -> bool {
        match self {
            AttemptFailureView::UnknownProvider { .. } => true,
            AttemptFailureView::ProviderError { error, .. } => error.kind.denotes_absence(),
        }
    }

    /// The diagnostic text of the attempt.
    pub open spec fn message(self) -> Seq<char> {
        match self {
            AttemptFailureView::UnknownProvider { requested_selector } => "unknown provider: "@
                + requested_selector,
            AttemptFailureView::ProviderError { requested_selector, provider_id, error } => {
                provider_failed_text(requested_selector, provider_id, error)
            },
        }
    }
}

impl View for AttemptFailure {
    type V = AttemptFailureView;

    open spec fn view(&self) -> AttemptFailureView {
        match self {
            AttemptFailure::UnknownProvider { requested_selector } => {
                AttemptFailureView::UnknownProvider { requested_selector: requested_selector@ }
            },
            AttemptFailure::ProviderError { requested_selector, provider_id, error } => {
                AttemptFailureView::ProviderError {
                    requested_selector: match requested_selector {
                        Some(s) => Some(s@),
                        None => None,
                    },
                    provider_id: provider_id@,
                    error: error@,
                }
            },
        }
    }
}

impl AttemptFailure {
    /// Creates a failed attempt for a selector that matched no provider.
    pub fn unknown_provider(selector: ProviderSelector) -> (r: Self)
        ensures
            r@ == (AttemptFailureView::UnknownProvider { requested_selector: selector@ }),
    {
        AttemptFailure::UnknownProvider { requested_selector: selector }
    }

    /// Creates a failed attempt from an error returned by a provider factory.
    pub fn from_provider_error(
        requested_selector: Option<ProviderSelector>,
        provider_id: ProviderId,
        error: ProviderError,
    ) -> (r: Self)
        ensures
            r@ == (AttemptFailureView::ProviderError {
                requested_selector: match requested_selector {
                    Some(s) => Some(s@),
                    None => None,
                },
                provider_id: provider_id@,
                error: error@,
            }),
    {
        AttemptFailure::ProviderError { requested_selector, provider_id, error }
    }

    /// Returns the provider error retained by an invoked provider's attempt,
    /// or `None` when lookup failed.
    pub fn source(&self) -> (r: Option<&ProviderError>)
        ensures
            match (r, self@) {
                (Some(e), AttemptFailureView::ProviderError { error, .. }) => e@ == error,
                (None, AttemptFailureView::UnknownProvider { .. }) => true,
                _ => false,
            },
    {
        match self {
            AttemptFailure::UnknownProvider { .. } => None,
            AttemptFailure::ProviderError { error, .. } => Some(error),
        }
    }

    /// Reports whether the attempt shows the provider absent.
    pub fn is_absence(&self) -> (r: bool)
        ensures
            r == self@.denotes_absence(),
    {
        match self {
            AttemptFailure::UnknownProvider { .. } => true,
            AttemptFailure::ProviderError { error, .. } => match error.kind() {
                super::ProviderErrorKind::Unsupported | super::ProviderErrorKind::Unavailable => true,
                _ => false,
            },
        }
    }

    /// Returns the diagnostic text of this attempt.
    pub fn message(&self) -> (r: String)
        ensures
            r@ == self@.message(),
    {
        match self {
            AttemptFailure::UnknownProvider { requested_selector } => {
                let mut s = "unknown provider: ".to_owned();
                s.append(requested_selector.as_str());
                s
            },
            AttemptFailure::ProviderError { requested_selector, provider_id, error } => {
                let selector = match requested_selector {
                    Some(s) => Some(s),
                    None => None,
                };
                render_provider_failed(selector, provider_id, error)
            },
        }
    }
}

impl Clone for AttemptFailure {
    /// Copies the selector, the provider ID and the provider error.
    fn clone(&self) -> (r: Self)
        ensures
            r@ == self@,
    {
        match self {
            AttemptFailure::UnknownProvider { requested_selector } => AttemptFailure::UnknownProvider {
                requested_selector: requested_selector.clone(),
            },
            AttemptFailure::ProviderError { requested_selector, provider_id, error } => {
                let requested_selector = match requested_selector {
                    Some(selector) => Some(selector.clone()),
                    None => None,
                };
                AttemptFailure::ProviderError {
                    requested_selector,
                    provider_id: provider_id.clone(),
                    error: error.clone(),
                }
            },
        }
    }
}

} // verus!
