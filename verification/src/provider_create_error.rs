//! Provider-level service creation errors.

use std::error::Error;

use vstd::prelude::*;
use vstd::string::StringExecFns;

use crate::error::ErrorCause;

verus! {

/// Error returned by one provider while creating a service.
#[derive(Debug, Clone)]
pub enum ProviderCreateError {
    /// The provider discovered at creation time that it cannot be used.
    Unavailable {
        /// Human-readable unavailability reason.
        reason: String,
        /// Lower-level cause, when the provider can expose one.
        source: Option<ErrorCause>,
    },
    /// The provider failed while creating the service.
    Failed {
        /// Human-readable failure reason.
        reason: String,
        /// Lower-level cause, when the provider can expose one.
        source: Option<ErrorCause>,
    },
}

/// Mathematical content of a [`ProviderCreateError`].
pub struct ProviderCreateErrorView {
    pub unavailable: bool,
    pub reason: Seq<char>,
    pub has_source: bool,
}

impl ProviderCreateErrorView {
    /// The diagnostic text of the error.
    pub open spec fn message(self) -> Seq<char> {
        if self.unavailable {
            "provider is unavailable: "@ + self.reason
        } else {
            "provider failed to create service: "@ + self.reason
        }
    }
}

impl View for ProviderCreateError {
    type V = ProviderCreateErrorView;

    open spec fn view(&self) -> ProviderCreateErrorView {
        match self {
            ProviderCreateError::Unavailable { reason, source } => ProviderCreateErrorView {
                unavailable: true,
                reason: reason@,
                has_source: source is Some,
            },
            ProviderCreateError::Failed { reason, source } => ProviderCreateErrorView {
                unavailable: false,
                reason: reason@,
                has_source: source is Some,
            },
        }
    }
}

impl ProviderCreateError {
    /// Creates an unavailable-provider error.
    pub fn unavailable(reason: &str) -> (r: Self)
        ensures
            r@ == (ProviderCreateErrorView { unavailable: true, reason: reason@, has_source: false }),
    {
        ProviderCreateError::Unavailable { reason: reason.to_owned(), source: None }
    }

    /// Creates an unavailable-provider error with a source error.
    pub fn unavailable_with_source<E: Error + Send + Sync + 'static>(reason: &str, source: E) -> (r:
        Self)
        ensures
            r@ == (ProviderCreateErrorView { unavailable: true, reason: reason@, has_source: true }),
    {
        ProviderCreateError::Unavailable {
            reason: reason.to_owned(),
            source: Some(ErrorCause::new(source)),
        }
    }

    /// Creates a provider failure error.
    pub fn failed(reason: &str) -> (r: Self)
        ensures
            r@ == (ProviderCreateErrorView { unavailable: false, reason: reason@, has_source: false }),
    {
        ProviderCreateError::Failed { reason: reason.to_owned(), source: None }
    }

    /// Creates a provider failure error with a source error.
    pub fn failed_with_source<E: Error + Send + Sync + 'static>(reason: &str, source: E) -> (r:
        Self)
        ensures
            r@ == (ProviderCreateErrorView { unavailable: false, reason: reason@, has_source: true }),
    {
        ProviderCreateError::Failed {
            reason: reason.to_owned(),
            source: Some(ErrorCause::new(source)),
        }
    }

    /// Gets the provider-level reason.
    pub fn reason(&self) -> (r: &str)
        ensures
            r@ == self@.reason,
    {
        match self {
            ProviderCreateError::Unavailable { reason, .. } => reason.as_str(),
            ProviderCreateError::Failed { reason, .. } => reason.as_str(),
        }
    }

    /// Tells whether this error represents provider unavailability.
    pub(crate) fn is_unavailable(&self) -> (r: bool)
        ensures
            r == self@.unavailable,
    {
        match self {
            ProviderCreateError::Unavailable { .. } => true,
            _ => false,
        }
    }

    /// Gets the lower-level source error, when one was supplied.
    pub fn source_error(&self) -> (r: Option<&ErrorCause>)
        ensures
            r is Some == self@.has_source,
    {
        match self {
            ProviderCreateError::Unavailable { source, .. } => match source {
                Some(cause) => Some(cause),
                None => None,
            },
            ProviderCreateError::Failed { source, .. } => match source {
                Some(cause) => Some(cause),
                None => None,
            },
        }
    }

    /// Returns the diagnostic text of this error.
    pub fn message(&self) -> (r: String)
        ensures
            r@ == self@.message(),
    {
        match self {
            ProviderCreateError::Unavailable { reason, .. } => {
                let mut s = "provider is unavailable: ".to_owned();
                s.append(reason.as_str());
                s
            },
            ProviderCreateError::Failed { reason, .. } => {
                let mut s = "provider failed to create service: ".to_owned();
                s.append(reason.as_str());
                s
            },
        }
    }
}

} // verus!
