//! Classified errors returned by provider construction.

use std::error::Error;

use vstd::prelude::*;
use vstd::string::StringExecFns;

use super::{ErrorCause, ProviderErrorKind};

verus! {

/// Error returned by one provider while creating a service.
///
/// Use the constructors to report a classified failure; a resolver preserves
/// it in its attempt diagnostics.
#[derive(Debug)]
pub struct ProviderError {
    /// Classification consumed by the resolver's fallback policy.
    kind: ProviderErrorKind,
    /// Human-readable explanation supplied by the provider.
    reason: String,
    /// Optional underlying error retained for diagnostics and error chaining.
    source: Option<ErrorCause>,
}

/// Mathematical content of a [`ProviderError`].
pub struct ProviderErrorView {
    pub kind: ProviderErrorKind,
    pub reason: Seq<char>,
    pub has_source: bool,
}

impl ProviderErrorView {
    /// The diagnostic text of the error.
    pub open spec fn message(self) -> Seq<char> {
        "provider "@ + self.kind.name() + ": "@ + self.reason
    }
}

impl View for ProviderError {
    type V = ProviderErrorView;

    closed spec fn view(&self) -> ProviderErrorView {
        ProviderErrorView {
            kind: self.kind,
            reason: self.reason@,
            has_source: self.source is Some,
        }
    }
}

impl ProviderError {
    /// Creates an error indicating that the request is unsupported.
    pub fn unsupported(reason: &str) -> (r: Self)
        ensures
            r@ == (ProviderErrorView {
                kind: ProviderErrorKind::Unsupported,
                reason: reason@,
                has_source: false,
            }),
    {
        Self::new(ProviderErrorKind::Unsupported, reason)
    }

    /// Creates an unsupported-request error with an underlying cause.
    pub fn unsupported_with_source<E: Error + Send + Sync + 'static>(reason: &str, source: E) -> (r:
        Self)
        ensures
            r@ == (ProviderErrorView {
                kind: ProviderErrorKind::Unsupported,
                reason: reason@,
                has_source: true,
            }),
    {
        Self::with_source(ProviderErrorKind::Unsupported, reason, ErrorCause::new(source))
    }

    /// Creates an error indicating that the provider is unavailable.
    pub fn unavailable(reason: &str) -> (r: Self)
        ensures
            r@ == (ProviderErrorView {
                kind: ProviderErrorKind::Unavailable,
                reason: reason@,
                has_source: false,
            }),
    {
        Self::new(ProviderErrorKind::Unavailable, reason)
    }

    /// Creates an unavailable-provider error with an underlying cause.
    pub fn unavailable_with_source<E: Error + Send + Sync + 'static>(reason: &str, source: E) -> (r:
        Self)
        ensures
            r@ == (ProviderErrorView {
                kind: ProviderErrorKind::Unavailable,
                reason: reason@,
                has_source: true,
            }),
    {
        Self::with_source(ProviderErrorKind::Unavailable, reason, ErrorCause::new(source))
    }

    /// Creates an error for provider-specific invalid configuration.
    pub fn invalid_configuration(reason: &str) -> (r: Self)
        ensures
            r@ == (ProviderErrorView {
                kind: ProviderErrorKind::InvalidConfiguration,
                reason: reason@,
                has_source: false,
            }),
    {
        Self::new(ProviderErrorKind::InvalidConfiguration, reason)
    }

    /// Creates an invalid-configuration error with an underlying cause.
    pub fn invalid_configuration_with_source<E: Error + Send + Sync + 'static>(
        reason: &str,
        source: E,
    ) -> (r: Self)
        ensures
            r@ == (ProviderErrorView {
                kind: ProviderErrorKind::InvalidConfiguration,
                reason: reason@,
                has_source: true,
            }),
    {
        Self::with_source(ProviderErrorKind::InvalidConfiguration, reason, ErrorCause::new(source))
    }

    /// Creates an unexpected provider-initialization failure.
    pub fn initialization_failed(reason: &str) -> (r: Self)
        ensures
            r@ == (ProviderErrorView {
                kind: ProviderErrorKind::InitializationFailed,
                reason: reason@,
                has_source: false,
            }),
    {
        Self::new(ProviderErrorKind::InitializationFailed, reason)
    }

    /// Creates an initialization failure with an underlying cause.
    pub fn initialization_failed_with_source<E: Error + Send + Sync + 'static>(
        reason: &str,
        source: E,
    ) -> (r: Self)
        ensures
            r@ == (ProviderErrorView {
                kind: ProviderErrorKind::InitializationFailed,
                reason: reason@,
                has_source: true,
            }),
    {
        Self::with_source(ProviderErrorKind::InitializationFailed, reason, ErrorCause::new(source))
    }

    /// Creates a classified error without an underlying source.
    fn new(kind: ProviderErrorKind, reason: &str) -> (r: Self)
        ensures
            r@ == (ProviderErrorView { kind, reason: reason@, has_source: false }),
    {
        ProviderError { kind, reason: reason.to_owned(), source: None }
    }

    /// Creates a classified error retaining an underlying source.
    fn with_source(kind: ProviderErrorKind, reason: &str, source: ErrorCause) -> (r: Self)
        ensures
            r@ == (ProviderErrorView { kind, reason: reason@, has_source: true }),
    {
        ProviderError { kind, reason: reason.to_owned(), source: Some(source) }
    }

    /// Returns the failure classification used by fallback policy evaluation.
    pub fn kind(&self) -> (r: ProviderErrorKind)
        ensures
            r == self@.kind,
    {
        self.kind
    }

    /// Returns the provider-supplied explanation of the failure.
    pub fn reason(&self) -> (r: &str)
        ensures
            r@ == self@.reason,
    {
        self.reason.as_str()
    }

    /// Returns the underlying cause, when one was supplied.
    pub fn source(&self) -> (r: Option<&ErrorCause>)
        ensures
            r is Some == self@.has_source,
    {
        match &self.source {
            Some(cause) => Some(cause),
            None => None,
        }
    }

    /// Returns the diagnostic text of this error.
    pub fn message(&self) -> (r: String)
        ensures
            r@ == self@.message(),
    {
        let mut s = "provider ".to_owned();
        s.append(self.kind.name_str());
        s.append(": ");
        s.append(self.reason.as_str());
        s
    }
}

impl Clone for ProviderError {
    fn clone(&self) -> (r: Self)
        ensures
            r@ == self@,
    {
        let source = match &self.source {
            Some(cause) => Some(cause.clone()),
            None => None,
        };
        ProviderError { kind: self.kind, reason: self.reason.clone(), source }
    }
}

} // verus!
