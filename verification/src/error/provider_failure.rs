//! Typed leaf failures returned by provider construction.

use vstd::prelude::*;
use vstd::string::StringExecFns;

use super::ProviderFailureKind;

verus! {

/// Diagnostic text of a provider failure, given the rendering of its
/// domain error.
pub open spec fn provider_failure_text(kind: ProviderFailureKind, error_text: Seq<char>) -> Seq<char> {
    "provider "@ + kind.name() + ": "@ + error_text
}

/// Failure returned by one provider while creating a service.
///
/// `E` is the domain error declared by the service specification. The
/// failure kind controls fallback independently from the retained domain
/// diagnostic.
#[derive(Debug)]
pub struct ProviderFailure<E> {
    /// Classification consumed by resolver fallback policy.
    kind: ProviderFailureKind,
    /// Domain error preserving the actual failure.
    error: E,
}

impl<E> ProviderFailure<E> {
    /// The fallback classification.
    pub closed spec fn spec_kind(&self) -> ProviderFailureKind {
        self.kind
    }

    /// The retained domain error.
    pub closed spec fn spec_error(&self) -> E {
        self.error
    }

    /// Creates an unsupported-request failure.
    pub fn unsupported(error: E) -> (r: Self)
        ensures
            r.spec_kind() == ProviderFailureKind::Unsupported,
            r.spec_error() == error,
    {
        ProviderFailure { kind: ProviderFailureKind::Unsupported, error }
    }

    /// Creates an unavailable-provider failure.
    pub fn unavailable(error: E) -> (r: Self)
        ensures
            r.spec_kind() == ProviderFailureKind::Unavailable,
            r.spec_error() == error,
    {
        ProviderFailure { kind: ProviderFailureKind::Unavailable, error }
    }

    /// Creates an invalid-provider-configuration failure.
    pub fn invalid_configuration(error: E) -> (r: Self)
        ensures
            r.spec_kind() == ProviderFailureKind::InvalidConfiguration,
            r.spec_error() == error,
    {
        ProviderFailure { kind: ProviderFailureKind::InvalidConfiguration, error }
    }

    /// Creates an initialization failure after request acceptance.
    pub fn initialization_failed(error: E) -> (r: Self)
        ensures
            r.spec_kind() == ProviderFailureKind::InitializationFailed,
            r.spec_error() == error,
    {
        ProviderFailure { kind: ProviderFailureKind::InitializationFailed, error }
    }

    /// Returns the fallback classification.
    pub fn kind(&self) -> (r: ProviderFailureKind)
        ensures
            r == self.spec_kind(),
    {
        self.kind
    }

    /// Returns the retained domain error.
    pub fn error(&self) -> (r: &E)
        ensures
            *r == self.spec_error(),
    {
        &self.error
    }

    /// Transfers ownership of the retained domain error.
    pub fn into_error(self) -> (r: E)
        ensures
            r == self.spec_error(),
    {
        self.error
    }

    /// Transfers ownership of the classification and domain error.
    pub fn into_parts(self) -> (r: (ProviderFailureKind, E))
        ensures
            r == (self.spec_kind(), self.spec_error()),
    {
        (self.kind, self.error)
    }

    /// Renders the diagnostic text, given the rendering of the domain error.
    pub fn render_message(&self, error_text: &str) -> (r: String)
        ensures
            r@ == provider_failure_text(self.spec_kind(), error_text@),
    {
        let mut s = "provider ".to_owned();
        s.append(self.kind.name_str());
        s.append(": ");
        s.append(error_text);
        s
    }
}

impl<E: Clone> Clone for ProviderFailure<E> {
    /// Keeps the failure kind and clones the domain error.
    fn clone(&self) -> (r: Self)
        ensures
            r.spec_kind() == self.spec_kind(),
            cloned(self.spec_error(), r.spec_error()),
    {
        ProviderFailure { kind: self.kind, error: self.error.clone() }
    }
}

} // verus!
