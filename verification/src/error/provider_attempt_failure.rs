//! Diagnostics for one attempted provider creation.

use vstd::prelude::*;
use vstd::string::StringExecFns;

use super::provider_failure::provider_failure_text;
use super::ProviderFailure;
use crate::ProviderId;

verus! {

/// Diagnostic text of a failed provider attempt, given the rendering of its
/// domain error.
pub open spec fn provider_attempt_text(
    provider_id: Seq<char>,
    failure_text: Seq<char>,
) -> Seq<char> {
    "provider "@ + provider_id + " failed: "@ + failure_text
}

/// `copy` is a clone of `original`: the same provider ID and failure kind,
/// and a clone of the domain error.
pub open spec fn attempt_cloned<E: Clone>(
    original: ProviderAttemptFailure<E>,
    copy: ProviderAttemptFailure<E>,
) -> bool {
    &&& copy.spec_provider_id() == original.spec_provider_id()
    &&& copy.spec_failure().spec_kind() == original.spec_failure().spec_kind()
    &&& cloned(original.spec_failure().spec_error(), copy.spec_failure().spec_error())
}

/// Diagnostic record for one provider that failed to create a service.
#[derive(Debug)]
pub struct ProviderAttemptFailure<E> {
    /// Canonical identifier of the provider that was invoked.
    provider_id: ProviderId,
    /// Original provider failure retained with its causal source.
    failure: ProviderFailure<E>,
}

impl<E> ProviderAttemptFailure<E> {
    /// The canonical ID of the attempted provider.
    pub closed spec fn spec_provider_id(&self) -> Seq<char> {
        self.provider_id@
    }

    /// The provider's original typed failure.
    pub closed spec fn spec_failure(&self) -> ProviderFailure<E> {
        self.failure
    }

    /// Creates a diagnostic from an actual provider invocation failure.
    pub fn new(provider_id: ProviderId, failure: ProviderFailure<E>) -> (r: Self)
        ensures
            r.spec_provider_id() == provider_id@,
            r.spec_failure() == failure,
    {
        ProviderAttemptFailure { provider_id, failure }
    }

    /// Returns the canonical ID of the attempted provider.
    pub fn provider_id(&self) -> (r: &ProviderId)
        ensures
            r@ == self.spec_provider_id(),
    {
        &self.provider_id
    }

    /// Returns the provider's original typed failure.
    pub fn failure(&self) -> (r: &ProviderFailure<E>)
        ensures
            *r == self.spec_failure(),
    {
        &self.failure
    }

    /// Transfers ownership of the provider identity and failure.
    pub fn into_parts(self) -> (r: (ProviderId, ProviderFailure<E>))
        ensures
            r.0@ == self.spec_provider_id(),
            r.1 == self.spec_failure(),
    {
        (self.provider_id, self.failure)
    }

    /// Renders the diagnostic text, given the rendering of the domain error.
    pub fn render_message(&self, error_text: &str) -> (r: String)
        ensures
            r@ == provider_attempt_text(
                self.spec_provider_id(),
                provider_failure_text(self.spec_failure().spec_kind(), error_text@),
            ),
    {
        let mut s = "provider ".to_owned();
        s.append(self.provider_id.as_str());
        s.append(" failed: ");
        let failure = self.failure.render_message(error_text);
        s.append(failure.as_str());
        s
    }
}

impl<E: Clone> Clone for ProviderAttemptFailure<E> {
    /// Copies the provider ID and clones the failure.
    fn clone(&self) -> (r: Self)
        ensures
            attempt_cloned(*self, r),
    {
        ProviderAttemptFailure { provider_id: self.provider_id.clone(), failure: self.failure.clone() }
    }
}

} // verus!
