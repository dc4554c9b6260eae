//! Conflicts raised while registering providers.

use vstd::prelude::*;
use vstd::string::StringExecFns;

verus! {

/// Error returned when a provider registration conflicts with registry state.
#[derive(Clone, Debug, Eq, PartialEq)]
#[non_exhaustive]
pub enum RegistrationError {
    /// A selector is already owned by a registered provider.
    #[non_exhaustive]
    DuplicateSelector {
        /// Conflicting canonical ID or alias.
        selector: String,
        /// Canonical ID that already owns the selector.
        existing_provider: String,
        /// Canonical ID attempting the new claim.
        provider: String,
    },
}

/// Mathematical content of a selector conflict: the selector, its current
/// owner, and the provider attempting the claim.
pub struct SelectorConflict {
    pub selector: Seq<char>,
    pub existing_provider: Seq<char>,
    pub provider: Seq<char>,
}

impl SelectorConflict {
    /// The diagnostic text of a selector conflict.
    pub open spec fn message(self) -> Seq<char> {
        "provider selector "@ + self.selector + " claimed by "@ + self.provider
            + " is already owned by "@ + self.existing_provider
    }
}

impl View for RegistrationError {
    type V = SelectorConflict;

    open spec fn view(&self) -> SelectorConflict {
        match self {
            RegistrationError::DuplicateSelector { selector, existing_provider, provider } => {
                SelectorConflict {
                    selector: selector@,
                    existing_provider: existing_provider@,
                    provider: provider@,
                }
            },
        }
    }
}

/// Renders the diagnostic text of a selector conflict.
pub(crate) fn conflict_message(selector: &str, existing_provider: &str, provider: &str) -> (r:
    String)
    ensures
        r@ == (SelectorConflict {
            selector: selector@,
            existing_provider: existing_provider@,
            provider: provider@,
        }).message(),
{
    let mut s = "provider selector ".to_owned();
    s.append(selector);
    s.append(" claimed by ");
    s.append(provider);
    s.append(" is already owned by ");
    s.append(existing_provider);
    s
}

impl RegistrationError {
    /// Creates an error for a selector claimed by another provider.
    pub fn duplicate_selector(selector: &str, existing_provider: &str, provider: &str) -> (r:
        Self)
        ensures
            r@ == (SelectorConflict {
                selector: selector@,
                existing_provider: existing_provider@,
                provider: provider@,
            }),
    {
        RegistrationError::DuplicateSelector {
            selector: selector.to_owned(),
            existing_provider: existing_provider.to_owned(),
            provider: provider.to_owned(),
        }
    }

    /// Returns the canonical ID or alias that caused this conflict.
    pub fn selector(&self) -> (r: &str)
        ensures
            r@ == self@.selector,
    {
        match self {
            RegistrationError::DuplicateSelector { selector, .. } => selector.as_str(),
        }
    }

    /// Returns the canonical ID of the provider that owns the selector.
    pub fn existing_provider(&self) -> (r: &str)
        ensures
            r@ == self@.existing_provider,
    {
        match self {
            RegistrationError::DuplicateSelector { existing_provider, .. } => {
                existing_provider.as_str()
            },
        }
    }

    /// Returns the canonical ID of the provider attempting registration.
    pub fn provider(&self) -> (r: &str)
        ensures
            r@ == self@.provider,
    {
        match self {
            RegistrationError::DuplicateSelector { provider, .. } => provider.as_str(),
        }
    }

    /// Returns the diagnostic text of this error.
    pub fn message(&self) -> (r: String)
        ensures
            r@ == self@.message(),
    {
        match self {
            RegistrationError::DuplicateSelector { selector, existing_provider, provider } => {
                conflict_message(selector.as_str(), existing_provider.as_str(), provider.as_str())
            },
        }
    }
}

} // verus!
