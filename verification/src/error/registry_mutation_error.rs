//! Errors raised when mutating a provider registry.

use vstd::prelude::*;

use super::registration_error::{conflict_message, SelectorConflict};

verus! {

/// Error returned when a registry mutation conflicts with its current state.
///
/// Duplicate selector errors retain the selector and both provider IDs. A
/// sealed registry rejects every later mutation.
#[derive(Clone, Debug, Eq, PartialEq)]
#[non_exhaustive]
pub enum RegistryMutationError {
    /// A selector is already owned by another provider.
    DuplicateSelector {
        /// Selector that has already been claimed.
        selector: String,
        /// Identifier of the provider that already owns the selector.
        existing_provider: String,
        /// Identifier of the provider that attempted to claim the selector.
        provider: String,
    },
    /// The registry has been sealed and cannot be mutated.
    Sealed,
}

/// Mathematical content of a [`RegistryMutationError`].
pub enum RegistryMutationFailure {
    DuplicateSelector(SelectorConflict),
    Sealed,
}

impl RegistryMutationFailure {
    /// The diagnostic text of the failure.
    pub open spec fn message(self) -> Seq<char> {
        match self {
            RegistryMutationFailure::DuplicateSelector(conflict) => conflict.message(),
            RegistryMutationFailure::Sealed => "provider registry is sealed"@,
        }
    }
}

impl View for RegistryMutationError {
    type V = RegistryMutationFailure;

    open spec fn view(&self) -> RegistryMutationFailure {
        match self {
            RegistryMutationError::DuplicateSelector { selector, existing_provider, provider } => {
                RegistryMutationFailure::DuplicateSelector(
                    SelectorConflict {
                        selector: selector@,
                        existing_provider: existing_provider@,
                        provider: provider@,
                    },
                )
            },
            RegistryMutationError::Sealed => RegistryMutationFailure::Sealed,
        }
    }
}

impl RegistryMutationError {
    /// Creates a duplicate-selector error with both provider identities.
    pub fn duplicate_selector(selector: &str, existing_provider: &str, provider: &str) -> (r:
        Self)
        ensures
            r@ == RegistryMutationFailure::DuplicateSelector(
                SelectorConflict {
                    selector: selector@,
                    existing_provider: existing_provider@,
                    provider: provider@,
                },
            ),
    {
        RegistryMutationError::DuplicateSelector {
            selector: selector.to_owned(),
            existing_provider: existing_provider.to_owned(),
            provider: provider.to_owned(),
        }
    }

    /// Returns the duplicate selector, or `None` when the registry is sealed.
    pub fn selector(&self) -> (r: Option<&str>)
        ensures
            match (r, self@) {
                (Some(s), RegistryMutationFailure::DuplicateSelector(c)) => s@ == c.selector,
                (None, RegistryMutationFailure::Sealed) => true,
                _ => false,
            },
    {
        match self {
            RegistryMutationError::DuplicateSelector { selector, .. } => Some(selector.as_str()),
            RegistryMutationError::Sealed => None,
        }
    }

    /// Returns the provider that already owns the selector, or `None` when
    /// the registry is sealed.
    pub fn existing_provider(&self) -> (r: Option<&str>)
        ensures
            match (r, self@) {
                (Some(s), RegistryMutationFailure::DuplicateSelector(c)) => s@
                    == c.existing_provider,
                (None, RegistryMutationFailure::Sealed) => true,
                _ => false,
            },
    {
        match self {
            RegistryMutationError::DuplicateSelector { existing_provider, .. } => Some(
                existing_provider.as_str(),
            ),
            RegistryMutationError::Sealed => None,
        }
    }

    /// Returns the provider that attempted to claim the selector, or `None`
    /// when the registry is sealed.
    pub fn provider(&self) -> (r: Option<&str>)
        ensures
            match (r, self@) {
                (Some(s), RegistryMutationFailure::DuplicateSelector(c)) => s@ == c.provider,
                (None, RegistryMutationFailure::Sealed) => true,
                _ => false,
            },
    {
        match self {
            RegistryMutationError::DuplicateSelector { provider, .. } => Some(provider.as_str()),
            RegistryMutationError::Sealed => None,
        }
    }

    /// Returns `true` when the registry has been sealed and rejects mutations.
    pub fn is_sealed(&self) -> (r: bool)
        ensures
            r == (self@ is Sealed),
    {
        match self {
            RegistryMutationError::Sealed => true,
            _ => false,
        }
    }

    /// Returns the diagnostic text of this error.
    pub fn message(&self) -> (r: String)
        ensures
            r@ == self@.message(),
    {
        match self {
            RegistryMutationError::DuplicateSelector { selector, existing_provider, provider } => {
                conflict_message(selector.as_str(), existing_provider.as_str(), provider.as_str())
            },
            RegistryMutationError::Sealed => "provider registry is sealed".to_owned(),
        }
    }

    /// Copies this error, keeping its content.
    pub fn duplicate(&self) -> (r: Self)
        ensures
            r@ == self@,
    {
        match self {
            RegistryMutationError::DuplicateSelector { selector, existing_provider, provider } => {
                RegistryMutationError::DuplicateSelector {
                    selector: selector.clone(),
                    existing_provider: existing_provider.clone(),
                    provider: provider.clone(),
                }
            },
            RegistryMutationError::Sealed => RegistryMutationError::Sealed,
        }
    }
}

} // verus!
