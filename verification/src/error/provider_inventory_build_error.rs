//! Errors raised while building a provider registry from link-time discovery.

use vstd::prelude::*;
use vstd::string::StringExecFns;

use super::{RegistryMutationError, RegistryMutationFailure};
use crate::inventory::{ProviderRegistrationSource, RegistrationSourceView};

verus! {

/// Error raised when a discovered provider cannot be added to a registry.
#[derive(Clone, Debug)]
#[non_exhaustive]
pub enum ProviderInventoryBuildError {
    /// A submitted provider conflicts with registry mutation rules.
    Registration {
        /// Declaration location of the submitted provider.
        source: ProviderRegistrationSource,
        /// Registry mutation failure that rejected the provider.
        error: RegistryMutationError,
    },
}

/// Mathematical content of a [`ProviderInventoryBuildError`].
pub struct InventoryBuildFailure {
    pub source: RegistrationSourceView,
    pub error: RegistryMutationFailure,
}

impl InventoryBuildFailure {
    /// The diagnostic text of the failure.
    pub open spec fn message(self) -> Seq<char> {
        "failed to register provider submitted from "@ + self.source.message() + ": "@
            + self.error.message()
    }
}

impl View for ProviderInventoryBuildError {
    type V = InventoryBuildFailure;

    open spec fn view(&self) -> InventoryBuildFailure {
        match self {
            ProviderInventoryBuildError::Registration { source, error } => InventoryBuildFailure {
                source: source@,
                error: error@,
            },
        }
    }
}

impl ProviderInventoryBuildError {
    /// Creates an error for a discovered provider rejected during
    /// registration.
    pub fn registration(source: ProviderRegistrationSource, error: RegistryMutationError) -> (r:
        Self)
        ensures
            r@ == (InventoryBuildFailure { source: source@, error: error@ }),
    {
        ProviderInventoryBuildError::Registration { source, error }
    }

    /// Returns the declaration location of the registration that failed.
    pub fn source_location(&self) -> (r: ProviderRegistrationSource)
        ensures
            r@ == self@.source,
    {
        match self {
            ProviderInventoryBuildError::Registration { source, .. } => *source,
        }
    }

    /// Returns the registry mutation error that rejected the registration.
    pub fn registration_error(&self) -> (r: &RegistryMutationError)
        ensures
            r@ == self@.error,
    {
        match self {
            ProviderInventoryBuildError::Registration { error, .. } => error,
        }
    }

    /// Returns the diagnostic text of this error.
    pub fn message(&self) -> (r: String)
        ensures
            r@ == self@.message(),
    {
        match self {
            ProviderInventoryBuildError::Registration { source, error } => {
                let mut s = "failed to register provider submitted from ".to_owned();
                let location = source.message();
                s.append(location.as_str());
                s.append(": ");
                let detail = error.message();
                s.append(detail.as_str());
                s
            },
        }
    }
}

} // verus!
