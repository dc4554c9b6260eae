//! Runtime availability state for service providers.

use vstd::prelude::*;

verus! {

/// Availability of a provider in the current runtime environment.
#[derive(Debug, Clone, PartialEq, Eq)]
pub enum ProviderAvailability {
    /// The provider can create service instances.
    Available,
    /// The provider cannot create service instances.
    Unavailable {
        /// Human-readable reason explaining why the provider is unavailable.
        reason: String,
    },
}

impl ProviderAvailability {
    /// Creates an unavailable state with a human-readable reason.
    pub fn unavailable(reason: &str) -> (r: Self)
        ensures
            r matches ProviderAvailability::Unavailable { reason: text } && text@ == reason@,
    {
        ProviderAvailability::Unavailable { reason: reason.to_owned() }
    }

    /// Tells whether this state allows service creation.
    pub fn is_available(&self) -> (r: bool)
        ensures
            r == (self is Available),
    {
        match self {
            ProviderAvailability::Available => true,
            _ => false,
        }
    }
}

} // verus!
