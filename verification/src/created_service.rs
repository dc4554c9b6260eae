//! Successfully created services with their winning provider identity.

use vstd::prelude::*;

use crate::ProviderId;

verus! {

/// A service output paired with the canonical provider that created it.
#[derive(Debug)]
pub struct CreatedService<T> {
    /// Canonical identifier of the provider that created `service`.
    provider_id: ProviderId,
    /// Successfully created service handle or value.
    service: T,
}

impl<T> CreatedService<T> {
    /// The identity of the winning provider.
    pub closed spec fn spec_provider_id(&self) -> Seq<char> {
        self.provider_id@
    }

    /// The created service.
    pub closed spec fn spec_service(&self) -> T {
        self.service
    }

    /// Creates a service result with its winning provider identity, without
    /// validation or service creation.
    pub fn new(provider_id: ProviderId, service: T) -> (r: Self)
        ensures
            r.spec_provider_id() == provider_id@,
            r.spec_service() == service,
    {
        CreatedService { provider_id, service }
    }

    /// Returns the canonical ID of the provider that created the service.
    pub fn provider_id(&self) -> (r: &ProviderId)
        ensures
            r@ == self.spec_provider_id(),
    {
        &self.provider_id
    }

    /// Returns the created service handle or value.
    pub fn service(&self) -> (r: &T)
        ensures
            *r == self.spec_service(),
    {
        &self.service
    }

    /// Consumes this result and returns the created service.
    pub fn into_service(self) -> (r: T)
        ensures
            r == self.spec_service(),
    {
        self.service
    }
}

} // verus!
