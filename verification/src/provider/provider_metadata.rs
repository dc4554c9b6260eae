//! Registration metadata shared by synchronous and asynchronous providers.

use vstd::prelude::*;

use crate::ProviderDescriptor;

verus! {

/// Contract for a provider with stable identity and selection metadata.
///
/// Registration snapshots the returned descriptor, so later provider state
/// changes cannot alter the registered lookup metadata.
pub trait ProviderMetadata: Send + Sync + 'static {
    /// Returns this provider's registration metadata: the canonical ID,
    /// aliases, and automatic-selection priority.
    fn descriptor(&self) -> ProviderDescriptor;
}

} // verus!
