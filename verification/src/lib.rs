//! Typed service-provider infrastructure: canonical provider identities,
//! normalized selectors, provider descriptors, and the diagnostics produced
//! while providers are registered, selected and asked to create services.

pub mod attempt_failure;
mod attempt_failure_kind;
mod created_service;
pub mod error;
mod fallback_policy;
mod internal;
pub mod inventory;
mod provider;
mod provider_availability;
mod provider_create_error;
mod provider_creation_termination;
pub mod registry_model;
mod resolution_termination;
pub mod text;

pub use provider::ProviderId;
pub use provider::ProviderSelector;
pub use provider::{
    lemma_canonical_token_parses_to_itself, lemma_normalized_selector_is_lowercase,
    lemma_parse_idempotent, normalize_selector, parse_selector,
};
pub use provider::ProviderDescriptor;
pub use provider::{
    lemma_normalized_aliases_properties, lemma_static_literals_normalize_to_themselves,
    descriptor_aliases_valid, normalize_aliases_spec, static_literals_valid, DescriptorView,
};
pub use provider::selector_list_text;
pub(crate) use provider::push_selector_list;
pub use provider_creation_termination::ProviderCreationTermination;
pub use resolution_termination::ResolutionTermination;
pub use attempt_failure::AttemptFailure;
pub use attempt_failure_kind::AttemptFailureKind;
pub use created_service::CreatedService;
pub use fallback_policy::FallbackPolicy;
pub use provider_availability::ProviderAvailability;
pub use provider_create_error::{ProviderCreateError, ProviderCreateErrorView};
pub use provider::ProviderMetadata;
