//! Provider identity and registration metadata.

mod provider_descriptor;
mod provider_id;
mod provider_metadata;
mod provider_selector;

pub use provider_id::ProviderId;
pub use provider_selector::ProviderSelector;
pub use provider_selector::{push_selector_list, selector_list_text};
pub use provider_selector::{
    lemma_canonical_token_parses_to_itself, lemma_normalized_selector_is_lowercase,
    lemma_parse_idempotent, normalize_selector, parse_selector,
};
pub use provider_descriptor::ProviderDescriptor;
pub use provider_descriptor::{
    lemma_normalized_aliases_properties, lemma_static_literals_normalize_to_themselves,
    descriptor_aliases_valid, normalize_aliases_spec, static_literals_valid, DescriptorView,
};
pub use provider_metadata::ProviderMetadata;
