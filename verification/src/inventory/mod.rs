//! Types supporting link-time provider discovery.

mod provider_registration_source;

pub use provider_registration_source::{ProviderRegistrationSource, RegistrationSourceView};
