//! Errors and diagnostics produced by provider validation, registration,
//! selection, and service creation.

mod attempt_failure;
mod attempt_failure_kind;
mod error_cause;
mod provider_attempt_failure;
mod provider_creation_error;
mod provider_descriptor_error;
mod provider_descriptor_error_kind;
mod provider_error;
mod provider_error_kind;
mod provider_failure;
mod provider_failure_kind;
mod provider_id_error;
mod provider_id_error_kind;
mod provider_inventory_build_error;
mod provider_resolution_error;
mod provider_selection_build_error;
mod provider_selection_error;
mod provider_selection_error_kind;
mod provider_selector_error;
mod provider_selector_error_kind;
mod registration_error;
mod resolution_error;
mod resolution_error_kind;
mod registry_mutation_error;

pub use provider_id_error::ProviderIdError;
pub use provider_id_error::ProviderIdFailure;
pub use provider_id_error_kind::ProviderIdErrorKind;
pub use provider_selector_error::ProviderSelectorError;
pub use provider_selector_error::ProviderSelectorFailure;
pub use provider_selector_error_kind::ProviderSelectorErrorKind;
pub use provider_descriptor_error::ProviderDescriptorError;
pub use provider_descriptor_error::ProviderDescriptorFailure;
pub use provider_descriptor_error_kind::ProviderDescriptorErrorKind;
pub use registration_error::{RegistrationError, SelectorConflict};
pub use registry_mutation_error::{RegistryMutationError, RegistryMutationFailure};
pub use provider_selection_error::{
    invalid_selector_text, ProviderSelectionError, ProviderSelectionFailure,
};
pub(crate) use provider_selection_error::render_invalid_selector;
pub use provider_selection_error_kind::ProviderSelectionErrorKind;
pub use provider_resolution_error::{ProviderResolutionError, ProviderResolutionFailure};
pub use provider_selection_build_error::{
    ProviderSelectionBuildError, ProviderSelectionBuildFailure,
};
pub use error_cause::ErrorCause;
pub use provider_error::{ProviderError, ProviderErrorView};
pub use provider_error_kind::ProviderErrorKind;
pub use provider_attempt_failure::{attempt_cloned, provider_attempt_text, ProviderAttemptFailure};
pub use provider_failure::{provider_failure_text, ProviderFailure};
pub use provider_failure_kind::ProviderFailureKind;
pub use provider_creation_error::{
    creation_attempts_text, creation_header, ProviderCreationError,
};
pub use attempt_failure::{provider_failed_text, AttemptFailure, AttemptFailureView};
pub(crate) use attempt_failure::render_provider_failed;
pub use attempt_failure_kind::AttemptFailureKind;
pub use resolution_error::{
    lemma_aggregate_of_absent_attempts_is_absence, lemma_aggregate_with_hard_failure_is_not_absence,
    resolution_attempts_text, resolution_failure_from_build, resolution_header, ResolutionError,
    ResolutionFailure,
};
pub use resolution_error_kind::ResolutionErrorKind;
pub use provider_inventory_build_error::{InventoryBuildFailure, ProviderInventoryBuildError};
