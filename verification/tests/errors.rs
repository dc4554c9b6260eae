use std::fmt;

use qubit_spi::error::{
    ProviderAttemptFailure, ProviderCreationError, ProviderError, ProviderErrorKind,
    ProviderFailure, ProviderFailureKind, ProviderInventoryBuildError, ProviderResolutionError,
    ProviderSelectionBuildError, ProviderSelectionError, ProviderSelectorError,
    RegistrationError, RegistryMutationError,
};
use qubit_spi::inventory::ProviderRegistrationSource;
use qubit_spi::{ProviderCreationTermination, ProviderId, ProviderSelector};

#[derive(Debug)]
struct Offline;

impl fmt::Display for Offline {
    fn fmt(&self, formatter: &mut fmt::Formatter<'_>) -> fmt::Result {
        formatter.write_str("offline")
    }
}

impl std::error::Error for Offline {}

fn sel(text: &str) -> ProviderSelector {
    ProviderSelector::parse(text).unwrap()
}

#[test]
fn registration_conflict_reports_all_parties() {
    let error = RegistrationError::duplicate_selector("disk", "local", "remote");
    assert_eq!("disk", error.selector());
    assert_eq!("local", error.existing_provider());
    assert_eq!("remote", error.provider());
    assert_eq!(
        "provider selector disk claimed by remote is already owned by local",
        error.message()
    );
}

#[test]
fn registry_mutation_errors() {
    let error = RegistryMutationError::duplicate_selector("echo", "echo", "echo2");
    assert_eq!(Some("echo"), error.selector());
    assert_eq!(Some("echo"), error.existing_provider());
    assert_eq!(Some("echo2"), error.provider());
    assert!(!error.is_sealed());
    assert_eq!(
        "provider selector echo claimed by echo2 is already owned by echo",
        error.message()
    );
    let sealed = RegistryMutationError::Sealed;
    assert!(sealed.is_sealed());
    assert_eq!(None, sealed.selector());
    assert_eq!(None, sealed.existing_provider());
    assert_eq!(None, sealed.provider());
    assert_eq!("provider registry is sealed", sealed.message());
    assert_eq!(sealed, sealed.duplicate());
}

#[test]
fn selection_error_messages() {
    let invalid = ProviderSelector::parse("a b").unwrap_err();
    let error = ProviderSelectionError::invalid_selector(Some(2), invalid.clone());
    assert_eq!(
        "invalid provider selector at selection index 2: \"a b\"",
        error.message()
    );
    assert!(error.selector_error().is_some());
    let error = ProviderSelectionError::invalid_selector(None, invalid);
    assert_eq!("invalid provider selector \"a b\"", error.message());
    assert_eq!(
        "provider selection chain must not be empty",
        ProviderSelectionError::empty_chain().message()
    );
    assert_eq!(
        "unknown provider: disk",
        ProviderSelectionError::unknown_provider(sel("disk")).message()
    );
    let error = ProviderSelectionError::no_candidates(vec![sel("a"), sel("b")]);
    assert_eq!("no provider candidates matched; a; b", error.message());
    assert!(error.selector_error().is_none());
    assert_eq!(
        "cannot select a provider from an empty registry",
        ProviderSelectionError::empty_registry().message()
    );
}

#[test]
fn selection_build_errors() {
    let source = ProviderSelector::parse("").unwrap_err();
    let error = ProviderSelectionBuildError::invalid_selector(Some(0), source);
    assert_eq!(Some(0), error.selector_index());
    assert!(!error.is_empty_chain());
    assert!(matches!(error.selector_error(), Some(ProviderSelectorError::Empty { .. })));
    assert_eq!("invalid provider selector at selection index 0: \"\"", error.message());
    let empty = ProviderSelectionBuildError::empty_chain();
    assert!(empty.is_empty_chain());
    assert_eq!(None, empty.selector_index());
    assert!(empty.selector_error().is_none());
    assert_eq!("provider selection chain must not be empty", empty.message());
}

#[test]
fn resolution_errors_retain_selectors() {
    let error = ProviderResolutionError::unknown_providers(vec![sel("x")]);
    assert!(error.is_unknown_providers());
    assert!(!error.is_no_candidates());
    assert_eq!(1, error.selectors().unwrap().len());
    assert_eq!("unknown provider selector; x", error.message());
    let error = ProviderResolutionError::unknown_providers(vec![sel("x"), sel("y")]);
    assert_eq!("unknown provider selectors; x; y", error.message());
    let error = ProviderResolutionError::no_candidates(vec![sel("x")]);
    assert!(error.is_no_candidates());
    assert_eq!("no provider candidates matched; x", error.message());
    let error = ProviderResolutionError::empty_registry();
    assert!(error.is_empty_registry());
    assert!(error.selectors().is_none());
    assert_eq!("cannot select a provider from an empty registry", error.message());
}

#[test]
fn provider_error_constructors_classify() {
    let cases = [
        (ProviderError::unsupported("u"), ProviderErrorKind::Unsupported),
        (ProviderError::unavailable("v"), ProviderErrorKind::Unavailable),
        (ProviderError::invalid_configuration("c"), ProviderErrorKind::InvalidConfiguration),
        (ProviderError::initialization_failed("i"), ProviderErrorKind::InitializationFailed),
    ];
    for (error, kind) in cases {
        assert_eq!(kind, error.kind());
        assert!(error.source().is_none());
    }
    let error = ProviderError::unavailable_with_source("no network", Offline);
    assert_eq!(ProviderErrorKind::Unavailable, error.kind());
    assert_eq!("no network", error.reason());
    let cause = error.source().expect("source retained");
    assert_eq!("offline", cause.error.to_string());
    assert_eq!("provider Unavailable: no network", error.message());
    assert!(ProviderError::unsupported_with_source("x", Offline).source().is_some());
    assert!(ProviderError::invalid_configuration_with_source("x", Offline).source().is_some());
    assert!(ProviderError::initialization_failed_with_source("x", Offline).source().is_some());
    assert_eq!("x", error.clone().reason().replace("no network", "x"));
}

#[test]
fn provider_failure_parts() {
    let failure = ProviderFailure::unavailable(5u8);
    assert_eq!(ProviderFailureKind::Unavailable, failure.kind());
    assert_eq!(&5, failure.error());
    assert_eq!("provider Unavailable: five", failure.render_message("five"));
    assert_eq!((ProviderFailureKind::Unavailable, 5), failure.clone().into_parts());
    assert_eq!(5, failure.into_error());
    assert!(ProviderFailureKind::Unsupported.is_absence());
    assert!(ProviderFailureKind::Unavailable.is_absence());
    assert!(!ProviderFailureKind::InvalidConfiguration.is_absence());
    assert!(!ProviderFailureKind::InitializationFailed.is_absence());
    assert_eq!(
        ProviderFailureKind::InitializationFailed,
        ProviderFailure::initialization_failed(()).kind()
    );
    assert_eq!(
        ProviderFailureKind::InvalidConfiguration,
        ProviderFailure::invalid_configuration(()).kind()
    );
    assert_eq!(ProviderFailureKind::Unsupported, ProviderFailure::unsupported(()).kind());
}

fn attempt(id: &str, failure: ProviderFailure<&'static str>) -> ProviderAttemptFailure<&'static str> {
    ProviderAttemptFailure::new(ProviderId::new(id).unwrap(), failure)
}

#[test]
fn attempt_failure_keeps_identity() {
    let a = attempt("echo", ProviderFailure::unavailable("offline"));
    assert_eq!("echo", a.provider_id().as_str());
    assert_eq!(&"offline", a.failure().error());
    assert_eq!("provider echo failed: provider Unavailable: offline", a.render_message("offline"));
    let (id, failure) = a.into_parts();
    assert_eq!("echo", id.as_str());
    assert_eq!(ProviderFailureKind::Unavailable, failure.kind());
}

#[test]
fn creation_error_aggregates_attempts() {
    let error = ProviderCreationError::exhausted(vec![
        attempt("a", ProviderFailure::unsupported("x")),
        attempt("b", ProviderFailure::unavailable("y")),
    ]);
    assert_eq!(ProviderCreationTermination::Exhausted, error.termination());
    assert_eq!(2, error.attempts().len());
    assert_eq!("b", error.decisive_attempt().provider_id().as_str());
    assert!(error.is_absence());
    assert_eq!(
        "no provider succeeded after 2 attempt(s); attempt 1: provider a failed: provider Unsupported: x; attempt 2: provider b failed: provider Unavailable: y",
        error.render_message(&["x", "y"])
    );
    let error = ProviderCreationError::stopped_by_policy(vec![
        attempt("a", ProviderFailure::unsupported("x")),
        attempt("b", ProviderFailure::initialization_failed("boom")),
    ]);
    assert_eq!(ProviderCreationTermination::StoppedByPolicy, error.termination());
    assert!(!error.is_absence());
    assert_eq!("b", error.decisive_attempt().provider_id().as_str());
    assert_eq!(
        "provider creation stopped by fallback policy after 2 attempt(s); attempt 1: provider a failed: provider Unsupported: x; attempt 2: provider b failed: provider InitializationFailed: boom",
        error.render_message(&["x", "boom"])
    );
    let copy = error.clone();
    let (attempts, termination) = copy.into_parts();
    assert_eq!(2, attempts.len());
    assert_eq!(ProviderCreationTermination::StoppedByPolicy, termination);
}

#[test]
fn inventory_build_error_reports_source() {
    let source = ProviderRegistrationSource::new("app", "app::providers", "src/lib.rs", 42);
    assert_eq!("app", source.crate_name());
    assert_eq!("app::providers", source.module_name());
    assert_eq!("src/lib.rs", source.file());
    assert_eq!(42, source.line());
    assert_eq!("app::app::providers, src/lib.rs:42", source.message());
    let error = ProviderInventoryBuildError::registration(
        source,
        RegistryMutationError::duplicate_selector("dup", "first", "second"),
    );
    assert_eq!(source, error.source_location());
    assert!(!error.registration_error().is_sealed());
    assert_eq!(
        "failed to register provider submitted from app::app::providers, src/lib.rs:42: provider selector dup claimed by second is already owned by first",
        error.message()
    );
}

#[test]
fn creation_error_clone_copies_each_attempt() {
    let error = ProviderCreationError::exhausted(vec![
        attempt("a", ProviderFailure::unsupported("x")),
        attempt("b", ProviderFailure::initialization_failed("boom")),
    ]);
    let copy = error.clone();
    assert_eq!(error.termination(), copy.termination());
    assert_eq!(2, copy.attempts().len());
    for (original, cloned) in error.attempts().iter().zip(copy.attempts()) {
        assert_eq!(original.provider_id(), cloned.provider_id());
        assert_eq!(original.failure().kind(), cloned.failure().kind());
        assert_eq!(original.failure().error(), cloned.failure().error());
    }
    assert_eq!(error.render_message(&["x", "boom"]), copy.render_message(&["x", "boom"]));
}
