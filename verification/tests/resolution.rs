use qubit_spi::error::{
    AttemptFailure as ErrorAttemptFailure, ProviderError, ProviderErrorKind,
    ProviderSelectionBuildError, ResolutionError,
};
use qubit_spi::{
    AttemptFailure, AttemptFailureKind, ProviderId, ProviderSelector, ResolutionTermination,
};

fn sel(text: &str) -> ProviderSelector {
    ProviderSelector::parse(text).unwrap()
}

fn id(text: &str) -> ProviderId {
    ProviderId::new(text).unwrap()
}

fn failed(selector: Option<&str>, provider: &str, error: ProviderError) -> ErrorAttemptFailure {
    ErrorAttemptFailure::from_provider_error(selector.map(sel), id(provider), error)
}

#[test]
fn attempt_messages() {
    let unknown = ErrorAttemptFailure::unknown_provider(sel("ghost"));
    assert_eq!("unknown provider: ghost", unknown.message());
    assert!(unknown.is_absence());
    let a = failed(Some("disk"), "local", ProviderError::unavailable("down"));
    assert_eq!(
        "provider local failed with Unavailable: down (requested as disk)",
        a.message()
    );
    assert!(a.is_absence());
    let b = failed(None, "local", ProviderError::invalid_configuration("bad"));
    assert_eq!("provider local failed with InvalidConfiguration: bad", b.message());
    assert!(!b.is_absence());
}

#[test]
fn decisive_attempt_after_policy_stop_is_the_last() {
    let error = ResolutionError::stopped_by_policy(vec![
        failed(None, "a", ProviderError::unsupported("u")),
        failed(None, "b", ProviderError::initialization_failed("i")),
    ]);
    assert_eq!(Some(ResolutionTermination::StoppedByPolicy), error.termination());
    let decisive = error.decisive_attempt().unwrap();
    assert_eq!("provider b failed with InitializationFailed: i", decisive.message());
    assert_eq!(2, error.attempts().len());
    assert!(!error.is_absence());
    assert_eq!(
        "provider resolution stopped by fallback policy after 2 attempt(s); attempt 1: provider a failed with Unsupported: u; attempt 2: provider b failed with InitializationFailed: i",
        error.message()
    );
}

#[test]
fn decisive_attempt_after_exhaustion() {
    let single = ResolutionError::exhausted(vec![failed(None, "a", ProviderError::unavailable("x"))]);
    assert!(single.decisive_attempt().is_some());
    assert!(single.is_absence());
    let many = ResolutionError::exhausted(vec![
        failed(None, "a", ProviderError::unavailable("x")),
        ErrorAttemptFailure::unknown_provider(sel("zzz")),
    ]);
    assert!(many.decisive_attempt().is_none());
    assert_eq!("unknown provider: zzz", many.terminal_attempt().unwrap().message());
    assert!(many.is_absence());
    assert_eq!(
        "no provider succeeded after 2 attempt(s); attempt 1: provider a failed with Unavailable: x; attempt 2: unknown provider: zzz",
        many.message()
    );
}

#[test]
fn non_aggregate_resolution_errors() {
    let unknown = ResolutionError::unknown_provider(sel("x"));
    assert!(unknown.is_absence());
    assert!(unknown.attempts().is_empty());
    assert!(unknown.termination().is_none());
    assert!(unknown.terminal_attempt().is_none());
    assert!(unknown.decisive_attempt().is_none());
    assert_eq!("unknown provider: x", unknown.message());
    let empty = ResolutionError::empty_registry();
    assert!(!empty.is_absence());
    assert_eq!("cannot resolve a provider from an empty registry", empty.message());
    assert_eq!(
        "provider selection chain must not be empty",
        ResolutionError::empty_selection().message()
    );
    let invalid = ResolutionError::invalid_selector(
        Some(3),
        ProviderSelector::parse("A/B").unwrap_err(),
    );
    assert!(!invalid.is_absence());
    assert_eq!("invalid provider selector at chain index 3: \"A/B\"", invalid.message());
}

#[test]
fn selection_build_failures_convert() {
    let converted = ResolutionError::from(ProviderSelectionBuildError::empty_chain());
    assert!(matches!(converted, ResolutionError::EmptySelection));
    let converted = ResolutionError::from(ProviderSelectionBuildError::invalid_selector(
        None,
        ProviderSelector::parse("").unwrap_err(),
    ));
    assert!(matches!(converted, ResolutionError::InvalidSelector { selector_index: None, .. }));
}

#[test]
fn root_attempt_failure_accessors() {
    let unknown = AttemptFailure::unknown_provider(sel("ghost"));
    assert_eq!(AttemptFailureKind::UnknownProvider, unknown.kind());
    assert_eq!("ghost", unknown.requested_selector().unwrap().as_str());
    assert!(unknown.provider_id().is_none());
    assert!(unknown.provider_error_kind().is_none());
    assert_eq!("unknown provider: ghost", unknown.reason());
    assert!(unknown.source().is_none());
    assert_eq!("unknown provider: ghost", unknown.message());

    let error = ProviderError::unsupported_with_source("nope", std::fmt::Error);
    let failed = AttemptFailure::provider_error(None, id("local"), error);
    assert_eq!(AttemptFailureKind::ProviderError, failed.kind());
    assert!(failed.requested_selector().is_none());
    assert_eq!("local", failed.provider_id().unwrap().as_str());
    assert_eq!(Some(ProviderErrorKind::Unsupported), failed.provider_error_kind());
    assert_eq!("nope", failed.reason());
    assert!(failed.source().is_some());
    assert_eq!("provider local failed with Unsupported: nope", failed.message());
    let copy = failed.clone();
    assert_eq!("nope", copy.reason());

    let named = AttemptFailure::provider_error(Some(sel("Disk")), id("local"), ProviderError::unavailable("x"));
    assert_eq!("disk", named.requested_selector().unwrap().as_str());
    assert_eq!("provider local failed with Unavailable: x (requested as disk)", named.message());
}

#[test]
fn resolution_error_clone_copies_every_attempt() {
    let error = ResolutionError::stopped_by_policy(vec![
        failed(Some("disk"), "a", ProviderError::unsupported("u")),
        ErrorAttemptFailure::unknown_provider(sel("ghost")),
        failed(None, "b", ProviderError::initialization_failed("i")),
    ]);
    let copy = error.clone();
    assert_eq!(error.message(), copy.message());
    assert_eq!(3, copy.attempts().len());
    for (original, cloned) in error.attempts().iter().zip(copy.attempts()) {
        assert_eq!(original.message(), cloned.message());
    }
    let invalid = ResolutionError::from(ProviderSelectionBuildError::invalid_selector(
        Some(1),
        ProviderSelector::parse("  ").unwrap_err(),
    ));
    assert_eq!(invalid.message(), invalid.clone().message());
}
