use qubit_spi::error::ProviderFailureKind;
use qubit_spi::{
    CreatedService, FallbackPolicy, ProviderAvailability, ProviderCreateError, ProviderId,
};

#[test]
fn created_service_pairs_identity_and_value() {
    let created = CreatedService::new(ProviderId::new("echo").unwrap(), vec![1, 2]);
    assert_eq!("echo", created.provider_id().as_str());
    assert_eq!(&vec![1, 2], created.service());
    assert_eq!(vec![1, 2], created.into_service());
}

#[test]
fn fallback_policy_rules() {
    assert_eq!(FallbackPolicy::OnAbsence, FallbackPolicy::default());
    let kinds = [
        ProviderFailureKind::Unsupported,
        ProviderFailureKind::Unavailable,
        ProviderFailureKind::InvalidConfiguration,
        ProviderFailureKind::InitializationFailed,
    ];
    for kind in kinds {
        assert!(!FallbackPolicy::Never.should_continue_after(kind));
        assert!(FallbackPolicy::OnAnyError.should_continue_after(kind));
        assert_eq!(kind.is_absence(), FallbackPolicy::OnAbsence.should_continue_after(kind));
    }
}

#[test]
fn availability_states() {
    assert!(ProviderAvailability::Available.is_available());
    let state = ProviderAvailability::unavailable("no GPU");
    assert!(!state.is_available());
    assert_eq!(ProviderAvailability::Unavailable { reason: "no GPU".to_owned() }, state);
}

#[test]
fn create_errors() {
    let error = ProviderCreateError::unavailable("offline");
    assert_eq!("offline", error.reason());
    assert!(error.source_error().is_none());
    assert_eq!("provider is unavailable: offline", error.message());
    let error = ProviderCreateError::failed_with_source("boom", std::fmt::Error);
    assert_eq!("boom", error.reason());
    assert!(error.source_error().is_some());
    assert_eq!("provider failed to create service: boom", error.message());
    assert!(ProviderCreateError::unavailable_with_source("x", std::fmt::Error).source_error().is_some());
    assert!(ProviderCreateError::failed("x").source_error().is_none());
}
