use qubit_spi::error::{ProviderIdError, ProviderIdErrorKind};
use qubit_spi::ProviderId;

#[test]
fn canonical_ids_are_accepted() {
    assert!(ProviderId::new("file-command").is_ok());
    assert!(ProviderId::new("vendor.v2").is_ok());
    assert!(ProviderId::new("a--b").is_ok());
    assert!(ProviderId::new("a..b").is_ok());
    assert!(ProviderId::new("git+ssh").is_ok());
    assert_eq!("vendor.v2", ProviderId::new("vendor.v2").unwrap().as_str());
}

#[test]
fn noncanonical_ids_are_rejected() {
    assert!(ProviderId::new("File").is_err());
    assert!(ProviderId::new("-file").is_err());
    assert!(ProviderId::new("file-").is_err());
    assert!(ProviderId::new(" file").is_err());
    assert!(ProviderId::new("a/b").is_err());
    assert!(ProviderId::new("文件").is_err());
    let error = ProviderId::new("File").unwrap_err();
    assert_eq!(ProviderIdErrorKind::NonCanonical, error.kind());
    assert_eq!("File", error.input());
    assert_eq!("provider ID is not canonical: File", error.message());
}

#[test]
fn empty_id_is_rejected_as_empty() {
    let error = ProviderId::new("").unwrap_err();
    assert_eq!(ProviderIdErrorKind::Empty, error.kind());
    assert_eq!(ProviderIdError::Empty { input: String::new() }, error);
    assert_eq!("provider ID must not be empty", error.message());
}
