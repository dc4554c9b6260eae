use qubit_spi::error::{ProviderDescriptorError, ProviderSelectorError};
use qubit_spi::{ProviderDescriptor, ProviderId};

fn descriptor(id: &str) -> ProviderDescriptor {
    ProviderDescriptor::new(ProviderId::new(id).unwrap())
}

#[test]
fn new_descriptor_has_no_aliases_and_zero_priority() {
    let d = descriptor("local");
    assert_eq!("local", d.id().as_str());
    assert!(d.aliases().is_empty());
    assert_eq!(0, d.priority());
}

#[test]
fn priority_is_replaced() {
    let d = descriptor("local").with_priority(-7);
    assert_eq!(-7, d.priority());
    assert_eq!("local", d.id().as_str());
    let d = d.with_priority(i32::MAX);
    assert_eq!(i32::MAX, d.priority());
}

#[test]
fn aliases_are_normalized_in_order() {
    let d = descriptor("file").with_aliases(&[" Disk ", "FS", "local.v2"]).unwrap();
    let aliases: Vec<&str> = d.aliases().iter().map(|a| a.as_str()).collect();
    assert_eq!(vec!["disk", "fs", "local.v2"], aliases);
    let d = d.with_aliases(&[]).unwrap();
    assert!(d.aliases().is_empty());
}

#[test]
fn invalid_alias_reports_its_index() {
    let error = descriptor("file").with_aliases(&["disk", "bad alias"]).unwrap_err();
    match &error {
        ProviderDescriptorError::InvalidAlias { alias_index, source, .. } => {
            assert_eq!(1, *alias_index);
            assert!(matches!(
                source,
                ProviderSelectorError::Invalid { input, normalized, .. }
                    if input == "bad alias" && normalized == "bad alias"
            ));
        }
        _ => panic!("expected an invalid alias"),
    }
    assert_eq!("bad alias", error.alias());
    assert_eq!("invalid provider alias at index 1: \"bad alias\"", error.message());
    assert!(error.selector_error().is_some());
}

#[test]
fn alias_matching_id_is_rejected() {
    let error = descriptor("file").with_aliases(&["disk", " FILE "]).unwrap_err();
    assert!(matches!(&error, ProviderDescriptorError::AliasMatchesId { alias, .. } if alias == "file"));
    assert_eq!("provider alias matches canonical ID: file", error.message());
    assert!(error.selector_error().is_none());
}

#[test]
fn duplicate_alias_is_rejected_after_normalization() {
    let error = descriptor("file").with_aliases(&["disk", "fs", "DISK"]).unwrap_err();
    assert!(matches!(&error, ProviderDescriptorError::DuplicateAlias { alias, .. } if alias == "disk"));
    assert_eq!("disk", error.alias());
    assert_eq!("duplicate provider alias: disk", error.message());
}

#[test]
fn first_failure_wins() {
    let error = descriptor("file").with_aliases(&["file", "", "x y"]).unwrap_err();
    assert!(matches!(&error, ProviderDescriptorError::AliasMatchesId { alias, .. } if alias == "file"));
    let error = descriptor("file").with_aliases(&["", "file"]).unwrap_err();
    assert_eq!("invalid provider alias at index 0: \"\"", error.message());
}

#[test]
fn static_literals_are_validated() {
    assert!(ProviderDescriptor::__are_valid_static_literals("local", &["disk", "fs"]));
    assert!(ProviderDescriptor::__are_valid_static_literals("local", &[]));
    assert!(!ProviderDescriptor::__are_valid_static_literals("Local", &[]));
    assert!(!ProviderDescriptor::__are_valid_static_literals("local", &["local"]));
    assert!(!ProviderDescriptor::__are_valid_static_literals("local", &["disk", "disk"]));
    assert!(!ProviderDescriptor::__are_valid_static_literals("local", &["Disk"]));
    assert!(!ProviderDescriptor::__are_valid_static_literals("local", &[" disk"]));
}

#[test]
fn static_literals_build_the_descriptor() {
    let d = ProviderDescriptor::__from_static_literals("local", &["disk"], 10);
    assert_eq!("local", d.id().as_str());
    assert_eq!("disk", d.aliases()[0].as_str());
    assert_eq!(1, d.aliases().len());
    assert_eq!(10, d.priority());
}

#[test]
fn descriptor_aliases_stay_canonical_distinct_and_apart_from_id() {
    let d = descriptor("local")
        .with_aliases(&[" Disk ", "FS", "cache"])
        .unwrap()
        .with_priority(7);
    let aliases: Vec<&str> = d.aliases().iter().map(|a| a.as_str()).collect();
    assert_eq!(vec!["disk", "fs", "cache"], aliases);
    for (i, a) in aliases.iter().enumerate() {
        assert_ne!("local", *a);
        assert!(ProviderId::new(a).is_ok());
        assert!(!aliases[i + 1..].contains(a));
    }
    let copy = d.clone();
    assert_eq!(d, copy);
}
