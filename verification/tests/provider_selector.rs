use qubit_spi::error::ProviderSelectorError;
use qubit_spi::{ProviderId, ProviderSelector};

#[test]
fn selector_input_is_trimmed_and_lowercased() {
    let selector = ProviderSelector::parse("  File-Command\t").unwrap();
    assert_eq!("file-command", selector.as_str());
    let selector = ProviderSelector::parse("\u{3000}Vendor.V2\u{a0}").unwrap();
    assert_eq!("vendor.v2", selector.as_str());
}

#[test]
fn blank_selector_is_empty() {
    let error = ProviderSelector::parse(" \t\n ").unwrap_err();
    assert!(matches!(&error, ProviderSelectorError::Empty { input, .. } if input == " \t\n "));
    assert_eq!(" \t\n ", error.input());
    assert_eq!("provider selector must not be empty", error.message());
}

#[test]
fn invalid_selector_keeps_both_forms() {
    let error = ProviderSelector::parse("Bad Selector").unwrap_err();
    assert!(matches!(
        &error,
        ProviderSelectorError::Invalid { input, normalized, .. }
            if input == "Bad Selector" && normalized == "bad selector"
    ));
    assert_eq!(
        "invalid provider selector \"Bad Selector\" (normalized as \"bad selector\")",
        error.message()
    );
    assert_eq!(
        "invalid provider selector <in> (normalized as <norm>)",
        error.render_message("<in>", "<norm>")
    );
}

#[test]
fn selector_edges_are_checked_after_normalization() {
    assert!(ProviderSelector::parse(" -file ").is_err());
    assert!(ProviderSelector::parse("file_").is_err());
    assert!(ProviderSelector::parse("ＡＢ").is_err());
    assert!(ProviderSelector::parse("a_b").is_ok());
}

#[test]
fn canonical_id_parses_as_the_same_selector() {
    for text in ["file", "vendor.v2", "a--b", "git+ssh", "x"] {
        let id = ProviderId::new(text).unwrap();
        let selector = ProviderSelector::parse(id.as_str()).unwrap();
        assert_eq!(id.as_str(), selector.as_str());
        assert_eq!(selector, ProviderSelector::from_id(&id));
    }
}

#[test]
fn parsing_is_idempotent() {
    for text in [" Alpha ", "BETA.v1", "\tgamma+delta\n"] {
        let selector = ProviderSelector::parse(text).unwrap();
        let reparsed = ProviderSelector::parse(selector.as_str()).unwrap();
        assert_eq!(selector, reparsed);
        assert!(ProviderId::new(selector.as_str()).is_ok());
    }
}

#[test]
fn selector_equality_follows_text() {
    let a = ProviderSelector::parse("Disk").unwrap();
    let b = ProviderSelector::parse("disk").unwrap();
    let c = ProviderSelector::parse("memory").unwrap();
    assert!(a.same_as(&b));
    assert!(!a.same_as(&c));
    assert_eq!(a.clone(), b);
}
