use qubit_spi::error::ProviderFailureKind;
use qubit_spi::registry_model::{
    accepts_registration, auto_order, candidates, expected_creation, fallback_policy_of,
    failure_kind_of, owner, selector, ModelEntry, Request,
};
use qubit_spi::{FallbackPolicy, ProviderCreationTermination};

fn entry(id: &str, alias: Option<&str>, priority: i32, outcome: u8) -> ModelEntry {
    ModelEntry { id: id.to_owned(), alias: alias.map(str::to_owned), priority, outcome }
}

fn ids(entries: &[ModelEntry]) -> Vec<&str> {
    entries.iter().map(|e| e.id.as_str()).collect()
}

fn request(mode: u8, selectors: &[&str], policy: u8) -> Request {
    Request { mode, selectors: selectors.iter().map(|s| s.to_string()).collect(), policy }
}

#[test]
fn selector_text_collides_ids_and_aliases() {
    assert_eq!("provider-0", selector(0));
    assert_eq!("provider-15", selector(127));
    assert_eq!("alias-0", selector(128));
    assert_eq!("alias-3", selector(131));
    assert_eq!("alias-15", selector(255));
}

#[test]
fn owner_scans_ids_and_aliases_in_order() {
    let entries = vec![
        entry("provider-1", Some("alias-1"), 0, 0),
        entry("provider-2", Some("provider-1"), 0, 0),
    ];
    assert_eq!("provider-1", owner(&entries, "provider-1").unwrap().id);
    assert_eq!("provider-1", owner(&entries, "alias-1").unwrap().id);
    assert_eq!("provider-2", owner(&entries, "provider-2").unwrap().id);
    assert!(owner(&entries, "alias-9").is_none());
}

#[test]
fn registration_is_refused_for_owned_selectors() {
    let entries = vec![entry("provider-1", Some("alias-1"), 0, 0)];
    assert!(!accepts_registration(&entries, &entry("provider-1", None, 0, 0)));
    assert!(!accepts_registration(&entries, &entry("alias-1", None, 0, 0)));
    assert!(!accepts_registration(&entries, &entry("provider-2", Some("provider-1"), 0, 0)));
    assert!(accepts_registration(&entries, &entry("provider-2", Some("alias-2"), 0, 0)));
    assert!(accepts_registration(&[], &entry("provider-2", None, 0, 0)));
}

#[test]
fn automatic_order_is_priority_then_id() {
    let entries = vec![
        entry("b", None, 0, 0),
        entry("c", None, 5, 0),
        entry("a", None, 0, 0),
        entry("z", None, i32::MIN, 0),
        entry("y", None, i32::MAX, 0),
        entry("aa", None, 0, 0),
    ];
    assert_eq!(vec!["y", "c", "a", "aa", "b", "z"], ids(&auto_order(&entries)));
    let ties = vec![entry("a", None, 1, 1), entry("a", None, 1, 2)];
    let sorted = auto_order(&ties);
    assert_eq!(vec![1, 2], sorted.iter().map(|e| e.outcome).collect::<Vec<_>>());
}

#[test]
fn automatic_candidates() {
    let err = candidates(&[], &request(0, &[], 1)).unwrap_err();
    assert_eq!((0, Vec::<String>::new()), err);
    let entries = vec![entry("b", None, 1, 0), entry("a", None, 1, 0)];
    assert_eq!(vec!["a", "b"], ids(&candidates(&entries, &request(0, &[], 1)).unwrap()));
}

#[test]
fn named_candidates_use_the_first_selector() {
    let entries = vec![entry("provider-1", Some("alias-1"), 0, 0), entry("provider-2", None, 0, 0)];
    let found = candidates(&entries, &request(1, &["alias-1", "provider-2"], 1)).unwrap();
    assert_eq!(vec!["provider-1"], ids(&found));
    let err = candidates(&entries, &request(1, &["alias-7", "provider-2"], 1)).unwrap_err();
    assert_eq!((1, vec!["alias-7".to_owned()]), err);
}

#[test]
fn chains_deduplicate_and_report_missing() {
    let entries = vec![entry("provider-1", Some("alias-1"), 0, 0), entry("provider-2", None, 0, 0)];
    let chain = ["provider-2", "alias-1", "provider-1", "unknown"];
    let err = candidates(&entries, &request(2, &chain, 1)).unwrap_err();
    assert_eq!((1, vec!["unknown".to_owned()]), err);
    let found = candidates(&entries, &request(3, &chain, 1)).unwrap();
    assert_eq!(vec!["provider-2", "provider-1"], ids(&found));
    let err = candidates(&entries, &request(3, &["x", "y"], 1)).unwrap_err();
    assert_eq!((2, vec!["x".to_owned(), "y".to_owned()]), err);
    let err = candidates(&entries, &request(2, &["x", "y"], 1)).unwrap_err();
    assert_eq!((1, vec!["x".to_owned(), "y".to_owned()]), err);
    let err = candidates(&[], &request(3, &[], 1)).unwrap_err();
    assert_eq!((2, Vec::<String>::new()), err);
}

#[test]
fn traversal_stops_at_first_success() {
    let entries = vec![entry("a", None, 0, 1), entry("b", None, 0, 0), entry("c", None, 0, 0)];
    let outcome = expected_creation(&entries, FallbackPolicy::OnAbsence);
    assert_eq!(vec!["a", "b"], outcome.calls);
    assert_eq!(Some("b".to_owned()), outcome.success);
    assert_eq!(vec![("a".to_owned(), ProviderFailureKind::Unsupported)], outcome.attempts);
}

#[test]
fn traversal_policy_stops_or_exhausts() {
    let entries = vec![entry("a", None, 0, 3), entry("b", None, 0, 0)];
    let stopped = expected_creation(&entries, FallbackPolicy::OnAbsence);
    assert_eq!(vec!["a"], stopped.calls);
    assert_eq!(None, stopped.success);
    assert_eq!(ProviderCreationTermination::StoppedByPolicy, stopped.termination);
    let going = expected_creation(&entries, FallbackPolicy::OnAnyError);
    assert_eq!(Some("b".to_owned()), going.success);
    let never = expected_creation(&[entry("a", None, 0, 2), entry("b", None, 0, 0)], FallbackPolicy::Never);
    assert_eq!(ProviderCreationTermination::StoppedByPolicy, never.termination);
    let all_fail = vec![entry("a", None, 0, 2), entry("b", None, 0, 4)];
    let exhausted = expected_creation(&all_fail, FallbackPolicy::OnAnyError);
    assert_eq!(ProviderCreationTermination::Exhausted, exhausted.termination);
    assert_eq!(
        vec![
            ("a".to_owned(), ProviderFailureKind::Unavailable),
            ("b".to_owned(), ProviderFailureKind::InitializationFailed),
        ],
        exhausted.attempts
    );
    let single = expected_creation(&[entry("a", None, 0, 4)], FallbackPolicy::Never);
    assert_eq!(ProviderCreationTermination::Exhausted, single.termination);
    let none = expected_creation(&[], FallbackPolicy::Never);
    assert!(none.calls.is_empty());
    assert_eq!(ProviderCreationTermination::Exhausted, none.termination);
}

#[test]
fn codes_map_to_kinds_and_policies() {
    assert_eq!(ProviderFailureKind::Unsupported, failure_kind_of(1));
    assert_eq!(ProviderFailureKind::Unavailable, failure_kind_of(2));
    assert_eq!(ProviderFailureKind::InvalidConfiguration, failure_kind_of(3));
    assert_eq!(ProviderFailureKind::InitializationFailed, failure_kind_of(4));
    assert_eq!(FallbackPolicy::Never, fallback_policy_of(0));
    assert_eq!(FallbackPolicy::OnAbsence, fallback_policy_of(1));
    assert_eq!(FallbackPolicy::OnAnyError, fallback_policy_of(2));
}

#[test]
fn entry_descriptor_holds_normalized_alias() {
    let d = entry("provider-1", Some("Alias-1"), 7, 0).descriptor();
    assert_eq!("provider-1", d.id().as_str());
    assert_eq!("alias-1", d.aliases()[0].as_str());
    assert_eq!(7, d.priority());
    assert!(entry("provider-1", None, 0, 0).descriptor().aliases().is_empty());
}
