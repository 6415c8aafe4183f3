use mediaserver::file_listing::FileListingConfig;
use mediaserver::namespace_def::{NamespaceDefinition, NamespaceTable};
use mediaserver::random_string_generator::StringGenerator;

fn namespace(path: &str, key: &str) -> NamespaceDefinition {
    NamespaceDefinition {
        file_system_path: path.to_owned(),
        key: key.to_owned(),
        file_listing: FileListingConfig::default(),
        file_name_generator: StringGenerator::Random {
            length: 12,
            max_attempts_before_grow: 32,
        },
    }
}

fn table() -> NamespaceTable {
    NamespaceTable {
        entries: vec![
            ("ns".to_owned(), namespace("ns-dir", "correctkey")),
            ("pics".to_owned(), namespace("pics", "picskey")),
        ],
    }
}

#[test]
fn wrong_key_and_unknown_namespace_fail_identically() {
    let t = table();
    let known = "ns".to_owned();
    let unknown = "missing-ns".to_owned();
    let wrong_key = "wrongkey".to_owned();
    let any_key = "anykey".to_owned();
    let wrong = NamespaceDefinition::auth(&t, &known, &wrong_key);
    let missing = NamespaceDefinition::auth(&t, &unknown, &any_key);
    // Both failures are the same opaque `None`: nothing distinguishes an
    // unknown namespace from a wrong key.
    assert!(wrong.is_none());
    assert!(missing.is_none());
    assert_eq!(wrong.is_none(), missing.is_none());
}

#[test]
fn correct_key_returns_the_namespace() {
    let t = table();
    let name = "ns".to_owned();
    let key = "correctkey".to_owned();
    let found =
        NamespaceDefinition::auth(&t, &name, &key).expect("correct key should authenticate");
    assert_eq!(found.file_system_path, "ns-dir");
    assert_eq!(found.key, "correctkey");
}

#[test]
fn namespaces_are_isolated_by_key() {
    let t = table();
    // A valid key for one namespace opens no other namespace.
    assert!(NamespaceDefinition::auth(&t, &"pics".to_owned(), &"correctkey".to_owned()).is_none());
    assert!(NamespaceDefinition::auth(&t, &"pics".to_owned(), &"picskey".to_owned()).is_some());
}

#[test]
fn empty_table_authenticates_nothing() {
    let t = NamespaceTable { entries: vec![] };
    assert!(NamespaceDefinition::auth(&t, &"ns".to_owned(), &"key".to_owned()).is_none());
}
