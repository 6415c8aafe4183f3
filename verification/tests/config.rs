use mediaserver::config::Config;
use mediaserver::file_listing::FileListingConfig;
use mediaserver::namespace_def::{NamespaceDefinition, NamespaceTable};
use mediaserver::random_string_generator::StringGenerator;
use mediaserver::storage::StorageConfig;
use mediaserver::web_server::WebServerConfig;

#[test]
fn stock_storage_settings() {
    let s = StorageConfig::default();
    assert_eq!(s.default_namespace_fs_path, "ferris");
    assert_eq!(s.max_file_size_bytes, 1024 * 1024 * 100);
    assert_eq!(s.uploads_directory, "uploads");
}

#[test]
fn stock_web_server_settings() {
    let w = WebServerConfig::default();
    assert_eq!(w.host, "127.0.0.1");
    assert_eq!(w.port, 3000);
    assert_eq!(w.listen_url, "http://localhost:3000");
    assert_eq!(w.redirect_index_to, "http://github.com/kokiriglade/mediaserver");
}

#[test]
fn stock_listing_policy_hides_listings() {
    let f = FileListingConfig::default();
    assert!(!f.show);
    assert!(f.use_fancy_renderer);
}

#[test]
fn stock_namespace_draws_a_long_random_key() {
    let ns = NamespaceDefinition::default();
    assert_eq!(ns.file_system_path, "ferris");
    assert_eq!(ns.key.chars().count(), 128);
    assert!(ns.key.chars().all(|c| c.is_ascii_alphanumeric()));
    match ns.file_name_generator {
        StringGenerator::Random {
            length,
            max_attempts_before_grow,
        } => {
            assert_eq!(length, 12);
            assert_eq!(max_attempts_before_grow, 0);
        }
        StringGenerator::Uuid => panic!("stock generator should be Random"),
    }
}

#[test]
fn stock_config_has_one_namespace() {
    let c = Config::default();
    assert_eq!(c.namespaces.entries.len(), 1);
    assert_eq!(c.namespaces.entries[0].0, "ferris");
    assert_eq!(c.namespaces.entries[0].1.file_system_path, "ferris");
}

#[test]
fn derived_paths_hang_off_the_uploads_root() {
    let c = Config::default();
    assert_eq!(c.get_uploads_path(), "uploads");
    assert_eq!(c.get_temp_path(), "uploads/.temp");
    let ns = &c.namespaces.entries[0].1;
    assert_eq!(ns.get_path(&c), "uploads/ferris");
}

#[test]
fn startup_creates_root_temp_and_every_namespace_directory() {
    let mut c = Config::default();
    let second = NamespaceDefinition {
        file_system_path: "pics".to_owned(),
        key: "k".to_owned(),
        file_listing: FileListingConfig::default(),
        file_name_generator: StringGenerator::Uuid,
    };
    let mut entries = std::mem::replace(
        &mut c.namespaces,
        NamespaceTable { entries: vec![] },
    )
    .entries;
    entries.push(("pics".to_owned(), second));
    c.namespaces = NamespaceTable { entries };
    let dirs = c.directories_to_create();
    assert_eq!(
        dirs,
        ["uploads", "uploads/.temp", "uploads/ferris", "uploads/pics"]
    );
}

#[test]
fn candidate_paths_live_under_the_namespace_directory() {
    let c = Config::default();
    let ns = &c.namespaces.entries[0].1;
    let state = ns.file_name_generator.initial_retry_state();
    let path = ns.candidate_path(&c, &state, "png");
    assert!(path.starts_with("uploads/ferris/"));
    assert!(path.ends_with(".png"));
    // "uploads/ferris/" + 12 random characters + ".png"
    assert_eq!(path.chars().count(), 15 + 12 + 4);
}
