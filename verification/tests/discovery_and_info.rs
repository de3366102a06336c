use plugin_system::contract::PluginRecord;
use plugin_system::discover::{classify_entry, select_module_file, str_ends_with, EntryKind};
use plugin_system::errors::{LoadError, RegistryError};
use plugin_system::manager::PluginManager;

fn full_record(name: &str, scope: &str, frontend: Option<&str>) -> PluginRecord {
    PluginRecord {
        name: name.to_string(),
        version: "2.1".to_string(),
        description: "described".to_string(),
        scope: scope.to_string(),
        signature: "deadbeef".to_string(),
        routes: vec!["/r".to_string()],
        frontend: frontend.map(|f| f.to_string()),
    }
}

#[test]
fn directory_entries_are_classified_by_extension() {
    assert_eq!(classify_entry("bundle.zip"), EntryKind::ArchiveBundle);
    assert_eq!(classify_entry("libfoo.so"), EntryKind::RawModule);
    assert_eq!(classify_entry("libfoo.dylib"), EntryKind::RawModule);
    assert_eq!(classify_entry("plugin.dll"), EntryKind::RawModule);
    assert_eq!(classify_entry("readme.txt"), EntryKind::Unrecognized);
    assert_eq!(classify_entry("zip"), EntryKind::Unrecognized);
    // An extension needs a non-empty stem in front of it.
    assert_eq!(classify_entry(".zip"), EntryKind::Unrecognized);
    assert_eq!(classify_entry(""), EntryKind::Unrecognized);
}

#[test]
fn suffix_matching_is_exact() {
    assert!(str_ends_with("archive.zip", ".zip"));
    assert!(!str_ends_with("archive.zip", ".so"));
    assert!(str_ends_with("anything", ""));
    assert!(!str_ends_with("p", ".zip"));
}

#[test]
fn exactly_one_module_is_selected_from_a_bundle() {
    let files = vec![
        "assets/widget.js".to_string(),
        "lib/libplugin.so".to_string(),
        "README.md".to_string(),
    ];
    assert_eq!(select_module_file(&files), Ok(1));
}

#[test]
fn a_bundle_without_a_module_is_missing() {
    let files = vec!["assets/widget.js".to_string(), "README.md".to_string()];
    assert_eq!(select_module_file(&files), Err(LoadError::ModuleNotFound));
    let none: Vec<String> = Vec::new();
    assert_eq!(select_module_file(&none), Err(LoadError::ModuleNotFound));
}

#[test]
fn a_bundle_with_two_modules_is_ambiguous() {
    let files = vec!["a.so".to_string(), "b.dll".to_string()];
    assert_eq!(select_module_file(&files), Err(LoadError::AmbiguousModule));
}

#[test]
fn plugin_info_answers_each_known_field() {
    let mut m = PluginManager::new("plugins".to_string());
    m.register_plugin(full_record("alpha", "/a", None)).unwrap();
    assert_eq!(m.get_plugin_info("alpha", "name"), Some("alpha".to_string()));
    assert_eq!(m.get_plugin_info("alpha", "version"), Some("2.1".to_string()));
    assert_eq!(
        m.get_plugin_info("alpha", "description"),
        Some("described".to_string())
    );
    assert_eq!(m.get_plugin_info("alpha", "scope"), Some("/a".to_string()));
    assert_eq!(
        m.get_plugin_info("alpha", "signature"),
        Some("Unknown".to_string())
    );
    assert_eq!(m.get_plugin_info("missing", "name"), None);
}

#[test]
fn route_bindings_compose_scopes_routes_and_frontend() {
    let mut m = PluginManager::new("plugins".to_string());
    m.register_plugin(full_record("alpha", "/a", Some("widget.js")))
        .unwrap();
    m.register_plugin(full_record("beta", "/b", None)).unwrap();
    let bindings = m.route_bindings();
    assert_eq!(bindings.len(), 2);
    assert_eq!(bindings[0].scope, "/a");
    assert_eq!(bindings[0].paths, vec!["/r".to_string()]);
    let fr = bindings[0].frontend.as_ref().expect("frontend binding");
    assert_eq!(fr.url, "/plugin/alpha");
    assert_eq!(fr.dir, "plugins/alpha");
    assert_eq!(fr.file, "widget.js");
    assert!(bindings[1].frontend.is_none());
}

#[test]
fn routes_snapshot_pairs_scopes_with_routes() {
    let mut m = plugin_system::registry::Registry::new();
    m.insert(full_record("alpha", "/a", None)).unwrap();
    m.insert(full_record("beta", "/b", None)).unwrap();
    let snap = m.snapshot_routes();
    assert_eq!(snap.len(), 2);
    assert_eq!(snap[0].0, "/a");
    assert_eq!(snap[0].1, vec!["/r".to_string()]);
    assert_eq!(snap[1].0, "/b");
}

#[test]
fn registry_error_messages_are_fixed() {
    assert_eq!(RegistryError::DuplicateName.message(), "duplicate plugin name");
    assert_eq!(
        RegistryError::DuplicateScope.message(),
        "duplicate plugin scope"
    );
}
