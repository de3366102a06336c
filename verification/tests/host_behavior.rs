use plugin_system::contract::{PluginMeta, PluginRecord};
use plugin_system::errors::{InstallError, LoadError, RegistryError};
use plugin_system::manager::{
    frontend_response, AssetResponse, FailureReport, LoadOutcome, PluginManager,
};

fn record(name: &str, scope: &str, routes: &[&str]) -> PluginRecord {
    PluginRecord {
        name: name.to_string(),
        version: "1.0.0".to_string(),
        description: "a test plugin".to_string(),
        scope: scope.to_string(),
        signature: "sig".to_string(),
        routes: routes.iter().map(|s| s.to_string()).collect(),
        frontend: None,
    }
}

fn manager() -> PluginManager {
    PluginManager::new("plugins".to_string())
}

#[test]
fn identifiers_are_contiguous_from_zero() {
    let mut m = manager();
    assert_eq!(m.register_plugin(record("alpha", "/a", &["/one"])), Ok(0));
    assert_eq!(m.register_plugin(record("beta", "/b", &["/two"])), Ok(1));
    assert_eq!(m.register_plugin(record("gamma", "/c", &[])), Ok(2));
    let meta: Vec<PluginMeta> = m.get_plugins_meta();
    let ids: Vec<usize> = meta.iter().map(|p| p.id).collect();
    assert_eq!(ids, vec![0, 1, 2]);
}

#[test]
fn duplicate_name_is_rejected() {
    let mut m = manager();
    assert_eq!(m.register_plugin(record("alpha", "/a", &[])), Ok(0));
    assert_eq!(
        m.register_plugin(record("alpha", "/elsewhere", &[])),
        Err(RegistryError::DuplicateName)
    );
    assert_eq!(m.plugin_count(), 1);
}

#[test]
fn duplicate_scope_is_rejected() {
    let mut m = manager();
    assert_eq!(m.register_plugin(record("alpha", "/a", &[])), Ok(0));
    assert_eq!(
        m.register_plugin(record("beta", "/a", &[])),
        Err(RegistryError::DuplicateScope)
    );
    assert_eq!(m.plugin_count(), 1);
}

#[test]
fn reinstalling_the_same_bundle_is_rejected() {
    let mut m = manager();
    assert_eq!(m.register_plugin(record("alpha", "/a", &["/r"])), Ok(0));
    // A reinstall reports the same name and scope; the scope check comes first.
    assert_eq!(
        m.register_plugin(record("alpha", "/a", &["/r"])),
        Err(RegistryError::DuplicateScope)
    );
    let meta = m.get_plugins_meta();
    assert_eq!(meta.len(), 1);
    assert_eq!(meta[0].name, "alpha");
}

#[test]
fn failed_load_consumes_no_identifier() {
    let mut m = manager();
    let reports = m.apply_load_outcomes(vec![LoadOutcome::LoadFailed(LoadError::SymbolMissing)]);
    assert_eq!(reports, vec![FailureReport::Load(LoadError::SymbolMissing)]);
    assert_eq!(m.plugin_count(), 0);
    assert_eq!(m.register_plugin(record("alpha", "/a", &[])), Ok(0));
}

#[test]
fn discovery_continues_past_a_corrupt_archive() {
    let mut m = manager();
    let reports = m.apply_load_outcomes(vec![
        LoadOutcome::InstallFailed(InstallError::ExtractionFailed),
        LoadOutcome::Loaded(record("survivor", "/s", &["/ping"])),
    ]);
    assert_eq!(
        reports,
        vec![FailureReport::Install(InstallError::ExtractionFailed)]
    );
    let meta = m.get_plugins_meta();
    assert_eq!(meta.len(), 1);
    assert_eq!(meta[0].name, "survivor");
    assert_eq!(meta[0].scope, "/s");
}

#[test]
fn every_failure_kind_is_reported_in_scan_order() {
    let mut m = manager();
    let reports = m.apply_load_outcomes(vec![
        LoadOutcome::LoadFailed(LoadError::OpenFailed),
        LoadOutcome::LoadFailed(LoadError::InstantiationFailed),
        LoadOutcome::InstallFailed(InstallError::RelocationFailed),
        LoadOutcome::Loaded(record("alpha", "/a", &[])),
        LoadOutcome::Loaded(record("alpha", "/b", &[])),
    ]);
    assert_eq!(
        reports,
        vec![
            FailureReport::Load(LoadError::OpenFailed),
            FailureReport::Load(LoadError::InstantiationFailed),
            FailureReport::Install(InstallError::RelocationFailed),
            FailureReport::Rejected(RegistryError::DuplicateName),
        ]
    );
    assert_eq!(m.plugin_count(), 1);
}

#[test]
fn plugins_document_round_trip() {
    let mut m = manager();
    let routes_a = ["/add", "/mul"];
    let routes_b = ["/hello"];
    m.apply_load_outcomes(vec![
        LoadOutcome::Loaded(record("math", "/math", &routes_a)),
        LoadOutcome::Loaded(record("greet", "/greet", &routes_b)),
    ]);
    let meta = m.get_plugins_meta();
    assert_eq!(meta.len(), 2);
    assert_eq!(meta[0].routes, vec!["/add", "/mul"]);
    assert_eq!(meta[1].routes, vec!["/hello"]);
    assert_eq!(meta[0].scope, "/math");
    assert_eq!(meta[1].scope, "/greet");
    assert_eq!(meta[0].version, "1.0.0");
    assert_eq!(meta[0].signature, "sig");
    assert_eq!(meta[0].frontend, None);
}

#[test]
fn duplicate_scope_scenario_keeps_first_plugin_routes() {
    let mut m = manager();
    let reports = m.apply_load_outcomes(vec![
        LoadOutcome::Loaded(record("a", "/math", &["/add"])),
        LoadOutcome::Loaded(record("b", "/math", &["/sub"])),
    ]);
    assert_eq!(
        reports,
        vec![FailureReport::Rejected(RegistryError::DuplicateScope)]
    );
    assert_eq!(
        m.get_routes_json(),
        "{\n  \"/math\": [\n    \"/add\"\n  ]\n}"
    );
}

#[test]
fn routes_document_lists_scopes_in_insertion_order() {
    let mut m = manager();
    assert_eq!(m.register_plugin(record("second", "/b", &["/x", "/y"])), Ok(0));
    assert_eq!(m.register_plugin(record("first", "/a", &["/z"])), Ok(1));
    assert_eq!(
        m.get_routes_json(),
        "{\n  \"/b\": [\n    \"/x\",\n    \"/y\"\n  ],\n  \"/a\": [\n    \"/z\"\n  ]\n}"
    );
}

#[test]
fn routes_document_of_an_empty_registry() {
    let m = manager();
    assert_eq!(m.get_routes_json(), "{}");
}

#[test]
fn routes_document_escapes_special_characters() {
    let mut m = manager();
    m.register_plugin(record("odd", "/quo\"te\\back\nline", &[]))
        .unwrap();
    assert_eq!(
        m.get_routes_json(),
        "{\n  \"/quo\\\"te\\\\back\\nline\": []\n}"
    );
}

#[test]
fn json_string_escaping_is_exact() {
    let mut out = String::new();
    plugin_system::json::append_json_string(&mut out, "a\"b\\c\nd\te\rf\u{1}g");
    assert_eq!(out, "\"a\\\"b\\\\c\\nd\\te\\rf\\u0001g\"");
}

#[test]
fn missing_frontend_file_degrades_to_not_found() {
    assert!(matches!(frontend_response(None), AssetResponse::NotFound));
    match frontend_response(Some(vec![1, 2, 3])) {
        AssetResponse::Asset(bytes) => assert_eq!(bytes, vec![1, 2, 3]),
        AssetResponse::NotFound => panic!("asset was present"),
    }
}
