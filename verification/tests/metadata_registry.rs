use oreos::cli::scanner::{ComponentPayload, LineInfo, Metadata};
use oreos::metadata::{meta_file_name, stable_uuid};
use oreos::registry::{fetch, store, Registry};

#[test]
fn stable_uuid_is_fnv1a_of_the_qualified_name() {
    assert_eq!(stable_uuid("oreos", "Sensor"), 497250571);
    assert_eq!(stable_uuid("app", "TopHeater"), 3194080770);
    assert_eq!(stable_uuid("app", "TopHeater"), stable_uuid("app", "TopHeater"));
    assert_ne!(stable_uuid("app", "TopHeater"), stable_uuid("app", "BottomHeater"));
}

#[test]
fn meta_file_name_joins_crate_name_and_uuid() {
    assert_eq!(meta_file_name("app", "TopHeater"), "app_TopHeater-3194080770.json");
}

#[test]
fn metadata_new_derives_the_uuid() {
    let m = Metadata::new(
        "oreos",
        "Sensor".to_string(),
        LineInfo { file: "src/lib.rs".to_string(), line: 7 },
        ComponentPayload::State,
    );
    assert_eq!(m.uuid, 497250571);
    assert_eq!(m.name, "Sensor");
    assert_eq!(m.source.line, 7);
}

#[test]
fn fetch_returns_what_was_stored() {
    let mut r = Registry::new();
    assert_eq!(fetch(&r, "bus", "Main"), None);
    store(&mut r, "bus", "Main", "tokens-1".to_string());
    store(&mut r, "bus", "Aux", "tokens-2".to_string());
    assert_eq!(fetch(&r, "bus", "Main"), Some("tokens-1".to_string()));
    store(&mut r, "bus", "Main", "tokens-3".to_string());
    assert_eq!(fetch(&r, "bus", "Main"), Some("tokens-3".to_string()));
    assert_eq!(fetch(&r, "bus", "Aux"), Some("tokens-2".to_string()));
    assert_eq!(fetch(&r, "state", "Main"), None);
}

#[test]
fn registry_keys_join_namespace_and_name() {
    let mut r = Registry::new();
    store(&mut r, "a::b", "c", "t".to_string());
    assert_eq!(fetch(&r, "a", "b::c"), Some("t".to_string()));
}
