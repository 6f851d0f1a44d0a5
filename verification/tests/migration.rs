use wayclip_core::error::WayclipError;
use wayclip_core::settings::migration::{SettingsMigrate, VersionEntry};
use wayclip_core::settings::schema::{JsonValue, MigrationChange, SettingsDefinition};

fn defs() -> Vec<(String, SettingsDefinition)> {
    vec![(
        "fps".to_string(),
        SettingsDefinition {
            key: "fps".to_string(),
            location: "recording.video".to_string(),
            field_name: "fps".to_string(),
            value_type: "u32".to_string(),
            default: JsonValue::Number("60".to_string()),
            introduced_in: "0.2.0".to_string(),
        },
    )]
}

fn obj(members: Vec<(&str, JsonValue)>) -> JsonValue {
    JsonValue::Object(members.into_iter().map(|(k, v)| (k.to_string(), v)).collect())
}

fn get<'a>(v: &'a JsonValue, path: &[&str]) -> Option<&'a JsonValue> {
    let mut cur = v;
    for p in path {
        match cur {
            JsonValue::Object(m) => match m.iter().find(|(k, _)| k == p) {
                Some((_, x)) => cur = x,
                None => return None,
            },
            _ => return None,
        }
    }
    Some(cur)
}

fn text(v: Option<&JsonValue>) -> Option<String> {
    match v {
        Some(JsonValue::Str(s)) => Some(s.clone()),
        Some(JsonValue::Number(s)) => Some(format!("#{s}")),
        _ => None,
    }
}

fn insert_fps() -> MigrationChange {
    MigrationChange::Insert { setting_id: "fps".to_string() }
}

fn entry(v: &str, changes: Vec<MigrationChange>) -> VersionEntry {
    VersionEntry { version: v.to_string(), changes }
}

#[test]
fn insert_creates_location_and_default() {
    let mut cfg = obj(vec![("v", JsonValue::Str("0.1.0".to_string()))]);
    insert_fps().implement(&mut cfg, &defs()).unwrap();
    assert_eq!(text(get(&cfg, &["recording", "video", "fps"])), Some("#60".to_string()));
}

#[test]
fn insert_keeps_existing_value() {
    let mut cfg = obj(vec![(
        "recording",
        obj(vec![("video", obj(vec![("fps", JsonValue::Number("30".to_string()))]))]),
    )]);
    insert_fps().implement(&mut cfg, &defs()).unwrap();
    insert_fps().implement(&mut cfg, &defs()).unwrap();
    assert_eq!(text(get(&cfg, &["recording", "video", "fps"])), Some("#30".to_string()));
}

#[test]
fn insert_unknown_setting_fails() {
    let mut cfg = obj(vec![]);
    let r = MigrationChange::Insert { setting_id: "nope".to_string() }.implement(&mut cfg, &defs());
    assert!(matches!(r, Err(WayclipError::Validation(_))));
}

#[test]
fn insert_through_non_object_fails() {
    let mut cfg = obj(vec![("recording", JsonValue::Bool(true))]);
    let r = insert_fps().implement(&mut cfg, &defs());
    assert!(matches!(r, Err(WayclipError::Validation(_))));
}

#[test]
fn move_field_between_objects() {
    let mut cfg = obj(vec![("old", obj(vec![("x", JsonValue::Str("a".to_string()))]))]);
    MigrationChange::Move {
        from_path: "old".to_string(),
        to_path: "new.place".to_string(),
        field: "x".to_string(),
    }
    .implement(&mut cfg, &defs())
    .unwrap();
    assert!(get(&cfg, &["old", "x"]).is_none());
    assert_eq!(text(get(&cfg, &["new", "place", "x"])), Some("a".to_string()));
}

#[test]
fn move_missing_field_does_nothing() {
    let mut cfg = obj(vec![("old", obj(vec![]))]);
    MigrationChange::Move {
        from_path: "old".to_string(),
        to_path: "new".to_string(),
        field: "x".to_string(),
    }
    .implement(&mut cfg, &defs())
    .unwrap();
    assert!(get(&cfg, &["new"]).is_none());
}

#[test]
fn remove_field() {
    let mut cfg = obj(vec![("a", obj(vec![("b", JsonValue::Bool(true)), ("c", JsonValue::Null)]))]);
    MigrationChange::Remove { location: "a".to_string(), field_name: "b".to_string() }
        .implement(&mut cfg, &defs())
        .unwrap();
    assert!(get(&cfg, &["a", "b"]).is_none());
    assert!(get(&cfg, &["a", "c"]).is_some());
}

#[test]
fn select_versions_in_range_sorted() {
    let es = vec![
        entry("0.3.0", vec![]),
        entry("0.1.0", vec![]),
        entry("0.2.0", vec![]),
        entry("0.4.0", vec![]),
    ];
    let sel = SettingsMigrate::select_versions(es, "0.1.0", "0.3.0").unwrap();
    let vs: Vec<&str> = sel.iter().map(|e| e.version.as_str()).collect();
    assert_eq!(vs, vec!["0.2.0", "0.3.0"]);
}

#[test]
fn select_versions_rejects_bad_version() {
    let r = SettingsMigrate::select_versions(vec![entry("zero", vec![])], "0.1.0", "0.3.0");
    assert!(matches!(r, Err(WayclipError::Validation(_))));
    let r = SettingsMigrate::select_versions(vec![], "x", "0.3.0");
    assert!(matches!(r, Err(WayclipError::Validation(_))));
}

#[test]
fn migrate_runs_changes_and_sets_version() {
    let mut cfg = obj(vec![("v", JsonValue::Str("0.1.0".to_string())), ("tmp", JsonValue::Bool(false))]);
    let es = vec![
        entry("0.3.0", vec![MigrationChange::Remove { location: "".to_string(), field_name: "tmp".to_string() }]),
        entry("0.2.0", vec![insert_fps()]),
        entry("0.9.0", vec![MigrationChange::Remove { location: "recording".to_string(), field_name: "video".to_string() }]),
    ];
    SettingsMigrate::migrate(&mut cfg, "0.1.0", "0.3.0", es, &defs()).unwrap();
    assert_eq!(text(get(&cfg, &["v"])), Some("0.3.0".to_string()));
    assert_eq!(text(get(&cfg, &["recording", "video", "fps"])), Some("#60".to_string()));
    assert!(get(&cfg, &["tmp"]).is_none());
}

#[test]
fn migrate_to_same_version_only_sets_version() {
    let mut cfg = JsonValue::Null;
    SettingsMigrate::migrate(&mut cfg, "0.2.0", "0.2.0", vec![entry("0.2.0", vec![insert_fps()])], &defs()).unwrap();
    assert_eq!(text(get(&cfg, &["v"])), Some("0.2.0".to_string()));
    assert!(get(&cfg, &["recording"]).is_none());
}

#[test]
fn migrate_stops_at_failing_change() {
    let mut cfg = obj(vec![("recording", JsonValue::Number("1".to_string()))]);
    let r = SettingsMigrate::migrate(&mut cfg, "0.1.0", "0.2.0", vec![entry("0.2.0", vec![insert_fps()])], &defs());
    assert!(matches!(r, Err(WayclipError::Validation(_))));
    assert!(get(&cfg, &["v"]).is_none());
}
