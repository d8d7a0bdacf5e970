use config_store::{
    greet, load_record, save_record, ConfigError, ConfigRecord, InputFieldConfig,
    InputFieldGeneral, Json, Profile, SelectionConfig, SelectionGeneral, SettingsConfig,
    StoredFile, INPUT_FIELD_FILE, SELECTION_FILE, SETTINGS_FILE,
};

fn object(members: Vec<(&str, Json)>) -> Json {
    Json::Object(members.into_iter().map(|(k, v)| (k.to_string(), v)).collect())
}

fn text(s: &str) -> Json {
    Json::Str(s.to_string())
}

fn profile(id: &str, name: &str, prompt: &str) -> Profile {
    Profile { id: id.to_string(), name: name.to_string(), prompt: prompt.to_string() }
}

#[test]
fn greet_world() {
    assert_eq!(greet("World"), "Hello, World! You've been greeted from Rust!");
}

#[test]
fn greet_empty_name() {
    assert_eq!(greet(""), "Hello, ! You've been greeted from Rust!");
}

#[test]
fn missing_file_gives_defaults() {
    let s: SettingsConfig = load_record(StoredFile::Missing).unwrap();
    assert_eq!(s, SettingsConfig { auto_start: false, api_key: String::new() });
    let i: InputFieldConfig = load_record(StoredFile::Missing).unwrap();
    assert_eq!(
        i,
        InputFieldConfig { profiles: vec![], general: InputFieldGeneral { hotkey: String::new() } }
    );
    let c: SelectionConfig = load_record(StoredFile::Missing).unwrap();
    assert_eq!(c, SelectionConfig { profiles: vec![], general: SelectionGeneral { enabled: true } });
}

#[test]
fn empty_document_input_field() {
    let r = InputFieldConfig::decode(&object(vec![])).unwrap();
    assert!(r.profiles.is_empty());
    assert_eq!(r.general.hotkey, "");
}

#[test]
fn empty_document_selection_is_enabled() {
    let r = SelectionConfig::decode(&object(vec![])).unwrap();
    assert!(r.profiles.is_empty());
    assert!(r.general.enabled);
}

#[test]
fn empty_document_settings() {
    let r = SettingsConfig::decode(&object(vec![])).unwrap();
    assert!(!r.auto_start);
    assert_eq!(r.api_key, "");
}

#[test]
fn selection_general_defaults_to_enabled() {
    assert!(SelectionGeneral::default_enabled());
    assert!(SelectionGeneral::default().enabled);
    let r = SelectionConfig::decode(&object(vec![("general", object(vec![]))])).unwrap();
    assert!(r.general.enabled);
}

#[test]
fn settings_round_trip() {
    let v = SettingsConfig { auto_start: true, api_key: "key-123".to_string() };
    assert_eq!(SettingsConfig::decode(&v.encode()).unwrap(), v);
}

#[test]
fn input_field_round_trip() {
    let v = InputFieldConfig {
        profiles: vec![profile("a", "First", "Fix grammar"), profile("a", "", "")],
        general: InputFieldGeneral { hotkey: "Ctrl+Shift+K".to_string() },
    };
    assert_eq!(InputFieldConfig::decode(&v.encode()).unwrap(), v);
}

#[test]
fn selection_round_trip() {
    let v = SelectionConfig {
        profiles: vec![profile("x", "Translate", "To French"), profile("y", "Sum", "Summarise")],
        general: SelectionGeneral { enabled: false },
    };
    assert_eq!(SelectionConfig::decode(&v.encode()).unwrap(), v);
}

#[test]
fn load_after_save() {
    let v = SelectionConfig {
        profiles: vec![profile("1", "n", "p")],
        general: SelectionGeneral { enabled: false },
    };
    let stored = save_record(&v);
    let back: SelectionConfig = load_record(StoredFile::Document(stored)).unwrap();
    assert_eq!(back, v);
}

#[test]
fn settings_encoding_uses_camel_case() {
    let v = SettingsConfig { auto_start: true, api_key: "k".to_string() };
    assert_eq!(v.encode(), object(vec![("autoStart", Json::Bool(true)), ("apiKey", text("k"))]));
}

#[test]
fn selection_encoding_is_exact() {
    let v = SelectionConfig {
        profiles: vec![profile("i", "n", "p")],
        general: SelectionGeneral { enabled: true },
    };
    let expected = object(vec![
        (
            "profiles",
            Json::Array(vec![object(vec![("id", text("i")), ("name", text("n")), ("prompt", text("p"))])]),
        ),
        ("general", object(vec![("enabled", Json::Bool(true))])),
    ]);
    assert_eq!(v.encode(), expected);
}

#[test]
fn input_field_encoding_is_exact() {
    let v = InputFieldConfig { profiles: vec![], general: InputFieldGeneral { hotkey: "F1".to_string() } };
    let expected = object(vec![
        ("profiles", Json::Array(vec![])),
        ("general", object(vec![("hotkey", text("F1"))])),
    ]);
    assert_eq!(v.encode(), expected);
}

#[test]
fn unknown_member_is_ignored() {
    let doc = object(vec![
        ("theme", text("dark")),
        ("autoStart", Json::Bool(true)),
        ("extra", Json::Array(vec![Json::Null, Json::Number("3".to_string())])),
    ]);
    let r = SettingsConfig::decode(&doc).unwrap();
    assert_eq!(r, SettingsConfig { auto_start: true, api_key: String::new() });
}

#[test]
fn unknown_member_in_profile_is_ignored() {
    let doc = object(vec![(
        "profiles",
        Json::Array(vec![object(vec![("id", text("7")), ("colour", text("red"))])]),
    )]);
    let r = InputFieldConfig::decode(&doc).unwrap();
    assert_eq!(r.profiles, vec![profile("7", "", "")]);
}

#[test]
fn wrong_shape_enabled_is_parse_error() {
    let doc = object(vec![("general", object(vec![("enabled", text("yes"))]))]);
    assert!(matches!(SelectionConfig::decode(&doc), Err(ConfigError::Parse(_))));
}

#[test]
fn wrong_shape_api_key_is_parse_error() {
    let doc = object(vec![("apiKey", Json::Number("12".to_string()))]);
    assert!(matches!(SettingsConfig::decode(&doc), Err(ConfigError::Parse(_))));
}

#[test]
fn null_member_is_parse_error() {
    let doc = object(vec![("autoStart", Json::Null)]);
    assert!(matches!(SettingsConfig::decode(&doc), Err(ConfigError::Parse(_))));
}

#[test]
fn wrong_shape_profiles_is_parse_error() {
    let doc = object(vec![("profiles", object(vec![]))]);
    assert!(matches!(InputFieldConfig::decode(&doc), Err(ConfigError::Parse(_))));
    let doc = object(vec![("profiles", Json::Array(vec![text("p")]))]);
    assert!(matches!(SelectionConfig::decode(&doc), Err(ConfigError::Parse(_))));
}

#[test]
fn wrong_shape_general_is_parse_error() {
    let doc = object(vec![("general", Json::Bool(true))]);
    assert!(matches!(InputFieldConfig::decode(&doc), Err(ConfigError::Parse(_))));
    let doc = object(vec![("general", object(vec![("hotkey", Json::Bool(false))]))]);
    assert!(matches!(InputFieldConfig::decode(&doc), Err(ConfigError::Parse(_))));
}

#[test]
fn non_object_document_is_parse_error() {
    assert!(matches!(SettingsConfig::decode(&Json::Array(vec![])), Err(ConfigError::Parse(_))));
    assert!(matches!(SelectionConfig::decode(&Json::Null), Err(ConfigError::Parse(_))));
}

#[test]
fn unreadable_file_is_io_error() {
    let r: Result<SettingsConfig, ConfigError> =
        load_record(StoredFile::Unreadable("permission denied".to_string()));
    assert_eq!(r, Err(ConfigError::Io("permission denied".to_string())));
    assert_eq!(r.unwrap_err().message(), "permission denied");
}

#[test]
fn malformed_text_is_parse_error() {
    let r: Result<InputFieldConfig, ConfigError> =
        load_record(StoredFile::Malformed("expected value".to_string()));
    assert_eq!(r, Err(ConfigError::Parse("expected value".to_string())));
}

#[test]
fn first_matching_member_wins() {
    let doc = object(vec![("hotkey", text("A")), ("hotkey", text("B"))]);
    let r = InputFieldConfig::decode(&object(vec![("general", doc)])).unwrap();
    assert_eq!(r.general.hotkey, "A");
}

#[test]
fn profile_order_is_kept() {
    let ps = vec![profile("b", "", ""), profile("a", "", ""), profile("b", "", "")];
    let v = InputFieldConfig { profiles: ps.clone(), general: InputFieldGeneral::default() };
    assert_eq!(InputFieldConfig::decode(&v.encode()).unwrap().profiles, ps);
}

#[test]
fn profile_json_round_trip() {
    let p = profile("id1", "Name", "Prompt text");
    assert_eq!(Profile::from_json(&p.to_json()), Some(p));
    assert_eq!(Profile::from_json(&text("x")), None);
}

#[test]
fn file_names() {
    assert_eq!(SETTINGS_FILE, "settings.json");
    assert_eq!(INPUT_FIELD_FILE, "input_field.json");
    assert_eq!(SELECTION_FILE, "selection.json");
}
