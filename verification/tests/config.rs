use variable_explorer::{format_log_line, ConfigStore};

#[test]
fn get_returns_the_value_that_was_set() {
    let mut store = ConfigStore::new();
    store.set("log_level".to_string(), "debug".to_string());
    let value = store.get("log_level").unwrap();
    assert_eq!(value, "debug");
}

#[test]
fn get_on_missing_key_names_it() {
    let mut store = ConfigStore::new();
    store.set("log_level".to_string(), "debug".to_string());
    let err = store.get("platform_name").unwrap_err();
    assert_eq!(err.key, "platform_name");
}

#[test]
fn get_on_empty_store_fails() {
    let store = ConfigStore::new();
    let err = store.get("anything").unwrap_err();
    assert_eq!(err.key, "anything");
}

#[test]
fn get_returns_the_latest_value() {
    let mut store = ConfigStore::new();
    store.set("log_level".to_string(), "debug".to_string());
    store.set("log_level".to_string(), "warn".to_string());
    assert_eq!(store.get("log_level").unwrap(), "warn");
}

#[test]
fn empty_value_is_still_a_value() {
    let mut store = ConfigStore::new();
    store.set("platform_name".to_string(), String::new());
    assert_eq!(store.get("platform_name").unwrap(), "");
}

#[test]
fn log_line_literal_format() {
    assert_eq!(format_log_line("Log Level", "info"), "# Log Level: info");
    assert_eq!(format_log_line("DB Password", ""), "# DB Password: ");
}
