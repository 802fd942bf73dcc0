use variable_explorer::{handle, ConfigStore, Request};

fn full_store() -> ConfigStore {
    let mut store = ConfigStore::new();
    store.set("log_level".to_string(), "info".to_string());
    store.set("platform_name".to_string(), "acme".to_string());
    store.set("db_password".to_string(), "secret".to_string());
    store
}

fn any_request() -> Request {
    Request { method: "GET".to_string(), path: "/".to_string(), body: Vec::new() }
}

#[test]
fn success_path() {
    let store = full_store();
    let out = handle(&store, &any_request()).unwrap();
    assert_eq!(out.response.status, 200);
    assert_eq!(out.response.headers.len(), 1);
    assert_eq!(out.response.headers[0].0, "content-type");
    assert_eq!(out.response.headers[0].1, "text/plain");
    assert_eq!(out.response.body, "Hell from acme");
}

#[test]
fn missing_key_fails() {
    let mut store = ConfigStore::new();
    store.set("log_level".to_string(), "info".to_string());
    store.set("db_password".to_string(), "secret".to_string());
    let err = handle(&store, &any_request()).unwrap_err();
    assert_eq!(err.key, "platform_name");
}

#[test]
fn missing_last_key_still_fails() {
    let mut store = ConfigStore::new();
    store.set("log_level".to_string(), "info".to_string());
    store.set("platform_name".to_string(), "acme".to_string());
    let err = handle(&store, &any_request()).unwrap_err();
    assert_eq!(err.key, "db_password");
}

#[test]
fn empty_store_fails_on_first_lookup() {
    let store = ConfigStore::new();
    let err = handle(&store, &any_request()).unwrap_err();
    assert_eq!(err.key, "log_level");
}

#[test]
fn request_contents_are_irrelevant() {
    let store = full_store();
    let first = Request {
        method: "POST".to_string(),
        path: "/a/b".to_string(),
        body: vec![1, 2, 3],
    };
    let second = Request {
        method: "DELETE".to_string(),
        path: "/other".to_string(),
        body: vec![9, 9],
    };
    let out_first = handle(&store, &first).unwrap();
    let out_second = handle(&store, &second).unwrap();
    assert_eq!(out_first.response.body, out_second.response.body);
    assert_eq!(out_first.response.status, out_second.response.status);
    assert_eq!(out_first.logs, out_second.logs);
}

#[test]
fn log_lines_in_lookup_order() {
    let store = full_store();
    let out = handle(&store, &any_request()).unwrap();
    assert_eq!(out.logs.len(), 3);
    assert_eq!(out.logs[0], "# Log Level: info");
    assert_eq!(out.logs[1], "# Platform name: acme");
    assert_eq!(out.logs[2], "# DB Password: secret");
}

#[test]
fn no_additional_headers() {
    let store = full_store();
    let out = handle(&store, &any_request()).unwrap();
    assert_eq!(out.response.headers.len(), 1);
    assert_eq!(
        out.response.headers[0],
        ("content-type".to_string(), "text/plain".to_string())
    );
}

#[test]
fn later_set_overrides_earlier_value() {
    let mut store = full_store();
    store.set("platform_name".to_string(), "globex".to_string());
    let out = handle(&store, &any_request()).unwrap();
    assert_eq!(out.response.body, "Hell from globex");
    assert_eq!(out.logs[1], "# Platform name: globex");
}
