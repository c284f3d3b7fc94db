use quill::json_config::{edit_json_config, json_config_has_quill, quill_entry, ConfigShapeError, Json};

fn s(x: &str) -> String {
    x.to_string()
}

fn get<'a>(entries: &'a [(String, Json)], key: &str) -> Option<&'a Json> {
    entries.iter().find(|(k, _)| k == key).map(|(_, v)| v)
}

fn object(doc: &Json) -> &Vec<(String, Json)> {
    match doc {
        Json::Object(e) => e,
        other => panic!("not an object: {other:?}"),
    }
}

fn config_with_github() -> Json {
    Json::Object(vec![
        (s("mcpServers"), Json::Object(vec![(s("github"), Json::Object(vec![(s("command"), Json::Str(s("gh-mcp")))]))])),
        (s("theme"), Json::Str(s("dark"))),
    ])
}

#[test]
fn enabling_creates_servers_and_entry_in_an_empty_config() {
    let out = edit_json_config(Json::Object(vec![]), true, "/test/quill").unwrap();
    assert!(json_config_has_quill(&out));
    let servers = object(get(object(&out), "mcpServers").unwrap());
    let entry = object(get(servers, "quill").unwrap());
    assert!(matches!(get(entry, "command"), Some(Json::Str(c)) if c == "/test/quill"));
    assert!(matches!(get(entry, "args"), Some(Json::Array(a)) if matches!(a.as_slice(), [Json::Str(m)] if m == "mcp")));
}

#[test]
fn edits_preserve_other_servers_and_top_level_keys() {
    let enabled = edit_json_config(config_with_github(), true, "/test/quill").unwrap();
    assert!(json_config_has_quill(&enabled));
    assert!(matches!(get(object(&enabled), "theme"), Some(Json::Str(t)) if t == "dark"));
    assert!(get(object(get(object(&enabled), "mcpServers").unwrap()), "github").is_some());

    let disabled = edit_json_config(enabled, false, "/test/quill").unwrap();
    assert!(!json_config_has_quill(&disabled));
    assert!(matches!(get(object(&disabled), "theme"), Some(Json::Str(t)) if t == "dark"));
    assert!(get(object(get(object(&disabled), "mcpServers").unwrap()), "github").is_some());
}

#[test]
fn configs_of_another_shape_are_refused() {
    assert_eq!(edit_json_config(Json::Array(vec![]), true, "/q").unwrap_err(), ConfigShapeError::NotObject);
    let bad = Json::Object(vec![(s("mcpServers"), Json::Number(s("3")))]);
    assert_eq!(edit_json_config(bad, true, "/q").unwrap_err(), ConfigShapeError::ServersNotObject);
    assert_eq!(ConfigShapeError::NotObject.message("/h/cfg.json"), "/h/cfg.json is not a JSON object at top level");
    assert_eq!(ConfigShapeError::ServersNotObject.message("/h/cfg.json"), "/h/cfg.json::mcpServers is not a JSON object");
    assert!(!json_config_has_quill(&Json::Null));
}

#[test]
fn entry_launches_the_binary_in_mcp_mode() {
    let e = quill_entry("/bin/quill");
    let fields = object(&e);
    assert_eq!(fields.len(), 2);
    assert_eq!(fields[0].0, "command");
    assert_eq!(fields[1].0, "args");
}
