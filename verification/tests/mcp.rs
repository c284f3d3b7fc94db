use quill::mcp::{
    claude_code_path, codex_path, mcp_data_dir, notify_event_name, notify_path, notify_payload,
    require_write_access, write_access_enabled, write_access_value, Client, McpError, WriteDenied,
};

#[test]
fn client_parse_rejects_unknown() {
    assert!(matches!(Client::parse("claude_code"), Ok(Client::ClaudeCode)));
    assert!(matches!(Client::parse("codex"), Ok(Client::Codex)));
    assert!(Client::parse("cursor").is_err());
}

#[test]
fn unknown_client_message_quotes_the_name() {
    let err = Client::parse("cursor").unwrap_err();
    assert_eq!(
        err.message(),
        "unknown MCP client: \"cursor\" (expected claude_code or codex)"
    );
    let err = Client::parse("a\"b").unwrap_err();
    assert_eq!(
        err.message(),
        "unknown MCP client: \"a\\\"b\" (expected claude_code or codex)"
    );
}

#[test]
fn config_paths_sit_under_home() {
    let first_word = "claude_code".split('_').next().unwrap();
    assert_eq!(claude_code_path(Some("/Users/me")).unwrap(), format!("/Users/me/.{first_word}.json"));
    assert_eq!(codex_path(Some("/Users/me")).unwrap(), "/Users/me/.codex/config.toml");
    assert!(matches!(claude_code_path(None), Err(McpError::NoHome)));
    assert_eq!(McpError::NoHome.message(), "HOME env var not set");
}

#[test]
fn write_access_round_trips_through_the_setting() {
    for enabled in [true, false] {
        assert_eq!(write_access_enabled(Some(write_access_value(enabled))), enabled);
    }
    assert!(!write_access_enabled(None));
    assert!(!write_access_enabled(Some("TRUE")));
}

#[test]
fn write_tools_need_session_writer_and_live_setting() {
    assert_eq!(require_write_access(false, Some("true")), Err(WriteDenied::NotEnabledForSession));
    assert_eq!(require_write_access(true, Some("false")), Err(WriteDenied::Revoked));
    assert_eq!(require_write_access(true, None), Err(WriteDenied::Revoked));
    assert_eq!(require_write_access(true, Some("true")), Ok(()));
    assert!(WriteDenied::Revoked.message().starts_with("Write access was revoked."));
}

#[test]
fn notify_payload_and_routing() {
    let payload = notify_payload("books", "created", "b1", 1700000000123);
    assert_eq!(
        payload,
        r#"{"domain":"books","action":"created","id":"b1","ts":1700000000123}"#
    );
    assert_eq!(notify_event_name(&payload), Some("mcp:books-changed"));
    let coll = notify_payload("collections", "updated", "c1", -5);
    assert_eq!(notify_event_name(&coll), Some("mcp:collections-changed"));
    assert_eq!(notify_event_name(r#"{"domain":"vocab"}"#), None);
    assert_eq!(notify_event_name("not json"), None);
}

#[test]
fn notify_sentinel_only_for_writers() {
    assert_eq!(notify_path(true, "/data").as_deref(), Some("/data/.mcp-notify"));
    assert_eq!(notify_path(false, "/data"), None);
}

#[test]
fn stdio_server_data_dir_resolution() {
    let s = |x: &str| x.to_string();
    assert_eq!(mcp_data_dir(true, Some(s("/rec")), Some(s("/icloud")), s("/local")), "/rec");
    assert_eq!(mcp_data_dir(true, None, Some(s("/icloud")), s("/local")), "/icloud");
    assert_eq!(mcp_data_dir(true, None, None, s("/local")), "/local");
    assert_eq!(mcp_data_dir(false, Some(s("/rec")), Some(s("/icloud")), s("/local")), "/local");
}
