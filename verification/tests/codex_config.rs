use quill::codex_config::{codex_config_edit, codex_config_enabled};

fn parse(text: &str) -> toml_edit::DocumentMut {
    text.parse().unwrap()
}

#[test]
fn codex_write_creates_dir_and_file_when_absent() {
    let text = codex_config_edit(None, true, "/test/quill").unwrap();
    let doc = parse(&text);
    assert_eq!(doc["mcp_servers"]["quill"]["command"].as_str(), Some("/test/quill"));
    assert_eq!(doc["mcp_servers"]["quill"]["args"].as_array().unwrap().iter().map(|v| v.as_str().unwrap()).collect::<Vec<_>>(), vec!["mcp"]);
    assert!(codex_config_enabled(&text).unwrap());
}

#[test]
fn codex_write_preserves_other_tables_and_top_level_keys() {
    let raw = "model = \"gpt-5\"\n\n[mcp_servers.github]\ncommand = \"gh-mcp\"\nargs = []\n";
    let after = codex_config_edit(Some(raw), true, "/test/quill").unwrap();
    let doc = parse(&after);
    assert_eq!(doc["model"].as_str(), Some("gpt-5"));
    assert_eq!(doc["mcp_servers"]["github"]["command"].as_str(), Some("gh-mcp"));
    assert_eq!(doc["mcp_servers"]["quill"]["command"].as_str(), Some("/test/quill"));

    let after2 = codex_config_edit(Some(&after), false, "/test/quill").unwrap();
    let doc2 = parse(&after2);
    assert!(doc2["mcp_servers"].get("quill").is_none());
    assert_eq!(doc2["mcp_servers"]["github"]["command"].as_str(), Some("gh-mcp"));
    assert_eq!(doc2["model"].as_str(), Some("gpt-5"));
    assert!(!codex_config_enabled(&after2).unwrap());
}

#[test]
fn codex_write_errors_on_malformed_toml_without_overwriting() {
    assert!(codex_config_edit(Some("[unclosed-table"), true, "/test/quill").is_err());
    assert!(codex_config_enabled("[unclosed-table").is_err());
}

#[test]
fn codex_edit_keeps_comments_and_replaces_a_non_table_servers_key() {
    let raw = "# my settings\nmodel = \"o3\" # fast\n";
    let out = codex_config_edit(Some(raw), true, "/q").unwrap();
    assert!(out.starts_with("# my settings\nmodel = \"o3\" # fast\n"));
    let replaced = codex_config_edit(Some("mcp_servers = 3\n"), true, "/q").unwrap();
    assert!(codex_config_enabled(&replaced).unwrap());
    assert_eq!(parse(&replaced)["mcp_servers"]["quill"]["command"].as_str(), Some("/q"));
    assert!(!codex_config_enabled("").unwrap());
    assert!(!codex_config_enabled("mcp_servers = { quill = 1 }").unwrap());
}
