use quill::settings::{
    is_sensitive_key, migrate_secret_step, secrets_prefix_pattern, sensitive_key_list, setting_store,
    with_api_key, SettingStore,
};
use quill::schema::{data_dir_prefix, migration_plan, relative_path, MigrationRun};

#[test]
fn secrets_are_routed_to_the_local_store() {
    for k in ["ai_api_key", "oauth_access_token", "oauth_refresh_token", "oauth_expires_at", "oauth_account_id"] {
        assert!(is_sensitive_key(k));
        assert_eq!(setting_store(k), SettingStore::Secrets);
    }
    assert!(!is_sensitive_key("language"));
    assert_eq!(setting_store("ai_model"), SettingStore::Settings);
    assert_eq!(secrets_prefix_pattern("oauth_"), "oauth_%");
}

#[test]
fn migration_moves_each_secret_once() {
    let m = migrate_secret_step(true, false);
    assert!(m.insert_into_secrets && m.delete_from_settings);
    let m = migrate_secret_step(true, true);
    assert!(!m.insert_into_secrets && m.delete_from_settings);
    let m = migrate_secret_step(false, true);
    assert!(!m.insert_into_secrets && !m.delete_from_settings);
}

#[test]
fn api_key_is_merged_into_the_listing() {
    let pairs = vec![
        ("language".to_string(), "en".to_string()),
        ("ai_api_key".to_string(), "stale".to_string()),
    ];
    let merged = with_api_key(pairs.clone(), Some("sk-live".to_string()));
    assert_eq!(merged, vec![
        ("language".to_string(), "en".to_string()),
        ("ai_api_key".to_string(), "sk-live".to_string()),
    ]);
    assert_eq!(with_api_key(pairs.clone(), None), pairs);
}

#[test]
fn migrations_run_in_order_from_the_recorded_version() {
    let versions = vec![1, 2, 3, 4, 5, 6];
    let plan = migration_plan(&versions, 3, i64::MAX);
    assert_eq!(plan, vec![
        MigrationRun { version: 4, tolerate_failure: true },
        MigrationRun { version: 5, tolerate_failure: true },
        MigrationRun { version: 6, tolerate_failure: false },
    ]);
    assert_eq!(migration_plan(&versions, 0, 2).len(), 2);
    assert!(migration_plan(&versions, 6, i64::MAX).is_empty());
}

#[test]
fn absolute_book_paths_become_relative() {
    let prefix = data_dir_prefix("/Users/me/data/");
    assert_eq!(prefix, "/Users/me/data/");
    assert_eq!(relative_path(&prefix, "/Users/me/data/books/a.epub"), "books/a.epub");
    assert_eq!(relative_path(&prefix, "/elsewhere/a.epub"), "/elsewhere/a.epub");
    assert_eq!(data_dir_prefix("/d"), "/d/");
}

/// Runs the migration of the sensitive keys between two tables, one step
/// per key, as the app does against its two databases.
fn migrate_tables(settings: &rusqlite::Connection, secrets: &rusqlite::Connection) {
    for key in sensitive_key_list() {
        let in_settings: Option<String> = settings
            .query_row("SELECT value FROM settings WHERE key = ?1", [key], |r| r.get(0))
            .ok();
        let in_secrets = secrets
            .query_row("SELECT value FROM secrets WHERE key = ?1", [key], |r| r.get::<_, String>(0))
            .is_ok();
        let step = migrate_secret_step(in_settings.is_some(), in_secrets);
        if let (true, Some(v)) = (step.insert_into_secrets, in_settings.as_ref()) {
            secrets.execute("INSERT INTO secrets (key, value) VALUES (?1, ?2)", [key, v.as_str()]).unwrap();
        }
        if step.delete_from_settings {
            settings.execute("DELETE FROM settings WHERE key = ?1", [key]).unwrap();
        }
    }
}

fn rows(conn: &rusqlite::Connection, table: &str) -> Vec<(String, String)> {
    let mut stmt = conn.prepare(&format!("SELECT key, value FROM {table} ORDER BY key")).unwrap();
    stmt.query_map([], |r| Ok((r.get(0)?, r.get(1)?))).unwrap().map(|r| r.unwrap()).collect()
}

#[test]
fn secret_migration_moves_keys_out_of_settings_once() {
    let settings = rusqlite::Connection::open_in_memory().unwrap();
    let secrets = rusqlite::Connection::open_in_memory().unwrap();
    settings.execute_batch("CREATE TABLE settings (key TEXT PRIMARY KEY, value TEXT NOT NULL);").unwrap();
    secrets.execute_batch("CREATE TABLE secrets (key TEXT PRIMARY KEY, value TEXT NOT NULL);").unwrap();
    settings
        .execute_batch("INSERT INTO settings VALUES ('ai_api_key', 'from-settings'), ('theme', 'dark');")
        .unwrap();
    let keys = sensitive_key_list();
    let other = keys.iter().find(|k| **k != "ai_api_key").copied();
    if let Some(k) = other {
        settings.execute("INSERT INTO settings VALUES (?1, 'old')", [k]).unwrap();
        secrets.execute("INSERT INTO secrets VALUES (?1, 'kept')", [k]).unwrap();
    }
    migrate_tables(&settings, &secrets);
    assert_eq!(rows(&settings, "settings"), vec![("theme".to_string(), "dark".to_string())]);
    let mut expected = vec![("ai_api_key".to_string(), "from-settings".to_string())];
    if let Some(k) = other {
        expected.push((k.to_string(), "kept".to_string()));
        expected.sort();
    }
    assert_eq!(rows(&secrets, "secrets"), expected);
    // A second run changes nothing.
    migrate_tables(&settings, &secrets);
    assert_eq!(rows(&settings, "settings"), vec![("theme".to_string(), "dark".to_string())]);
    assert_eq!(rows(&secrets, "secrets"), expected);
}
