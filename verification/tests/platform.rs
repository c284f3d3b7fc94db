use quill::platform::{
    bundle_identifier_for_build, cover_download_targets, default_log_level, parse_log_level,
    resolve_app_data_dir, resolve_log_dir, resolve_log_level, DirEnv, LogLevel, Platform,
};

fn env(home: Option<&str>, local: Option<&str>, appdata: Option<&str>, xdg: Option<&str>) -> DirEnv {
    DirEnv {
        home: home.map(String::from),
        local_app_data: local.map(String::from),
        app_data: appdata.map(String::from),
        xdg_data_home: xdg.map(String::from),
    }
}

#[test]
fn dev_builds_use_a_suffixed_identifier() {
    assert_eq!(bundle_identifier_for_build(true), "com.wycstudios.quill-dev");
    assert_eq!(bundle_identifier_for_build(false), "com.wycstudios.quill");
}

#[test]
fn log_dirs_per_platform() {
    let id = "com.wycstudios.quill";
    let e = env(Some("/Users/me"), Some("C:/Users/me/AppData/Local"), None, None);
    assert_eq!(resolve_log_dir(Platform::MacOs, id, &e).as_deref(), Some("/Users/me/Library/Logs/com.wycstudios.quill"));
    assert_eq!(resolve_log_dir(Platform::Windows, id, &e).as_deref(), Some("C:/Users/me/AppData/Local/com.wycstudios.quill/logs"));
    assert_eq!(resolve_log_dir(Platform::OtherUnix, id, &e).as_deref(), Some("/Users/me/.local/share/com.wycstudios.quill/logs"));
    let xdg = env(Some("/home/me"), None, None, Some("/xdg"));
    assert_eq!(resolve_log_dir(Platform::OtherUnix, id, &xdg).as_deref(), Some("/xdg/com.wycstudios.quill/logs"));
    assert_eq!(resolve_log_dir(Platform::Windows, id, &xdg), None);
}

#[test]
fn app_data_dirs_per_platform() {
    let id = "q";
    let e = env(Some("/Users/me"), None, Some("C:/Roaming"), None);
    assert_eq!(resolve_app_data_dir(Platform::MacOs, id, &e).as_deref(), Some("/Users/me/Library/Application Support/q"));
    assert_eq!(resolve_app_data_dir(Platform::Windows, id, &e).as_deref(), Some("C:/Roaming/q"));
    assert_eq!(resolve_app_data_dir(Platform::OtherUnix, id, &e).as_deref(), Some("/Users/me/.local/share/q"));
    assert_eq!(resolve_app_data_dir(Platform::MacOs, id, &env(None, None, None, None)), None);
}

#[test]
fn log_levels_parse_case_insensitively() {
    assert_eq!(parse_log_level("debug"), Some(LogLevel::Debug));
    assert_eq!(parse_log_level("WaRn"), Some(LogLevel::Warn));
    assert_eq!(parse_log_level("off"), Some(LogLevel::Off));
    assert_eq!(parse_log_level("verbose"), None);
    assert_eq!(resolve_log_level(Some("  trace \n"), LogLevel::Info), LogLevel::Trace);
    assert_eq!(resolve_log_level(Some("verbose"), LogLevel::Info), LogLevel::Info);
    assert_eq!(resolve_log_level(None, default_log_level(true)), LogLevel::Debug);
    assert_eq!(default_log_level(false), LogLevel::Info);
}

#[test]
fn evicted_covers_are_downloaded_by_real_name() {
    let names = vec![".a.jpg.icloud".to_string(), "b.png".to_string(), ".dotfile".to_string(), ".c.gif.icloud".to_string()];
    assert_eq!(cover_download_targets("/d/covers", &names), vec!["/d/covers/a.jpg", "/d/covers/c.gif"]);
}

#[test]
fn resolve_log_dir_uses_dev_suffix_in_debug() {
    let e = env(Some("/Users/me"), Some("C:/Users/me/AppData/Local"), None, Some("/xdg"));
    for debug in [true, false] {
        let expected_id = if debug { "com.wycstudios.quill-dev" } else { "com.wycstudios.quill" };
        for p in [Platform::MacOs, Platform::Windows, Platform::OtherUnix] {
            let dir_str = resolve_log_dir(p, bundle_identifier_for_build(debug), &e).unwrap();
            assert!(
                dir_str.contains(expected_id),
                "log dir {dir_str} should contain {expected_id} for this build",
            );
            if debug {
                let stripped = dir_str.replace("com.wycstudios.quill-dev", "");
                assert!(
                    !stripped.contains("com.wycstudios.quill"),
                    "debug build log dir {dir_str} leaks the prod identifier outside the -dev suffix",
                );
            }
        }
    }
}
