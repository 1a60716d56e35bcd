use base_dirs::{BaseDirs, Dir, Env, OsFamily, home};

fn unset_env() -> Env {
    Env {
        local_app_data: None,
        user_profile: None,
        home: None,
        xdg_config_home: None,
        xdg_data_home: None,
        xdg_state_home: None,
    }
}

fn segs(parts: &[&str]) -> Vec<String> {
    parts.iter().map(|s| s.to_string()).collect()
}

#[test]
fn lowercases_identity() {
    let b = BaseDirs::new("MyCo", "CoolApp", "Net.MyCo.CoolApp");
    assert_eq!(b.company(), "myco");
    assert_eq!(b.app(), "coolapp");
    assert_eq!(b.bundle_id(), "net.myco.coolapp");
}

#[test]
fn accepts_empty_identity() {
    let b = BaseDirs::new("", "", "");
    assert_eq!(b.company(), "");
    assert_eq!(b.app(), "");
    assert_eq!(b.bundle_id(), "");
}

#[test]
fn unix_settings_with_custom_config_home() {
    let b = BaseDirs::new("MyCo", "App", "net.myco.app");
    let mut env = unset_env();
    env.xdg_config_home = Some("/custom".to_string());
    let d = b.settings_dir(OsFamily::Unix, &env);
    assert_eq!(d.root, "/custom");
    assert_eq!(d.segments, segs(&["myco", "app"]));
}

#[test]
fn unix_settings_defaults_under_home() {
    let b = BaseDirs::new("MyCo", "App", "net.myco.app");
    let mut env = unset_env();
    env.home = Some("/home/u".to_string());
    let d = b.settings_dir(OsFamily::Unix, &env);
    assert_eq!(d.root, "/home/u");
    assert_eq!(d.segments, segs(&[".config", "myco", "app"]));
}

#[test]
fn unix_settings_has_no_purpose_suffix() {
    let b = BaseDirs::new("MyCo", "App", "net.myco.app");
    let mut env = unset_env();
    env.home = Some("/home/u".to_string());
    let d = b.settings_dir(OsFamily::Unix, &env);
    assert_eq!(d.segments.last().unwrap(), "app");
}

#[test]
fn unix_saves_ends_in_saves_segment() {
    let b = BaseDirs::new("MyCo", "App", "net.myco.app");
    let mut env = unset_env();
    env.home = Some("/home/u".to_string());
    let d = b.saves_dir(OsFamily::Unix, &env);
    assert_eq!(d.root, "/home/u");
    assert_eq!(d.segments, segs(&[".local", "share", "myco", "app", "saves"]));

    env.xdg_data_home = Some("/data".to_string());
    let d2 = b.saves_dir(OsFamily::Unix, &env);
    assert_eq!(d2.root, "/data");
    assert_eq!(d2.segments, segs(&["myco", "app", "saves"]));
}

#[test]
fn unix_logs_ends_in_logs_segment() {
    let b = BaseDirs::new("MyCo", "App", "net.myco.app");
    let mut env = unset_env();
    env.home = Some("/home/u".to_string());
    let d = b.logs_dir(OsFamily::Unix, &env);
    assert_eq!(d.root, "/home/u");
    assert_eq!(d.segments, segs(&[".local", "state", "myco", "app", "logs"]));

    env.xdg_state_home = Some("/state".to_string());
    let d2 = b.logs_dir(OsFamily::Unix, &env);
    assert_eq!(d2.root, "/state");
    assert_eq!(d2.segments, segs(&["myco", "app", "logs"]));
}

#[test]
fn windows_settings_under_local_app_data() {
    let b = BaseDirs::new("MyCo", "App", "net.myco.app");
    let mut env = unset_env();
    env.local_app_data = Some("C:\\Users\\me\\AppData\\Local".to_string());
    let d = b.settings_dir(OsFamily::Windows, &env);
    assert_eq!(d.root, "C:\\Users\\me\\AppData\\Local");
    assert_eq!(d.segments, segs(&["myco", "app", "settings"]));
}

#[test]
fn windows_settings_fallback_without_local_app_data() {
    let b = BaseDirs::new("MyCo", "App", "net.myco.app");
    let env = unset_env();
    let d = b.settings_dir(OsFamily::Windows, &env);
    assert_eq!(d.root, "C:\\Users\\Default\\AppData\\Local");
    assert_eq!(d.segments, segs(&["myco", "app", "settings"]));
}

#[test]
fn windows_saves_under_saved_games() {
    let b = BaseDirs::new("MyCo", "App", "net.myco.app");
    let mut env = unset_env();
    env.user_profile = Some("C:\\Users\\me".to_string());
    let d = b.saves_dir(OsFamily::Windows, &env);
    assert_eq!(d.root, "C:\\Users\\me");
    assert_eq!(d.segments, segs(&["Saved Games", "myco", "app"]));
}

#[test]
fn windows_logs_under_local_app_data() {
    let b = BaseDirs::new("MyCo", "App", "net.myco.app");
    let mut env = unset_env();
    env.local_app_data = Some("C:\\lad".to_string());
    let d = b.logs_dir(OsFamily::Windows, &env);
    assert_eq!(d.root, "C:\\lad");
    assert_eq!(d.segments, segs(&["myco", "app", "logs"]));
}

#[test]
fn mac_dirs_use_bundle_id_only() {
    let b = BaseDirs::new("MyCo", "App", "Net.MyCo.App");
    let mut env = unset_env();
    env.home = Some("/Users/me".to_string());

    let s = b.settings_dir(OsFamily::MacOs, &env);
    assert_eq!(s.root, "/Users/me");
    assert_eq!(
        s.segments,
        segs(&["Library", "Application Support", "net.myco.app", "settings"])
    );

    let v = b.saves_dir(OsFamily::MacOs, &env);
    assert_eq!(
        v.segments,
        segs(&["Library", "Application Support", "net.myco.app", "saves"])
    );

    let l = b.logs_dir(OsFamily::MacOs, &env);
    assert_eq!(l.segments, segs(&["Library", "Logs", "net.myco.app"]));
}

#[test]
fn home_falls_back_to_filesystem_root() {
    let env = unset_env();
    for family in [OsFamily::Windows, OsFamily::MacOs, OsFamily::Unix] {
        let h = home(family, &env);
        assert_eq!(h.root, "/");
        assert!(h.segments.is_empty());
        assert!(!h.root.is_empty());
    }
}

#[test]
fn home_prefers_userprofile_on_windows() {
    let mut env = unset_env();
    env.user_profile = Some("C:\\Users\\me".to_string());
    env.home = Some("/home/u".to_string());
    assert_eq!(home(OsFamily::Windows, &env).root, "C:\\Users\\me");
    assert_eq!(home(OsFamily::Unix, &env).root, "/home/u");
    assert_eq!(home(OsFamily::MacOs, &env).root, "/home/u");
}

#[test]
fn purpose_paths_join_one_filename_segment() {
    let b = BaseDirs::new("MyCo", "App", "net.myco.app");
    let mut env = unset_env();
    env.home = Some("/home/u".to_string());
    for family in [OsFamily::Windows, OsFamily::MacOs, OsFamily::Unix] {
        assert_eq!(
            b.settings_path(family, &env, "state.json"),
            b.settings_dir(family, &env).join("state.json")
        );
        assert_eq!(
            b.saves_path(family, &env, "slot1.sav"),
            b.saves_dir(family, &env).join("slot1.sav")
        );
        assert_eq!(
            b.logs_path(family, &env, "run.log"),
            b.logs_dir(family, &env).join("run.log")
        );
    }
}

#[test]
fn join_appends_segment_atomically() {
    let d = Dir {
        root: "/base".to_string(),
        segments: Vec::new(),
    };
    let j = d.join("a/b");
    assert_eq!(j.root, "/base");
    assert_eq!(j.segments, segs(&["a/b"]));
}

#[test]
fn resolvers_are_idempotent() {
    let b = BaseDirs::new("MyCo", "App", "net.myco.app");
    let mut env = unset_env();
    env.home = Some("/home/u".to_string());
    env.xdg_config_home = Some("/cfg".to_string());
    for family in [OsFamily::Windows, OsFamily::MacOs, OsFamily::Unix] {
        assert_eq!(b.settings_dir(family, &env), b.settings_dir(family, &env));
        assert_eq!(b.saves_dir(family, &env), b.saves_dir(family, &env));
        assert_eq!(b.logs_dir(family, &env), b.logs_dir(family, &env));
    }
    assert_eq!(home(OsFamily::Unix, &env), home(OsFamily::Unix, &env));
}

#[test]
fn purpose_dirs_sit_strictly_under_their_base() {
    let b = BaseDirs::new("MyCo", "App", "net.myco.app");
    let mut env = unset_env();
    env.xdg_config_home = Some("/cfg".to_string());
    let d = b.settings_dir(OsFamily::Unix, &env);
    assert_eq!(d.root, "/cfg");
    assert!(!d.segments.is_empty());
}
