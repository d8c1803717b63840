use agents_relay::config::{
    archive_dir_below, default_archive_dir, default_enabled, default_retention_days, read_flag_word,
    resolve_archive_dir, Config,
};
use agents_relay::failure::Failure;
use agents_relay::workspace::{default_cross_scope, WorkspaceConfig};

fn config() -> Config {
    Config { retention_days: 30, archive_dir: "/a".to_string(), enabled: true }
}

#[test]
fn the_user_starts_with_these_settings() {
    let c = Config::default();
    assert_eq!(c.retention_days, 30);
    assert!(c.enabled);
    assert!(c.archive_dir.ends_with("/.agents-relay/archive"));
    assert_eq!(c.archive_dir, default_archive_dir());
    assert_eq!(default_retention_days(), 30);
    assert!(default_enabled());
}

fn file(text: &str) -> Option<Result<String, Failure>> {
    Some(Ok(text.to_string()))
}

#[test]
fn settings_are_those_of_the_file() {
    let text = r#"{"retention_days": 7, "archive_dir": "~/x", "enabled": false, "colour": "red"}"#;
    let stored = Config { retention_days: 7, archive_dir: "~/x".to_string(), enabled: false };
    assert_eq!(Config::load(file(text)), Ok(stored));
    assert_eq!(Config::load(None), Ok(Config::default()));
    let e = Config::load(Some(Err(Failure::new("denied"))));
    assert_eq!(e, Err(Failure::new("denied")));
}

#[test]
fn settings_that_are_left_out_are_the_initial_ones() {
    let below = |text: &str| Config::load_below(file(text), Some("/h"));
    assert_eq!(below("{}"), Ok(Config::initial(Some("/h"))));
    assert_eq!(
        below(r#"{"enabled": false}"#),
        Ok(Config { enabled: false, ..Config::initial(Some("/h")) })
    );
    assert_eq!(
        below(r#"{"retention_days": 4294967295}"#),
        Ok(Config { retention_days: u32::MAX, ..Config::initial(Some("/h")) })
    );
    assert_eq!(Config::load_below(None, None), Ok(Config::initial(None)));
}

#[test]
fn a_file_of_another_kind_is_refused() {
    assert_eq!(
        Config::load(file("{")),
        Err(Failure::new("The settings file is not valid JSON"))
    );
    for text in [
        "3",
        r#"{"retention_days": "7"}"#,
        r#"{"retention_days": 7.0}"#,
        r#"{"retention_days": -1}"#,
        r#"{"retention_days": 4294967296}"#,
        r#"{"retention_days": null}"#,
        r#"{"archive_dir": 1}"#,
        r#"{"enabled": "yes"}"#,
    ] {
        assert_eq!(
            Config::load(file(text)),
            Err(Failure::new("The settings file does not hold settings")),
            "{text}"
        );
    }
}

#[test]
fn what_was_set_is_loaded_again() {
    let mut c = config();
    let saved = c.set_and_save("retention_days", "9").unwrap();
    assert_eq!(c.retention_days, 9);
    assert!(saved.path.ends_with("/.agents-relay/config.json"));
    assert_eq!(Config::load(Some(Ok(saved.text))), Ok(c.clone()));
    assert_eq!(
        c.save().text,
        "{\n  \"archive_dir\": \"/a\",\n  \"enabled\": true,\n  \"retention_days\": 9\n}"
    );
    assert!(c.set_and_save("retention_days", "x").is_err());
    assert_eq!(c.retention_days, 9);
}

#[test]
fn settings_are_changed() {
    let mut c = config();
    assert_eq!(c.set("retention_days", "7"), Ok(()));
    assert_eq!(c.set("archive_dir", "~/x"), Ok(()));
    assert_eq!(c.set("enabled", "no"), Ok(()));
    assert_eq!(c, Config { retention_days: 7, archive_dir: "~/x".to_string(), enabled: false });
    assert_eq!(c.set("enabled", "1"), Ok(()));
    assert!(c.enabled);
}

#[test]
fn wrong_settings_change_nothing() {
    let mut c = config();
    for (key, value, message) in [
        ("retention_days", "", "cannot parse integer from empty string"),
        ("retention_days", "x", "invalid digit found in string"),
        ("retention_days", "-1", "invalid digit found in string"),
        ("retention_days", "4294967296", "number too large to fit in target type"),
        ("enabled", "maybe", "Invalid value for enabled: maybe (use true/false)"),
        ("colour", "red", "Unknown config key: colour"),
    ] {
        assert_eq!(c.set(key, value), Err(Failure::new(message)));
        assert_eq!(c, config());
    }
}

#[test]
fn a_number_can_be_set_as_it_is_shown() {
    let mut c = config();
    assert_eq!(c.set("retention_days", "4294967295"), Ok(()));
    assert!(c.show_at("p").contains("retention_days: 4294967295\n"));
}

#[test]
fn settings_are_shown() {
    assert_eq!(
        config().show_at("/h/config.json"),
        "Config file: /h/config.json\nenabled:        true\nretention_days: 30\narchive_dir:    /a"
    );
    assert!(config().show().starts_with(&format!("Config file: {}\n", Config::config_path())));
    assert!(Config::config_path().ends_with("/.agents-relay/config.json"));
    assert!(Config::db_path().ends_with("/.agents-relay/memory.db"));
}

#[test]
fn a_tilde_is_the_home_directory() {
    let with = |dir: &str| Config { archive_dir: dir.to_string(), ..config() };
    let below = |dir: &str, home: Option<&str>| archive_dir_below(&with(dir), home);
    assert_eq!(below("~", Some("/h")), "/h");
    assert_eq!(below("~/x", Some("/h")), "/h/x");
    assert_eq!(below("~/x", None), "~/x");
    assert_eq!(below("~user/x", Some("/h")), "~user/x");
    assert_eq!(below("/a/~", Some("/h")), "/a/~");
    assert_eq!(below("", Some("/h")), "");
    let home = dirs::home_dir().map(|p| p.to_string_lossy().into_owned());
    for dir in ["~", "~/x", "/a/~"] {
        assert_eq!(resolve_archive_dir(&with(dir)), below(dir, home.as_deref()));
    }
}

#[test]
fn words_mean_yes_or_no() {
    for w in ["true", "1", "yes"] {
        assert_eq!(read_flag_word(w), Some(true));
    }
    for w in ["false", "0", "no"] {
        assert_eq!(read_flag_word(w), Some(false));
    }
    assert_eq!(read_flag_word("TRUE"), None);
}

#[test]
fn a_workspace_starts_with_these_settings() {
    let w = WorkspaceConfig::default();
    assert_eq!(w, WorkspaceConfig { cross_scope: "ask".to_string(), enabled: None });
    assert_eq!(default_cross_scope(), "ask");
}

#[test]
fn the_settings_of_a_workspace_are_those_of_its_file() {
    let text = r#"{"cross_scope": "deny", "enabled": false}"#;
    let stored = WorkspaceConfig { cross_scope: "deny".to_string(), enabled: Some(false) };
    assert_eq!(WorkspaceConfig::load(Some("/w"), Some(text)), stored);
    assert_eq!(WorkspaceConfig::load(None, Some(text)), WorkspaceConfig::default());
    assert_eq!(WorkspaceConfig::load(Some("/w"), None), WorkspaceConfig::default());
    for text in ["", "{", "[]", r#"{"cross_scope": 1}"#, r#"{"enabled": "no"}"#, "{}"] {
        assert_eq!(WorkspaceConfig::load(Some("/w"), Some(text)), WorkspaceConfig::default());
    }
    let w = WorkspaceConfig::load(Some("/w"), Some(r#"{"enabled": true}"#));
    assert_eq!(w, WorkspaceConfig { cross_scope: "ask".to_string(), enabled: Some(true) });
    let w = WorkspaceConfig::load(Some("/w"), Some(r#"{"cross_scope": "allow", "enabled": null}"#));
    assert_eq!(w, WorkspaceConfig { cross_scope: "allow".to_string(), enabled: None });
}

#[test]
fn the_settings_of_a_workspace_are_loaded_again() {
    assert_eq!(WorkspaceConfig::config_path("/w"), "/w/.agents-relay.json");
    for enabled in [None, Some(true), Some(false)] {
        let w = WorkspaceConfig { cross_scope: "deny".to_string(), enabled };
        let saved = w.save(Some("/w")).unwrap();
        assert_eq!(saved.path, "/w/.agents-relay.json");
        assert_eq!(WorkspaceConfig::load(Some("/w"), Some(&saved.text)), w);
        assert_eq!(w.save(None), Err(Failure::new("No workspace path to save config to")));
    }
    assert_eq!(
        WorkspaceConfig::default().save(Some("/w")).unwrap().text,
        "{\n  \"cross_scope\": \"ask\"\n}"
    );
}

#[test]
fn the_settings_of_a_workspace_are_changed() {
    let mut w = WorkspaceConfig::default();
    for v in ["allow", "deny", "ask"] {
        assert_eq!(w.set("cross_scope", v), Ok(()));
        assert_eq!(w.cross_scope, v);
    }
    assert_eq!(w.set("enabled", "yes"), Ok(()));
    assert_eq!(w.enabled, Some(true));
    let before = w.clone();
    for (key, value, message) in [
        ("cross_scope", "never", "Invalid value for cross_scope: never (use ask/allow/deny)"),
        ("enabled", "", "Invalid value for enabled:  (use true/false)"),
        ("retention_days", "1", "Unknown workspace config key: retention_days"),
    ] {
        assert_eq!(w.set(key, value), Err(Failure::new(message)));
        assert_eq!(w, before);
    }
}

#[test]
fn the_settings_of_a_workspace_are_shown() {
    let mut w = WorkspaceConfig::default();
    assert_eq!(
        w.show("/w"),
        "Workspace config: /w/.agents-relay.json\nenabled:     (inherit global)\ncross_scope: ask"
    );
    w.enabled = Some(false);
    assert!(w.show("/w").contains("\nenabled:     false\n"));
}

#[test]
fn archives_lie_below_the_home_directory() {
    assert_eq!(Config::initial(Some("/h")).archive_dir, "/h/.agents-relay/archive");
    assert_eq!(Config::initial(None).archive_dir, "./.agents-relay/archive");
}

#[test]
fn what_is_set_is_saved_in_its_place() {
    let mut c = config();
    let file = c.set_and_save("enabled", "false").unwrap();
    assert_eq!(file.path, Config::config_path());
    assert_eq!(file, c.save());
    let below = c.save_below(Some("/h"));
    assert_eq!(below.path, "/h/.agents-relay/config.json");
    assert_eq!(below.text, file.text);
    assert_eq!(Config::load(Some(Ok(file.text))), Ok(c));
}

#[test]
fn a_switch_keeps_the_other_settings() {
    let text = r#"{"retention_days": 7, "archive_dir": "/x"}"#;
    let off = Config::switch_below(file(text), false, Some("/h"));
    assert_eq!(off.path, "/h/.agents-relay/config.json");
    let stored = Config { retention_days: 7, archive_dir: "/x".to_string(), enabled: false };
    assert_eq!(Config::load_below(file(&off.text), None), Ok(stored));
    let initial = |enabled| Ok(Config { enabled, ..Config::initial(Some("/h")) });
    for contents in [None, file("{"), Some(Err(Failure::new("denied")))] {
        let off = Config::switch_below(contents, false, Some("/h"));
        assert_eq!(Config::load_below(file(&off.text), None), initial(false));
    }
    let again = Config::switch_below(file(&off.text), true, Some("/h"));
    assert_eq!(again, Config::switch_below(file(text), true, Some("/h")));
    let on = Config::switch(file(text), true);
    assert_eq!(on.path, Config::config_path());
    assert!(Config::load(file(&on.text)).unwrap().enabled);
}

#[test]
fn settings_may_stand_in_an_array() {
    let below = |text: &str| Config::load_below(file(text), Some("/h"));
    let all = Config { retention_days: 7, archive_dir: "/x".to_string(), enabled: false };
    assert_eq!(below(r#"[7, "/x", false]"#), Ok(all));
    assert_eq!(below("[7]"), Ok(Config { retention_days: 7, ..Config::initial(Some("/h")) }));
    assert_eq!(below("[]"), Ok(Config::initial(Some("/h"))));
    assert!(below(r#"[7, "/x", false, 1]"#).is_err());
    assert!(below(r#"["7"]"#).is_err());
    let allow = |enabled| WorkspaceConfig { cross_scope: "allow".to_string(), enabled };
    assert_eq!(WorkspaceConfig::load(Some("/w"), Some(r#"["allow", true]"#)), allow(Some(true)));
    assert_eq!(WorkspaceConfig::load(Some("/w"), Some(r#"["allow", null]"#)), allow(None));
    for text in [r#"["allow"]"#, r#"["allow", true, 1]"#, "[]"] {
        assert_eq!(WorkspaceConfig::load(Some("/w"), Some(text)), WorkspaceConfig::default());
    }
}
