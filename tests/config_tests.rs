use rofi_keys::config::{
    config_or_default, create_default_config, default_config_path, expand_path, menu_from_config,
    resolve_config_path, Config, ConfigError, MenuEntryConfig,
};

fn entry(key: &str, label: &str, command: &str) -> MenuEntryConfig {
    MenuEntryConfig { key: key.to_string(), label: label.to_string(), command: command.to_string() }
}

#[test]
fn default_config_has_five_entries() {
    let c = create_default_config();
    assert_eq!(c.theme, None);
    assert_eq!(c.menu_title, Some("Applications".to_string()));
    let got: Vec<(&str, &str, &str)> = c
        .entries
        .iter()
        .map(|e| (e.key.as_str(), e.label.as_str(), e.command.as_str()))
        .collect();
    assert_eq!(
        got,
        vec![
            ("f", "Firefox", "firefox"),
            ("p", "Firefox Private", "firefox --private-window"),
            ("m", "MPV", "mpv"),
            ("v", "MPV (clipboard)", "mpv \"$(xclip -o)\""),
            ("t", "Terminal", "x-terminal-emulator"),
        ]
    );
}

#[test]
fn expand_home_relative_theme() {
    assert_eq!(expand_path("~/themes/x.rasi", Some("/home/u")), "/home/u/themes/x.rasi");
}

#[test]
fn expand_leaves_other_paths() {
    assert_eq!(expand_path("/etc/x.rasi", Some("/home/u")), "/etc/x.rasi");
    assert_eq!(expand_path("~user/x.rasi", Some("/home/u")), "~user/x.rasi");
    assert_eq!(expand_path("~", Some("/home/u")), "~");
    assert_eq!(expand_path("", Some("/home/u")), "");
    assert_eq!(expand_path("themes/~/x", Some("/home/u")), "themes/~/x");
}

#[test]
fn expand_without_home_is_unchanged() {
    assert_eq!(expand_path("~/themes/x.rasi", None), "~/themes/x.rasi");
}

#[test]
fn default_path_under_home() {
    let p = default_config_path(Some("/home/u"));
    assert!(matches!(p, Ok(ref s) if s == "/home/u/.config/rofi-keys/config.json"));
    let q = default_config_path(Some("/home/u/"));
    assert!(matches!(q, Ok(ref s) if s == "/home/u/.config/rofi-keys/config.json"));
}

#[test]
fn default_path_without_home_fails() {
    assert!(matches!(default_config_path(None), Err(ConfigError::HomeNotFound)));
}

#[test]
fn explicit_path_wins() {
    let p = resolve_config_path(Some("/tmp/c.json".to_string()), None);
    assert!(matches!(p, Ok(ref s) if s == "/tmp/c.json"));
    let q = resolve_config_path(None, Some("/root"));
    assert!(matches!(q, Ok(ref s) if s == "/root/.config/rofi-keys/config.json"));
    assert!(matches!(resolve_config_path(None, None), Err(ConfigError::HomeNotFound)));
}

#[test]
fn failed_load_falls_back_to_default() {
    let c = config_or_default(Err(ConfigError::ParseFailure("eof".to_string())));
    assert_eq!(c.entries.len(), 5);
    assert_eq!(c.menu_title, Some("Applications".to_string()));
    let d = config_or_default(Err(ConfigError::ReadFailure("denied".to_string())));
    assert_eq!(d.entries[4].label, "Terminal");
}

#[test]
fn successful_load_is_kept() {
    let cfg = Config { theme: None, menu_title: Some("Mine".to_string()), entries: vec![entry("z", "Z", "zz")] };
    let c = config_or_default(Ok(cfg));
    assert_eq!(c.menu_title, Some("Mine".to_string()));
    assert_eq!(c.entries.len(), 1);
    assert_eq!(c.entries[0].command, "zz");
}

#[test]
fn menu_from_config_builds_entries() {
    let cfg = Config {
        theme: Some("~/themes/x.rasi".to_string()),
        menu_title: None,
        entries: vec![entry("firefox", "Firefox", "firefox"), entry("", "Nothing", "none"), entry("t", "Terminal", "term")],
    };
    let m = menu_from_config(&cfg, Some("/home/u"));
    assert_eq!(m.title, "Shortcuts");
    assert_eq!(m.theme, Some("/home/u/themes/x.rasi".to_string()));
    assert_eq!(m.entries.len(), 2);
    assert_eq!(m.entries[0].key, 'f');
    assert_eq!(m.entries[1].key, 't');
    assert_eq!(m.entries[1].command, "term");
}

#[test]
fn end_to_end_selection() {
    let cfg = Config {
        theme: None,
        menu_title: Some("Apps".to_string()),
        entries: vec![entry("f", "Firefox", "firefox"), entry("t", "Terminal", "x-terminal-emulator")],
    };
    let m = menu_from_config(&cfg, None);
    assert_eq!(m.title, "Apps");
    assert_eq!(m.generate_rofi_input(), "[f] Firefox\n[t] Terminal");
    assert_eq!(m.command_for_exit_code(10), Some("firefox".to_string()));
    assert_eq!(m.command_for_exit_code(0), None);
}
