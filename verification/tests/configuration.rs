use liment::calendar::format_absolute_time_local;
use liment::config::{
    config_path_from, create_providers, get_config_path, is_content_change, Config, ConfigError,
    FileEventKind, ProviderKind, ReloadDebounce,
};
use liment::provider::{ClaudeCodeSettings, CliproxyClaudeSettings};
use liment::render::DisplayConfig;
use liment::text::{str_eq, trim_trailing_slashes};

#[test]
fn default_config_selects_direct_provider() {
    let cfg = Config::default();
    assert_eq!(cfg.menubar_provider, 0);
    assert_eq!(cfg.providers, vec![ProviderKind::ClaudeCode(ClaudeCodeSettings { token: None })]);
    assert_eq!(
        create_providers(&cfg),
        Ok(ProviderKind::ClaudeCode(ClaudeCodeSettings { token: None }))
    );
}

#[test]
fn empty_provider_list_is_rejected() {
    let cfg = Config { menubar_provider: 0, providers: vec![] };
    assert_eq!(create_providers(&cfg), Err(ConfigError::NoProviders));
}

#[test]
fn menubar_index_out_of_range_is_rejected() {
    let cfg = Config {
        menubar_provider: 2,
        providers: vec![ProviderKind::Debug, ProviderKind::Debug],
    };
    assert_eq!(create_providers(&cfg), Err(ConfigError::MenubarIndexOutOfRange));
}

#[test]
fn menubar_index_selects_provider() {
    let proxy = ProviderKind::CliproxyClaude(CliproxyClaudeSettings {
        base_url: "http://localhost:8317".to_string(),
        management_token: "management-key".to_string(),
        auth_index: "0".to_string(),
    });
    let cfg = Config {
        menubar_provider: 1,
        providers: vec![ProviderKind::Debug, proxy.clone()],
    };
    assert_eq!(create_providers(&cfg), Ok(proxy));
}

#[test]
fn config_path_has_fixed_tail() {
    let p = get_config_path();
    assert!(p.ends_with("/liment/providers.toml"));
}

#[test]
fn config_path_under_base() {
    assert_eq!(
        config_path_from(Some("/home/someone/.config".to_string())),
        "/home/someone/.config/liment/providers.toml"
    );
    assert_eq!(config_path_from(None), "~/.config/liment/providers.toml");
}

#[test]
fn content_change_events() {
    assert!(is_content_change(&FileEventKind::DataModified));
    assert!(is_content_change(&FileEventKind::NameModified));
    assert!(is_content_change(&FileEventKind::Created));
    assert!(!is_content_change(&FileEventKind::Other));
}

#[test]
fn reload_debounce_absorbs_bursts() {
    let mut d = ReloadDebounce::new(1_000);
    // The first event reloads.
    assert!(d.note_change(1_000));
    // An atomic-save burst 50 ms and 150 ms later is absorbed.
    assert!(!d.note_change(1_050));
    assert!(!d.note_change(1_150));
    // 199 ms after the accepted reload: still too soon.
    assert!(!d.note_change(1_199));
    // 200 ms after: accepted again.
    assert!(d.note_change(1_200));
    assert!(!d.note_change(1_399));
    assert!(d.note_change(1_400));
}

#[test]
fn default_display_config() {
    let c = DisplayConfig::default();
    assert_eq!(c.display_mode, liment::render::DisplayMode::Usage);
    assert!(!c.show_period_percentage);
    assert_eq!(c.reset_time_format, liment::render::DateTimeFormat::Relative);
    assert!(!c.monochrome_icon);
    assert_eq!(c.refetch_interval_seconds, 60);
}

#[test]
fn local_absolute_time_has_fixed_shape() {
    // The system zone decides the exact digits; the shape is fixed.
    let s = format_absolute_time_local(1_705_321_800);
    assert_eq!(s.len(), 12);
    assert_eq!(&s[2..3], ".");
    assert_eq!(&s[5..7], ", ");
    assert_eq!(&s[9..10], ":");
}

#[test]
fn string_helpers() {
    assert!(str_eq("abc", "abc"));
    assert!(!str_eq("abc", "abd"));
    assert!(!str_eq("abc", "abcd"));
    assert!(str_eq("", ""));
    assert_eq!(trim_trailing_slashes("http://x//"), "http://x");
    assert_eq!(trim_trailing_slashes("///"), "");
    assert_eq!(trim_trailing_slashes("plain"), "plain");
}
