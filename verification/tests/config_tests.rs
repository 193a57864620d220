use gosh::config::{
    get_config_value, set_config_value, apply_settings_edit, get_settings_value,
    is_settings_bool, settings_row_count, toggle_settings_bool, CliConfig, ConfigError,
};

#[test]
fn defaults_match_documented_values() {
    let c = CliConfig::default();
    assert_eq!(c.engine.max_concurrent_downloads, 5);
    assert_eq!(c.engine.max_connections_per_download, 8);
    assert_eq!(c.engine.min_segment_size, 1024 * 1024);
    assert_eq!(c.engine.max_peers, 55);
    assert_eq!(c.engine.seed_ratio_tenths, 10);
    assert_eq!(c.tui.refresh_rate_ms, 250);
    assert_eq!(c.tui.theme, "dark");
    assert_eq!(c.general.log_level, "info");
}

#[test]
fn get_known_keys() {
    let c = CliConfig::default();
    assert_eq!(get_config_value(&c, "engine.max_concurrent_downloads").unwrap(), "5");
    assert_eq!(get_config_value(&c, "engine.global_download_limit").unwrap(), "unlimited");
    assert_eq!(get_config_value(&c, "engine.enable_dht").unwrap(), "true");
    assert_eq!(get_config_value(&c, "engine.seed_ratio").unwrap(), "1");
    assert_eq!(get_config_value(&c, "tui.theme").unwrap(), "dark");
}

#[test]
fn get_unknown_key_is_rejected() {
    let c = CliConfig::default();
    assert_eq!(get_config_value(&c, "general.unknown"), Err(ConfigError::UnknownKey));
}

#[test]
fn set_parses_each_kind_of_value() {
    let mut c = CliConfig::default();
    set_config_value(&mut c, "engine.max_concurrent_downloads", "9").unwrap();
    assert_eq!(c.engine.max_concurrent_downloads, 9);
    set_config_value(&mut c, "engine.global_download_limit", "2M").unwrap();
    assert_eq!(c.engine.global_download_limit, Some(2 * 1024 * 1024));
    set_config_value(&mut c, "engine.global_download_limit", "unlimited").unwrap();
    assert_eq!(c.engine.global_download_limit, None);
    set_config_value(&mut c, "engine.enable_pex", "false").unwrap();
    assert!(!c.engine.enable_pex);
    set_config_value(&mut c, "engine.seed_ratio", "2.5").unwrap();
    assert_eq!(c.engine.seed_ratio_tenths, 25);
    set_config_value(&mut c, "tui.theme", "light").unwrap();
    assert_eq!(c.tui.theme, "light");
}

#[test]
fn set_rejects_bad_values_and_keys() {
    let mut c = CliConfig::default();
    assert_eq!(
        set_config_value(&mut c, "engine.max_peers", "many"),
        Err(ConfigError::InvalidValue)
    );
    assert_eq!(set_config_value(&mut c, "nope", "1"), Err(ConfigError::UnknownKey));
    assert_eq!(c.engine.max_peers, 55);
}

#[test]
fn settings_rows_and_bools() {
    assert_eq!(settings_row_count(0), 3);
    assert_eq!(settings_row_count(1), 11);
    assert_eq!(settings_row_count(2), 5);
    assert!(is_settings_bool(1, 10));
    assert!(is_settings_bool(2, 0));
    assert!(!is_settings_bool(0, 0));
}

#[test]
fn toggle_and_edit_settings() {
    let mut c = CliConfig::default();
    toggle_settings_bool(&mut c, 2, 0);
    assert!(!c.engine.enable_dht);
    apply_settings_edit(&mut c, 1, 0, "12");
    assert_eq!(c.engine.max_concurrent_downloads, 12);
    apply_settings_edit(&mut c, 1, 0, "junk");
    assert_eq!(c.engine.max_concurrent_downloads, 12);
    assert_eq!(get_settings_value(&c, 1, 0), "12");
    assert_eq!(get_settings_value(&c, 2, 4), "1.0");
    assert_eq!(get_settings_value(&c, 2, 0), "OFF");
}
