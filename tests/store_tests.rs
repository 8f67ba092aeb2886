use ghostcord_lite::{
    config_source, AppConfig, AppState, ConfigSource, SettingsStore, StateStore, WindowBounds,
};

fn sample() -> AppConfig {
    AppConfig {
        theme_path: None,
        theme_css: Some("body{}".to_string()),
        enable_theme: true,
        enable_blockers: false,
        enable_perf_css: false,
        enable_vencord: true,
    }
}

#[test]
fn new_settings_store_holds_sanitized_defaults() {
    let store = SettingsStore::new();
    assert_eq!(store.get(), AppConfig::default().sanitize());
    assert!(store.get().enable_blockers);
}

#[test]
fn set_stores_and_returns_sanitized_value() {
    let mut store = SettingsStore::new();
    let out = store.set(AppConfig::default());
    assert_eq!(out, AppConfig::default().sanitize());
    assert_eq!(store.get(), out);
    let out = store.set(sample());
    assert_eq!(out, sample());
    assert_eq!(store.get(), sample());
}

#[test]
fn config_source_prefers_canonical_then_legacy() {
    assert_eq!(config_source(true, true), ConfigSource::Canonical);
    assert_eq!(config_source(true, false), ConfigSource::Canonical);
    assert_eq!(config_source(false, true), ConfigSource::Legacy);
    assert_eq!(config_source(false, false), ConfigSource::Defaults);
}

#[test]
fn load_without_files_uses_defaults_and_creates_file() {
    let mut store = SettingsStore::new();
    let loaded = store.load(ConfigSource::Defaults, None);
    assert_eq!(loaded.config, AppConfig::default().sanitize());
    assert_eq!(loaded.source, ConfigSource::Defaults);
    assert!(loaded.write_canonical);
    assert_eq!(store.get(), loaded.config);
}

#[test]
fn save_then_load_returns_sanitized_value() {
    let mut store = SettingsStore::new();
    let c = AppConfig::default();
    let written = store.set(c.clone());
    let mut later = SettingsStore::new();
    let source = config_source(true, true);
    let loaded = later.load(source, Some(written.clone()));
    assert_eq!(loaded.config, c.sanitize());
    assert!(!loaded.write_canonical);
    assert_eq!(later.get(), written);
}

#[test]
fn legacy_value_is_migrated_once() {
    let mut legacy = AppConfig::default();
    legacy.theme_path = Some("old.css".to_string());
    let mut store = SettingsStore::new();
    let source = config_source(false, true);
    assert_eq!(source, ConfigSource::Legacy);
    let first = store.load(source, Some(legacy.clone()));
    assert_eq!(first.config, legacy.clone().sanitize());
    assert!(first.write_canonical);
    let second_source = config_source(true, true);
    assert_eq!(second_source, ConfigSource::Canonical);
    let second = store.load(second_source, Some(first.config.clone()));
    assert_eq!(second.config, legacy.sanitize());
    assert!(!second.write_canonical);
}

#[test]
fn blank_legacy_value_is_sanitized_on_migration() {
    let mut store = SettingsStore::new();
    let loaded = store.load(ConfigSource::Legacy, Some(AppConfig::default()));
    assert!(loaded.config.enable_blockers);
    assert!(loaded.config.enable_perf_css);
    assert!(loaded.write_canonical);
}

#[test]
fn state_store_round_trip() {
    let mut store = StateStore::new();
    assert_eq!(store.get(), AppState::default());
    let state = AppState {
        window_bounds: Some(WindowBounds { x: -5, y: 7, width: 1024, height: 768 }),
        last_active_channel: Some("general".to_string()),
        updater_snooze_until: Some("2024-01-01T00:00:00Z".to_string()),
    };
    let out = store.set(state.clone());
    assert_eq!(out, state);
    assert_eq!(store.get(), state);
}

#[test]
fn state_load_without_file_uses_empty_state() {
    let mut store = StateStore::new();
    let loaded = store.load(None);
    assert_eq!(loaded.state, AppState::default());
    assert!(loaded.create_file);
}

#[test]
fn state_load_with_file_keeps_it() {
    let mut store = StateStore::new();
    let state = AppState {
        window_bounds: None,
        last_active_channel: Some("c1".to_string()),
        updater_snooze_until: None,
    };
    let loaded = store.load(Some(state.clone()));
    assert_eq!(loaded.state, state);
    assert!(!loaded.create_file);
    assert_eq!(store.get(), state);
}
