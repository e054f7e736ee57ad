use dwall::config::{
    check_interval, default_monitor_specific_wallpapers, default_position_cache_minutes,
    default_update_on_each_calculation, Config, ConfigError, ConfigReader, ConfigWatcher, ConfigWriter, ImageFormat,
    ModifiedTime, MonitorSpecificWallpapers, Network, PositionSource, RawConfig, DEFAULT_INTERVAL_SECONDS,
};

fn raw(interval: u16, source: PositionSource) -> RawConfig {
    RawConfig {
        github_mirror_template: Some("https://mirror/{repo}".to_string()),
        network: None,
        image_format: ImageFormat::Jpeg,
        position_source: source,
        auto_detect_color_scheme: true,
        lock_screen_wallpaper_enabled: false,
        themes_directory: "themes".to_string(),
        customized_themes_directory: "custom".to_string(),
        monitor_specific_wallpapers: MonitorSpecificWallpapers::All("Big Sur".to_string()),
        interval,
    }
}

fn automatic() -> PositionSource {
    PositionSource::Automatic { update_on_each_calculation: false, cache_minutes: 30 }
}

#[test]
fn missing_file_gives_the_default_configuration() {
    let config = ConfigReader::from_file_contents(None, "t".to_string(), "c".to_string()).unwrap();
    assert_eq!(config.interval(), DEFAULT_INTERVAL_SECONDS);
    assert_eq!(config.image_format(), &ImageFormat::Jpeg);
    assert!(config.auto_detect_color_scheme());
    assert!(config.lock_screen_wallpaper_enabled());
    assert!(config.network().is_none());
    assert_eq!(config.themes_directory(), "t");
    assert_eq!(config.customized_themes_directory(), "c");
    assert!(config.monitor_specific_wallpapers().is_empty());
}

#[test]
fn file_configuration_is_migrated_and_validated() {
    let config = ConfigReader::from_file_contents(Some(raw(60, automatic())), "t".to_string(), "c".to_string()).unwrap();
    assert_eq!(config.interval(), 60);
    assert!(!config.lock_screen_wallpaper_enabled());
    assert_eq!(config.themes_directory(), "themes");
    match config.network() {
        Some(Network::GitHubMirrorTemplate(t)) => assert_eq!(t, "https://mirror/{repo}"),
        other => panic!("unexpected network {other:?}"),
    }
}

#[test]
fn invalid_file_configuration_is_rejected() {
    let err = ConfigReader::from_file_contents(Some(raw(0, automatic())), "t".to_string(), "c".to_string()).unwrap_err();
    assert_eq!(err, ConfigError::Validation { reason: "Interval is out of range".to_string() });
    let bad_position = PositionSource::Manual { latitude: 100_000_000, longitude: 0, altitude: 0 };
    let err = ConfigReader::from_file_contents(Some(raw(15, bad_position)), "t".to_string(), "c".to_string()).unwrap_err();
    assert_eq!(err, ConfigError::Validation { reason: "Latitude or longitude is invalid".to_string() });
}

#[test]
fn writer_checks_the_configuration() {
    let good = Config::from_raw(raw(3600, automatic()));
    assert!(ConfigWriter.check_before_write(&good).is_ok());
    let bad = Config::from_raw(raw(3601, automatic()));
    assert!(ConfigWriter.check_before_write(&bad).is_err());
}

#[test]
fn interval_range_check() {
    assert_eq!(check_interval(1), Ok(1));
    assert_eq!(check_interval(3600), Ok(3600));
    assert_eq!(check_interval(0), Err(ConfigError::IntervalOutOfRange(0)));
    assert_eq!(
        check_interval(4000).unwrap_err().message(),
        "interval must be between 1 and 3600, got 4000"
    );
}

#[test]
fn defaults() {
    assert!(!default_update_on_each_calculation());
    assert_eq!(default_position_cache_minutes(), 30);
    assert!(default_monitor_specific_wallpapers().is_empty());
    assert_eq!(ImageFormat::default(), ImageFormat::Jpeg);
    assert_eq!(ImageFormat::Jpeg.as_str(), "jpg");
    assert!(matches!(
        PositionSource::default(),
        PositionSource::Automatic { update_on_each_calculation: false, cache_minutes: 30 }
    ));
}

#[test]
fn monitor_specific_wallpapers_lookup() {
    let all = MonitorSpecificWallpapers::All("t".to_string());
    assert!(all.is_all());
    assert!(!all.is_empty());
    assert_eq!(all.get(&"any".to_string()), Some(&"t".to_string()));
    assert_eq!(all.first_theme(), Some("t".to_string()));

    let specific = MonitorSpecificWallpapers::Specific(vec![
        ("m1".to_string(), "a".to_string()),
        ("m2".to_string(), "b".to_string()),
        ("m1".to_string(), "c".to_string()),
    ]);
    assert!(!specific.is_all());
    assert_eq!(specific.get(&"m1".to_string()), Some(&"a".to_string()));
    assert_eq!(specific.get(&"m2".to_string()), Some(&"b".to_string()));
    assert_eq!(specific.get(&"m3".to_string()), None);
    assert_eq!(specific.first_theme(), Some("a".to_string()));

    let empty = MonitorSpecificWallpapers::Specific(vec![]);
    assert!(empty.is_empty());
    assert_eq!(empty.first_theme(), None);
}

#[test]
fn position_source_validation() {
    assert!(automatic().validate());
    assert!(PositionSource::Manual { latitude: 90_000_000, longitude: -180_000_000, altitude: 0 }.validate());
    assert!(!PositionSource::Manual { latitude: 0, longitude: 180_000_001, altitude: 0 }.validate());
}

#[test]
fn with_themes_directory_keeps_the_rest() {
    let config = Config::from_raw(raw(60, automatic()));
    let moved = config.with_themes_directory(&"elsewhere".to_string());
    assert_eq!(moved.themes_directory(), "elsewhere");
    assert_eq!(moved.interval(), 60);
    assert_eq!(moved.customized_themes_directory(), "custom");
}

#[test]
fn config_watcher_detects_changes() {
    let mut watcher = ConfigWatcher::new("config.toml".to_string());
    assert_eq!(watcher.config_path(), "config.toml");
    assert!(!watcher.has_changed(None));
    let t1 = ModifiedTime { seconds: 10, nanos: 5 };
    assert!(watcher.has_changed(Some(t1)));
    watcher.update_modified_time(Some(t1));
    assert!(!watcher.has_changed(Some(t1)));
    assert!(watcher.has_changed(Some(ModifiedTime { seconds: 10, nanos: 6 })));
    assert!(watcher.has_changed(None));
}

/// The interval of a JSON configuration, read field by field and checked by the library.
fn interval_from_json(text: &str) -> Result<u16, ConfigError> {
    let value: serde_json::Value = serde_json::from_str(text).unwrap();
    let interval = value.get("interval").and_then(|v| v.as_u64()).map(|v| v as u16).unwrap_or(DEFAULT_INTERVAL_SECONDS);
    check_interval(interval)
}

#[test]
fn test_config_deserialize() {
    let config_str = r#"
        {
            "interval": 60
        }
        "#;
    let result = interval_from_json(config_str);
    assert!(result.is_ok());
    let config = ConfigReader::from_file_contents(Some(raw(result.unwrap(), automatic())), "t".to_string(), "c".to_string())
        .unwrap();
    assert_eq!(config.interval(), 60);

    let config_str = r#"
        {
            "interval": 3601
        }
        "#;
    let result = interval_from_json(config_str);
    assert!(result.is_err());
    let error = result.unwrap_err().message();
    assert!(error.starts_with("interval must be between 1 and 3600, got 3601"));
}

#[test]
fn pairs_are_entered_as_into_a_map() {
    let w = MonitorSpecificWallpapers::from_pairs(vec![
        ("m1".to_string(), "a".to_string()),
        ("m2".to_string(), "b".to_string()),
        ("m1".to_string(), "c".to_string()),
    ]);
    match &w {
        MonitorSpecificWallpapers::Specific(pairs) => assert_eq!(
            pairs,
            &vec![("m1".to_string(), "c".to_string()), ("m2".to_string(), "b".to_string())]
        ),
        MonitorSpecificWallpapers::All(_) => panic!("expected per-monitor pairs"),
    }
    assert_eq!(w.get(&"m1".to_string()), Some(&"c".to_string()));
    assert_eq!(w.get(&"m3".to_string()), None);
}
