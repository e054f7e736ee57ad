use dwall::cache::Cache;
use dwall::color_scheme::{
    determine_color_scheme_with_hysteresis, ColorScheme, ColorSchemeProvider, ColorSchemeScheduler,
    DaylightState, ThresholdConfig, CIVIL_TWILIGHT, HYSTERESIS_BAND, THRESHOLD_MAX, THRESHOLD_MIN,
};
use dwall::color_scheme_applier::{
    cached_daylight_state, cached_threshold, scheme_change, ColorSchemeApplier, ColorSchemeChange, DAY_SECONDS,
};
use dwall::config::Config;
use dwall::error::DwallError;
use std::cell::RefCell;
use std::rc::Rc;

fn micro(degrees: f64) -> i64 {
    (degrees * 1e6).round() as i64
}

fn cos_micro(latitude: f64) -> i64 {
    (latitude.abs().to_radians().cos() * 1e6).round() as i64
}

fn threshold_at(latitude: f64) -> i64 {
    ThresholdConfig::from_latitude(micro(latitude), cos_micro(latitude)).base_threshold()
}

fn make_config(base: f64) -> ThresholdConfig {
    ThresholdConfig::new(micro(base), micro(0.5))
}

fn call_with_state(
    altitude: f64,
    current: &ColorScheme,
    config: &ThresholdConfig,
    hour: u8,
    state: &DaylightState,
) -> ColorScheme {
    determine_color_scheme_with_hysteresis(micro(altitude), current, config, hour, state)
}

fn assert_altitude_scheme(altitude: f64, current: ColorScheme, config: &ThresholdConfig, expected: ColorScheme) {
    let result = call_with_state(altitude, &current, config, 12, &DaylightState::Normal);
    assert_eq!(result, expected, "altitude={altitude}, current={current:?}");
}

#[test]
fn color_scheme_color_scheme_display_light() {
    assert_eq!(ColorScheme::Light.to_string(), "Light");
}

#[test]
fn color_scheme_color_scheme_display_dark() {
    assert_eq!(ColorScheme::Dark.to_string(), "Dark");
}

#[test]
fn color_scheme_color_scheme_to_le_bytes_light() {
    assert_eq!(ColorScheme::Light.to_le_bytes(), [1, 0, 0, 0]);
}

#[test]
fn color_scheme_color_scheme_to_le_bytes_dark() {
    assert_eq!(ColorScheme::Dark.to_le_bytes(), [0, 0, 0, 0]);
}

#[test]
fn color_scheme_color_scheme_equality() {
    assert_eq!(ColorScheme::Light, ColorScheme::Light);
    assert_eq!(ColorScheme::Dark, ColorScheme::Dark);
    assert_ne!(ColorScheme::Light, ColorScheme::Dark);
}

#[test]
fn mod_color_scheme_display_light() {
    assert_eq!(ColorScheme::Light.to_string(), "Light");
}

#[test]
fn mod_color_scheme_display_dark() {
    assert_eq!(ColorScheme::Dark.to_string(), "Dark");
}

#[test]
fn mod_color_scheme_to_le_bytes_light() {
    assert_eq!(ColorScheme::Light.to_le_bytes(), [1, 0, 0, 0]);
}

#[test]
fn mod_color_scheme_to_le_bytes_dark() {
    assert_eq!(ColorScheme::Dark.to_le_bytes(), [0, 0, 0, 0]);
}

#[test]
fn mod_color_scheme_equality() {
    assert_eq!(ColorScheme::Light, ColorScheme::Light);
    assert_eq!(ColorScheme::Dark, ColorScheme::Dark);
    assert_ne!(ColorScheme::Light, ColorScheme::Dark);
}

#[test]
fn color_scheme_as_u32_codes() {
    assert_eq!(ColorScheme::Light.as_u32(), 1);
    assert_eq!(ColorScheme::Dark.as_u32(), 0);
}

#[test]
fn threshold_tropical_is_shallower_than_civil() {
    let t_tropical = threshold_at(10.0);
    let t_midlat = threshold_at(35.0);
    assert!(t_tropical > t_midlat, "tropical {t_tropical} vs mid-latitude {t_midlat}");
}

#[test]
fn threshold_high_latitude_is_deeper_than_civil() {
    let t_high = threshold_at(60.0);
    let t_mid = threshold_at(35.0);
    assert!(t_high < t_mid, "high {t_high} vs mid {t_mid}");
}

#[test]
fn threshold_clamped_within_bounds() {
    let t = threshold_at(90.0);
    assert!((THRESHOLD_MIN..=THRESHOLD_MAX).contains(&t));
}

#[test]
fn threshold_mid_latitude_is_civil() {
    assert_eq!(threshold_at(35.0), CIVIL_TWILIGHT);
}

#[test]
fn default_civil_threshold() {
    let config = ThresholdConfig::default_civil();
    assert_eq!(config.base_threshold(), CIVIL_TWILIGHT);
    assert_eq!(config.hysteresis_band(), HYSTERESIS_BAND);
}

#[test]
fn switch_points_symmetric_around_base() {
    let config = make_config(-6.0);
    assert_eq!(config.light_switch_point(), micro(-5.5));
    assert_eq!(config.dark_switch_point(), micro(-6.5));
}

#[test]
fn white_night_variant_holds_altitudes() {
    let state = DaylightState::WhiteNight { min_altitude: micro(-7.0), max_altitude: micro(-5.0) };
    match state {
        DaylightState::WhiteNight { min_altitude, max_altitude } => {
            assert_eq!(min_altitude, micro(-7.0));
            assert_eq!(max_altitude, micro(-5.0));
        }
        _ => panic!("Expected WhiteNight variant"),
    }
}

#[test]
fn midnight_sun_variant_exists() {
    let state = DaylightState::MidnightSun;
    assert!(matches!(state, DaylightState::MidnightSun));
}

#[test]
fn daylight_state_copy_semantics() {
    let state = DaylightState::Normal;
    let copied = state;
    assert_eq!(state, copied);
}

#[test]
fn daylight_detect_classifies_days() {
    let config = ThresholdConfig::default_civil();
    let always_up: Vec<i64> = vec![micro(5.0), micro(20.0), micro(40.0)];
    assert_eq!(DaylightState::detect(&always_up, &config), DaylightState::MidnightSun);
    let always_down: Vec<i64> = vec![micro(-20.0), micro(-10.0), micro(-15.0)];
    assert_eq!(DaylightState::detect(&always_down, &config), DaylightState::PolarNight);
    let normal: Vec<i64> = vec![micro(-30.0), micro(10.0), micro(50.0)];
    assert_eq!(DaylightState::detect(&normal, &config), DaylightState::Normal);
    let empty: Vec<i64> = vec![];
    assert_eq!(DaylightState::detect(&empty, &config), DaylightState::Normal);
}

#[test]
fn schmitt_dark_to_light_requires_crossing_upper_point() {
    let config = make_config(-6.0);
    assert_altitude_scheme(-5.6, ColorScheme::Dark, &config, ColorScheme::Dark);
    assert_altitude_scheme(-5.4, ColorScheme::Dark, &config, ColorScheme::Light);
}

#[test]
fn schmitt_light_to_dark_requires_crossing_lower_point() {
    let config = make_config(-6.0);
    assert_altitude_scheme(-6.4, ColorScheme::Light, &config, ColorScheme::Light);
    assert_altitude_scheme(-6.6, ColorScheme::Light, &config, ColorScheme::Dark);
}

#[test]
fn hysteresis_band_prevents_oscillation_in_dead_zone() {
    let config = make_config(-6.0);
    for &alt in &[-6.4, -6.0, -5.6] {
        assert_altitude_scheme(alt, ColorScheme::Light, &config, ColorScheme::Light);
        assert_altitude_scheme(alt, ColorScheme::Dark, &config, ColorScheme::Dark);
    }
}

#[test]
fn midnight_sun_always_returns_light() {
    let config = make_config(-6.0);
    let state = DaylightState::MidnightSun;
    for current in [ColorScheme::Light, ColorScheme::Dark] {
        assert_eq!(call_with_state(-5.0, &current, &config, 14, &state), ColorScheme::Light);
    }
}

#[test]
fn polar_night_follows_waking_hours() {
    let config = make_config(-6.0);
    let state = DaylightState::PolarNight;
    assert_eq!(call_with_state(-30.0, &ColorScheme::Dark, &config, 10, &state), ColorScheme::Light);
    assert_eq!(call_with_state(-30.0, &ColorScheme::Light, &config, 23, &state), ColorScheme::Dark);
}

#[test]
fn white_night_uses_midpoint_with_wide_band() {
    let config = make_config(-6.0);
    let state = DaylightState::WhiteNight { min_altitude: micro(-7.0), max_altitude: micro(-5.0) };
    assert_eq!(call_with_state(-3.9, &ColorScheme::Dark, &config, 12, &state), ColorScheme::Light);
    assert_eq!(call_with_state(-8.1, &ColorScheme::Light, &config, 12, &state), ColorScheme::Dark);
    assert_eq!(call_with_state(-6.0, &ColorScheme::Light, &config, 12, &state), ColorScheme::Light);
    assert_eq!(call_with_state(-6.0, &ColorScheme::Dark, &config, 12, &state), ColorScheme::Dark);
}

#[test]
fn scheduler_reads_registry_values() {
    assert_eq!(ColorSchemeScheduler::scheme_from_registry(1), ColorScheme::Light);
    assert_eq!(ColorSchemeScheduler::scheme_from_registry(0), ColorScheme::Dark);
    assert_eq!(ColorSchemeScheduler::scheme_from_registry(7), ColorScheme::Dark);
}

#[test]
fn scheduler_writes_only_on_change() {
    assert_eq!(ColorSchemeScheduler::registry_write(ColorScheme::Light, ColorScheme::Light), None);
    assert_eq!(ColorSchemeScheduler::registry_write(ColorScheme::Dark, ColorScheme::Light), Some([1, 0, 0, 0]));
    assert_eq!(ColorSchemeScheduler::registry_write(ColorScheme::Light, ColorScheme::Dark), Some([0, 0, 0, 0]));
}

#[test]
fn cached_threshold_is_computed_once_a_day() {
    let mut cache = Cache::new();
    let first = cached_threshold(&mut cache, 1000, micro(60.0), cos_micro(60.0));
    assert_eq!(first.base_threshold(), threshold_at(60.0));
    // Within the day the cached value is kept, whatever the latitude.
    let again = cached_threshold(&mut cache, 1000 + DAY_SECONDS - 1, micro(10.0), cos_micro(10.0));
    assert_eq!(again, first);
    // A day later it is computed afresh.
    let later = cached_threshold(&mut cache, 1000 + DAY_SECONDS, micro(10.0), cos_micro(10.0));
    assert_eq!(later.base_threshold(), threshold_at(10.0));
}

#[test]
fn cached_daylight_state_is_computed_once_a_day() {
    let mut cache = Cache::new();
    let config = ThresholdConfig::default_civil();
    let up: Vec<i64> = vec![micro(10.0), micro(30.0)];
    let down: Vec<i64> = vec![micro(-30.0), micro(-20.0)];
    assert_eq!(cached_daylight_state(&mut cache, 0, &up, &config), DaylightState::MidnightSun);
    assert_eq!(cached_daylight_state(&mut cache, 10, &down, &config), DaylightState::MidnightSun);
    assert_eq!(cached_daylight_state(&mut cache, DAY_SECONDS, &down, &config), DaylightState::PolarNight);
}

struct RecordingBackend {
    current: ColorScheme,
    set_to: Rc<RefCell<Vec<ColorScheme>>>,
    fail_get: bool,
}

impl ColorSchemeProvider for RecordingBackend {
    fn get_current_scheme(&self) -> Result<ColorScheme, DwallError> {
        if self.fail_get {
            Err(DwallError::Platform)
        } else {
            Ok(self.current)
        }
    }

    fn set_color_scheme(&self, scheme: ColorScheme) -> Result<(), DwallError> {
        self.set_to.borrow_mut().push(scheme);
        Err(DwallError::Platform)
    }
}

fn test_config(auto: bool) -> Config {
    let raw = dwall::config::RawConfig {
        github_mirror_template: None,
        network: None,
        image_format: dwall::config::ImageFormat::Jpeg,
        position_source: dwall::config::PositionSource::Automatic { update_on_each_calculation: false, cache_minutes: 30 },
        auto_detect_color_scheme: auto,
        lock_screen_wallpaper_enabled: true,
        themes_directory: "themes".to_string(),
        customized_themes_directory: "custom".to_string(),
        monitor_specific_wallpapers: dwall::config::MonitorSpecificWallpapers::All("t".to_string()),
        interval: 15,
    };
    Config::from_raw(raw)
}

#[test]
fn applier_sets_the_scheme_the_sun_calls_for() {
    let log = Rc::new(RefCell::new(vec![]));
    let backend = RecordingBackend { current: ColorScheme::Dark, set_to: log.clone(), fail_get: false };
    let applier = ColorSchemeApplier::new(backend);
    let mut cache = Cache::new();
    let day: Vec<i64> = vec![micro(-30.0), micro(40.0)];
    let config = test_config(true);
    let result = applier.update_color_scheme(&config, &mut cache, 0, 12, micro(35.0), cos_micro(35.0), &day, micro(20.0));
    // A failure to set the scheme is not a failure of the update.
    assert!(matches!(
        result,
        Ok(Some(ColorSchemeChange { current: ColorScheme::Dark, applied: ColorScheme::Light }))
    ));
    assert_eq!(*log.borrow(), vec![ColorScheme::Light]);
}

#[test]
fn applier_reports_a_failed_read() {
    let log = Rc::new(RefCell::new(vec![]));
    let backend = RecordingBackend { current: ColorScheme::Dark, set_to: log.clone(), fail_get: true };
    let applier = ColorSchemeApplier::new(backend);
    let mut cache = Cache::new();
    let day: Vec<i64> = vec![micro(-30.0), micro(40.0)];
    let result = applier.update_color_scheme(&test_config(true), &mut cache, 0, 12, micro(35.0), cos_micro(35.0), &day, micro(20.0));
    assert!(matches!(result, Err(DwallError::Platform)));
    // Nothing is set when the current scheme cannot be read.
    assert!(log.borrow().is_empty());
}

#[test]
fn applier_does_nothing_when_detection_is_off() {
    let backend = RecordingBackend { current: ColorScheme::Dark, set_to: Rc::new(RefCell::new(vec![])), fail_get: true };
    let applier = ColorSchemeApplier::new(backend);
    let mut cache = Cache::new();
    let day: Vec<i64> = vec![];
    let result = applier.update_color_scheme(&test_config(false), &mut cache, 0, 12, 0, 1_000_000, &day, 0);
    assert!(matches!(result, Ok(None)));
    assert!(cache.get::<ThresholdConfig>(0).is_none());
}

#[test]
fn threshold_never_rises_poleward() {
    let mut previous = i64::MAX;
    for degrees in [0.0, 10.0, 23.5, 35.0, 45.0, 50.0, 60.0, 66.5, 70.0, 80.0, 90.0] {
        let t = ThresholdConfig::calculate_threshold(micro(degrees), cos_micro(degrees));
        assert!(t <= previous, "threshold at {degrees} rose to {t}");
        previous = t;
    }
}

#[test]
fn switch_points_themselves_keep_the_scheme() {
    let config = make_config(-6.0);
    // Exactly at `base - band` the sun has not fallen below it: Light stays Light.
    assert_altitude_scheme(-6.5, ColorScheme::Light, &config, ColorScheme::Light);
    // Exactly at `base + band` the sun has not risen above it: Dark stays Dark.
    assert_altitude_scheme(-5.5, ColorScheme::Dark, &config, ColorScheme::Dark);
}

#[test]
fn scheme_change_follows_the_read() {
    let config = make_config(-6.0);
    let normal = DaylightState::Normal;
    assert!(matches!(
        scheme_change(Err(DwallError::Platform), micro(10.0), &config, 12, &normal),
        Err(DwallError::Platform)
    ));
    assert!(matches!(
        scheme_change(Ok(ColorScheme::Dark), micro(10.0), &config, 12, &normal),
        Ok(ColorSchemeChange { current: ColorScheme::Dark, applied: ColorScheme::Light })
    ));
    assert!(matches!(
        scheme_change(Ok(ColorScheme::Light), micro(-6.5), &config, 12, &normal),
        Ok(ColorSchemeChange { current: ColorScheme::Light, applied: ColorScheme::Light })
    ));
}
