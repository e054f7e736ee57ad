use dwall::cache::Cache;
use dwall::config::PositionSource;
use dwall::error::DwallError;
use dwall::geolocation::{
    AccessStatus, GeographicPositionProvider, GeolocationAccessError, Positioner, SolarPositionSource,
};
use dwall::solar::{julian_day_number, CoordinateError, Position, PositionProvider, SolarAngle, SolarPosition};
use dwall::solar_transitions::{
    bisect, calculate, detect_polar_state, find_crossing_brackets, find_solar_noon, PolarState,
};
use std::cell::Cell;

fn micro(value: f64) -> i64 {
    (value * 1e6).round() as i64
}

struct MockPositionProvider {
    position: Position,
    calls: Cell<u32>,
}

impl MockPositionProvider {
    fn new(position: Position) -> Self {
        MockPositionProvider { position, calls: Cell::new(0) }
    }
}

impl PositionProvider for MockPositionProvider {
    fn get_current_position(&self) -> Result<Position, DwallError> {
        self.calls.set(self.calls.get() + 1);
        Ok(self.position)
    }

    fn check_location_permission(&self) -> Result<(), DwallError> {
        Ok(())
    }
}

struct FailingProvider;

impl PositionProvider for FailingProvider {
    fn get_current_position(&self) -> Result<Position, DwallError> {
        Err(DwallError::Geolocation(GeolocationAccessError::Denied))
    }

    fn check_location_permission(&self) -> Result<(), DwallError> {
        Err(DwallError::Geolocation(GeolocationAccessError::Denied))
    }
}

#[test]
fn test_position_new() {
    let pos = Position::new(micro(45.0), micro(90.0), micro(43.5)).unwrap();
    assert_eq!(pos.latitude(), micro(45.0));
    assert_eq!(pos.longitude(), micro(90.0));
    assert_eq!(pos.altitude(), micro(43.5));
}

#[test]
fn test_position_new_invalid() {
    assert!(Position::new(micro(91.0), micro(90.0), micro(43.5)).is_err());
    assert!(Position::new(micro(45.0), micro(181.0), micro(43.5)).is_err());
    assert!(Position::new(micro(-91.0), 0, micro(43.5)).is_err());
    assert!(Position::new(0, micro(-181.0), micro(43.5)).is_err());
}

#[test]
fn position_errors_name_the_coordinate() {
    assert_eq!(Position::new(micro(91.0), 0, 0).unwrap_err(), CoordinateError::InvalidLatitude(micro(91.0)));
    assert_eq!(Position::new(0, micro(181.0), 0).unwrap_err(), CoordinateError::InvalidLongitude(micro(181.0)));
}

#[test]
fn test_position_validation() {
    assert!(Position::is_valid_latitude(micro(90.0)));
    assert!(Position::is_valid_latitude(micro(-90.0)));
    assert!(Position::is_valid_latitude(0));
    assert!(!Position::is_valid_latitude(micro(90.1)));
    assert!(!Position::is_valid_latitude(micro(-90.1)));

    assert!(Position::is_valid_longitude(micro(180.0)));
    assert!(Position::is_valid_longitude(micro(-180.0)));
    assert!(Position::is_valid_longitude(0));
    assert!(!Position::is_valid_longitude(micro(180.1)));
    assert!(!Position::is_valid_longitude(micro(-180.1)));
}

#[test]
fn test_position_default() {
    let pos = Position::default();
    assert_eq!(pos.latitude(), 0);
    assert_eq!(pos.longitude(), 0);
}

#[test]
fn test_provider_manual_coordinates() {
    let coord_source = PositionSource::Manual { latitude: micro(45.0), longitude: micro(90.0), altitude: micro(43.5) };
    let mock_provider = MockPositionProvider::new(Position::from_raw_position(0, 0, 0));
    let provider = GeographicPositionProvider::new(&coord_source, mock_provider);
    let mut cache = Cache::new();
    let pos = provider.get_current_position(&mut cache, 0).unwrap();
    assert_eq!(pos.latitude(), micro(45.0));
    assert_eq!(pos.longitude(), micro(90.0));
    assert_eq!(pos.altitude(), micro(43.5));
}

#[test]
fn test_provider_with_mock_position_provider() {
    let coord_source = PositionSource::Automatic { update_on_each_calculation: true, cache_minutes: 5 };
    let expected_position = Position::from_raw_position(micro(40.0), micro(116.0), micro(50.0));
    let provider = GeographicPositionProvider::new(&coord_source, MockPositionProvider::new(expected_position));
    let mut cache = Cache::new();
    let pos = provider.get_current_position(&mut cache, 0).unwrap();
    assert_eq!(pos.latitude(), micro(40.0));
    assert_eq!(pos.longitude(), micro(116.0));
    assert_eq!(pos.altitude(), micro(50.0));
}

#[test]
fn provider_rejects_invalid_manual_coordinates() {
    let coord_source = PositionSource::Manual { latitude: micro(95.0), longitude: 0, altitude: 0 };
    let provider = GeographicPositionProvider::new(&coord_source, FailingProvider);
    let mut cache = Cache::new();
    let result = provider.get_current_position(&mut cache, 0);
    assert!(matches!(result, Err(DwallError::Coordinate(CoordinateError::InvalidLatitude(v))) if v == micro(95.0)));
}

#[test]
fn provider_caches_the_position_for_the_configured_minutes() {
    let coord_source = PositionSource::Automatic { update_on_each_calculation: false, cache_minutes: 5 };
    let first = Position::from_raw_position(micro(10.0), micro(20.0), 0);
    let provider = GeographicPositionProvider::new(&coord_source, MockPositionProvider::new(first));
    let mut cache = Cache::new();
    assert_eq!(provider.get_current_position(&mut cache, 100).unwrap().latitude(), micro(10.0));
    assert_eq!(provider.get_current_position(&mut cache, 100 + 299).unwrap().latitude(), micro(10.0));
    // The platform was asked once; the second read came from the cache.
    let cached: Option<Position> = cache.get(100 + 299);
    assert!(cached.is_some());
    assert!(cache.get::<Position>(100 + 300).is_none());
}

#[test]
fn provider_fresh_mode_asks_every_time() {
    let coord_source = PositionSource::Automatic { update_on_each_calculation: true, cache_minutes: 5 };
    let provider = GeographicPositionProvider::new(&coord_source, FailingProvider);
    let mut cache = Cache::new();
    assert!(matches!(
        provider.get_current_position(&mut cache, 0),
        Err(DwallError::Geolocation(GeolocationAccessError::Denied))
    ));
    assert!(cache.get::<Position>(0).is_none());
}

#[test]
fn positioner_access_decisions() {
    assert!(Positioner::access_result(AccessStatus::Allowed).is_ok());
    assert_eq!(Positioner::access_result(AccessStatus::Denied), Err(GeolocationAccessError::Denied));
    assert_eq!(Positioner::access_result(AccessStatus::Unspecified), Err(GeolocationAccessError::Unspecified));
    assert_eq!(GeolocationAccessError::Denied.message(), "Geolocation permission was denied by the user");
    assert_eq!(GeolocationAccessError::Unspecified.message(), "Geolocation permission status is unspecified");
}

#[test]
fn solar_position_source_caches_for_a_minute() {
    let coord_source = PositionSource::Manual { latitude: micro(30.0), longitude: 0, altitude: 0 };
    let source = SolarPositionSource::new(&coord_source, FailingProvider);
    let mut cache = Cache::new();
    let compute = |p: Position| SolarPosition::new(p.latitude() / 2, 0);
    let first = source.get_current_solar_position(&mut cache, 0, &compute).unwrap();
    assert_eq!(first.altitude(), micro(15.0));
    let other = |_p: Position| SolarPosition::new(1, 1);
    let cached = source.get_current_solar_position(&mut cache, 59, &other).unwrap();
    assert_eq!(cached.altitude(), micro(15.0));
    let fresh = source.get_current_solar_position(&mut cache, 60, &other).unwrap();
    assert_eq!(fresh.altitude(), 1);
}

#[test]
fn solar_angle_accessors() {
    let angle = SolarAngle::new(3, micro(25.0), micro(110.0));
    assert_eq!(angle.index(), 3);
    assert_eq!(angle.altitude(), micro(25.0));
    assert_eq!(angle.azimuth(), micro(110.0));
}

#[test]
fn julian_day_known_value() {
    let jdn = julian_day_number(2000, 1, 1);
    assert_eq!(jdn, 2451545);
    let jd = jdn as f64 - 0.5 + 12.0 / 24.0;
    assert!((jd - 2451545.0).abs() < 0.001);
}

#[test]
fn polar_state_from_samples() {
    assert_eq!(detect_polar_state(&[1, 2, 3]), PolarState::PolarDay);
    assert_eq!(detect_polar_state(&[-1, -2, -3]), PolarState::PolarNight);
    assert_eq!(detect_polar_state(&[-1, 0, 3]), PolarState::Normal);
    assert_eq!(detect_polar_state(&[0, 0]), PolarState::Normal);
}

#[test]
fn crossing_brackets_find_rise_and_set() {
    let altitudes = [-5, -1, 3, 8, 2, -4, -9];
    let (rise, set) = find_crossing_brackets(1000, &altitudes);
    assert_eq!(rise, Some((1000 + 600, 1000 + 1200)));
    assert_eq!(set, Some((1000 + 2400, 1000 + 3000)));
    let flat = [-5, -5, -5];
    assert_eq!(find_crossing_brackets(0, &flat), (None, None));
    // A later rise replaces an earlier one while the set is not found yet.
    let twice = [-1, 1, -1, 1];
    assert_eq!(find_crossing_brackets(0, &twice), (Some((0, 600)), Some((600, 1200))));
}

/// A sun that rises at `sunrise`, peaks at `noon` and sets at `sunset` (linear pieces).
fn tent(sunrise: i64, noon: i64, sunset: i64) -> impl Fn(i64) -> i64 {
    move |t: i64| {
        if t <= noon {
            (t - sunrise) * 100
        } else {
            (sunset - t) * 100
        }
    }
}

#[test]
fn bisect_narrows_to_the_crossing() {
    let sun = tent(10_000, 40_000, 70_000);
    let rise = bisect(&sun, 9_600, 10_200, true);
    assert!((9_998..=10_000).contains(&rise), "rise {rise}");
    let set = bisect(&sun, 69_600, 70_200, false);
    assert!((69_998..=70_000).contains(&set), "set {set}");
    assert_eq!(bisect(&sun, 5, 6, true), 5);
}

#[test]
fn solar_noon_found_by_ternary_search() {
    let sun = tent(10_000, 43_210, 70_000);
    let noon = find_solar_noon(&sun, 0);
    assert!((43_205..=43_215).contains(&noon), "noon {noon}");
}

#[test]
fn transitions_of_a_normal_day() {
    let sun = tent(21_700, 43_300, 64_900);
    let t = calculate(&sun, 0);
    assert_eq!(t.polar_state, PolarState::Normal);
    let rise = t.sunrise.unwrap();
    let set = t.sunset.unwrap();
    assert!((21_698..=21_700).contains(&rise), "rise {rise}");
    assert!((64_898..=64_900).contains(&set), "set {set}");
    assert!((43_295..=43_305).contains(&t.solar_noon));
}

#[test]
fn transitions_of_a_polar_day() {
    let sun = |_t: i64| 5_000_000;
    let t = calculate(&sun, 0);
    assert_eq!(t.polar_state, PolarState::PolarDay);
    assert_eq!(t.sunrise, None);
    assert_eq!(t.sunset, None);
}
