use std::cell::RefCell;

use dwall::color_scheme::{ColorScheme, ColorSchemeProvider};
use dwall::error::DwallError;
use dwall::geolocation::GeolocationAccessError;
use dwall::monitor::{DisplayMonitor, MonitorProvider};
use dwall::solar::{Position, PositionProvider};
use dwall::wallpaper::WallpaperProvider;

struct FixedPosition(Result<Position, ()>);

impl PositionProvider for FixedPosition {
    fn get_current_position(&self) -> Result<Position, DwallError> {
        match self.0 {
            Ok(p) => Ok(p),
            Err(()) => Err(DwallError::Geolocation(GeolocationAccessError::Denied)),
        }
    }

    fn check_location_permission(&self) -> Result<(), DwallError> {
        Ok(())
    }
}

struct FixedMonitors {
    changed: bool,
}

impl MonitorProvider for FixedMonitors {
    fn get_monitors(&self) -> Result<Vec<DisplayMonitor>, DwallError> {
        Ok(vec![DisplayMonitor::new_test("monitor1".to_string(), "Display 1".to_string(), Some(0))])
    }

    fn refresh_monitors(&self) -> Result<Vec<DisplayMonitor>, DwallError> {
        self.get_monitors()
    }

    fn has_configuration_changed(&self) -> Result<bool, DwallError> {
        Ok(self.changed)
    }
}

#[derive(Default)]
struct RecordingSetter {
    calls: RefCell<Vec<(String, String)>>,
}

impl WallpaperProvider for RecordingSetter {
    fn set_monitor_wallpaper(&self, monitor_id: &str, image_path: &str) -> Result<(), DwallError> {
        self.calls.borrow_mut().push((monitor_id.to_string(), image_path.to_string()));
        Ok(())
    }

    fn set_lock_screen_image(&self, image_path: &str) -> Result<(), DwallError> {
        self.calls.borrow_mut().push(("lock".to_string(), image_path.to_string()));
        Ok(())
    }
}

struct SchemeBackend {
    scheme: RefCell<ColorScheme>,
    log: RefCell<Vec<&'static str>>,
}

impl ColorSchemeProvider for SchemeBackend {
    fn get_current_scheme(&self) -> Result<ColorScheme, DwallError> {
        self.log.borrow_mut().push("get");
        Ok(*self.scheme.borrow())
    }

    fn set_color_scheme(&self, scheme: ColorScheme) -> Result<(), DwallError> {
        self.log.borrow_mut().push("set");
        *self.scheme.borrow_mut() = scheme;
        Ok(())
    }
}

#[test]
fn mock_position_provider_returns_configured_value() {
    let expected = Position::new(45_000_000, 116_000_000, 100_000_000).unwrap();
    let mock = FixedPosition(Ok(Position::new(45_000_000, 116_000_000, 100_000_000).unwrap()));
    let result = mock.get_current_position().unwrap();
    assert_eq!(result.latitude(), expected.latitude());
    assert_eq!(result.longitude(), expected.longitude());
    assert_eq!(result.altitude(), expected.altitude());
}

#[test]
fn mock_position_provider_can_return_errors() {
    let mock = FixedPosition(Err(()));
    assert!(mock.get_current_position().is_err());
}

#[test]
fn mock_monitor_provider_returns_monitors() {
    let mock = FixedMonitors { changed: false };
    let result = mock.get_monitors().unwrap();
    assert_eq!(result.len(), 1);
    assert!(result.iter().any(|m| m.device_path() == "monitor1"));
}

#[test]
fn mock_monitor_provider_detects_configuration_change() {
    let mock = FixedMonitors { changed: true };
    assert!(mock.has_configuration_changed().unwrap());
}

#[test]
fn mock_wallpaper_setter_sets_wallpaper() {
    let mock = RecordingSetter::default();
    assert!(mock.set_monitor_wallpaper("monitor1", "/tmp/wallpaper.jpg").is_ok());
    assert_eq!(*mock.calls.borrow(), vec![("monitor1".to_string(), "/tmp/wallpaper.jpg".to_string())]);
}

#[test]
fn mock_color_scheme_backend_gets_and_sets_scheme() {
    let mock = SchemeBackend { scheme: RefCell::new(ColorScheme::Light), log: RefCell::new(vec![]) };
    assert_eq!(mock.get_current_scheme().unwrap(), ColorScheme::Light);
    assert!(mock.set_color_scheme(ColorScheme::Dark).is_ok());
}

#[test]
fn mock_color_scheme_backend_sequence() {
    let mock = SchemeBackend { scheme: RefCell::new(ColorScheme::Light), log: RefCell::new(vec![]) };
    assert_eq!(mock.get_current_scheme().unwrap(), ColorScheme::Light);
    assert!(mock.set_color_scheme(ColorScheme::Dark).is_ok());
    assert_eq!(mock.get_current_scheme().unwrap(), ColorScheme::Dark);
    assert_eq!(*mock.log.borrow(), vec!["get", "set", "get"]);
}
