//! Errors of the library.

use vstd::prelude::*;

use crate::config::ConfigError;
use crate::geolocation::GeolocationAccessError;
use crate::monitor::DisplayError;
use crate::month::DateTimeError;
use crate::solar::CoordinateError;
use crate::theme::ThemeError;

verus! {

/// Errors of the daemon's logic.
#[derive(Debug)]
pub enum DwallError {
    /// A platform backend reported a failure.
    Platform,
    /// The configuration is invalid.
    Config(ConfigError),
    /// A theme is missing or malformed.
    Theme(ThemeError),
    /// A coordinate is out of range.
    Coordinate(CoordinateError),
    /// Geolocation access was not granted.
    Geolocation(GeolocationAccessError),
    /// A calendar value is out of range.
    DateTime(DateTimeError),
    /// The display backend failed.
    Display(DisplayError),
}

} // verus!
