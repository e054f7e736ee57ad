//! Geographic and solar positions.
//!
//! Angles are fixed-point values in millionths of a degree, altitudes above sea
//! level in millionths of a metre. The solar formulas themselves (trigonometry)
//! run outside the library; it receives their results.

use vstd::prelude::*;

use crate::error::DwallError;
use crate::month::{is_leap, month_length, month_of};

verus! {

/// Millionths per unit (degree or metre).
pub const MICRO: i64 = 1_000_000;

/// Largest valid absolute latitude: 90°.
pub const MAX_LATITUDE: i64 = 90_000_000;

/// Largest valid absolute longitude: 180°.
pub const MAX_LONGITUDE: i64 = 180_000_000;

/// Error in a coordinate.
#[derive(Debug, PartialEq, Eq, Structural, Clone, Copy)]
pub enum CoordinateError {
    /// Latitude outside `[-90°, 90°]` (value in millionths of a degree).
    InvalidLatitude(i64),
    /// Longitude outside `[-180°, 180°]` (value in millionths of a degree).
    InvalidLongitude(i64),
    /// Both coordinates invalid.
    InvalidCoordinates(i64, i64),
}

/// Whether a latitude lies in `[-90°, 90°]`.
pub open spec fn valid_latitude(latitude: int) -> bool {
    -MAX_LATITUDE <= latitude <= MAX_LATITUDE
}

/// Whether a longitude lies in `[-180°, 180°]`.
pub open spec fn valid_longitude(longitude: int) -> bool {
    -MAX_LONGITUDE <= longitude <= MAX_LONGITUDE
}

/// Geographic position.
#[derive(Debug, Clone, Copy, PartialEq, Eq, Structural)]
pub struct Position {
    latitude: i64,
    longitude: i64,
    altitude: i64,
}

impl Position {
    /// Latitude in millionths of a degree.
    pub closed spec fn lat(&self) -> int {
        self.latitude as int
    }

    /// Longitude in millionths of a degree.
    pub closed spec fn lon(&self) -> int {
        self.longitude as int
    }

    /// Altitude in millionths of a metre.
    pub closed spec fn alt(&self) -> int {
        self.altitude as int
    }

    /// A validated position.
    pub fn new(latitude: i64, longitude: i64, altitude: i64) -> (result: Result<
        Position,
        CoordinateError,
    >)
        ensures
            !valid_latitude(latitude as int) ==> result == Err::<Position, CoordinateError>(
                CoordinateError::InvalidLatitude(latitude),
            ),
            valid_latitude(latitude as int) && !valid_longitude(longitude as int) ==> result
                == Err::<Position, CoordinateError>(CoordinateError::InvalidLongitude(longitude)),
            valid_latitude(latitude as int) && valid_longitude(longitude as int) ==> (result matches Ok(
                p,
            ) && p.lat() == latitude && p.lon() == longitude && p.alt() == altitude),
    {
        if !Self::is_valid_latitude(latitude) {
            return Err(CoordinateError::InvalidLatitude(latitude));
        }
        if !Self::is_valid_longitude(longitude) {
            return Err(CoordinateError::InvalidLongitude(longitude));
        }
        Ok(Position { latitude, longitude, altitude })
    }

    /// A position without validation, for coordinates known to be valid.
    pub fn from_raw_position(latitude: i64, longitude: i64, altitude: i64) -> (p: Position)
        ensures
            p.lat() == latitude,
            p.lon() == longitude,
            p.alt() == altitude,
    {
        Position { latitude, longitude, altitude }
    }

    /// Whether a latitude lies in `[-90°, 90°]`.
    pub fn is_valid_latitude(latitude: i64) -> (valid: bool)
        ensures
            valid == valid_latitude(latitude as int),
    {
        -MAX_LATITUDE <= latitude && latitude <= MAX_LATITUDE
    }

    /// Whether a longitude lies in `[-180°, 180°]`.
    pub fn is_valid_longitude(longitude: i64) -> (valid: bool)
        ensures
            valid == valid_longitude(longitude as int),
    {
        -MAX_LONGITUDE <= longitude && longitude <= MAX_LONGITUDE
    }

    /// Latitude in millionths of a degree.
    pub fn latitude(&self) -> (value: i64)
        ensures
            value == self.lat(),
    {
        self.latitude
    }

    /// Longitude in millionths of a degree.
    pub fn longitude(&self) -> (value: i64)
        ensures
            value == self.lon(),
    {
        self.longitude
    }

    /// Altitude in millionths of a metre.
    pub fn altitude(&self) -> (value: i64)
        ensures
            value == self.alt(),
    {
        self.altitude
    }

}

impl Default for Position {
    /// The origin: latitude, longitude and altitude zero.
    fn default() -> (p: Position)
        ensures
            p.lat() == 0 && p.lon() == 0 && p.alt() == 0,
    {
        Position { latitude: 0, longitude: 0, altitude: 0 }
    }
}

/// Apparent position of the sun (altitude and azimuth, millionths of a degree).
#[derive(Debug, Clone, Copy, PartialEq, Eq, Structural)]
pub struct SolarPosition {
    altitude: i64,
    azimuth: i64,
}

impl SolarPosition {
    /// Altitude in millionths of a degree.
    pub closed spec fn alt(&self) -> int {
        self.altitude as int
    }

    /// Azimuth in millionths of a degree.
    pub closed spec fn az(&self) -> int {
        self.azimuth as int
    }

    /// A solar position from an apparent altitude and azimuth.
    pub fn new(altitude: i64, azimuth: i64) -> (p: SolarPosition)
        ensures
            p.alt() == altitude,
            p.az() == azimuth,
    {
        SolarPosition { altitude, azimuth }
    }

    /// Apparent altitude (millionths of a degree).
    pub fn altitude(&self) -> (value: i64)
        ensures
            value == self.alt(),
    {
        self.altitude
    }

    /// Azimuth (millionths of a degree).
    pub fn azimuth(&self) -> (value: i64)
        ensures
            value == self.az(),
    {
        self.azimuth
    }
}

/// A solar angle entry of a theme: which image belongs to which sun position.
#[derive(Debug, Clone, Copy, PartialEq, Eq, Structural)]
pub struct SolarAngle {
    index: u8,
    altitude: i64,
    azimuth: i64,
}

impl SolarAngle {
    /// Image index.
    pub closed spec fn idx(&self) -> u8 {
        self.index
    }

    /// Altitude in millionths of a degree.
    pub closed spec fn alt(&self) -> int {
        self.altitude as int
    }

    /// Azimuth in millionths of a degree.
    pub closed spec fn az(&self) -> int {
        self.azimuth as int
    }

    /// An entry for image `index` at the given sun position.
    pub fn new(index: u8, altitude: i64, azimuth: i64) -> (angle: SolarAngle)
        ensures
            angle.idx() == index,
            angle.alt() == altitude,
            angle.az() == azimuth,
    {
        SolarAngle { index, altitude, azimuth }
    }

    /// Image index.
    pub fn index(&self) -> (value: u8)
        ensures
            value == self.idx(),
    {
        self.index
    }

    /// Altitude in millionths of a degree.
    pub fn altitude(&self) -> (value: i64)
        ensures
            value == self.alt(),
    {
        self.altitude
    }

    /// Azimuth in millionths of a degree.
    pub fn azimuth(&self) -> (value: i64)
        ensures
            value == self.az(),
    {
        self.azimuth
    }
}

/// Julian day number of a Gregorian calendar date (the day starting at noon UT).
pub open spec fn spec_julian_day_number(year: int, month: int, day: int) -> int {
    let a = (14 - month) / 12;
    let y = year + 4800 - a;
    let m = month + 12 * a - 3;
    day + (153 * m + 2) / 5 + 365 * y + y / 4 - y / 100 + y / 400 - 32045
}

/// Julian day number of a Gregorian date, for years from -4712 on.
///
/// The integer part of the Julian date used by the solar position formulas.
pub fn julian_day_number(year: i32, month: u8, day: u8) -> (jdn: i64)
    requires
        -4712 <= year <= 1_000_000,
        1 <= month <= 12,
        1 <= day <= 31,
    ensures
        jdn == spec_julian_day_number(year as int, month as int, day as int),
{
    let y: i64 = year as i64;
    let m: i64 = month as i64;
    let d: i64 = day as i64;
    let a: i64 = (14 - m) / 12;
    let y2: i64 = y + 4800 - a;
    let m2: i64 = m + 12 * a - 3;
    assert(0 <= m2 <= 11);
    assert(y2 >= 87);
    d + (153 * m2 + 2) / 5 + 365 * y2 + y2 / 4 - y2 / 100 + y2 / 400 - 32045
}

/// A quotient by `k` steps up by one exactly where the number passes a multiple of `k`.
proof fn lemma_quotient_step(n: int, k: int)
    requires
        n >= 1,
        k > 0,
    ensures
        n / k - (n - 1) / k == if n % k == 0 {
            1int
        } else {
            0int
        },
{
    vstd::arithmetic::div_mod::lemma_fundamental_div_mod(n, k);
    vstd::arithmetic::div_mod::lemma_fundamental_div_mod(n - 1, k);
    let q = n / k;
    let r = n % k;
    let q1 = (n - 1) / k;
    let r1 = (n - 1) % k;
    assert(0 <= r < k && 0 <= r1 < k);
    if r == 0 {
        assert(k * q - 1 == k * q1 + r1);
        assert(q1 == q - 1) by (nonlinear_arith)
            requires
                k * q - 1 == k * q1 + r1,
                0 <= r1 < k,
        ;
    } else {
        assert(k * q + r - 1 == k * q1 + r1);
        assert(q1 == q) by (nonlinear_arith)
            requires
                k * q + r - 1 == k * q1 + r1,
                0 <= r1 < k,
                0 < r < k,
        ;
    }
}

/// Shifting a year by 4800 (a multiple of 400) keeps whether it is a leap year.
proof fn lemma_leap_shift(year: int)
    requires
        year >= -4712,
    ensures
        is_leap(year) == (((year + 4800) % 4 == 0 && (year + 4800) % 100 != 0) || (year + 4800)
            % 400 == 0),
{
    let y = year + 4800;
    let a = if year < 0 {
        -year
    } else {
        year
    };
    assert(y % 4 == 0 <==> a % 4 == 0);
    assert(y % 100 == 0 <==> a % 100 == 0);
    assert(y % 400 == 0 <==> a % 400 == 0);
}

/// The epoch of the solar formulas: 1 January 2000 is Julian day 2451545.
pub proof fn lemma_julian_day_epoch()
    ensures
        spec_julian_day_number(2000, 1, 1) == 2451545,
{
}

/// Within a month, the next day is the next Julian day.
pub proof fn lemma_julian_day_next_day(year: int, month: int, day: int)
    requires
        year >= -4712,
        1 <= month <= 12,
        1 <= day < month_length(month_of(month as u8), year),
    ensures
        spec_julian_day_number(year, month, day + 1) == spec_julian_day_number(year, month, day)
            + 1,
{
}

/// Across the end of a month, the first of the next month is the Julian day after the
/// month's last day (February having 29 days in leap years).
pub proof fn lemma_julian_day_across_month_end(year: int, month: int)
    requires
        year >= -4712,
        1 <= month <= 11,
    ensures
        spec_julian_day_number(year, month + 1, 1) == spec_julian_day_number(
            year,
            month,
            month_length(month_of(month as u8), year) as int,
        ) + 1,
{
    let y = year + 4800;
    if month == 2 {
        lemma_quotient_step(y, 4);
        lemma_quotient_step(y, 100);
        lemma_quotient_step(y, 400);
        lemma_leap_shift(year);
        assert((14 - 2) / 12 == 1);
        assert((14 - 3) / 12 == 0);
    }
}

/// Across the end of a year, 1 January is the Julian day after 31 December.
pub proof fn lemma_julian_day_across_year_end(year: int)
    requires
        year >= -4712,
    ensures
        spec_julian_day_number(year + 1, 1, 1) == spec_julian_day_number(year, 12, 31) + 1,
{
}

/// Platform source of the observer's position.
pub trait PositionProvider {
    /// Retrieves the current geographic position.
    fn get_current_position(&self) -> Result<Position, DwallError>;

    /// Checks that the application may access the location.
    fn check_location_permission(&self) -> Result<(), DwallError>;
}

} // verus!
