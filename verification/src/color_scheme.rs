//! Automatic light/dark color scheme switching based on solar position.
//!
//! All angles are fixed-point values in millionths of a degree.

use vstd::prelude::*;

use crate::error::DwallError;
use crate::solar::Position;

verus! {

// ── Color scheme ────────────────────────────────────────────────────────────
/// The system color scheme.
#[derive(Debug, PartialEq, Eq, Structural, Copy, Clone)]
pub enum ColorScheme {
    Light,
    Dark,
}

/// Registry code of a color scheme: `1` for light, `0` for dark.
pub open spec fn scheme_code(scheme: ColorScheme) -> u32 {
    match scheme {
        ColorScheme::Light => 1,
        ColorScheme::Dark => 0,
    }
}

/// Text shown for a color scheme.
pub open spec fn scheme_name(scheme: ColorScheme) -> Seq<char> {
    match scheme {
        ColorScheme::Light => "Light"@,
        ColorScheme::Dark => "Dark"@,
    }
}

impl ColorScheme {
    /// The registry DWORD for this scheme.
    pub fn as_u32(&self) -> (code: u32)
        ensures
            code == scheme_code(*self),
    {
        match self {
            ColorScheme::Light => 1,
            ColorScheme::Dark => 0,
        }
    }

    /// Little-endian bytes of [`ColorScheme::as_u32`], as written to the registry.
    pub fn to_le_bytes(self) -> (bytes: [u8; 4])
        ensures
            bytes@ == seq![scheme_code(self) as u8, 0u8, 0u8, 0u8],
            bytes[0] + 256 * bytes[1] + 65536 * bytes[2] + 16777216 * bytes[3] == scheme_code(
                self,
            ),
    {
        let code = self.as_u32();
        let low: u8 = if code == 1 { 1 } else { 0 };
        let bytes: [u8; 4] = [low, 0, 0, 0];
        assert(bytes@ =~= seq![scheme_code(self) as u8, 0u8, 0u8, 0u8]);
        bytes
    }

    /// Display text of the scheme: `"Light"` or `"Dark"`.
    pub fn to_string(&self) -> (text: String)
        ensures
            text@ == scheme_name(*self),
    {
        match self {
            ColorScheme::Light => String::from_str("Light"),
            ColorScheme::Dark => String::from_str("Dark"),
        }
    }
}

/// Platform backend that reads and writes the system color scheme.
pub trait ColorSchemeProvider {
    /// Retrieves the current system color scheme.
    fn get_current_scheme(&self) -> Result<ColorScheme, DwallError>;

    /// Sets the system color scheme.
    fn set_color_scheme(&self, scheme: ColorScheme) -> Result<(), DwallError>;
}

/// Registry key holding the personalization settings.
pub const PERSONALIZE_KEY_PATH: &'static str = "Software\\Microsoft\\Windows\\CurrentVersion\\Themes\\Personalize";

/// Registry value of the applications' color scheme.
pub const APPS_THEME_VALUE: &'static str = "AppsUseLightTheme";

/// Registry value of the system's color scheme.
pub const SYSTEM_THEME_VALUE: &'static str = "SystemUsesLightTheme";

/// The rules of the registry-backed color scheme backend.
#[derive(Debug, Clone, Copy)]
pub struct ColorSchemeScheduler;

impl ColorSchemeScheduler {
    /// The backend.
    pub fn new() -> (scheduler: ColorSchemeScheduler) {
        ColorSchemeScheduler
    }

    /// The scheme a registry value stands for: `1` is light, anything else dark.
    pub fn scheme_from_registry(value: u32) -> (scheme: ColorScheme)
        ensures
            (value == 1) == (scheme == ColorScheme::Light),
    {
        if value == 1 {
            ColorScheme::Light
        } else {
            ColorScheme::Dark
        }
    }

    /// The bytes to write to both registry values to go from `current` to `target`, or
    /// `None` when the target is already set.
    pub fn registry_write(current: ColorScheme, target: ColorScheme) -> (bytes: Option<[u8; 4]>)
        ensures
            current == target ==> bytes is None,
            current != target ==> (bytes matches Some(b) && b@ == seq![
                scheme_code(target) as u8,
                0u8,
                0u8,
                0u8,
            ]),
    {
        if current == target {
            None
        } else {
            Some(target.to_le_bytes())
        }
    }
}

impl Default for ColorSchemeScheduler {
    fn default() -> (scheduler: ColorSchemeScheduler) {
        ColorSchemeScheduler::new()
    }
}

// ── Astronomical constants (millionths of a degree) ─────────────────────────
/// Civil twilight threshold: the sun's center 6° below the horizon.
pub const CIVIL_TWILIGHT: i64 = -6_000_000;

/// Hysteresis half-bandwidth (0.5°): the switching lines are `base ± band`.
pub const HYSTERESIS_BAND: i64 = 500_000;

/// White-night amplitude trigger (4°).
pub const WHITE_NIGHT_AMPLITUDE_MARGIN: i64 = 4_000_000;

/// Polar-night fallback: first waking hour (inclusive).
pub const WAKING_HOUR_START: u8 = 7;

/// Polar-night fallback: end of waking hours (exclusive).
pub const WAKING_HOUR_END: u8 = 18;

/// Arctic / Antarctic circle latitude (66.5°).
pub const ARCTIC_CIRCLE_LAT: i64 = 66_500_000;

/// High-latitude boundary (45°).
pub const HIGH_LAT_BOUNDARY: i64 = 45_000_000;

/// Tropic latitude (23.5°).
pub const TROPIC_LAT: i64 = 23_500_000;

/// Polar base threshold (-8°) that polar latitudes deepen from.
pub const POLAR_BASE_THRESHOLD: i64 = -8_000_000;

/// Maximum deepening inside the polar circles (4°).
pub const POLAR_MAX_ADJUSTMENT: i64 = 4_000_000;

/// Maximum deepening at high latitudes (3°).
pub const HIGH_LAT_MAX_ADJUSTMENT: i64 = 3_000_000;

/// Maximum shallowing in the tropics (1.5°).
pub const TROPICAL_MAX_ADJUSTMENT: i64 = 1_500_000;

/// Lower clamp of the threshold (-12°).
pub const THRESHOLD_MIN: i64 = -12_000_000;

/// Upper clamp of the threshold (-4.5°).
pub const THRESHOLD_MAX: i64 = -4_500_000;

/// One, in millionths (the scale of a latitude cosine).
pub const UNIT: i64 = 1_000_000;

// ── Dynamic threshold ───────────────────────────────────────────────────────
/// Absolute value of an integer.
pub open spec fn abs_int(x: int) -> int {
    if x < 0 {
        -x
    } else {
        x
    }
}

/// Clamp of `x` to `[lo, hi]`.
pub open spec fn clamp_int(x: int, lo: int, hi: int) -> int {
    if x < lo {
        lo
    } else if x > hi {
        hi
    } else {
        x
    }
}

/// Base threshold before clamping, by latitude zone.
///
/// `latitude_cosine` is `cos(|latitude|)` in millionths; only the high-latitude
/// zone uses it.
pub open spec fn zone_threshold(latitude: int, latitude_cosine: int) -> int {
    let abs_lat = abs_int(latitude);
    let arctic = ARCTIC_CIRCLE_LAT as int;
    let tropic = TROPIC_LAT as int;
    let civil = CIVIL_TWILIGHT as int;
    let unit = UNIT as int;
    if abs_lat > arctic {
        POLAR_BASE_THRESHOLD as int - (abs_lat - arctic) * (POLAR_MAX_ADJUSTMENT as int) / tropic
    } else if abs_lat > HIGH_LAT_BOUNDARY as int {
        civil - (unit - latitude_cosine) * (HIGH_LAT_MAX_ADJUSTMENT as int) / unit
    } else if abs_lat < tropic {
        civil + (tropic - abs_lat) * (TROPICAL_MAX_ADJUSTMENT as int) / tropic
    } else {
        civil
    }
}

/// The location-dependent switching threshold, clamped to the astronomical range.
pub open spec fn location_threshold(latitude: int, latitude_cosine: int) -> int {
    clamp_int(
        zone_threshold(latitude, latitude_cosine),
        THRESHOLD_MIN as int,
        THRESHOLD_MAX as int,
    )
}

/// Dynamic switching threshold based on geographic location.
#[derive(Debug, Clone, Copy, PartialEq, Eq, Structural)]
pub struct ThresholdConfig {
    base_threshold: i64,
    hysteresis_band: i64,
}

impl ThresholdConfig {
    /// Base threshold (millionths of a degree).
    pub closed spec fn base(&self) -> int {
        self.base_threshold as int
    }

    /// Hysteresis half-bandwidth (millionths of a degree).
    pub closed spec fn band(&self) -> int {
        self.hysteresis_band as int
    }

    /// Altitude the sun must exceed to switch from Dark to Light.
    pub open spec fn spec_light_switch_point(&self) -> int {
        self.base() + self.band()
    }

    /// Altitude the sun must fall below to switch from Light to Dark.
    pub open spec fn spec_dark_switch_point(&self) -> int {
        self.base() - self.band()
    }

    /// A configuration from an explicit base threshold and half-bandwidth.
    pub fn new(base_threshold: i64, hysteresis_band: i64) -> (config: Self)
        ensures
            config.base() == base_threshold,
            config.band() == hysteresis_band,
    {
        ThresholdConfig { base_threshold, hysteresis_band }
    }

    /// Base threshold (millionths of a degree).
    pub fn base_threshold(&self) -> (value: i64)
        ensures
            value == self.base(),
    {
        self.base_threshold
    }

    /// Hysteresis half-bandwidth (millionths of a degree).
    pub fn hysteresis_band(&self) -> (value: i64)
        ensures
            value == self.band(),
    {
        self.hysteresis_band
    }

    /// Threshold computed from the observer's latitude.
    ///
    /// `latitude` is in millionths of a degree, `latitude_cosine` is
    /// `cos(|latitude|)` in millionths.
    pub fn from_latitude(latitude: i64, latitude_cosine: i64) -> (config: Self)
        requires
            -UNIT <= latitude_cosine <= UNIT,
        ensures
            config.base() == location_threshold(latitude as int, latitude_cosine as int),
            config.band() == HYSTERESIS_BAND,
    {
        ThresholdConfig {
            base_threshold: Self::calculate_threshold(latitude, latitude_cosine),
            hysteresis_band: HYSTERESIS_BAND,
        }
    }

    /// Threshold for an observer at `position`; `latitude_cosine` is `cos(|latitude|)`
    /// in millionths.
    pub fn from_position(position: &Position, latitude_cosine: i64) -> (config: Self)
        requires
            -UNIT <= latitude_cosine <= UNIT,
        ensures
            config.base() == location_threshold(position.lat(), latitude_cosine as int),
            config.band() == HYSTERESIS_BAND,
    {
        Self::from_latitude(position.latitude(), latitude_cosine)
    }

    /// The default civil-twilight threshold, for an unknown location.
    pub fn default_civil() -> (config: Self)
        ensures
            config.base() == CIVIL_TWILIGHT,
            config.band() == HYSTERESIS_BAND,
    {
        ThresholdConfig { base_threshold: CIVIL_TWILIGHT, hysteresis_band: HYSTERESIS_BAND }
    }

    /// Base threshold by latitude zone, clamped to `[THRESHOLD_MIN, THRESHOLD_MAX]`.
    pub fn calculate_threshold(latitude: i64, latitude_cosine: i64) -> (threshold: i64)
        requires
            -UNIT <= latitude_cosine <= UNIT,
        ensures
            threshold == location_threshold(latitude as int, latitude_cosine as int),
            THRESHOLD_MIN <= threshold <= THRESHOLD_MAX,
    {
        let lat: i128 = latitude as i128;
        let abs_lat: i128 = if lat < 0 { -lat } else { lat };
        let cos: i128 = latitude_cosine as i128;
        let threshold: i128 = if abs_lat > ARCTIC_CIRCLE_LAT as i128 {
            assert(0 <= (abs_lat - 66_500_000) * 4_000_000 <= 40_000_000_000_000_000_000_000_000)
                by (nonlinear_arith)
                requires
                    66_500_000 < abs_lat <= 9_300_000_000_000_000_000,
            ;
            let extreme: i128 = (abs_lat - ARCTIC_CIRCLE_LAT as i128) * POLAR_MAX_ADJUSTMENT as i128
                / TROPIC_LAT as i128;
            POLAR_BASE_THRESHOLD as i128 - extreme
        } else if abs_lat > HIGH_LAT_BOUNDARY as i128 {
            assert(0 <= (1_000_000 - cos) * 3_000_000 <= 6_000_000_000_000) by (nonlinear_arith)
                requires
                    -1_000_000 <= cos <= 1_000_000,
            ;
            let adjustment: i128 = (UNIT as i128 - cos) * HIGH_LAT_MAX_ADJUSTMENT as i128
                / UNIT as i128;
            CIVIL_TWILIGHT as i128 - adjustment
        } else if abs_lat < TROPIC_LAT as i128 {
            assert(0 <= (23_500_000 - abs_lat) * 1_500_000 <= 40_000_000_000_000) by (nonlinear_arith)
                requires
                    0 <= abs_lat < 23_500_000,
            ;
            let shallowing: i128 = (TROPIC_LAT as i128 - abs_lat) * TROPICAL_MAX_ADJUSTMENT as i128
                / TROPIC_LAT as i128;
            CIVIL_TWILIGHT as i128 + shallowing
        } else {
            CIVIL_TWILIGHT as i128
        };
        let clamped: i128 = if threshold < THRESHOLD_MIN as i128 {
            THRESHOLD_MIN as i128
        } else if threshold > THRESHOLD_MAX as i128 {
            THRESHOLD_MAX as i128
        } else {
            threshold
        };
        clamped as i64
    }

    /// Lower altitude bound for switching to Light: `base + band`.
    pub fn light_switch_point(&self) -> (point: i64)
        requires
            i64::MIN <= self.spec_light_switch_point() <= i64::MAX,
        ensures
            point == self.spec_light_switch_point(),
    {
        self.base_threshold + self.hysteresis_band
    }

    /// The altitude must fall below `base - band` to switch from Light to Dark.
    pub fn dark_switch_point(&self) -> (point: i64)
        requires
            i64::MIN <= self.spec_dark_switch_point() <= i64::MAX,
        ensures
            point == self.spec_dark_switch_point(),
    {
        self.base_threshold - self.hysteresis_band
    }
}

// ── Extreme daylight state ──────────────────────────────────────────────────
/// The extreme daylight state of a day, from the sun's hourly altitudes.
#[derive(Debug, Clone, Copy, PartialEq, Eq, Structural)]
pub enum DaylightState {
    /// Normal day/night cycle, using the hysteresis logic.
    Normal,
    /// The lowest altitude of the day is still at or above the base threshold.
    MidnightSun,
    /// The highest altitude of the day is still below the base threshold.
    PolarNight,
    /// The sun stays close to the base threshold all day.
    WhiteNight {
        /// Minimum apparent altitude of the day (millionths of a degree).
        min_altitude: i64,
        /// Maximum apparent altitude of the day (millionths of a degree).
        max_altitude: i64,
    },
}

/// Smallest element of a non-empty sequence.
pub open spec fn seq_min(s: Seq<i64>) -> int
    decreases s.len(),
{
    if s.len() <= 1 {
        s[0] as int
    } else {
        let rest = seq_min(s.drop_last());
        if (s.last() as int) < rest {
            s.last() as int
        } else {
            rest
        }
    }
}

/// Largest element of a non-empty sequence.
pub open spec fn seq_max(s: Seq<i64>) -> int
    decreases s.len(),
{
    if s.len() <= 1 {
        s[0] as int
    } else {
        let rest = seq_max(s.drop_last());
        if (s.last() as int) > rest {
            s.last() as int
        } else {
            rest
        }
    }
}

/// Classification of a day from its sampled altitudes.
pub open spec fn classify_daylight(altitudes: Seq<i64>, base: int) -> DaylightState {
    if altitudes.len() == 0 {
        DaylightState::Normal
    } else {
        let lo = seq_min(altitudes);
        let hi = seq_max(altitudes);
        if lo >= base {
            DaylightState::MidnightSun
        } else if hi < base {
            DaylightState::PolarNight
        } else if hi - lo < WHITE_NIGHT_AMPLITUDE_MARGIN && hi < base
            + WHITE_NIGHT_AMPLITUDE_MARGIN {
            DaylightState::WhiteNight { min_altitude: lo as i64, max_altitude: hi as i64 }
        } else {
            DaylightState::Normal
        }
    }
}

/// The minimum is attained and bounds every element; likewise the maximum.
pub proof fn lemma_seq_min_max(s: Seq<i64>)
    requires
        s.len() > 0,
    ensures
        forall|i: int| 0 <= i < s.len() ==> seq_min(s) <= #[trigger] s[i] <= seq_max(s),
        exists|i: int| 0 <= i < s.len() && #[trigger] s[i] == seq_min(s),
        exists|j: int| 0 <= j < s.len() && #[trigger] s[j] == seq_max(s),
        i64::MIN <= seq_min(s) <= seq_max(s) <= i64::MAX,
    decreases s.len(),
{
    if s.len() > 1 {
        let t = s.drop_last();
        lemma_seq_min_max(t);
        assert forall|i: int| 0 <= i < s.len() implies seq_min(s) <= #[trigger] s[i] <= seq_max(s) by {
            if i < s.len() - 1 {
                assert(s[i] == t[i]);
            }
        }
        let wi = choose|i: int| 0 <= i < t.len() && t[i] == seq_min(t);
        let wj = choose|j: int| 0 <= j < t.len() && t[j] == seq_max(t);
        assert(s[wi] == t[wi]);
        assert(s[wj] == t[wj]);
        assert(s[s.len() - 1] == s.last());
    } else {
        assert(s[0] == seq_min(s));
    }
}

impl DaylightState {
    /// Classify a day from the sun's apparent altitudes sampled at its whole hours.
    ///
    /// No samples gives `Normal`.
    pub fn detect(altitudes: &[i64], config: &ThresholdConfig) -> (state: Self)
        ensures
            state == classify_daylight(altitudes@, config.base()),
    {
        let n = altitudes.len();
        if n == 0 {
            return DaylightState::Normal;
        }
        let mut lo: i64 = altitudes[0];
        let mut hi: i64 = altitudes[0];
        let mut i: usize = 1;
        assert(altitudes@.take(1).drop_last() =~= altitudes@.take(0));
        while i < n
            invariant
                1 <= i <= n,
                n == altitudes@.len(),
                lo == seq_min(altitudes@.take(i as int)),
                hi == seq_max(altitudes@.take(i as int)),
            decreases n - i,
        {
            let x = altitudes[i];
            assert(altitudes@.take(i as int + 1).drop_last() =~= altitudes@.take(i as int));
            assert(altitudes@.take(i as int + 1).last() == x);
            if x < lo {
                lo = x;
            }
            if x > hi {
                hi = x;
            }
            i = i + 1;
        }
        assert(altitudes@.take(n as int) =~= altitudes@);
        let base = config.base_threshold;
        if lo >= base {
            return DaylightState::MidnightSun;
        }
        if hi < base {
            return DaylightState::PolarNight;
        }
        let amplitude: i128 = hi as i128 - lo as i128;
        if amplitude < WHITE_NIGHT_AMPLITUDE_MARGIN as i128 && (hi as i128) < base as i128
            + WHITE_NIGHT_AMPLITUDE_MARGIN as i128 {
            return DaylightState::WhiteNight { min_altitude: lo, max_altitude: hi };
        }
        DaylightState::Normal
    }
}

// ── Decision engine ─────────────────────────────────────────────────────────
/// Whether a local hour lies in the waking hours `[7, 18)`.
pub open spec fn is_waking_hour(hour: int) -> bool {
    WAKING_HOUR_START <= hour < WAKING_HOUR_END
}

/// The scheme to apply, given the sun's apparent altitude, the current scheme,
/// the threshold, the local hour and the day's daylight state.
pub open spec fn decide_scheme(
    altitude: int,
    current: ColorScheme,
    config: ThresholdConfig,
    hour: int,
    state: DaylightState,
) -> ColorScheme {
    match state {
        DaylightState::MidnightSun => ColorScheme::Light,
        DaylightState::PolarNight => if is_waking_hour(hour) {
            ColorScheme::Light
        } else {
            ColorScheme::Dark
        },
        // `altitude >= midpoint + margin / 2`, multiplied by two.
        DaylightState::WhiteNight { min_altitude, max_altitude } => if 2 * altitude
            >= min_altitude + max_altitude + WHITE_NIGHT_AMPLITUDE_MARGIN {
            ColorScheme::Light
        } else if 2 * altitude < min_altitude + max_altitude - WHITE_NIGHT_AMPLITUDE_MARGIN {
            ColorScheme::Dark
        } else {
            current
        },
        // Dark turns Light only above the upper switch point, Light turns Dark only
        // below the lower one.
        DaylightState::Normal => match current {
            ColorScheme::Dark => if altitude > config.spec_light_switch_point() {
                ColorScheme::Light
            } else {
                ColorScheme::Dark
            },
            ColorScheme::Light => if altitude < config.spec_dark_switch_point() {
                ColorScheme::Dark
            } else {
                ColorScheme::Light
            },
        },
    }
}

/// Determine the color scheme from the solar altitude with hysteresis.
///
/// The three extreme daylight states are handled first (midnight sun: light;
/// polar night: waking hours; white night: midpoint with a wide dead zone),
/// then a Schmitt trigger around the base threshold.
pub fn determine_color_scheme_with_hysteresis(
    altitude: i64,
    current_scheme: &ColorScheme,
    config: &ThresholdConfig,
    local_hour: u8,
    daylight_state: &DaylightState,
) -> (scheme: ColorScheme)
    ensures
        scheme == decide_scheme(
            altitude as int,
            *current_scheme,
            *config,
            local_hour as int,
            *daylight_state,
        ),
{
    match daylight_state {
        DaylightState::MidnightSun => {
            return ColorScheme::Light;
        },
        DaylightState::PolarNight => {
            return if WAKING_HOUR_START <= local_hour && local_hour < WAKING_HOUR_END {
                ColorScheme::Light
            } else {
                ColorScheme::Dark
            };
        },
        DaylightState::WhiteNight { min_altitude, max_altitude } => {
            let twice: i128 = 2 * altitude as i128;
            let sum: i128 = *min_altitude as i128 + *max_altitude as i128;
            return if twice >= sum + WHITE_NIGHT_AMPLITUDE_MARGIN as i128 {
                ColorScheme::Light
            } else if twice < sum - WHITE_NIGHT_AMPLITUDE_MARGIN as i128 {
                ColorScheme::Dark
            } else {
                *current_scheme
            };
        },
        DaylightState::Normal => {},
    }
    let base: i128 = config.base_threshold as i128;
    let band: i128 = config.hysteresis_band as i128;
    match current_scheme {
        ColorScheme::Dark => if altitude as i128 > base + band {
            ColorScheme::Light
        } else {
            ColorScheme::Dark
        },
        ColorScheme::Light => if (altitude as i128) < base - band {
            ColorScheme::Dark
        } else {
            ColorScheme::Light
        },
    }
}

// ── Laws ────────────────────────────────────────────────────────────────────
/// Inside the hysteresis dead zone `[base - band, base + band]` of a normal
/// day, the current scheme is kept.
pub proof fn lemma_dead_zone_keeps_scheme(
    altitude: int,
    current: ColorScheme,
    config: ThresholdConfig,
    hour: int,
)
    requires
        config.spec_dark_switch_point() <= altitude <= config.spec_light_switch_point(),
    ensures
        decide_scheme(altitude, current, config, hour, DaylightState::Normal) == current,
{
}

/// On a normal day, above `base + band` the scheme is Light and below
/// `base - band` it is Dark, whatever the current scheme (for a non-negative band).
pub proof fn lemma_outside_dead_zone_forced(
    altitude: int,
    current: ColorScheme,
    config: ThresholdConfig,
    hour: int,
)
    requires
        config.band() >= 0,
    ensures
        altitude > config.spec_light_switch_point() ==> decide_scheme(
            altitude,
            current,
            config,
            hour,
            DaylightState::Normal,
        ) == ColorScheme::Light,
        altitude < config.spec_dark_switch_point() ==> decide_scheme(
            altitude,
            current,
            config,
            hour,
            DaylightState::Normal,
        ) == ColorScheme::Dark,
{
}

/// Deciding again at the same altitude and hour, from the scheme just decided,
/// gives the same scheme: no oscillation without movement of the sun
/// (for a non-negative band).
pub proof fn lemma_decision_is_stable(
    altitude: int,
    current: ColorScheme,
    config: ThresholdConfig,
    hour: int,
    state: DaylightState,
)
    requires
        config.band() >= 0,
    ensures
        decide_scheme(
            altitude,
            decide_scheme(altitude, current, config, hour, state),
            config,
            hour,
            state,
        ) == decide_scheme(altitude, current, config, hour, state),
{
}

/// On a day of midnight sun the scheme is Light, whatever the sun's altitude, the
/// current scheme, the threshold and the hour.
pub proof fn lemma_midnight_sun_is_always_light(
    altitude: int,
    current: ColorScheme,
    config: ThresholdConfig,
    hour: int,
)
    ensures
        decide_scheme(altitude, current, config, hour, DaylightState::MidnightSun)
            == ColorScheme::Light,
{
}

/// On a day of polar night the scheme follows the clock: Light from 7:00 up to
/// 18:00, Dark otherwise, whatever the sun's altitude, the current scheme and the
/// threshold.
pub proof fn lemma_polar_night_follows_waking_hours(
    altitude: int,
    current: ColorScheme,
    config: ThresholdConfig,
    hour: int,
)
    ensures
        decide_scheme(altitude, current, config, hour, DaylightState::PolarNight) == if 7 <= hour
            < 18 {
            ColorScheme::Light
        } else {
            ColorScheme::Dark
        },
{
}

/// A higher sun never turns a Light decision into Dark.
pub proof fn lemma_decision_monotone_in_altitude(
    low: int,
    high: int,
    current: ColorScheme,
    config: ThresholdConfig,
    hour: int,
    state: DaylightState,
)
    requires
        low <= high,
        decide_scheme(low, current, config, hour, state) == ColorScheme::Light,
    ensures
        decide_scheme(high, current, config, hour, state) == ColorScheme::Light,
{
}

/// Every location threshold lies in `[THRESHOLD_MIN, THRESHOLD_MAX]`.
pub proof fn lemma_threshold_within_bounds(latitude: int, latitude_cosine: int)
    ensures
        THRESHOLD_MIN <= location_threshold(latitude, latitude_cosine) <= THRESHOLD_MAX,
{
}

/// Tropical latitudes get a shallower threshold than mid-latitudes, and
/// high latitudes (whose cosine is below one) a deeper one. The tropical zone is
/// taken up to sixteen millionths of a degree short of the tropic, below which the
/// fixed-point shallowing rounds to zero.
pub proof fn lemma_threshold_zones_ordered(tropical: int, mid: int, high: int, high_cosine: int)
    requires
        abs_int(tropical) <= TROPIC_LAT - 16,
        TROPIC_LAT <= abs_int(mid) <= HIGH_LAT_BOUNDARY,
        HIGH_LAT_BOUNDARY < abs_int(high) <= ARCTIC_CIRCLE_LAT,
        0 <= high_cosine < UNIT,
    ensures
        location_threshold(tropical, 0) > location_threshold(mid, 0),
        location_threshold(high, high_cosine) < location_threshold(mid, 0),
{
    let a = abs_int(tropical);
    assert((23_500_000 - a) * 1_500_000 >= 23_500_000) by (nonlinear_arith)
        requires
            23_500_000 - a >= 16,
    ;
    assert((1_000_000 - high_cosine) * 3_000_000 >= 1_000_000) by (nonlinear_arith)
        requires
            1_000_000 - high_cosine >= 1,
    ;
    assert((23_500_000 - a) * 1_500_000 <= 23_500_000 * 1_500_000) by (nonlinear_arith)
        requires
            0 < 23_500_000 - a <= 23_500_000,
    ;
    assert((1_000_000 - high_cosine) * 3_000_000 <= 1_000_000 * 3_000_000) by (nonlinear_arith)
        requires
            0 < 1_000_000 - high_cosine <= 1_000_000,
    ;
}

/// Whether `latitude_cosine` can be the cosine (in millionths) of `latitude`: it lies in
/// `[0, 1]`, and up to the polar circle it is at least 0.39 (the cosine of 66.5° is
/// about 0.3987).
pub open spec fn cosine_plausible(latitude: int, latitude_cosine: int) -> bool {
    &&& 0 <= latitude_cosine <= UNIT
    &&& abs_int(latitude) <= ARCTIC_CIRCLE_LAT ==> latitude_cosine >= 390_000
}

/// The threshold never rises as the latitude moves away from the equator: for a
/// latitude no nearer the pole, with the cosines of the two latitudes ordered as cosines
/// are, the threshold is at most as high.
pub proof fn lemma_threshold_never_rises_poleward(
    near: int,
    near_cosine: int,
    far: int,
    far_cosine: int,
)
    requires
        abs_int(near) <= abs_int(far),
        far_cosine <= near_cosine,
        cosine_plausible(near, near_cosine),
        cosine_plausible(far, far_cosine),
    ensures
        location_threshold(far, far_cosine) <= location_threshold(near, near_cosine),
{
    let a = abs_int(near);
    let b = abs_int(far);
    let zn = zone_threshold(near, near_cosine);
    let zf = zone_threshold(far, far_cosine);
    // Each zone's value, bounded so that the zones line up.
    if b > ARCTIC_CIRCLE_LAT {
        assert((b - 66_500_000) * 4_000_000 >= 0) by (nonlinear_arith)
            requires
                b - 66_500_000 >= 0,
        ;
        vstd::arithmetic::div_mod::lemma_div_is_ordered(0, (b - 66_500_000) * 4_000_000, 23_500_000);
        assert(zf <= -8_000_000);
        if a > ARCTIC_CIRCLE_LAT {
            assert((a - 66_500_000) * 4_000_000 <= (b - 66_500_000) * 4_000_000) by (nonlinear_arith)
                requires
                    a <= b,
            ;
            vstd::arithmetic::div_mod::lemma_div_is_ordered(
                (a - 66_500_000) * 4_000_000,
                (b - 66_500_000) * 4_000_000,
                23_500_000,
            );
        }
    }
    if HIGH_LAT_BOUNDARY < a <= ARCTIC_CIRCLE_LAT {
        assert((1_000_000 - near_cosine) * 3_000_000 <= 610_000 * 3_000_000) by (nonlinear_arith)
            requires
                0 <= 1_000_000 - near_cosine <= 610_000,
        ;
        vstd::arithmetic::div_mod::lemma_div_is_ordered(
            (1_000_000 - near_cosine) * 3_000_000,
            610_000int * 3_000_000,
            1_000_000,
        );
        assert(zn >= -8_000_000);
    }
    if HIGH_LAT_BOUNDARY < b <= ARCTIC_CIRCLE_LAT {
        assert((1_000_000 - far_cosine) * 3_000_000 >= 0) by (nonlinear_arith)
            requires
                1_000_000 - far_cosine >= 0,
        ;
        vstd::arithmetic::div_mod::lemma_div_is_ordered(0, (1_000_000 - far_cosine) * 3_000_000, 1_000_000);
        assert(zf <= -6_000_000);
        if HIGH_LAT_BOUNDARY < a {
            assert((1_000_000 - near_cosine) * 3_000_000 <= (1_000_000 - far_cosine) * 3_000_000)
                by (nonlinear_arith)
                requires
                    far_cosine <= near_cosine,
            ;
            vstd::arithmetic::div_mod::lemma_div_is_ordered(
                (1_000_000 - near_cosine) * 3_000_000,
                (1_000_000 - far_cosine) * 3_000_000,
                1_000_000,
            );
        }
    }
    if a < TROPIC_LAT {
        assert((23_500_000 - a) * 1_500_000 >= 0) by (nonlinear_arith)
            requires
                23_500_000 - a >= 0,
        ;
        vstd::arithmetic::div_mod::lemma_div_is_ordered(0, (23_500_000 - a) * 1_500_000, 23_500_000);
        assert(zn >= -6_000_000);
        if b < TROPIC_LAT {
            assert((23_500_000 - b) * 1_500_000 <= (23_500_000 - a) * 1_500_000) by (nonlinear_arith)
                requires
                    a <= b,
            ;
            vstd::arithmetic::div_mod::lemma_div_is_ordered(
                (23_500_000 - b) * 1_500_000,
                (23_500_000 - a) * 1_500_000,
                23_500_000,
            );
        }
    }
    assert(zf <= zn);
}

/// A day is classified midnight sun exactly when no sample is below the base
/// threshold, and polar night exactly when every sample is below it.
pub proof fn lemma_daylight_extremes(altitudes: Seq<i64>, base: int)
    requires
        altitudes.len() > 0,
    ensures
        (classify_daylight(altitudes, base) == DaylightState::MidnightSun) <==> (forall|i: int|
            0 <= i < altitudes.len() ==> altitudes[i] >= base),
        (classify_daylight(altitudes, base) == DaylightState::PolarNight) <==> (!(forall|i: int|
            0 <= i < altitudes.len() ==> altitudes[i] >= base) && forall|i: int|
            0 <= i < altitudes.len() ==> altitudes[i] < base),
{
    lemma_seq_min_max(altitudes);
    let wi = choose|i: int| 0 <= i < altitudes.len() && altitudes[i] == seq_min(altitudes);
    let wj = choose|j: int| 0 <= j < altitudes.len() && altitudes[j] == seq_max(altitudes);
    assert(altitudes[wi] == seq_min(altitudes));
    assert(altitudes[wj] == seq_max(altitudes));
}

} // verus!
