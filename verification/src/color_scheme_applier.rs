//! One color-scheme update: the day's threshold and daylight state, kept in the cache
//! for a day, and the scheme handed to the platform backend.

use vstd::prelude::*;

use crate::cache::{lookup, Cache, CacheSlot, CacheValue, Entry};
use crate::color_scheme::{
    classify_daylight, decide_scheme, determine_color_scheme_with_hysteresis, location_threshold, ColorScheme,
    ColorSchemeProvider, DaylightState, ThresholdConfig, HYSTERESIS_BAND, UNIT,
};
use crate::config::Config;
use crate::error::DwallError;

verus! {

/// Seconds in a day: how long the threshold and the daylight state stay cached.
pub const DAY_SECONDS: u64 = 86_400;

/// Whether `config` is the threshold computed for the latitude.
pub open spec fn is_located_threshold(config: ThresholdConfig, latitude: int, cosine: int) -> bool {
    config.base() == location_threshold(latitude, cosine) && config.band() == HYSTERESIS_BAND
}

/// The threshold read at `now` from a slot that held `before` and holds `after` once
/// refreshed: the cached one while it lives, else a computed one cached for a day.
pub open spec fn threshold_refreshed(
    before: Option<Entry>,
    after: Option<Entry>,
    config: ThresholdConfig,
    now: u64,
    latitude: int,
    cosine: int,
) -> bool {
    match lookup::<ThresholdConfig>(before, now) {
        Some(cached) => config == cached && after == before,
        None => is_located_threshold(config, latitude, cosine) && after == Some(
            Entry { value: CacheValue::ThresholdConfig(config), expires_at: (now + DAY_SECONDS) as u64 },
        ),
    }
}

/// The daylight state read at `now` from a slot that held `before` and holds `after`
/// once refreshed: the cached one while it lives, else the day's classification cached
/// for a day.
pub open spec fn daylight_refreshed(
    before: Option<Entry>,
    after: Option<Entry>,
    state: DaylightState,
    now: u64,
    altitudes: Seq<i64>,
    threshold: ThresholdConfig,
) -> bool {
    match lookup::<DaylightState>(before, now) {
        Some(cached) => state == cached && after == before,
        None => state == classify_daylight(altitudes, threshold.base()) && after == Some(
            Entry { value: CacheValue::DaylightState(state), expires_at: (now + DAY_SECONDS) as u64 },
        ),
    }
}

/// The day's threshold at `now`: the cached one, or one computed from the latitude and
/// its cosine (millionths) and cached for a day.
pub fn cached_threshold(cache: &mut Cache, now: u64, latitude: i64, latitude_cosine: i64) -> (config:
    ThresholdConfig)
    requires
        -UNIT <= latitude_cosine <= UNIT,
        now + DAY_SECONDS <= u64::MAX,
    ensures
        threshold_refreshed(
            old(cache).entry(CacheSlot::ThresholdConfig),
            final(cache).entry(CacheSlot::ThresholdConfig),
            config,
            now,
            latitude as int,
            latitude_cosine as int,
        ),
        forall|s: CacheSlot|
            s != CacheSlot::ThresholdConfig ==> #[trigger] final(cache).entry(s)
                == old(cache).entry(s),
{
    match cache.get::<ThresholdConfig>(now) {
        Some(config) => config,
        None => {
            let config = ThresholdConfig::from_latitude(latitude, latitude_cosine);
            cache.set(config, DAY_SECONDS, now);
            config
        },
    }
}

/// The day's daylight state at `now`: the cached one, or the classification of the
/// day's sampled solar altitudes against `threshold`, cached for a day.
pub fn cached_daylight_state(
    cache: &mut Cache,
    now: u64,
    day_altitudes: &[i64],
    threshold: &ThresholdConfig,
) -> (state: DaylightState)
    requires
        now + DAY_SECONDS <= u64::MAX,
    ensures
        daylight_refreshed(
            old(cache).entry(CacheSlot::DaylightState),
            final(cache).entry(CacheSlot::DaylightState),
            state,
            now,
            day_altitudes@,
            *threshold,
        ),
        forall|s: CacheSlot|
            s != CacheSlot::DaylightState ==> #[trigger] final(cache).entry(s)
                == old(cache).entry(s),
{
    match cache.get::<DaylightState>(now) {
        Some(state) => state,
        None => {
            let state = DaylightState::detect(day_altitudes, threshold);
            cache.set(state, DAY_SECONDS, now);
            state
        },
    }
}

/// What an update did with the system color scheme: the scheme read from the
/// backend, and the one handed back to it.
#[derive(Debug, Clone, Copy, PartialEq, Eq, Structural)]
pub struct ColorSchemeChange {
    pub current: ColorScheme,
    pub applied: ColorScheme,
}

/// What an update makes of the backend's answer to reading the current scheme: a
/// failed read is the update's error, and nothing is to be set; a scheme read gives
/// the change to hand to the backend, the scheme the hysteresis rule decides from it.
pub fn scheme_change(
    read: Result<ColorScheme, DwallError>,
    sun_altitude: i64,
    threshold: &ThresholdConfig,
    local_hour: u8,
    state: &DaylightState,
) -> (change: Result<ColorSchemeChange, DwallError>)
    ensures
        read matches Err(e) ==> change == Err::<ColorSchemeChange, DwallError>(e),
        read matches Ok(current) ==> change == Ok::<ColorSchemeChange, DwallError>(
            ColorSchemeChange {
                current,
                applied: decide_scheme(
                    sun_altitude as int,
                    current,
                    *threshold,
                    local_hour as int,
                    *state,
                ),
            },
        ),
{
    match read {
        Ok(current) => {
            let applied = determine_color_scheme_with_hysteresis(
                sun_altitude,
                &current,
                threshold,
                local_hour,
                state,
            );
            Ok(ColorSchemeChange { current, applied })
        },
        Err(e) => Err(e),
    }
}

/// Applies the system color scheme that the sun's position calls for.
pub struct ColorSchemeApplier<T: ColorSchemeProvider> {
    color_scheme_provider: T,
}

impl<T: ColorSchemeProvider> ColorSchemeApplier<T> {
    /// The backend the applier drives.
    pub closed spec fn spec_provider(&self) -> T {
        self.color_scheme_provider
    }

    /// An applier driving `color_scheme_provider`.
    pub fn new(color_scheme_provider: T) -> (applier: Self)
        ensures
            applier.spec_provider() == color_scheme_provider,
    {
        ColorSchemeApplier { color_scheme_provider }
    }

    /// One update at time `now` (seconds; `local_hour` is the local hour of day).
    ///
    /// With automatic detection off nothing happens and `None` is returned. Otherwise
    /// the day's threshold and daylight state are taken from the cache or computed and
    /// cached for a day, the current scheme is read from the backend, and
    /// `scheme_change` makes the change of that answer: a failed read is the update's
    /// error and nothing is set; otherwise the decided scheme is handed to the backend,
    /// a failure to set it is not an error of the update, and the change is returned.
    pub fn update_color_scheme(
        &self,
        config: &Config,
        cache: &mut Cache,
        now: u64,
        local_hour: u8,
        latitude: i64,
        latitude_cosine: i64,
        day_altitudes: &[i64],
        sun_altitude: i64,
    ) -> (result: Result<Option<ColorSchemeChange>, DwallError>)
        requires
            -UNIT <= latitude_cosine <= UNIT,
            now + DAY_SECONDS <= u64::MAX,
        ensures
            !config@.auto_detect_color_scheme ==> result == Ok::<
                Option<ColorSchemeChange>,
                DwallError,
            >(None) && forall|s: CacheSlot| #[trigger] final(cache).entry(s) == old(cache).entry(s),
            config@.auto_detect_color_scheme ==> !(result matches Ok(None)),
            config@.auto_detect_color_scheme ==> exists|threshold: ThresholdConfig, state: DaylightState|
                threshold_refreshed(
                    old(cache).entry(CacheSlot::ThresholdConfig),
                    final(cache).entry(CacheSlot::ThresholdConfig),
                    threshold,
                    now,
                    latitude as int,
                    latitude_cosine as int,
                ) && daylight_refreshed(
                    old(cache).entry(CacheSlot::DaylightState),
                    final(cache).entry(CacheSlot::DaylightState),
                    state,
                    now,
                    day_altitudes@,
                    threshold,
                ) && (result matches Ok(Some(change)) ==> change.applied == decide_scheme(
                    sun_altitude as int,
                    change.current,
                    threshold,
                    local_hour as int,
                    state,
                )),
            forall|s: CacheSlot|
                s != CacheSlot::ThresholdConfig && s != CacheSlot::DaylightState
                    ==> #[trigger] final(cache).entry(s) == old(cache).entry(s),
    {
        if !config.auto_detect_color_scheme() {
            return Ok(None);
        }
        let threshold = cached_threshold(cache, now, latitude, latitude_cosine);
        let state = cached_daylight_state(cache, now, day_altitudes, &threshold);
        let change = scheme_change(
            self.color_scheme_provider.get_current_scheme(),
            sun_altitude,
            &threshold,
            local_hour,
            &state,
        )?;
        let _ignored = self.color_scheme_provider.set_color_scheme(change.applied);
        Ok(Some(change))
    }
}

} // verus!
