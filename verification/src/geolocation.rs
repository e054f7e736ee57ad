//! Where the position comes from: manual coordinates, or the platform's geolocation
//! cached for a while.

use vstd::prelude::*;

use crate::cache::{live_entry, lookup, Cache, CacheSlot, CacheValue, Cacheable, Entry};
use crate::config::PositionSource;
use crate::error::DwallError;
use crate::solar::{
    valid_latitude, valid_longitude, CoordinateError, Position, PositionProvider, SolarPosition,
};

verus! {

/// Why geolocation may not be used.
#[derive(Debug, Clone, Copy, PartialEq, Eq, Structural)]
pub enum GeolocationAccessError {
    /// The user denied the permission.
    Denied,
    /// The permission status is unspecified.
    Unspecified,
}

impl GeolocationAccessError {
    /// The message of the error.
    pub fn message(&self) -> (text: &'static str)
        ensures
            text@ == (match *self {
                GeolocationAccessError::Denied => "Geolocation permission was denied by the user"@,
                GeolocationAccessError::Unspecified => "Geolocation permission status is unspecified"@,
            }),
    {
        match self {
            GeolocationAccessError::Denied => "Geolocation permission was denied by the user",
            GeolocationAccessError::Unspecified => "Geolocation permission status is unspecified",
        }
    }
}

/// The platform's answer to a geolocation access request.
#[derive(Debug, Clone, Copy, PartialEq, Eq, Structural)]
pub enum AccessStatus {
    Allowed,
    Denied,
    Unspecified,
}

/// The platform geolocation backend.
#[derive(Debug, Clone, Copy)]
pub struct Positioner;

impl Positioner {
    /// The backend.
    pub fn new() -> (positioner: Positioner) {
        Positioner
    }

    /// Access is granted only when the platform allowed it.
    pub fn access_result(status: AccessStatus) -> (result: Result<(), GeolocationAccessError>)
        ensures
            status == AccessStatus::Allowed ==> result is Ok,
            status == AccessStatus::Denied ==> result == Err::<(), GeolocationAccessError>(
                GeolocationAccessError::Denied,
            ),
            status == AccessStatus::Unspecified ==> result == Err::<(), GeolocationAccessError>(
                GeolocationAccessError::Unspecified,
            ),
    {
        match status {
            AccessStatus::Allowed => Ok(()),
            AccessStatus::Denied => Err(GeolocationAccessError::Denied),
            AccessStatus::Unspecified => Err(GeolocationAccessError::Unspecified),
        }
    }

    /// The position the platform reported, taken as it is.
    pub fn position_from_reading(latitude: i64, longitude: i64, altitude: i64) -> (p: Position)
        ensures
            p.lat() == latitude && p.lon() == longitude && p.alt() == altitude,
    {
        Position::from_raw_position(latitude, longitude, altitude)
    }
}

impl Default for Positioner {
    fn default() -> (positioner: Positioner) {
        Positioner::new()
    }
}

/// The error of invalid manual coordinates, as `Position::new` reports it.
pub open spec fn manual_position_error(latitude: i64, longitude: i64) -> CoordinateError {
    if !valid_latitude(latitude as int) {
        CoordinateError::InvalidLatitude(latitude)
    } else {
        CoordinateError::InvalidLongitude(longitude)
    }
}

/// Seconds in a minute.
pub const SECONDS_PER_MINUTE: u64 = 60;

/// What a position read at `now` gives and leaves in the position slot of the cache,
/// which held `before` and holds `after`.
pub open spec fn position_read(
    source: PositionSource,
    before: Option<Entry>,
    after: Option<Entry>,
    now: u64,
    result: Result<Position, DwallError>,
) -> bool {
    match source {
        PositionSource::Manual { latitude, longitude, altitude } => {
            &&& after == before
            &&& (valid_latitude(latitude as int) && valid_longitude(longitude as int)) ==> (
            result matches Ok(p) && p.lat() == latitude && p.lon() == longitude && p.alt()
                == altitude)
            &&& !(valid_latitude(latitude as int) && valid_longitude(longitude as int)) ==> result
                == Err::<Position, DwallError>(
                DwallError::Coordinate(manual_position_error(latitude, longitude)),
            )
        },
        PositionSource::Automatic { update_on_each_calculation: true, .. } => after == before,
        PositionSource::Automatic { update_on_each_calculation: false, cache_minutes } => {
            let cached = lookup::<Position>(before, now);
            &&& cached matches Some(p) ==> result == Ok::<Position, DwallError>(p) && after
                == before
            &&& cached is None && result is Ok ==> after == Some(
                Entry {
                    value: CacheValue::Position(result->Ok_0),
                    expires_at: (now + SECONDS_PER_MINUTE * cache_minutes) as u64,
                },
            )
            &&& cached is None && result is Err ==> after == live_entry(before, now)
        },
    }
}

/// The position as the configured source gives it.
pub struct GeographicPositionProvider<P: PositionProvider> {
    coordinate_source: PositionSource,
    position_provider: P,
}

/// Whether reading the position at `now` keeps the cache deadline in range.
pub open spec fn deadline_fits(source: PositionSource, now: u64) -> bool {
    match source {
        PositionSource::Automatic { update_on_each_calculation, cache_minutes } =>
            update_on_each_calculation || now + SECONDS_PER_MINUTE * cache_minutes <= u64::MAX,
        PositionSource::Manual { .. } => true,
    }
}

impl<P: PositionProvider> GeographicPositionProvider<P> {
    /// The configured source.
    pub closed spec fn source(&self) -> PositionSource {
        self.coordinate_source
    }

    /// A provider for `coordinate_source`, asking `position_provider` when geolocation is
    /// needed.
    pub fn new(coordinate_source: &PositionSource, position_provider: P) -> (provider: Self)
        ensures
            provider.source() == *coordinate_source,
    {
        GeographicPositionProvider { coordinate_source: *coordinate_source, position_provider }
    }

    /// The current position at time `now` (seconds).
    ///
    /// Manual coordinates are validated. Automatic geolocation asks the platform at each
    /// call when `update_on_each_calculation` is set; otherwise a position cached less
    /// than `cache_minutes` ago is reused, and a fresh one is cached for that long.
    pub fn get_current_position(&self, cache: &mut Cache, now: u64) -> (result: Result<
        Position,
        DwallError,
    >)
        requires
            deadline_fits(self.source(), now),
        ensures
            forall|s: CacheSlot|
                s != CacheSlot::Position ==> #[trigger] final(cache).entry(s)
                    == old(cache).entry(s),
            position_read(
                self.source(),
                old(cache).entry(CacheSlot::Position),
                final(cache).entry(CacheSlot::Position),
                now,
                result,
            ),
    {
        match self.coordinate_source {
            PositionSource::Automatic { update_on_each_calculation, cache_minutes } => {
                if update_on_each_calculation {
                    self.position_provider.get_current_position()
                } else {
                    let ttl = SECONDS_PER_MINUTE * cache_minutes;
                    match cache.get::<Position>(now) {
                        Some(position) => Ok(position),
                        None => {
                            let position = self.position_provider.get_current_position()?;
                            cache.set(position, ttl, now);
                            Ok(position)
                        },
                    }
                }
            },
            PositionSource::Manual { latitude, longitude, altitude } => {
                match Position::new(latitude, longitude, altitude) {
                    Ok(position) => Ok(position),
                    Err(e) => Err(DwallError::Coordinate(e)),
                }
            },
        }
    }

    /// Whether the platform grants access to the location.
    pub fn check_location_permission(&self) -> (result: Result<(), DwallError>) {
        self.position_provider.check_location_permission()
    }
}

/// How long a computed solar position is reused, in seconds.
pub const SOLAR_POSITION_TTL_SECONDS: u64 = 60;

/// The sun's current position, computed from the geographic position and cached briefly.
pub struct SolarPositionSource<P: PositionProvider> {
    position_provider: GeographicPositionProvider<P>,
}

impl<P: PositionProvider> SolarPositionSource<P> {
    /// The configured position source.
    pub closed spec fn source(&self) -> PositionSource {
        self.position_provider.source()
    }

    /// A source for `position_source`, asking `position_provider` when geolocation is
    /// needed.
    pub fn new(position_source: &PositionSource, position_provider: P) -> (source: Self)
        ensures
            source.source() == *position_source,
    {
        SolarPositionSource {
            position_provider: GeographicPositionProvider::new(position_source, position_provider),
        }
    }

    /// The sun's position at time `now`: the one cached less than a minute ago, or the one
    /// `solar_position_of` computes for the current geographic position, then cached for
    /// a minute.
    pub fn get_current_solar_position<F: Fn(Position) -> SolarPosition>(
        &self,
        cache: &mut Cache,
        now: u64,
        solar_position_of: &F,
    ) -> (result: Result<SolarPosition, DwallError>)
        requires
            deadline_fits(self.source(), now),
            now + SOLAR_POSITION_TTL_SECONDS <= u64::MAX,
            forall|p: Position| solar_position_of.requires((p,)),
        ensures
            forall|s: CacheSlot|
                s != CacheSlot::Position && s != CacheSlot::SolarPosition
                    ==> #[trigger] final(cache).entry(s) == old(cache).entry(s),
            ({
                let cached = lookup::<SolarPosition>(old(cache).entry(CacheSlot::SolarPosition), now);
                &&& cached matches Some(sp) ==> result == Ok::<SolarPosition, DwallError>(sp)
                    && forall|s: CacheSlot| #[trigger] final(cache).entry(s) == old(cache).entry(s)
                &&& cached is None && result is Ok ==> final(cache).entry(CacheSlot::SolarPosition)
                    == Some(
                    Entry {
                        value: CacheValue::SolarPosition(result->Ok_0),
                        expires_at: (now + SOLAR_POSITION_TTL_SECONDS) as u64,
                    },
                )
                &&& cached is None ==> exists|read: Result<Position, DwallError>|
                    #[trigger] position_read(
                        self.source(),
                        old(cache).entry(CacheSlot::Position),
                        final(cache).entry(CacheSlot::Position),
                        now,
                        read,
                    ) && match read {
                        Ok(p) => result is Ok && solar_position_of.ensures((p,), result->Ok_0),
                        Err(e) => result == Err::<SolarPosition, DwallError>(e),
                    }
            }),
    {
        match cache.get::<SolarPosition>(now) {
            Some(solar_position) => Ok(solar_position),
            None => {
                let read = self.position_provider.get_current_position(cache, now);
                let ghost position_slot = cache.entry(CacheSlot::Position);
                match read {
                    Ok(position) => {
                        let solar_position = solar_position_of(position);
                        cache.set(solar_position, SOLAR_POSITION_TTL_SECONDS, now);
                        assert(cache.entry(CacheSlot::Position) == position_slot);
                        Ok(solar_position)
                    },
                    Err(e) => Err(e),
                }
            },
        }
    }

    /// The current geographic position at time `now`.
    pub fn get_current_position(&self, cache: &mut Cache, now: u64) -> (result: Result<
        Position,
        DwallError,
    >)
        requires
            deadline_fits(self.source(), now),
        ensures
            forall|s: CacheSlot|
                s != CacheSlot::Position ==> #[trigger] final(cache).entry(s)
                    == old(cache).entry(s),
            position_read(
                self.source(),
                old(cache).entry(CacheSlot::Position),
                final(cache).entry(CacheSlot::Position),
                now,
                result,
            ),
    {
        self.position_provider.get_current_position(cache, now)
    }
}

} // verus!
