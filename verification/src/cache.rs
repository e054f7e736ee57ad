//! A small typed value cache whose entries expire.
//!
//! One slot per cached type. Times are seconds on a monotonic clock, handed in
//! by the caller; an entry expires when the clock reaches its deadline, and is
//! evicted lazily by the next read.

use vstd::prelude::*;

use crate::color_scheme::{DaylightState, ThresholdConfig};
use crate::solar::{Position, SolarPosition};

verus! {

/// A value held by the cache.
#[derive(Debug, Clone, Copy, PartialEq, Eq, Structural)]
pub enum CacheValue {
    Position(Position),
    ThresholdConfig(ThresholdConfig),
    DaylightState(DaylightState),
    SolarPosition(SolarPosition),
}

/// The slot that a cached type occupies.
#[derive(Debug, Clone, Copy, PartialEq, Eq, Structural)]
pub enum CacheSlot {
    Position,
    ThresholdConfig,
    DaylightState,
    SolarPosition,
}

/// A type that the cache can hold.
pub trait Cacheable: Copy + Sized {
    /// The slot of this type.
    spec fn spec_slot() -> CacheSlot;

    /// The cache value wrapping `self`.
    spec fn spec_into_value(self) -> CacheValue;

    /// The value of this type inside a cache value, if it holds one.
    spec fn spec_from_value(v: CacheValue) -> Option<Self>;

    /// The slot of this type.
    fn slot() -> (slot: CacheSlot)
        ensures
            slot == Self::spec_slot(),
    ;

    /// Wraps `self` as a cache value.
    fn into_value(self) -> (v: CacheValue)
        ensures
            v == self.spec_into_value(),
    ;

    /// Unwraps a cache value of this type.
    fn from_value(v: &CacheValue) -> (r: Option<Self>)
        ensures
            r == Self::spec_from_value(*v),
    ;

    /// Unwrapping gives back what was wrapped.
    proof fn lemma_round_trip(x: Self)
        ensures
            Self::spec_from_value(x.spec_into_value()) == Some(x),
    ;
}

impl Cacheable for Position {
    open spec fn spec_slot() -> CacheSlot {
        CacheSlot::Position
    }

    open spec fn spec_into_value(self) -> CacheValue {
        CacheValue::Position(self)
    }

    open spec fn spec_from_value(v: CacheValue) -> Option<Self> {
        match v {
            CacheValue::Position(p) => Some(p),
            _ => None,
        }
    }

    fn slot() -> (slot: CacheSlot) {
        CacheSlot::Position
    }

    fn into_value(self) -> (v: CacheValue) {
        CacheValue::Position(self)
    }

    fn from_value(v: &CacheValue) -> (r: Option<Self>) {
        match v {
            CacheValue::Position(p) => Some(*p),
            _ => None,
        }
    }

    proof fn lemma_round_trip(x: Self) {
    }
}

impl Cacheable for ThresholdConfig {
    open spec fn spec_slot() -> CacheSlot {
        CacheSlot::ThresholdConfig
    }

    open spec fn spec_into_value(self) -> CacheValue {
        CacheValue::ThresholdConfig(self)
    }

    open spec fn spec_from_value(v: CacheValue) -> Option<Self> {
        match v {
            CacheValue::ThresholdConfig(c) => Some(c),
            _ => None,
        }
    }

    fn slot() -> (slot: CacheSlot) {
        CacheSlot::ThresholdConfig
    }

    fn into_value(self) -> (v: CacheValue) {
        CacheValue::ThresholdConfig(self)
    }

    fn from_value(v: &CacheValue) -> (r: Option<Self>) {
        match v {
            CacheValue::ThresholdConfig(c) => Some(*c),
            _ => None,
        }
    }

    proof fn lemma_round_trip(x: Self) {
    }
}

impl Cacheable for DaylightState {
    open spec fn spec_slot() -> CacheSlot {
        CacheSlot::DaylightState
    }

    open spec fn spec_into_value(self) -> CacheValue {
        CacheValue::DaylightState(self)
    }

    open spec fn spec_from_value(v: CacheValue) -> Option<Self> {
        match v {
            CacheValue::DaylightState(s) => Some(s),
            _ => None,
        }
    }

    fn slot() -> (slot: CacheSlot) {
        CacheSlot::DaylightState
    }

    fn into_value(self) -> (v: CacheValue) {
        CacheValue::DaylightState(self)
    }

    fn from_value(v: &CacheValue) -> (r: Option<Self>) {
        match v {
            CacheValue::DaylightState(s) => Some(*s),
            _ => None,
        }
    }

    proof fn lemma_round_trip(x: Self) {
    }
}

impl Cacheable for SolarPosition {
    open spec fn spec_slot() -> CacheSlot {
        CacheSlot::SolarPosition
    }

    open spec fn spec_into_value(self) -> CacheValue {
        CacheValue::SolarPosition(self)
    }

    open spec fn spec_from_value(v: CacheValue) -> Option<Self> {
        match v {
            CacheValue::SolarPosition(s) => Some(s),
            _ => None,
        }
    }

    fn slot() -> (slot: CacheSlot) {
        CacheSlot::SolarPosition
    }

    fn into_value(self) -> (v: CacheValue) {
        CacheValue::SolarPosition(self)
    }

    fn from_value(v: &CacheValue) -> (r: Option<Self>) {
        match v {
            CacheValue::SolarPosition(s) => Some(*s),
            _ => None,
        }
    }

    proof fn lemma_round_trip(x: Self) {
    }
}

/// A cached value and the time (seconds) at which it expires.
#[derive(Debug, Clone, Copy, PartialEq, Eq, Structural)]
pub struct Entry {
    pub value: CacheValue,
    pub expires_at: u64,
}

impl Entry {
    /// An entry stored at `now` that lives for `ttl` seconds.
    pub fn new(value: CacheValue, ttl: u64, now: u64) -> (entry: Entry)
        requires
            now + ttl <= u64::MAX,
        ensures
            entry.value == value,
            entry.expires_at == now + ttl,
    {
        Entry { value, expires_at: now + ttl }
    }

    /// Whether the entry has expired at `now`.
    pub fn is_expired(&self, now: u64) -> (expired: bool)
        ensures
            expired == (now >= self.expires_at),
    {
        now >= self.expires_at
    }
}

/// The typed value cache: one optional entry per slot.
#[derive(Debug, Clone, Copy)]
pub struct Cache {
    position: Option<Entry>,
    threshold_config: Option<Entry>,
    daylight_state: Option<Entry>,
    solar_position: Option<Entry>,
}

impl Cache {
    /// The entry in a slot.
    pub closed spec fn entry(&self, slot: CacheSlot) -> Option<Entry> {
        match slot {
            CacheSlot::Position => self.position,
            CacheSlot::ThresholdConfig => self.threshold_config,
            CacheSlot::DaylightState => self.daylight_state,
            CacheSlot::SolarPosition => self.solar_position,
        }
    }

    /// An empty cache.
    pub fn new() -> (cache: Cache)
        ensures
            forall|s: CacheSlot| #[trigger] cache.entry(s) is None,
    {
        Cache { position: None, threshold_config: None, daylight_state: None, solar_position: None }
    }

    fn slot_mut(&mut self, slot: CacheSlot) -> (r: &mut Option<Entry>)
        ensures
            *r == old(self).entry(slot),
            forall|s: CacheSlot|
                s != slot ==> #[trigger] final(self).entry(s) == old(self).entry(s),
            final(self).entry(slot) == *final(r),
    {
        match slot {
            CacheSlot::Position => &mut self.position,
            CacheSlot::ThresholdConfig => &mut self.threshold_config,
            CacheSlot::DaylightState => &mut self.daylight_state,
            CacheSlot::SolarPosition => &mut self.solar_position,
        }
    }

    /// Stores `value` at time `now` for `ttl` seconds, replacing the slot's entry.
    pub fn set<T: Cacheable>(&mut self, value: T, ttl: u64, now: u64)
        requires
            now + ttl <= u64::MAX,
        ensures
            final(self).entry(T::spec_slot()) == Some(
                Entry { value: value.spec_into_value(), expires_at: (now + ttl) as u64 },
            ),
            forall|s: CacheSlot|
                s != T::spec_slot() ==> #[trigger] final(self).entry(s) == old(self).entry(s),
    {
        let slot = T::slot();
        let entry = Entry::new(value.into_value(), ttl, now);
        let r = self.slot_mut(slot);
        *r = Some(entry);
    }

    /// The value of type `T` if it is cached and unexpired at `now`.
    ///
    /// An expired entry is removed.
    pub fn get<T: Cacheable>(&mut self, now: u64) -> (result: Option<T>)
        ensures
            result == lookup::<T>(old(self).entry(T::spec_slot()), now),
            final(self).entry(T::spec_slot()) == live_entry(old(self).entry(T::spec_slot()), now),
            forall|s: CacheSlot|
                s != T::spec_slot() ==> #[trigger] final(self).entry(s) == old(self).entry(s),
    {
        let slot = T::slot();
        let r = self.slot_mut(slot);
        match r {
            Some(entry) => {
                if entry.is_expired(now) {
                    *r = None;
                    None
                } else {
                    T::from_value(&entry.value)
                }
            },
            None => None,
        }
    }
}

impl CacheValue {
    /// The slot a value belongs in.
    pub open spec fn slot_of(self) -> CacheSlot {
        match self {
            CacheValue::Position(_) => CacheSlot::Position,
            CacheValue::ThresholdConfig(_) => CacheSlot::ThresholdConfig,
            CacheValue::DaylightState(_) => CacheSlot::DaylightState,
            CacheValue::SolarPosition(_) => CacheSlot::SolarPosition,
        }
    }
}

/// The value of type `T` that an entry yields at `now`: none once expired.
pub open spec fn lookup<T: Cacheable>(entry: Option<Entry>, now: u64) -> Option<T> {
    match entry {
        Some(e) => if now >= e.expires_at {
            None
        } else {
            T::spec_from_value(e.value)
        },
        None => None,
    }
}

/// The entry left in a slot after a read at `now`: expired entries are dropped.
pub open spec fn live_entry(entry: Option<Entry>, now: u64) -> Option<Entry> {
    match entry {
        Some(e) => if now >= e.expires_at {
            None
        } else {
            Some(e)
        },
        None => None,
    }
}

/// What `set` stores is what `get` returns until the deadline `stored_at + ttl`,
/// and nothing from the deadline on.
pub proof fn lemma_read_after_write<T: Cacheable>(value: T, stored_at: u64, ttl: u64, now: u64)
    requires
        stored_at + ttl <= u64::MAX,
    ensures
        now < stored_at + ttl ==> lookup::<T>(
            Some(Entry { value: value.spec_into_value(), expires_at: (stored_at + ttl) as u64 }),
            now,
        ) == Some(value),
        now >= stored_at + ttl ==> lookup::<T>(
            Some(Entry { value: value.spec_into_value(), expires_at: (stored_at + ttl) as u64 }),
            now,
        ) is None,
{
    T::lemma_round_trip(value);
}

} // verus!
