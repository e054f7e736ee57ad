//! Sunrise, sunset and solar noon of a day, found by sampling the sun's altitude.
//!
//! Times are Unix timestamps in seconds; altitudes are in millionths of a degree. The
//! altitude at a time comes from a function the caller supplies (the solar formulas run
//! outside the library).

use vstd::prelude::*;

verus! {

/// Whether the sun rises and sets on the day.
#[derive(Debug, Clone, Copy, PartialEq, Eq, Structural)]
pub enum PolarState {
    /// The sun rises and sets.
    Normal,
    /// The sun stays above the horizon.
    PolarDay,
    /// The sun stays below the horizon.
    PolarNight,
}

/// The sun's transitions on a day.
#[derive(Debug, Clone, Copy, PartialEq, Eq, Structural)]
pub struct SolarTransitions {
    pub sunrise: Option<i64>,
    pub sunset: Option<i64>,
    pub solar_noon: i64,
    pub polar_state: PolarState,
}

/// Seconds in a day.
pub const DAY_SECONDS: i64 = 86_400;

/// Spacing of the samples that decide the polar state: two hours.
pub const POLAR_SAMPLE_SECONDS: i64 = 7200;

/// Number of samples that decide the polar state.
pub const POLAR_SAMPLES: usize = 12;

/// Spacing of the samples that bracket sunrise and sunset: ten minutes.
pub const CROSSING_SAMPLE_SECONDS: i64 = 600;

/// Number of ten-minute steps in a day.
pub const CROSSING_STEPS: usize = 144;

/// Whether every sample is above the horizon.
pub open spec fn all_above(samples: Seq<i64>) -> bool {
    forall|i: int| 0 <= i < samples.len() ==> samples[i] > 0
}

/// Whether every sample is below the horizon.
pub open spec fn all_below(samples: Seq<i64>) -> bool {
    forall|i: int| 0 <= i < samples.len() ==> samples[i] < 0
}

/// The polar state that a day's samples show.
pub open spec fn polar_state_of(samples: Seq<i64>) -> PolarState {
    if all_above(samples) {
        PolarState::PolarDay
    } else if all_below(samples) {
        PolarState::PolarNight
    } else {
        PolarState::Normal
    }
}

/// The polar state from the altitudes sampled over the day: polar day when all are above
/// the horizon, polar night when all are below, normal otherwise.
pub fn detect_polar_state(samples: &[i64]) -> (state: PolarState)
    ensures
        state == polar_state_of(samples@),
{
    let mut above = true;
    let mut below = true;
    let mut i: usize = 0;
    while i < samples.len()
        invariant
            i <= samples@.len(),
            above == (forall|k: int| 0 <= k < i ==> samples@[k] > 0),
            below == (forall|k: int| 0 <= k < i ==> samples@[k] < 0),
        decreases samples@.len() - i,
    {
        if samples[i] <= 0 {
            above = false;
        }
        if samples[i] >= 0 {
            below = false;
        }
        i += 1;
    }
    if above {
        PolarState::PolarDay
    } else if below {
        PolarState::PolarNight
    } else {
        PolarState::Normal
    }
}

/// A time interval `(start, end)` in which the sun crosses the horizon.
pub type Bracket = (i64, i64);

/// The sunrise and sunset brackets after scanning the samples up to index `i`: a rise
/// between two samples sets the sunrise bracket, a fall the sunset bracket, a later
/// crossing replaces an earlier one, and the scan stops once both are set.
pub open spec fn brackets_through(altitudes: Seq<i64>, day_start: int, i: int) -> (
    Option<Bracket>,
    Option<Bracket>,
)
    decreases i,
{
    if i <= 0 {
        (None, None)
    } else {
        let (rise, set) = brackets_through(altitudes, day_start, i - 1);
        if rise is Some && set is Some {
            (rise, set)
        } else {
            let bracket = (
                (day_start + CROSSING_SAMPLE_SECONDS * (i - 1)) as i64,
                (day_start + CROSSING_SAMPLE_SECONDS * i) as i64,
            );
            if altitudes[i - 1] < 0 && altitudes[i] > 0 {
                (Some(bracket), set)
            } else if altitudes[i - 1] > 0 && altitudes[i] < 0 {
                (rise, Some(bracket))
            } else {
                (rise, set)
            }
        }
    }
}

/// Brackets of sunrise and sunset from altitudes sampled every ten minutes from
/// `day_start`.
pub fn find_crossing_brackets(day_start: i64, altitudes: &[i64]) -> (found: (
    Option<Bracket>,
    Option<Bracket>,
))
    requires
        0 < altitudes@.len() <= CROSSING_STEPS + 1,
        day_start + DAY_SECONDS + CROSSING_SAMPLE_SECONDS <= i64::MAX,
    ensures
        found == brackets_through(altitudes@, day_start as int, altitudes@.len() - 1),
{
    let n = altitudes.len();
    let mut sunrise: Option<Bracket> = None;
    let mut sunset: Option<Bracket> = None;
    let mut i: usize = 1;
    while i < n
        invariant
            n == altitudes@.len(),
            n <= CROSSING_STEPS + 1,
            day_start + DAY_SECONDS + CROSSING_SAMPLE_SECONDS <= i64::MAX,
            1 <= i <= n,
            (sunrise, sunset) == brackets_through(altitudes@, day_start as int, i - 1),
            !(sunrise is Some && sunset is Some),
        decreases n - i,
    {
        let start = day_start + CROSSING_SAMPLE_SECONDS * (i as i64 - 1);
        let end = day_start + CROSSING_SAMPLE_SECONDS * (i as i64);
        if altitudes[i - 1] < 0 && altitudes[i] > 0 {
            sunrise = Some((start, end));
        } else if altitudes[i - 1] > 0 && altitudes[i] < 0 {
            sunset = Some((start, end));
        }
        if sunrise.is_some() && sunset.is_some() {
            proof {
                lemma_brackets_settle(altitudes@, day_start as int, i as int, (n - 1) as int);
            }
            return (sunrise, sunset);
        }
        i += 1;
    }
    (sunrise, sunset)
}

/// Once both brackets are set, later samples change nothing.
proof fn lemma_brackets_settle(altitudes: Seq<i64>, day_start: int, i: int, j: int)
    requires
        0 <= i <= j,
        brackets_through(altitudes, day_start, i).0 is Some,
        brackets_through(altitudes, day_start, i).1 is Some,
    ensures
        brackets_through(altitudes, day_start, j) == brackets_through(altitudes, day_start, i),
    decreases j - i,
{
    if j > i {
        lemma_brackets_settle(altitudes, day_start, i, j - 1);
    }
}

/// Most halving steps of a sunrise or sunset search.
pub const BISECT_STEPS: u32 = 20;

/// Most steps of the solar noon search.
pub const NOON_SEARCH_STEPS: u32 = 40;

/// `base` raised to the power `n`.
pub open spec fn power_of(base: int, n: nat) -> int
    decreases n,
{
    if n == 0 {
        1
    } else {
        base * power_of(base, (n - 1) as nat)
    }
}

/// Whether some call of the altitude function at `t` gave a value below the horizon
/// (when `below`) or one at or above it (otherwise).
pub open spec fn altitude_seen<F: Fn(i64) -> i64>(altitude_at: &F, t: i64, below: bool) -> bool {
    exists|a: i64| #[trigger] altitude_at.ensures((t,), a) && (a < 0) == below
}

/// Whether `end` can close the interval that a halving search of `[lo, hi]` narrowed to
/// `[time, end]`: `end` is `hi` or a time where the sun was seen on the far side of the
/// crossing, and the interval is at most one second wide when `[lo, hi]` spans no more
/// than 2^20 seconds.
pub open spec fn closes_bracket<F: Fn(i64) -> i64>(
    altitude_at: &F,
    lo: i64,
    hi: i64,
    rising: bool,
    time: i64,
    end: i64,
) -> bool {
    &&& time <= end <= hi
    &&& end == hi || altitude_seen(altitude_at, end, !rising)
    &&& hi - lo <= 0x10_0000 ==> end - time <= 1
}

/// What a halving search of `[lo, hi]` gives: a time in `[lo, hi]` that is `lo` or where
/// the sun was seen before the crossing (below the horizon when `rising`, at or above it
/// when setting), closing an interval of at most one second whose other end is `hi` or
/// where the sun was seen past the crossing.
pub open spec fn crossing_found<F: Fn(i64) -> i64>(
    altitude_at: &F,
    lo: i64,
    hi: i64,
    rising: bool,
    time: i64,
) -> bool {
    &&& lo <= time <= hi
    &&& time == lo || altitude_seen(altitude_at, time, rising)
    &&& exists|end: i64| #[trigger] closes_bracket(altitude_at, lo, hi, rising, time, end)
}

/// Narrows `[lo, hi]` around a horizon crossing by halving it: the half kept is the one
/// where the sun is still below the horizon at its start when `rising` (above, when
/// setting). At most twenty steps, stopping at one second; gives the lower end.
pub fn bisect<F: Fn(i64) -> i64>(altitude_at: &F, lo: i64, hi: i64, rising: bool) -> (time: i64)
    requires
        lo <= hi,
        forall|t: i64| altitude_at.requires((t,)),
    ensures
        crossing_found(altitude_at, lo, hi, rising, time),
        hi - lo <= 1 ==> time == lo,
{
    let mut low = lo;
    let mut high = hi;
    let mut step: u32 = 0;
    let ghost mut scale: int = 1;
    while step < BISECT_STEPS
        invariant
            lo <= low <= high <= hi,
            hi - lo <= 1 ==> low == lo,
            low == lo || altitude_seen(altitude_at, low, rising),
            high == hi || altitude_seen(altitude_at, high, !rising),
            step <= BISECT_STEPS,
            scale == power_of(2, step as nat),
            scale >= 1,
            high - low <= 1 || (high - low - 1) * scale <= hi - lo - 1,
            forall|t: i64| altitude_at.requires((t,)),
        ensures
            lo <= low <= high <= hi,
            hi - lo <= 1 ==> low == lo,
            low == lo || altitude_seen(altitude_at, low, rising),
            high == hi || altitude_seen(altitude_at, high, !rising),
            high - low <= 1 || (step == BISECT_STEPS && scale == power_of(2, step as nat)
                && (high - low - 1) * scale <= hi - lo - 1),
        decreases BISECT_STEPS - step,
    {
        if (high as i128) - (low as i128) <= 1 {
            break;
        }
        let mid = (((low as i128) + (high as i128)) / 2) as i64;
        let altitude = altitude_at(mid);
        let ghost width = high - low;
        if rising == (altitude < 0) {
            low = mid;
        } else {
            high = mid;
        }
        proof {
            if high - low > 1 {
                assert((high - low - 1) * (2 * scale) <= hi - lo - 1) by (nonlinear_arith)
                    requires
                        2 * (high - low - 1) <= width - 1,
                        (width - 1) * scale <= hi - lo - 1,
                        scale >= 1,
                        high - low - 1 >= 0,
                ;
            }
            scale = 2 * scale;
        }
        step += 1;
    }
    proof {
        if high - low > 1 {
            reveal_with_fuel(power_of, 21);
            assert(scale == 0x10_0000);
            assert(hi - lo <= 0x10_0000 ==> high - low <= 1) by (nonlinear_arith)
                requires
                    (high - low - 1) * scale <= hi - lo - 1,
                    scale == 0x10_0000,
            ;
        }
        assert(closes_bracket(altitude_at, lo, hi, rising, low, high));
    }
    low
}

/// Whether some call of the altitude function gave a lower value at `t` than at a later
/// time.
pub open spec fn rises_after<F: Fn(i64) -> i64>(altitude_at: &F, t: i64) -> bool {
    exists|u: i64, a: i64, b: i64|
        #![trigger altitude_at.ensures((t,), a), altitude_at.ensures((u,), b)]
        t < u && altitude_at.ensures((t,), a) && altitude_at.ensures((u,), b) && a < b
}

/// Whether some call of the altitude function gave a value at `t` no higher than at an
/// earlier time.
pub open spec fn falls_before<F: Fn(i64) -> i64>(altitude_at: &F, t: i64) -> bool {
    exists|u: i64, a: i64, b: i64|
        #![trigger altitude_at.ensures((u,), a), altitude_at.ensures((t,), b)]
        u < t && altitude_at.ensures((u,), a) && altitude_at.ensures((t,), b) && !(a < b)
}

/// Whether `[lo, hi]` is an interval that the solar noon search can end with and `noon`
/// a time in it: it lies between six and eighteen hours after `day_start`, is at most two
/// seconds wide, and each end is an end of the searched span or one past which the
/// search saw the sun climb (at `lo`) or no longer climb (at `hi`).
pub open spec fn noon_interval<F: Fn(i64) -> i64>(
    altitude_at: &F,
    day_start: i64,
    lo: i64,
    hi: i64,
    noon: i64,
) -> bool {
    &&& day_start + 6 * 3600 <= lo <= noon <= hi <= day_start + 18 * 3600
    &&& hi - lo <= 2
    &&& lo == day_start + 6 * 3600 || rises_after(altitude_at, lo)
    &&& hi == day_start + 18 * 3600 || falls_before(altitude_at, hi)
}

/// The time of the sun's highest point between six and eighteen hours after `day_start`,
/// found by a ternary search of at most forty steps down to one second; gives the
/// middle of the final interval.
pub fn find_solar_noon<F: Fn(i64) -> i64>(altitude_at: &F, day_start: i64) -> (noon: i64)
    requires
        day_start + DAY_SECONDS <= i64::MAX,
        forall|t: i64| altitude_at.requires((t,)),
    ensures
        day_start + 6 * 3600 <= noon <= day_start + 18 * 3600,
        exists|lo: i64, hi: i64| #[trigger] noon_interval(altitude_at, day_start, lo, hi, noon),
{
    let start = day_start + 6 * 3600;
    let end = day_start + 18 * 3600;
    let mut lo = start;
    let mut hi = end;
    let mut step: u32 = 0;
    let ghost mut shrink: int = 1;
    let ghost mut scale: int = 1;
    while step < NOON_SEARCH_STEPS
        invariant
            start == day_start + 6 * 3600,
            end == day_start + 18 * 3600,
            start <= lo <= hi <= end,
            lo == start || rises_after(altitude_at, lo),
            hi == end || falls_before(altitude_at, hi),
            step <= NOON_SEARCH_STEPS,
            shrink == power_of(3, step as nat),
            scale == power_of(2, step as nat),
            shrink >= 1,
            scale >= 1,
            hi - lo <= 2 || (hi - lo - 2) * shrink <= (end - start - 2) * scale,
            forall|t: i64| altitude_at.requires((t,)),
        ensures
            start <= lo <= hi <= end,
            lo == start || rises_after(altitude_at, lo),
            hi == end || falls_before(altitude_at, hi),
            hi - lo <= 2 || (step == NOON_SEARCH_STEPS && shrink == power_of(3, step as nat)
                && scale == power_of(2, step as nat) && (hi - lo - 2) * shrink <= (end - start
                - 2) * scale),
        decreases NOON_SEARCH_STEPS - step,
    {
        if hi - lo <= 1 {
            break;
        }
        let ghost width = hi - lo;
        let third = (hi - lo) / 3;
        let m1 = lo + third;
        let m2 = hi - third;
        let a1 = altitude_at(m1);
        let a2 = altitude_at(m2);
        if a1 < a2 {
            lo = m1;
            assert(rises_after(altitude_at, lo));
        } else {
            hi = m2;
            assert(falls_before(altitude_at, hi));
        }
        proof {
            if hi - lo > 2 {
                assert((hi - lo - 2) * (3 * shrink) <= (end - start - 2) * (2 * scale))
                    by (nonlinear_arith)
                    requires
                        3 * (hi - lo - 2) <= 2 * (width - 2),
                        (width - 2) * shrink <= (end - start - 2) * scale,
                        shrink >= 1,
                        hi - lo - 2 >= 0,
                ;
            }
            shrink = 3 * shrink;
            scale = 2 * scale;
        }
        step += 1;
    }
    let noon = (((lo as i128) + (hi as i128)) / 2) as i64;
    proof {
        if hi - lo > 2 {
            reveal_with_fuel(power_of, 41);
            assert(shrink == 12157665459056928801);
            assert(scale == 1099511627776);
            assert(hi - lo <= 2) by (nonlinear_arith)
                requires
                    (hi - lo - 2) * shrink <= (end - start - 2) * scale,
                    end - start == 43200,
                    shrink == 12157665459056928801,
                    scale == 1099511627776,
            ;
        }
        assert(noon_interval(altitude_at, day_start, lo, hi, noon));
    }
    noon
}

/// Whether `samples` are values that the altitude function gave at `day_start`,
/// `day_start + spacing`, and so on.
pub open spec fn samples_of<F: Fn(i64) -> i64>(
    altitude_at: &F,
    day_start: int,
    spacing: int,
    samples: Seq<i64>,
) -> bool {
    forall|i: int|
        0 <= i < samples.len() ==> altitude_at.ensures(
            ((day_start + spacing * i) as i64,),
            #[trigger] samples[i],
        )
}

/// The altitudes at `day_start + spacing * i` for `i` in `0..count`.
fn sample_altitudes<F: Fn(i64) -> i64>(
    altitude_at: &F,
    day_start: i64,
    spacing: i64,
    count: usize,
) -> (samples: Vec<i64>)
    requires
        0 < spacing,
        count <= 1000,
        spacing <= DAY_SECONDS,
        day_start + 1000 * DAY_SECONDS <= i64::MAX,
        forall|t: i64| altitude_at.requires((t,)),
    ensures
        samples@.len() == count,
        samples_of(altitude_at, day_start as int, spacing as int, samples@),
{
    let mut samples: Vec<i64> = Vec::new();
    let mut i: usize = 0;
    while i < count
        invariant
            i <= count,
            count <= 1000,
            0 < spacing <= DAY_SECONDS,
            day_start + 1000 * DAY_SECONDS <= i64::MAX,
            samples@.len() == i,
            samples_of(altitude_at, day_start as int, spacing as int, samples@),
            forall|t: i64| altitude_at.requires((t,)),
        decreases count - i,
    {
        proof {
            assert(spacing * i <= DAY_SECONDS * 1000) by (nonlinear_arith)
                requires
                    0 < spacing <= DAY_SECONDS,
                    i <= 1000,
            ;
            assert(spacing * i >= 0) by (nonlinear_arith)
                requires
                    0 < spacing,
                    i >= 0,
            ;
        }
        let t = day_start + spacing * (i as i64);
        let altitude = altitude_at(t);
        samples.push(altitude);
        i += 1;
    }
    samples
}

/// What a halving search made of a bracket: nothing without a bracket, and with one the
/// time that the search of it gives.
pub open spec fn search_of_bracket<F: Fn(i64) -> i64>(
    altitude_at: &F,
    bracket: Option<Bracket>,
    rising: bool,
    found: Option<i64>,
) -> bool {
    match bracket {
        None => found is None,
        Some((lo, hi)) => found matches Some(t) && crossing_found(altitude_at, lo, hi, rising, t),
    }
}

/// Sunrise, sunset and solar noon of the day starting at `day_start`.
///
/// The polar state comes from twelve two-hourly samples; on a polar day or night there
/// is no sunrise or sunset. Otherwise ten-minute samples bracket the crossings, and each
/// bracket is narrowed by halving.
pub fn calculate<F: Fn(i64) -> i64>(altitude_at: &F, day_start: i64) -> (transitions:
    SolarTransitions)
    requires
        day_start + 1000 * DAY_SECONDS <= i64::MAX,
        forall|t: i64| altitude_at.requires((t,)),
    ensures
        exists|samples: Seq<i64>|
            #![trigger samples_of(altitude_at, day_start as int, POLAR_SAMPLE_SECONDS as int, samples)]
            samples.len() == POLAR_SAMPLES && samples_of(
                altitude_at,
                day_start as int,
                POLAR_SAMPLE_SECONDS as int,
                samples,
            ) && transitions.polar_state == polar_state_of(samples),
        day_start + 6 * 3600 <= transitions.solar_noon <= day_start + 18 * 3600,
        exists|lo: i64, hi: i64| #[trigger]
            noon_interval(altitude_at, day_start, lo, hi, transitions.solar_noon),
        transitions.polar_state != PolarState::Normal ==> transitions.sunrise is None
            && transitions.sunset is None,
        transitions.polar_state == PolarState::Normal ==> exists|samples: Seq<i64>|
            #![trigger samples_of(altitude_at, day_start as int, CROSSING_SAMPLE_SECONDS as int, samples)]
            samples.len() == CROSSING_STEPS + 1 && samples_of(
                altitude_at,
                day_start as int,
                CROSSING_SAMPLE_SECONDS as int,
                samples,
            ) && search_of_bracket(
                altitude_at,
                brackets_through(samples, day_start as int, CROSSING_STEPS as int).0,
                true,
                transitions.sunrise,
            ) && search_of_bracket(
                altitude_at,
                brackets_through(samples, day_start as int, CROSSING_STEPS as int).1,
                false,
                transitions.sunset,
            ),
        transitions.sunrise matches Some(t) ==> day_start <= t <= day_start + DAY_SECONDS,
        transitions.sunset matches Some(t) ==> day_start <= t <= day_start + DAY_SECONDS,
{
    let polar_samples = sample_altitudes(altitude_at, day_start, POLAR_SAMPLE_SECONDS, POLAR_SAMPLES);
    let polar_state = detect_polar_state(polar_samples.as_slice());
    let solar_noon = find_solar_noon(altitude_at, day_start);
    if polar_state != PolarState::Normal {
        return SolarTransitions { sunrise: None, sunset: None, solar_noon, polar_state };
    }
    let samples = sample_altitudes(
        altitude_at,
        day_start,
        CROSSING_SAMPLE_SECONDS,
        CROSSING_STEPS + 1,
    );
    let (sunrise_bracket, sunset_bracket) = find_crossing_brackets(day_start, samples.as_slice());
    proof {
        lemma_brackets_in_day(samples@, day_start as int, samples@.len() - 1);
    }
    let sunrise = match sunrise_bracket {
        Some((lo, hi)) => Some(bisect(altitude_at, lo, hi, true)),
        None => None,
    };
    let sunset = match sunset_bracket {
        Some((lo, hi)) => Some(bisect(altitude_at, lo, hi, false)),
        None => None,
    };
    SolarTransitions { sunrise, sunset, solar_noon, polar_state }
}

/// The brackets lie within the sampled span and run forwards.
proof fn lemma_brackets_in_day(altitudes: Seq<i64>, day_start: int, i: int)
    requires
        0 <= i < altitudes.len() <= CROSSING_STEPS + 1,
        i64::MIN <= day_start,
        day_start + DAY_SECONDS + CROSSING_SAMPLE_SECONDS <= i64::MAX,
    ensures
        brackets_through(altitudes, day_start, i).0 matches Some((lo, hi)) ==> day_start <= lo
            <= hi <= day_start + CROSSING_SAMPLE_SECONDS * i,
        brackets_through(altitudes, day_start, i).1 matches Some((lo, hi)) ==> day_start <= lo
            <= hi <= day_start + CROSSING_SAMPLE_SECONDS * i,
    decreases i,
{
    if i > 0 {
        lemma_brackets_in_day(altitudes, day_start, i - 1);
    }
}

} // verus!
