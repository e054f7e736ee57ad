//! Wallpaper selection: the theme image whose sun position is closest to the
//! current one.

use vstd::prelude::*;

use crate::error::DwallError;
use crate::solar::SolarAngle;

verus! {

/// Full turn of azimuth, in millionths of a degree.
pub const FULL_TURN: i64 = 360_000_000;

/// Largest angle magnitude (a million degrees, in millionths) for which the
/// squared distances are computed exactly in 128 bits.
pub const MAX_ANGLE: i64 = 1_000_000_000_000;

/// Platform backend that sets wallpapers on monitors and the lock screen.
pub trait WallpaperProvider {
    /// Sets the wallpaper of a monitor.
    fn set_monitor_wallpaper(&self, monitor_id: &str, image_path: &str) -> Result<(), DwallError>;

    /// Sets the lock screen image.
    fn set_lock_screen_image(&self, image_path: &str) -> Result<(), DwallError>;
}

/// Angular gap between two azimuths on the circle.
pub open spec fn azimuth_gap(az1: int, az2: int) -> int {
    let diff = if az1 >= az2 {
        az1 - az2
    } else {
        az2 - az1
    };
    let raw = diff % (FULL_TURN as int);
    if raw <= FULL_TURN - raw {
        raw
    } else {
        FULL_TURN - raw
    }
}

/// Normalised squared distance between two sun positions, scaled by 360²:
/// altitude spans 180° and azimuth 360° (wrapping), so the altitude difference
/// weighs twice.
pub open spec fn solar_distance(alt1: int, az1: int, alt2: int, az2: int) -> int {
    let da = alt1 - alt2;
    let gap = azimuth_gap(az1, az2);
    4 * da * da + gap * gap
}

/// Whether an angle is small enough for exact distances.
pub open spec fn angle_in_range(x: int) -> bool {
    -MAX_ANGLE <= x <= MAX_ANGLE
}

/// Distance from entry `a` to the given sun position.
pub open spec fn entry_distance(a: SolarAngle, altitude: int, azimuth: int) -> int {
    solar_distance(a.alt(), a.az(), altitude, azimuth)
}

/// Whether `k` is the first entry of minimal distance.
pub open spec fn is_first_closest(entries: Seq<SolarAngle>, k: int, altitude: int, azimuth: int) -> bool {
    &&& 0 <= k < entries.len()
    &&& forall|i: int|
        0 <= i < entries.len() ==> entry_distance(entries[k], altitude, azimuth) <= entry_distance(
            #[trigger] entries[i],
            altitude,
            azimuth,
        )
    &&& forall|i: int|
        0 <= i < k ==> entry_distance(entries[k], altitude, azimuth) < entry_distance(
            #[trigger] entries[i],
            altitude,
            azimuth,
        )
}

/// Whether every angle of every entry is in range.
pub open spec fn entries_in_range(entries: Seq<SolarAngle>) -> bool {
    forall|i: int|
        0 <= i < entries.len() ==> angle_in_range(#[trigger] entries[i].alt()) && angle_in_range(
            entries[i].az(),
        )
}

/// The distance between two sun positions (see [`solar_distance`]).
pub fn compute_solar_distance(alt1: i64, az1: i64, alt2: i64, az2: i64) -> (d: u128)
    requires
        angle_in_range(alt1 as int),
        angle_in_range(az1 as int),
        angle_in_range(alt2 as int),
        angle_in_range(az2 as int),
    ensures
        d == solar_distance(alt1 as int, az1 as int, alt2 as int, az2 as int),
{
    let da: i128 = alt1 as i128 - alt2 as i128;
    let diff: i128 = if az1 >= az2 {
        az1 as i128 - az2 as i128
    } else {
        az2 as i128 - az1 as i128
    };
    let raw: i128 = diff % FULL_TURN as i128;
    let gap: i128 = if raw <= FULL_TURN as i128 - raw {
        raw
    } else {
        FULL_TURN as i128 - raw
    };
    assert(0 <= gap <= 360_000_000);
    assert(da * da <= 4_000_000_000_000_000_000_000_000) by (nonlinear_arith)
        requires
            -2_000_000_000_000 <= da <= 2_000_000_000_000,
    ;
    assert(da * da >= 0) by (nonlinear_arith);
    assert(gap * gap <= 129_600_000_000_000_000) by (nonlinear_arith)
        requires
            0 <= gap <= 360_000_000,
    ;
    assert(gap * gap >= 0) by (nonlinear_arith);
    let d: i128 = 4 * (da * da) + gap * gap;
    assert(d == 4 * da * da + gap * gap) by (nonlinear_arith)
        requires
            d == 4 * (da * da) + gap * gap,
    ;
    d as u128
}

/// Selects the theme image whose solar angle is closest to the current one.
pub struct WallpaperSelector;

impl WallpaperSelector {
    /// Position of the entry closest to the given sun position; the first one
    /// among equally close entries. `None` when there are no entries.
    pub fn find_closest_entry(
        solar_configs: &[SolarAngle],
        current_altitude: i64,
        current_azimuth: i64,
    ) -> (entry: Option<usize>)
        requires
            entries_in_range(solar_configs@),
            angle_in_range(current_altitude as int),
            angle_in_range(current_azimuth as int),
        ensures
            solar_configs@.len() == 0 ==> entry is None,
            solar_configs@.len() > 0 ==> (entry matches Some(k) && is_first_closest(
                solar_configs@,
                k as int,
                current_altitude as int,
                current_azimuth as int,
            )),
    {
        let n = solar_configs.len();
        if n == 0 {
            return None;
        }
        let mut best: usize = 0;
        let first = &solar_configs[0];
        let mut best_distance = compute_solar_distance(
            first.altitude(),
            first.azimuth(),
            current_altitude,
            current_azimuth,
        );
        let mut i: usize = 1;
        while i < n
            invariant
                n == solar_configs@.len(),
                entries_in_range(solar_configs@),
                angle_in_range(current_altitude as int),
                angle_in_range(current_azimuth as int),
                1 <= i <= n,
                best < i,
                best_distance == entry_distance(
                    solar_configs@[best as int],
                    current_altitude as int,
                    current_azimuth as int,
                ),
                forall|m: int|
                    0 <= m < i ==> best_distance <= entry_distance(
                        #[trigger] solar_configs@[m],
                        current_altitude as int,
                        current_azimuth as int,
                    ),
                forall|m: int|
                    0 <= m < best ==> best_distance < entry_distance(
                        #[trigger] solar_configs@[m],
                        current_altitude as int,
                        current_azimuth as int,
                    ),
            decreases n - i,
        {
            let candidate = &solar_configs[i];
            assert(angle_in_range(solar_configs@[i as int].alt()));
            let d = compute_solar_distance(
                candidate.altitude(),
                candidate.azimuth(),
                current_altitude,
                current_azimuth,
            );
            if d < best_distance {
                best = i;
                best_distance = d;
            }
            i = i + 1;
        }
        Some(best)
    }

    /// Image index of the entry closest to the given sun position (see
    /// [`WallpaperSelector::find_closest_entry`]); `None` when there are no entries.
    pub fn find_closest_image(
        solar_configs: &[SolarAngle],
        current_altitude: i64,
        current_azimuth: i64,
    ) -> (image: Option<u8>)
        requires
            entries_in_range(solar_configs@),
            angle_in_range(current_altitude as int),
            angle_in_range(current_azimuth as int),
        ensures
            solar_configs@.len() == 0 ==> image is None,
            solar_configs@.len() > 0 ==> exists|k: int|
                is_first_closest(solar_configs@, k, current_altitude as int, current_azimuth as int)
                    && image == Some(#[trigger] solar_configs@[k].idx()),
    {
        match Self::find_closest_entry(solar_configs, current_altitude, current_azimuth) {
            Some(entry) => {
                let image = solar_configs[entry].index();
                assert(is_first_closest(
                    solar_configs@,
                    entry as int,
                    current_altitude as int,
                    current_azimuth as int,
                ) && Some(image) == Some(solar_configs@[entry as int].idx()));
                Some(image)
            },
            None => None,
        }
    }
}

/// Only one entry can be the first closest: the choice is unique.
pub proof fn lemma_first_closest_unique(
    entries: Seq<SolarAngle>,
    j: int,
    k: int,
    altitude: int,
    azimuth: int,
)
    requires
        is_first_closest(entries, j, altitude, azimuth),
        is_first_closest(entries, k, altitude, azimuth),
    ensures
        j == k,
{
    if j < k {
        assert(entry_distance(entries[k], altitude, azimuth) < entry_distance(
            entries[j],
            altitude,
            azimuth,
        ));
    } else if k < j {
        assert(entry_distance(entries[j], altitude, azimuth) < entry_distance(
            entries[k],
            altitude,
            azimuth,
        ));
    }
}

/// The azimuth gap is at most half a turn and symmetric.
pub proof fn lemma_azimuth_gap_bounds(az1: int, az2: int)
    ensures
        0 <= azimuth_gap(az1, az2) <= FULL_TURN / 2,
        azimuth_gap(az1, az2) == azimuth_gap(az2, az1),
{
}

/// The distance between two sun positions at the same altitude is the square of the
/// shorter arc between their azimuths (azimuths in `[0°, 360°)`): the arc is the
/// plain difference up to half a turn, and the rest of the circle beyond it.
pub proof fn lemma_distance_at_equal_altitude(altitude: int, az1: int, az2: int)
    requires
        0 <= az1 < FULL_TURN,
        0 <= az2 < FULL_TURN,
    ensures
        ({
            let d = if az1 >= az2 {
                az1 - az2
            } else {
                az2 - az1
            };
            let arc = if 2 * d <= FULL_TURN {
                d
            } else {
                FULL_TURN - d
            };
            solar_distance(altitude, az1, altitude, az2) == arc * arc
        }),
{
    let d = if az1 >= az2 {
        az1 - az2
    } else {
        az2 - az1
    };
    assert(d % (FULL_TURN as int) == d);
}

/// The distance between two sun positions with the same azimuth is four times the
/// square of their altitude difference: altitude counts double against azimuth.
pub proof fn lemma_distance_at_equal_azimuth(alt1: int, alt2: int, azimuth: int)
    ensures
        solar_distance(alt1, azimuth, alt2, azimuth) == 4 * (alt1 - alt2) * (alt1 - alt2),
{
    assert(0int % (FULL_TURN as int) == 0);
    assert(azimuth_gap(azimuth, azimuth) == 0);
    let gap = azimuth_gap(azimuth, azimuth);
    assert(gap * gap == 0) by (nonlinear_arith)
        requires
            gap == 0,
    ;
}

/// A position is at distance zero from itself, and any other position within the
/// circle of azimuths is farther.
pub proof fn lemma_distance_zero_only_at_same_position(alt1: int, az1: int, alt2: int, az2: int)
    requires
        0 <= az1 < FULL_TURN,
        0 <= az2 < FULL_TURN,
    ensures
        solar_distance(alt1, az1, alt2, az2) >= 0,
        solar_distance(alt1, az1, alt2, az2) == 0 <==> (alt1 == alt2 && az1 == az2),
{
    let da = alt1 - alt2;
    let d = if az1 >= az2 {
        az1 - az2
    } else {
        az2 - az1
    };
    assert(d % (FULL_TURN as int) == d);
    let gap = azimuth_gap(az1, az2);
    assert(gap >= 0);
    assert(gap == 0 <==> az1 == az2);
    assert(4 * da * da >= 0) by (nonlinear_arith);
    assert(gap * gap >= 0) by (nonlinear_arith);
    assert(4 * da * da == 0 <==> da == 0) by (nonlinear_arith);
    assert(gap * gap == 0 <==> gap == 0) by (nonlinear_arith);
    assert(solar_distance(alt1, az1, alt2, az2) == 4 * da * da + gap * gap);
}

/// Among frames at the sun's own altitude, the frame chosen is one whose azimuth is
/// nearest the sun's along the circle: no other such frame lies on a shorter arc.
pub proof fn lemma_choice_nearest_in_azimuth(
    entries: Seq<SolarAngle>,
    k: int,
    i: int,
    altitude: int,
    azimuth: int,
)
    requires
        is_first_closest(entries, k, altitude, azimuth),
        0 <= i < entries.len(),
        entries[k].alt() == altitude,
        entries[i].alt() == altitude,
        0 <= entries[k].az() < FULL_TURN,
        0 <= entries[i].az() < FULL_TURN,
        0 <= azimuth < FULL_TURN,
    ensures
        ({
            let dk = if entries[k].az() >= azimuth {
                entries[k].az() - azimuth
            } else {
                azimuth - entries[k].az()
            };
            let di = if entries[i].az() >= azimuth {
                entries[i].az() - azimuth
            } else {
                azimuth - entries[i].az()
            };
            let arc_k = if 2 * dk <= FULL_TURN {
                dk
            } else {
                FULL_TURN - dk
            };
            let arc_i = if 2 * di <= FULL_TURN {
                di
            } else {
                FULL_TURN - di
            };
            arc_k <= arc_i
        }),
{
    lemma_distance_at_equal_altitude(altitude, entries[k].az(), azimuth);
    lemma_distance_at_equal_altitude(altitude, entries[i].az(), azimuth);
    assert(entry_distance(entries[k], altitude, azimuth) <= entry_distance(
        entries[i],
        altitude,
        azimuth,
    ));
    let dk = if entries[k].az() >= azimuth {
        entries[k].az() - azimuth
    } else {
        azimuth - entries[k].az()
    };
    let di = if entries[i].az() >= azimuth {
        entries[i].az() - azimuth
    } else {
        azimuth - entries[i].az()
    };
    let arc_k = if 2 * dk <= FULL_TURN {
        dk
    } else {
        FULL_TURN - dk
    };
    let arc_i = if 2 * di <= FULL_TURN {
        di
    } else {
        FULL_TURN - di
    };
    assert(arc_k <= arc_i) by (nonlinear_arith)
        requires
            arc_k >= 0,
            arc_i >= 0,
            arc_k * arc_k <= arc_i * arc_i,
    ;
}

/// A frame exactly at the sun's position is always among the closest: the frame
/// chosen is then also exactly at the sun's position.
pub proof fn lemma_exact_frame_chosen(
    entries: Seq<SolarAngle>,
    k: int,
    i: int,
    altitude: int,
    azimuth: int,
)
    requires
        is_first_closest(entries, k, altitude, azimuth),
        0 <= i < entries.len(),
        entries[i].alt() == altitude,
        entries[i].az() == azimuth,
        0 <= entries[k].az() < FULL_TURN,
        0 <= azimuth < FULL_TURN,
    ensures
        entries[k].alt() == altitude,
        entries[k].az() == azimuth,
{
    lemma_distance_zero_only_at_same_position(altitude, azimuth, altitude, azimuth);
    lemma_distance_zero_only_at_same_position(entries[k].alt(), entries[k].az(), altitude, azimuth);
    assert(entry_distance(entries[k], altitude, azimuth) <= entry_distance(
        entries[i],
        altitude,
        azimuth,
    ));
}

} // verus!
