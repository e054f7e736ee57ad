//! Custom theme manifest (`theme.toml`, schema 1): its content and the solar
//! frames the daemon matches against.
//!
//! Angles are in millionths of a degree.

use vstd::prelude::*;

use crate::config::ImageFormat;
use crate::solar::SolarAngle;
use crate::theme::ThemeError;

verus! {

/// Filename of the custom theme manifest.
pub const THEME_MANIFEST_FILENAME: &'static str = "theme.toml";

/// The only supported manifest schema version.
pub const SUPPORTED_SCHEMA: u32 = 1;

/// Descriptive theme information (`[theme]`).
#[derive(Debug)]
pub struct ThemeInfo {
    pub id: String,
    pub name: String,
    pub author: String,
    pub version: u32,
    pub created_at: u64,
    pub image_format: ImageFormat,
    pub email: Option<String>,
    pub homepage: Option<String>,
    pub description: Option<String>,
}

/// Light and dark image indices (`[appearance]`).
#[derive(Debug, Clone, Copy, PartialEq, Eq, Structural)]
pub struct Appearance {
    pub light: usize,
    pub dark: usize,
}

/// A `native` solar frame.
#[derive(Debug, Clone, Copy, PartialEq, Eq, Structural)]
pub struct NativeFrame {
    pub index: usize,
    pub altitude: i64,
    pub azimuth: i64,
}

/// A `calculated` or `hours` solar frame, with its local time.
#[derive(Debug, Clone, Copy, PartialEq, Eq, Structural)]
pub struct TimedFrame {
    pub index: usize,
    pub hour: u8,
    pub minute: u8,
    pub altitude: i64,
    pub azimuth: i64,
}

/// Reference date of `calculated` solar data.
#[derive(Debug, Clone, Copy, PartialEq, Eq, Structural)]
pub struct DateInput {
    pub year: u16,
    pub month: u8,
    pub day: u8,
}

/// Maker-side image provenance (`[[images]]`), ignored by the runtime.
#[derive(Debug)]
pub struct ThemeImage {
    pub index: usize,
    pub original: Option<String>,
}

/// Solar-angle data (`[solar]`), by mode.
#[derive(Debug)]
pub enum SolarSection {
    /// Angles embedded by macOS; frames carry no time.
    Native { frames: Vec<NativeFrame> },
    /// Authoring inputs plus precomputed angles.
    Calculated {
        latitude: i64,
        longitude: i64,
        altitude: i64,
        reference_date: DateInput,
        frames: Vec<TimedFrame>,
    },
    /// Time ratios; frames carry local time plus precomputed angles.
    Hours { frames: Vec<TimedFrame> },
}

/// `theme.toml` top-level structure.
#[derive(Debug)]
pub struct ThemeManifest {
    pub schema: u32,
    pub theme: ThemeInfo,
    pub appearance: Option<Appearance>,
    pub solar: Option<SolarSection>,
    pub images: Vec<ThemeImage>,
}

/// A frame reduced to what the runtime uses: index, altitude and azimuth.
pub type FrameTriple = (usize, i64, i64);

/// The `(index, altitude, azimuth)` triples of a manifest's frames, in order.
pub open spec fn manifest_frames(solar: Option<SolarSection>) -> Seq<FrameTriple> {
    match solar {
        Some(SolarSection::Native { frames }) => frames@.map_values(
            |f: NativeFrame| (f.index, f.altitude, f.azimuth),
        ),
        Some(SolarSection::Calculated { frames, .. }) => frames@.map_values(
            |f: TimedFrame| (f.index, f.altitude, f.azimuth),
        ),
        Some(SolarSection::Hours { frames }) => frames@.map_values(
            |f: TimedFrame| (f.index, f.altitude, f.azimuth),
        ),
        None => Seq::empty(),
    }
}

/// Index of the first frame whose image index does not fit in a byte, if any.
pub open spec fn first_wide_index(frames: Seq<FrameTriple>) -> Option<int>
    decreases frames.len(),
{
    if frames.len() == 0 {
        None
    } else if frames[0].0 > 255 {
        Some(0)
    } else {
        match first_wide_index(frames.drop_first()) {
            Some(k) => Some(k + 1),
            None => None,
        }
    }
}

/// Whether a solar angle matches a frame triple.
pub open spec fn angle_matches(a: SolarAngle, f: FrameTriple) -> bool {
    a.idx() == f.0 && a.alt() == f.1 && a.az() == f.2
}

/// Converts frames into solar angles: `NoSolarFrames` when there are none, and
/// `FrameIndexOutOfRange` for the first index above 255.
pub fn frames_to_angles(frames: &Vec<FrameTriple>) -> (result: Result<Vec<SolarAngle>, ThemeError>)
    ensures
        frames@.len() == 0 ==> result == Err::<Vec<SolarAngle>, ThemeError>(ThemeError::NoSolarFrames),
        first_wide_index(frames@) matches Some(k) ==> result == Err::<Vec<SolarAngle>, ThemeError>(
            ThemeError::FrameIndexOutOfRange(frames@[k].0),
        ),
        frames@.len() > 0 && first_wide_index(frames@) is None ==> (result matches Ok(angles)
            && angles@.len() == frames@.len() && forall|i: int|
            0 <= i < frames@.len() ==> angle_matches(#[trigger] angles@[i], frames@[i])),
{
    if frames.len() == 0 {
        return Err(ThemeError::NoSolarFrames);
    }
    let mut angles: Vec<SolarAngle> = Vec::new();
    let mut i: usize = 0;
    assert(frames@.skip(0) =~= frames@);
    while i < frames.len()
        invariant
            i <= frames@.len(),
            frames@.len() > 0,
            angles@.len() == i,
            forall|m: int| 0 <= m < i ==> #[trigger] frames@[m].0 <= 255,
            forall|m: int| 0 <= m < i ==> angle_matches(#[trigger] angles@[m], frames@[m]),
            first_wide_index(frames@) == (match first_wide_index(frames@.skip(i as int)) {
                Some(k) => Some(k + i),
                None => None::<int>,
            }),
        decreases frames@.len() - i,
    {
        let (index, altitude, azimuth) = frames[i];
        let ghost rest = frames@.skip(i as int);
        assert(rest[0] == frames@[i as int]);
        assert(rest.drop_first() =~= frames@.skip(i as int + 1));
        if index > 255 {
            return Err(ThemeError::FrameIndexOutOfRange(index));
        }
        angles.push(SolarAngle::new(index as u8, altitude, azimuth));
        i = i + 1;
    }
    assert(frames@.skip(i as int).len() == 0);
    Ok(angles)
}

impl ThemeManifest {
    /// Rejects any schema but the supported one.
    pub fn check_schema(&self) -> (result: Result<(), ThemeError>)
        ensures
            self.schema == SUPPORTED_SCHEMA ==> result is Ok,
            self.schema != SUPPORTED_SCHEMA ==> result == Err::<(), ThemeError>(
                ThemeError::UnsupportedThemeSchema(self.schema),
            ),
    {
        if self.schema != SUPPORTED_SCHEMA {
            return Err(ThemeError::UnsupportedThemeSchema(self.schema));
        }
        Ok(())
    }

    /// The theme's image format.
    pub fn image_format(&self) -> (format: &ImageFormat)
        ensures
            *format == self.theme.image_format,
    {
        &self.theme.image_format
    }

    /// The frames the runtime matches against, as solar angles.
    pub fn solar_angles(&self) -> (result: Result<Vec<SolarAngle>, ThemeError>)
        ensures
            manifest_frames(self.solar).len() == 0 ==> result == Err::<Vec<SolarAngle>, ThemeError>(
                ThemeError::NoSolarFrames,
            ),
            first_wide_index(manifest_frames(self.solar)) matches Some(k) ==> result == Err::<
                Vec<SolarAngle>,
                ThemeError,
            >(
                ThemeError::FrameIndexOutOfRange(manifest_frames(self.solar)[k].0),
            ),
            manifest_frames(self.solar).len() > 0 && first_wide_index(manifest_frames(self.solar)) is None
                ==> (result matches Ok(angles) && angles@.len() == manifest_frames(self.solar).len()
                && forall|i: int|
                0 <= i < angles@.len() ==> angle_matches(
                    #[trigger] angles@[i],
                    manifest_frames(self.solar)[i],
                )),
    {
        let mut triples: Vec<FrameTriple> = Vec::new();
        match &self.solar {
            Some(SolarSection::Native { frames }) => {
                let mut i: usize = 0;
                while i < frames.len()
                    invariant
                        i <= frames@.len(),
                        triples@ == frames@.map_values(
                            |f: NativeFrame| (f.index, f.altitude, f.azimuth),
                        ).take(i as int),
                    decreases frames@.len() - i,
                {
                    let f = frames[i];
                    triples.push((f.index, f.altitude, f.azimuth));
                    assert(triples@ =~= frames@.map_values(
                        |f: NativeFrame| (f.index, f.altitude, f.azimuth),
                    ).take(i as int + 1));
                    i = i + 1;
                }
                assert(frames@.map_values(|f: NativeFrame| (f.index, f.altitude, f.azimuth)).take(
                    frames@.len() as int,
                ) =~= frames@.map_values(|f: NativeFrame| (f.index, f.altitude, f.azimuth)));
            },
            Some(SolarSection::Calculated { frames, .. }) | Some(SolarSection::Hours { frames }) => {
                let mut i: usize = 0;
                while i < frames.len()
                    invariant
                        i <= frames@.len(),
                        triples@ == frames@.map_values(
                            |f: TimedFrame| (f.index, f.altitude, f.azimuth),
                        ).take(i as int),
                    decreases frames@.len() - i,
                {
                    let f = frames[i];
                    triples.push((f.index, f.altitude, f.azimuth));
                    assert(triples@ =~= frames@.map_values(
                        |f: TimedFrame| (f.index, f.altitude, f.azimuth),
                    ).take(i as int + 1));
                    i = i + 1;
                }
                assert(frames@.map_values(|f: TimedFrame| (f.index, f.altitude, f.azimuth)).take(
                    frames@.len() as int,
                ) =~= frames@.map_values(|f: TimedFrame| (f.index, f.altitude, f.azimuth)));
            },
            None => {},
        }
        assert(triples@ == manifest_frames(self.solar));
        frames_to_angles(&triples)
    }
}

/// The frames the runtime matches against are the manifest's frames, one for one and
/// in order, each with its own index, altitude and azimuth, whatever the solar mode.
pub proof fn lemma_frames_keep_their_angles(solar: Option<SolarSection>, i: int)
    ensures
        solar is None ==> manifest_frames(solar).len() == 0,
        solar matches Some(SolarSection::Native { frames }) ==> manifest_frames(solar).len()
            == frames@.len() && (0 <= i < frames@.len() ==> manifest_frames(solar)[i] == (
            frames@[i].index,
            frames@[i].altitude,
            frames@[i].azimuth,
        )),
        solar matches Some(SolarSection::Calculated { frames, .. }) ==> manifest_frames(solar).len()
            == frames@.len() && (0 <= i < frames@.len() ==> manifest_frames(solar)[i] == (
            frames@[i].index,
            frames@[i].altitude,
            frames@[i].azimuth,
        )),
        solar matches Some(SolarSection::Hours { frames }) ==> manifest_frames(solar).len()
            == frames@.len() && (0 <= i < frames@.len() ==> manifest_frames(solar)[i] == (
            frames@[i].index,
            frames@[i].altitude,
            frames@[i].azimuth,
        )),
{
}

} // verus!
