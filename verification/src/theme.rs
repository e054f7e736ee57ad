//! Themes: errors, image paths, validation and a bounded cache of parsed themes.

use std::rc::Rc;

use vstd::prelude::*;

use crate::config::{extension, ImageFormat};
use crate::date::{decimal, push_decimal, string_push};
use crate::solar::SolarAngle;

verus! {

/// Errors of theme operations.
#[derive(Debug, PartialEq, Eq)]
pub enum ThemeError {
    ThemeDirectoryNotFound(String),
    DefaultThemeMissing,
    SolarConfigurationMissing,
    ImageSolarConfigurationMismatch { expected: usize, found: usize },
    WallpaperImageMissing { path: String },
    MonitorWallpaperConfigurationMissing,
    ThemeManifestMissing,
    ThemeManifestParse(String),
    UnsupportedThemeSchema(u32),
    NoSolarFrames,
    FrameIndexOutOfRange(usize),
    /// Solar altitude outside `[-90°, 90°]` (millionths of a degree).
    InvalidAltitude(i64),
    /// Solar azimuth outside `[0°, 360°)` (millionths of a degree).
    InvalidAzimuth(i64),
}

/// Parsed theme data: the solar frames and, for manifest themes, the image
/// format the manifest declares (legacy themes use the configured one).
#[derive(Debug)]
pub struct ThemeData {
    pub angles: Vec<SolarAngle>,
    pub image_format: Option<ImageFormat>,
}

// ── Image paths ─────────────────────────────────────────────────────────────
/// File name of image `index`: its one-based number and the format's extension.
pub open spec fn image_file_name(index: u8, format: ImageFormat) -> Seq<char> {
    decimal((index + 1) as nat) + seq!['.'] + extension(format)
}

/// Sub-directory of a theme holding its images: `images` for customized themes,
/// else one named after the extension.
pub open spec fn image_subdirectory(format: ImageFormat, is_customized: bool) -> Seq<char> {
    if is_customized {
        "images"@
    } else {
        extension(format)
    }
}

/// Location of an image inside a theme directory.
#[derive(Debug)]
pub struct ThemeImagePath {
    pub subdirectory: String,
    pub file_name: String,
}

/// `"{index + 1}.{extension}"`.
pub fn image_file_name_of(index: u8, format: &ImageFormat) -> (name: String)
    ensures
        name@ == image_file_name(index, *format),
{
    let mut name = String::new();
    push_decimal(&mut name, index as u32 + 1);
    string_push(&mut name, '.');
    name.append(format.as_str());
    proof {
        assert(name@ =~= image_file_name(index, *format));
    }
    name
}

/// The sub-directory and file name of image `index` of a theme.
pub fn wallpaper_image_path(index: u8, image_format: &ImageFormat, is_customized: bool) -> (path:
    ThemeImagePath)
    ensures
        path.subdirectory@ == image_subdirectory(*image_format, is_customized),
        path.file_name@ == image_file_name(index, *image_format),
{
    let subdirectory = if is_customized {
        String::from_str("images")
    } else {
        String::from_str(image_format.as_str())
    };
    ThemeImagePath { subdirectory, file_name: image_file_name_of(index, image_format) }
}

// ── Validation ──────────────────────────────────────────────────────────────
/// Whether a manifest frame's altitude lies in `[-90°, 90°]`.
pub open spec fn altitude_ok(altitude: int) -> bool {
    -90_000_000 <= altitude <= 90_000_000
}

/// Whether a manifest frame's azimuth lies in `[0°, 360°)`.
pub open spec fn azimuth_ok(azimuth: int) -> bool {
    0 <= azimuth < 360_000_000
}

/// The first range error among the frames, checking each frame's altitude
/// before its azimuth.
pub open spec fn first_range_error(angles: Seq<SolarAngle>) -> Option<ThemeError>
    decreases angles.len(),
{
    if angles.len() == 0 {
        None
    } else if !altitude_ok(angles[0].alt()) {
        Some(ThemeError::InvalidAltitude(angles[0].alt() as i64))
    } else if !azimuth_ok(angles[0].az()) {
        Some(ThemeError::InvalidAzimuth(angles[0].az() as i64))
    } else {
        first_range_error(angles.drop_first())
    }
}

/// The image format a theme's files use.
pub open spec fn effective_format(declared: Option<ImageFormat>, configured: ImageFormat) -> ImageFormat {
    match declared {
        Some(f) => f,
        None => configured,
    }
}

/// The image file names a theme needs, one per frame, in frame order.
pub open spec fn required_files(angles: Seq<SolarAngle>, format: ImageFormat) -> Seq<Seq<char>> {
    angles.map_values(|a: SolarAngle| image_file_name(a.idx(), format))
}

/// How many of the observations say the file is there.
pub open spec fn count_present(images_present: Seq<bool>) -> nat
    decreases images_present.len(),
{
    if images_present.len() == 0 {
        0
    } else {
        count_present(images_present.drop_last()) + if images_present.last() {
            1nat
        } else {
            0nat
        }
    }
}

/// The outcome of validating an existing theme directory from observations of
/// its files: a range error of a manifest frame first; then, when the image
/// directory or an image is missing, a mismatch giving the number of frames and
/// the number of their images found.
pub open spec fn validation_result(
    declared: Option<ImageFormat>,
    angles: Seq<SolarAngle>,
    images_directory_is_dir: bool,
    images_present: Seq<bool>,
) -> Result<(), ThemeError> {
    if declared is Some && first_range_error(angles) is Some {
        Err(first_range_error(angles).unwrap())
    } else if !images_directory_is_dir {
        Err(ThemeError::ImageSolarConfigurationMismatch { expected: angles.len() as usize, found: 0 })
    } else if exists|i: int| 0 <= i < images_present.len() && !#[trigger] images_present[i] {
        Err(
            ThemeError::ImageSolarConfigurationMismatch {
                expected: angles.len() as usize,
                found: count_present(images_present) as usize,
            },
        )
    } else {
        Ok(())
    }
}

/// Validates that a theme exists and has proper solar data and image files.
pub struct ThemeValidator;

impl ThemeValidator {
    /// The image files a theme must have: the sub-directory, and one file name
    /// per frame.
    pub fn required_images(data: &ThemeData, image_format: &ImageFormat, is_customized: bool) -> (req:
        ThemeImageRequirements)
        ensures
            req.subdirectory@ == image_subdirectory(
                effective_format(data.image_format, *image_format),
                is_customized,
            ),
            req.files@.map_values(|s: String| s@) == required_files(
                data.angles@,
                effective_format(data.image_format, *image_format),
            ),
    {
        let format = match &data.image_format {
            Some(f) => *f,
            None => *image_format,
        };
        let subdirectory = if is_customized {
            String::from_str("images")
        } else {
            String::from_str(format.as_str())
        };
        let mut files: Vec<String> = Vec::new();
        let mut i: usize = 0;
        while i < data.angles.len()
            invariant
                i <= data.angles@.len(),
                format == effective_format(data.image_format, *image_format),
                files@.map_values(|s: String| s@) == required_files(data.angles@, format).take(
                    i as int,
                ),
            decreases data.angles@.len() - i,
        {
            let index = data.angles[i].index();
            let name = image_file_name_of(index, &format);
            let ghost before = files@;
            files.push(name);
            assert(files@.map_values(|s: String| s@) =~= before.map_values(|s: String| s@).push(
                name@,
            ));
            assert(files@.map_values(|s: String| s@) =~= required_files(data.angles@, format).take(
                i as int + 1,
            ));
            i = i + 1;
        }
        assert(required_files(data.angles@, format).take(data.angles@.len() as int)
            =~= required_files(data.angles@, format));
        ThemeImageRequirements { subdirectory, files }
    }

    /// The first frame whose altitude or azimuth is out of range, as an error.
    pub fn check_frame_ranges(angles: &[SolarAngle]) -> (result: Result<(), ThemeError>)
        ensures
            first_range_error(angles@) is None ==> result is Ok,
            first_range_error(angles@) matches Some(e) ==> result == Err::<(), ThemeError>(e),
    {
        let mut i: usize = 0;
        assert(angles@.skip(0) =~= angles@);
        while i < angles.len()
            invariant
                i <= angles@.len(),
                first_range_error(angles@) == first_range_error(angles@.skip(i as int)),
            decreases angles@.len() - i,
        {
            let ghost rest = angles@.skip(i as int);
            assert(rest[0] == angles@[i as int]);
            assert(rest.drop_first() =~= angles@.skip(i as int + 1));
            let altitude = angles[i].altitude();
            let azimuth = angles[i].azimuth();
            if altitude < -90_000_000 || altitude > 90_000_000 {
                return Err(ThemeError::InvalidAltitude(altitude));
            }
            if azimuth < 0 || azimuth >= 360_000_000 {
                return Err(ThemeError::InvalidAzimuth(azimuth));
            }
            i = i + 1;
        }
        assert(angles@.skip(i as int).len() == 0);
        Ok(())
    }

    /// Validates a theme from observations of its files.
    ///
    /// `directory_exists` tells whether the theme directory exists (if not, the
    /// other observations are not consulted); `data` is the theme's parsed solar
    /// data; `images_directory_is_dir` and `images_present` tell whether the
    /// image directory and each file of [`ThemeValidator::required_images`]
    /// exist, one observation per frame, in frame order. Manifest themes must keep their frames in the documented angle
    /// ranges; legacy themes are trusted.
    pub fn validate(
        theme_identifier: &String,
        directory_exists: bool,
        data: &ThemeData,
        images_directory_is_dir: bool,
        images_present: &[bool],
    ) -> (result: Result<(), ThemeError>)
        requires
            images_present@.len() == data.angles@.len(),
        ensures
            !directory_exists ==> (result matches Err(ThemeError::ThemeDirectoryNotFound(id))
                && id@ == theme_identifier@),
            directory_exists ==> result == validation_result(
                data.image_format,
                data.angles@,
                images_directory_is_dir,
                images_present@,
            ),
    {
        if !directory_exists {
            return Err(ThemeError::ThemeDirectoryNotFound(theme_identifier.clone()));
        }
        if data.image_format.is_some() {
            let checked = Self::check_frame_ranges(data.angles.as_slice());
            if checked.is_err() {
                return checked;
            }
        }
        if !images_directory_is_dir {
            return Err(
                ThemeError::ImageSolarConfigurationMismatch { expected: data.angles.len(), found: 0 },
            );
        }
        let mut found: usize = 0;
        let mut all_present = true;
        let mut i: usize = 0;
        while i < images_present.len()
            invariant
                i <= images_present@.len(),
                found == count_present(images_present@.take(i as int)),
                found <= i,
                all_present == forall|k: int| 0 <= k < i ==> #[trigger] images_present@[k],
            decreases images_present@.len() - i,
        {
            assert(images_present@.take(i as int + 1).drop_last() =~= images_present@.take(
                i as int,
            ));
            if images_present[i] {
                found = found + 1;
            } else {
                all_present = false;
            }
            i = i + 1;
        }
        assert(images_present@.take(images_present@.len() as int) =~= images_present@);
        if !all_present {
            return Err(
                ThemeError::ImageSolarConfigurationMismatch { expected: data.angles.len(), found },
            );
        }
        Ok(())
    }
}

/// The image files a theme must provide.
#[derive(Debug)]
pub struct ThemeImageRequirements {
    pub subdirectory: String,
    pub files: Vec<String>,
}

// ── Bounded cache of parsed themes ──────────────────────────────────────────
/// Maximum number of themes kept resident.
pub const SOLAR_CACHE_CAPACITY: usize = 32;

/// Another handle to the same shared value (`Rc::clone`).
#[verifier::external_body]
pub(crate) fn rc_share<T>(value: &Rc<T>) -> (shared: Rc<T>)
    ensures
        shared == *value,
{
    Rc::clone(value)
}

/// A least-recently-used cache of parsed themes keyed by canonical directory.
///
/// Entries are kept from least to most recently used.
pub struct SolarAngleCache<V> {
    entries: Vec<(String, Rc<V>)>,
}

/// The keys of a sequence of entries.
pub open spec fn entry_keys<V>(entries: Seq<(String, Rc<V>)>) -> Seq<Seq<char>> {
    entries.map_values(|e: (String, Rc<V>)| e.0@)
}

impl<V> SolarAngleCache<V> {
    /// The entries, least recently used first.
    pub closed spec fn items(&self) -> Seq<(String, Rc<V>)> {
        self.entries@
    }

    /// Keys of the entries, least recently used first.
    pub open spec fn keys(&self) -> Seq<Seq<char>> {
        entry_keys(self.items())
    }

    /// No key twice, and at most the capacity.
    pub open spec fn well_formed(&self) -> bool {
        &&& self.keys().no_duplicates()
        &&& self.items().len() <= SOLAR_CACHE_CAPACITY
    }

    /// Every cache keeps its keys unique and its size within the capacity.
    #[verifier::type_invariant]
    spec fn keys_unique_and_bounded(self) -> bool {
        self.well_formed()
    }

    /// An empty cache.
    pub fn new() -> (cache: Self)
        ensures
            cache.items().len() == 0,
            cache.well_formed(),
    {
        let cache = SolarAngleCache { entries: Vec::new() };
        assert(cache.keys() =~= Seq::<Seq<char>>::empty());
        cache
    }

    fn position(&self, key: &String) -> (pos: Option<usize>)
        ensures
            pos matches Some(p) ==> p < self.items().len() && self.keys()[p as int] == key@,
            pos is None ==> !self.keys().contains(key@),
    {
        let mut i: usize = 0;
        while i < self.entries.len()
            invariant
                i <= self.items().len(),
                forall|k: int| 0 <= k < i ==> #[trigger] self.keys()[k] != key@,
            decreases self.items().len() - i,
        {
            assert(self.keys()[i as int] == self.entries@[i as int].0@);
            if self.entries[i].0 == *key {
                return Some(i);
            }
            i = i + 1;
        }
        None
    }

    /// The cached value for `key`, marking it most recently used.
    pub fn get(&mut self, key: &String) -> (value: Option<Rc<V>>)
        ensures
            final(self).well_formed(),
            !old(self).keys().contains(key@) ==> value is None && final(self).items()
                == old(self).items(),
            forall|p: int|
                0 <= p < old(self).items().len() && old(self).keys()[p] == key@ ==> {
                    &&& value == Some(old(self).items()[p].1)
                    &&& final(self).items() == old(self).items().remove(p).push(
                        old(self).items()[p],
                    )
                },
    {
        proof {
            use_type_invariant(&*self);
        }
        match self.position(key) {
            Some(p) => {
                proof {
                    lemma_keys_unique_position(old(self).items(), p as int, key@);
                    lemma_remove_keeps_unique(old(self).items(), p as int);
                    lemma_move_to_back_keeps_keys(old(self).items(), p as int);
                }
                let mut entries: Vec<(String, Rc<V>)> = Vec::new();
                std::mem::swap(&mut entries, &mut self.entries);
                let entry = entries.remove(p);
                let value = rc_share(&entry.1);
                entries.push(entry);
                self.entries = entries;
                Some(value)
            },
            None => None,
        }
    }

    /// Stores `value` under `key` as the most recently used entry, evicting the
    /// least recently used entry when a new key arrives at full capacity.
    pub fn insert(&mut self, key: String, value: Rc<V>)
        ensures
            final(self).well_formed(),
            final(self).items().last() == (key, value),
            forall|p: int|
                0 <= p < old(self).items().len() && old(self).keys()[p] == key@
                    ==> final(self).items() == old(self).items().remove(p).push((key, value)),
            !old(self).keys().contains(key@) && old(self).items().len() < SOLAR_CACHE_CAPACITY
                ==> final(self).items() == old(self).items().push((key, value)),
            !old(self).keys().contains(key@) && old(self).items().len() >= SOLAR_CACHE_CAPACITY
                ==> final(self).items() == old(self).items().remove(0).push((key, value)),
    {
        proof {
            use_type_invariant(&*self);
        }
        match self.position(&key) {
            Some(p) => {
                proof {
                    lemma_keys_unique_position(old(self).items(), p as int, key@);
                    lemma_remove_keeps_unique(old(self).items(), p as int);
                    lemma_push_new_key(old(self).items().remove(p as int), key, value);
                }
                let mut entries: Vec<(String, Rc<V>)> = Vec::new();
                std::mem::swap(&mut entries, &mut self.entries);
                let _previous = entries.remove(p);
                entries.push((key, value));
                self.entries = entries;
            },
            None => {
                let mut entries: Vec<(String, Rc<V>)> = Vec::new();
                std::mem::swap(&mut entries, &mut self.entries);
                if entries.len() >= SOLAR_CACHE_CAPACITY {
                    proof {
                        lemma_remove_keeps_unique(old(self).items(), 0);
                        assert(!entry_keys(old(self).items().remove(0)).contains(key@)) by {
                            lemma_remove_subset(old(self).items(), 0, key@);
                        }
                        lemma_push_new_key(old(self).items().remove(0), key, value);
                    }
                    let _oldest = entries.remove(0);
                } else {
                    proof {
                        lemma_push_new_key(old(self).items(), key, value);
                    }
                }
                entries.push((key, value));
                self.entries = entries;
            },
        }
    }
}

/// With unique keys, the position holding a key is the only one.
pub proof fn lemma_keys_unique_position<V>(items: Seq<(String, Rc<V>)>, p: int, key: Seq<char>)
    requires
        entry_keys(items).no_duplicates(),
        0 <= p < items.len(),
        entry_keys(items)[p] == key,
    ensures
        forall|q: int| 0 <= q < items.len() && entry_keys(items)[q] == key ==> q == p,
{
}

/// Removing an entry keeps the keys unique.
pub proof fn lemma_remove_keeps_unique<V>(items: Seq<(String, Rc<V>)>, p: int)
    requires
        entry_keys(items).no_duplicates(),
        0 <= p < items.len(),
    ensures
        entry_keys(items.remove(p)).no_duplicates(),
        entry_keys(items.remove(p)) =~= entry_keys(items).remove(p),
{
    assert(entry_keys(items.remove(p)) =~= entry_keys(items).remove(p));
}

/// A key absent from a sequence is absent after removing an entry.
pub proof fn lemma_remove_subset<V>(items: Seq<(String, Rc<V>)>, p: int, key: Seq<char>)
    requires
        !entry_keys(items).contains(key),
        0 <= p < items.len(),
    ensures
        !entry_keys(items.remove(p)).contains(key),
{
    assert(entry_keys(items.remove(p)) =~= entry_keys(items).remove(p));
    if entry_keys(items.remove(p)).contains(key) {
        let k = choose|k: int| 0 <= k < entry_keys(items.remove(p)).len() && entry_keys(
            items.remove(p),
        )[k] == key;
        if k < p {
            assert(entry_keys(items)[k] == key);
        } else {
            assert(entry_keys(items)[k + 1] == key);
        }
    }
}

/// Appending an entry whose key is absent keeps the keys unique.
pub proof fn lemma_push_new_key<V>(items: Seq<(String, Rc<V>)>, key: String, value: Rc<V>)
    requires
        entry_keys(items).no_duplicates(),
        !entry_keys(items).contains(key@),
    ensures
        entry_keys(items.push((key, value))).no_duplicates(),
        entry_keys(items.push((key, value))) =~= entry_keys(items).push(key@),
{
    assert(entry_keys(items.push((key, value))) =~= entry_keys(items).push(key@));
    let ks = entry_keys(items).push(key@);
    assert forall|a: int, b: int| 0 <= a < ks.len() && 0 <= b < ks.len() && a != b implies ks[a]
        != ks[b] by {
        if a == ks.len() - 1 {
            assert(entry_keys(items)[b] == ks[b]);
        } else if b == ks.len() - 1 {
            assert(entry_keys(items)[a] == ks[a]);
        }
    }
}

/// Moving an entry to the back keeps the keys unique.
pub proof fn lemma_move_to_back_keeps_keys<V>(items: Seq<(String, Rc<V>)>, p: int)
    requires
        entry_keys(items).no_duplicates(),
        0 <= p < items.len(),
    ensures
        entry_keys(items.remove(p).push(items[p])).no_duplicates(),
{
    lemma_remove_keeps_unique(items, p);
    assert(!entry_keys(items.remove(p)).contains(items[p].0@)) by {
        assert(entry_keys(items.remove(p)) =~= entry_keys(items).remove(p));
        if entry_keys(items.remove(p)).contains(items[p].0@) {
            let k = choose|k: int| 0 <= k < entry_keys(items.remove(p)).len() && entry_keys(
                items.remove(p),
            )[k] == items[p].0@;
            if k < p {
                assert(entry_keys(items)[k] == entry_keys(items)[p]);
            } else {
                assert(entry_keys(items)[k + 1] == entry_keys(items)[p]);
            }
        }
    }
    lemma_push_new_key(items.remove(p), items[p].0, items[p].1);
}

/// What `insert` stores under a key, `get` returns for that key.
pub proof fn lemma_cache_read_after_write<V>(items: Seq<(String, Rc<V>)>, key: String, value: Rc<V>)
    requires
        entry_keys(items).no_duplicates(),
        items.len() > 0,
        items.last() == (key, value),
    ensures
        forall|p: int|
            0 <= p < items.len() && entry_keys(items)[p] == key@ ==> items[p].1 == value,
{
    assert(entry_keys(items)[items.len() - 1] == key@);
}

} // verus!
