//! Daemon configuration: its values, defaults, validation and change detection.
//!
//! Coordinates are in millionths of a degree, altitudes in millionths of a
//! metre; directories are path strings.

use vstd::prelude::*;

use crate::date::push_decimal;
use crate::solar::{valid_latitude, valid_longitude, MAX_LATITUDE, MAX_LONGITUDE};

verus! {

/// Default update interval (seconds).
pub const DEFAULT_INTERVAL_SECONDS: u16 = 15;

/// Smallest update interval (seconds).
pub const MIN_INTERVAL_SECONDS: u16 = 1;

/// Largest update interval (seconds).
pub const MAX_INTERVAL_SECONDS: u16 = 3600;

/// Whether the color scheme follows the sun by default.
pub const DEFAULT_AUTO_DETECT_COLOR_SCHEME: bool = true;

/// Whether the lock screen wallpaper is set by default.
pub const DEFAULT_LOCK_SCREEN_WALLPAPER_ENABLED: bool = true;

/// Default lifetime of an automatically detected position (minutes).
pub const DEFAULT_POSITION_CACHE_MINUTES: u64 = 30;

/// Default altitude of a manual position: 875 m, the commonly cited mean
/// elevation of land (in millionths of a metre).
pub const DEFAULT_ALTITUDE: i64 = 875_000_000;

/// Configuration errors.
#[derive(Debug, PartialEq, Eq)]
pub enum ConfigError {
    /// A configuration value failed validation.
    Validation { reason: String },
    /// The update interval lies outside `[MIN_INTERVAL_SECONDS, MAX_INTERVAL_SECONDS]`.
    IntervalOutOfRange(u16),
    /// The configuration file could not be parsed; the parser's message.
    Deserialization(String),
    /// The configuration could not be written out; the serializer's message.
    Serialization(String),
}

/// Text of an interval range error.
pub open spec fn interval_error_text(value: u16) -> Seq<char> {
    "interval must be between 1 and 3600, got "@ + crate::date::decimal(value as nat)
}

impl ConfigError {
    /// Human-readable description of the error.
    pub fn message(&self) -> (text: String)
        ensures
            self matches ConfigError::Validation { reason } ==> text@ == reason@,
            self matches ConfigError::IntervalOutOfRange(v) ==> text@ == interval_error_text(*v),
            self matches ConfigError::Deserialization(m) ==> text@ == "Failed to parse configuration: "@
                + m@,
            self matches ConfigError::Serialization(m) ==> text@ == "Failed to serialize configuration: "@
                + m@,
    {
        match self {
            ConfigError::Validation { reason } => reason.clone(),
            ConfigError::Deserialization(m) => {
                let mut text = String::from_str("Failed to parse configuration: ");
                text.append(m.as_str());
                text
            },
            ConfigError::Serialization(m) => {
                let mut text = String::from_str("Failed to serialize configuration: ");
                text.append(m.as_str());
                text
            },
            ConfigError::IntervalOutOfRange(value) => {
                let mut text = String::from_str("interval must be between 1 and 3600, got ");
                push_decimal(&mut text, *value as u32);
                text
            },
        }
    }
}

/// Whether an update interval is allowed.
pub open spec fn interval_in_range(value: int) -> bool {
    MIN_INTERVAL_SECONDS <= value <= MAX_INTERVAL_SECONDS
}

/// Range check applied when an interval is read from a configuration file.
pub fn check_interval(value: u16) -> (result: Result<u16, ConfigError>)
    ensures
        interval_in_range(value as int) ==> result == Ok::<u16, ConfigError>(value),
        !interval_in_range(value as int) ==> result == Err::<u16, ConfigError>(
            ConfigError::IntervalOutOfRange(value),
        ),
{
    if value < MIN_INTERVAL_SECONDS || value > MAX_INTERVAL_SECONDS {
        return Err(ConfigError::IntervalOutOfRange(value));
    }
    Ok(value)
}

// ── Image format ────────────────────────────────────────────────────────────
/// File format of wallpaper images.
#[derive(Debug, PartialEq, Eq, Structural, Clone, Copy)]
pub enum ImageFormat {
    Jpeg,
}

/// File extension of an image format.
pub open spec fn extension(format: ImageFormat) -> Seq<char> {
    match format {
        ImageFormat::Jpeg => "jpg"@,
    }
}

impl ImageFormat {
    /// File extension: `"jpg"` for JPEG.
    pub fn as_str(&self) -> (ext: &'static str)
        ensures
            ext@ == extension(*self),
    {
        match self {
            ImageFormat::Jpeg => "jpg",
        }
    }
}

impl Default for ImageFormat {
    fn default() -> (format: ImageFormat)
        ensures
            format == ImageFormat::Jpeg,
    {
        ImageFormat::Jpeg
    }
}

// ── Position source ─────────────────────────────────────────────────────────
/// Where the observer's position comes from.
#[derive(Debug, PartialEq, Eq, Structural, Clone, Copy)]
pub enum PositionSource {
    /// The platform's geolocation, cached for `cache_minutes` unless it is
    /// fetched for every calculation.
    Automatic { update_on_each_calculation: bool, cache_minutes: u64 },
    /// Fixed coordinates.
    Manual { latitude: i64, longitude: i64, altitude: i64 },
}

/// Whether a position source is valid: manual coordinates must lie in range.
pub open spec fn position_source_valid(source: PositionSource) -> bool {
    match source {
        PositionSource::Automatic { .. } => true,
        PositionSource::Manual { latitude, longitude, .. } => valid_latitude(latitude as int)
            && valid_longitude(longitude as int),
    }
}

impl PositionSource {
    /// Whether manual coordinates lie in `[-90°, 90°]` and `[-180°, 180°]`.
    pub fn validate(&self) -> (valid: bool)
        ensures
            valid == position_source_valid(*self),
    {
        match *self {
            PositionSource::Automatic { .. } => true,
            PositionSource::Manual { latitude, longitude, .. } => -MAX_LATITUDE <= latitude
                && latitude <= MAX_LATITUDE && -MAX_LONGITUDE <= longitude && longitude
                <= MAX_LONGITUDE,
        }
    }
}

impl Default for PositionSource {
    fn default() -> (source: PositionSource)
        ensures
            source == (PositionSource::Automatic {
                update_on_each_calculation: false,
                cache_minutes: DEFAULT_POSITION_CACHE_MINUTES,
            }),
    {
        PositionSource::Automatic {
            update_on_each_calculation: default_update_on_each_calculation(),
            cache_minutes: DEFAULT_POSITION_CACHE_MINUTES,
        }
    }
}

/// Default of `update_on_each_calculation`: the position is cached.
pub fn default_update_on_each_calculation() -> (b: bool)
    ensures
        !b,
{
    false
}

/// Default lifetime of a detected position, in minutes.
pub fn default_position_cache_minutes() -> (minutes: u64)
    ensures
        minutes == DEFAULT_POSITION_CACHE_MINUTES,
{
    DEFAULT_POSITION_CACHE_MINUTES
}

/// Default altitude of a manual position.
pub fn default_altitude() -> (altitude: i64)
    ensures
        altitude == DEFAULT_ALTITUDE,
{
    DEFAULT_ALTITUDE
}

/// Default image format: JPEG.
pub fn default_image_format() -> (format: ImageFormat)
    ensures
        format == ImageFormat::Jpeg,
{
    ImageFormat::default()
}

/// Default position source: automatic, cached.
pub fn default_position_source() -> (source: PositionSource)
    ensures
        source == (PositionSource::Automatic {
            update_on_each_calculation: false,
            cache_minutes: DEFAULT_POSITION_CACHE_MINUTES,
        }),
{
    PositionSource::default()
}

/// Default of automatic color scheme switching: on.
pub fn default_auto_detect_color_scheme() -> (enabled: bool)
    ensures
        enabled == DEFAULT_AUTO_DETECT_COLOR_SCHEME,
{
    DEFAULT_AUTO_DETECT_COLOR_SCHEME
}

/// Default of the lock screen wallpaper: on.
pub fn default_lock_screen_wallpaper_enabled() -> (enabled: bool)
    ensures
        enabled == DEFAULT_LOCK_SCREEN_WALLPAPER_ENABLED,
{
    DEFAULT_LOCK_SCREEN_WALLPAPER_ENABLED
}

/// Default update interval, in seconds.
pub fn default_interval() -> (seconds: u16)
    ensures
        seconds == DEFAULT_INTERVAL_SECONDS,
{
    DEFAULT_INTERVAL_SECONDS
}

// ── Monitor-specific wallpapers ─────────────────────────────────────────────
/// The themes to show: one for all monitors, or one per monitor id.
#[derive(Debug)]
pub enum MonitorSpecificWallpapers {
    All(String),
    /// `(monitor id, theme id)` pairs.
    Specific(Vec<(String, String)>),
}

/// Abstract value of a wallpaper assignment.
pub enum WallpapersView {
    All(Seq<char>),
    Specific(Seq<(Seq<char>, Seq<char>)>),
}

/// The views of a sequence of `(monitor, theme)` pairs.
pub open spec fn pair_views(pairs: Seq<(String, String)>) -> Seq<(Seq<char>, Seq<char>)> {
    pairs.map_values(|p: (String, String)| (p.0@, p.1@))
}

/// The theme of the first pair whose monitor is `monitor`.
pub open spec fn lookup_theme(pairs: Seq<(Seq<char>, Seq<char>)>, monitor: Seq<char>) -> Option<
    Seq<char>,
>
    decreases pairs.len(),
{
    if pairs.len() == 0 {
        None
    } else if pairs[0].0 == monitor {
        Some(pairs[0].1)
    } else {
        lookup_theme(pairs.drop_first(), monitor)
    }
}

/// The theme assigned to a monitor.
pub open spec fn theme_for(w: WallpapersView, monitor: Seq<char>) -> Option<Seq<char>> {
    match w {
        WallpapersView::All(theme) => Some(theme),
        WallpapersView::Specific(pairs) => lookup_theme(pairs, monitor),
    }
}

impl View for MonitorSpecificWallpapers {
    type V = WallpapersView;

    open spec fn view(&self) -> WallpapersView {
        match self {
            MonitorSpecificWallpapers::All(theme) => WallpapersView::All(theme@),
            MonitorSpecificWallpapers::Specific(pairs) => WallpapersView::Specific(
                pair_views(pairs@),
            ),
        }
    }
}

impl MonitorSpecificWallpapers {
    /// Whether one theme applies to all monitors.
    pub fn is_all(&self) -> (all: bool)
        ensures
            all == (self@ is All),
    {
        match self {
            MonitorSpecificWallpapers::All(_) => true,
            MonitorSpecificWallpapers::Specific(_) => false,
        }
    }

    /// Whether no monitor has a theme.
    pub fn is_empty(&self) -> (empty: bool)
        ensures
            empty == (self@ matches WallpapersView::Specific(pairs) && pairs.len() == 0),
    {
        match self {
            MonitorSpecificWallpapers::All(_) => false,
            MonitorSpecificWallpapers::Specific(pairs) => pairs.len() == 0,
        }
    }

    /// The theme of a monitor.
    pub fn get(&self, monitor_id: &String) -> (theme: Option<&String>)
        ensures
            theme matches Some(t) ==> theme_for(self@, monitor_id@) == Some(t@),
            theme is None ==> theme_for(self@, monitor_id@) is None,
    {
        match self {
            MonitorSpecificWallpapers::All(theme_id) => Some(theme_id),
            MonitorSpecificWallpapers::Specific(pairs) => {
                let mut i: usize = 0;
                assert(self@ == WallpapersView::Specific(pair_views(pairs@)));
                assert(pair_views(pairs@).skip(0) =~= pair_views(pairs@));
                while i < pairs.len()
                    invariant
                        i <= pairs@.len(),
                        self@ == WallpapersView::Specific(pair_views(pairs@)),
                        lookup_theme(pair_views(pairs@), monitor_id@) == lookup_theme(
                            pair_views(pairs@).skip(i as int),
                            monitor_id@,
                        ),
                    decreases pairs@.len() - i,
                {
                    let pair = &pairs[i];
                    let ghost rest = pair_views(pairs@).skip(i as int);
                    assert(pair_views(pairs@)[i as int] == (pair.0@, pair.1@));
                    assert(rest[0] == (pair.0@, pair.1@));
                    assert(rest.drop_first() =~= pair_views(pairs@).skip(i as int + 1));
                    if pair.0 == *monitor_id {
                        assert(rest.len() > 0);
                        assert(lookup_theme(rest, monitor_id@) == Some(pair.1@));
                        return Some(&pair.1);
                    }
                    i = i + 1;
                }
                assert(pair_views(pairs@).skip(i as int) =~= Seq::<(Seq<char>, Seq<char>)>::empty());
                None
            },
        }
    }

    /// A theme to use where one theme is needed (such as the lock screen): the
    /// common theme, or the theme of the first monitor entry.
    pub fn first_theme(&self) -> (theme: Option<String>)
        ensures
            self@ matches WallpapersView::All(t) ==> (theme matches Some(s) && s@ == t),
            self@ matches WallpapersView::Specific(pairs) ==> (pairs.len() == 0 <==> theme is None)
                && (pairs.len() > 0 ==> (theme matches Some(s) && s@ == pairs[0].1)),
    {
        match self {
            MonitorSpecificWallpapers::All(theme_id) => Some(theme_id.clone()),
            MonitorSpecificWallpapers::Specific(pairs) => {
                if pairs.len() == 0 {
                    None
                } else {
                    Some(pairs[0].1.clone())
                }
            },
        }
    }

    /// The per-monitor assignment of `pairs` entered one after the other, as into a
    /// map: each monitor is named once, with the theme of the last pair naming it, in
    /// the order the monitors first appear.
    pub fn from_pairs(pairs: Vec<(String, String)>) -> (w: MonitorSpecificWallpapers)
        ensures
            w@ is Specific,
            wallpapers_well_formed(w@),
            forall|m: Seq<char>| #[trigger] theme_for(w@, m) == last_assignment(
                pair_views(pairs@),
                m,
            ),
    {
        let mut out: Vec<(String, String)> = Vec::new();
        let mut i: usize = 0;
        proof {
            assert(pair_views(out@) =~= Seq::<(Seq<char>, Seq<char>)>::empty());
            assert forall|m: Seq<char>| #[trigger] lookup_theme(pair_views(out@), m) == last_assignment(
                pair_views(pairs@).take(0),
                m,
            ) by {
                assert(pair_views(pairs@).take(0) =~= Seq::<(Seq<char>, Seq<char>)>::empty());
            }
        }
        while i < pairs.len()
            invariant
                i <= pairs@.len(),
                distinct_monitors(pair_views(out@)),
                forall|m: Seq<char>| #[trigger] lookup_theme(pair_views(out@), m)
                    == last_assignment(pair_views(pairs@).take(i as int), m),
            decreases pairs@.len() - i,
        {
            let monitor = pairs[i].0.clone();
            let theme = pairs[i].1.clone();
            let ghost before = pair_views(out@);
            let ghost taken = pair_views(pairs@).take(i as int + 1);
            proof {
                assert(taken.drop_last() =~= pair_views(pairs@).take(i as int));
                assert(taken.last() == (monitor@, theme@));
            }
            let mut k: usize = 0;
            while k < out.len()
                invariant
                    k <= out@.len(),
                    before == pair_views(out@),
                    forall|j: int| 0 <= j < k ==> #[trigger] before[j].0 != monitor@,
                ensures
                    k <= out@.len(),
                    before == pair_views(out@),
                    forall|j: int| 0 <= j < k ==> #[trigger] before[j].0 != monitor@,
                    k < out@.len() ==> before[k as int].0 == monitor@,
                decreases out@.len() - k,
            {
                assert(before[k as int] == (out@[k as int].0@, out@[k as int].1@));
                if out[k].0 == monitor {
                    break;
                }
                k = k + 1;
            }
            if k < out.len() {
                assert(before[k as int] == (out@[k as int].0@, out@[k as int].1@));
                let entry = (monitor, theme);
                out.set(k, entry);
                proof {
                    assert(pair_views(out@) =~= before.update(k as int, (before[k as int].0, theme@)));
                    assert forall|m: Seq<char>| #[trigger] lookup_theme(pair_views(out@), m)
                        == last_assignment(taken, m) by {
                        lemma_lookup_after_update(before, k as int, theme@, m);
                    }
                    assert forall|a: int, b: int| 0 <= a < b < pair_views(out@).len() implies #[trigger] pair_views(out@)[a].0
                        != #[trigger] pair_views(out@)[b].0 by {
                        assert(before[a].0 != before[b].0);
                    }
                }
            } else {
                let entry = (monitor, theme);
                out.push(entry);
                proof {
                    assert(pair_views(out@) =~= before.push((monitor@, theme@)));
                    assert forall|m: Seq<char>| #[trigger] lookup_theme(pair_views(out@), m)
                        == last_assignment(taken, m) by {
                        lemma_lookup_after_push(before, (monitor@, theme@), m);
                        if m == monitor@ {
                            if lookup_theme(before, m) is Some {
                                let j = lemma_lookup_some_position(before, m);
                            }
                        }
                    }
                    assert forall|a: int, b: int| 0 <= a < b < pair_views(out@).len() implies #[trigger] pair_views(out@)[a].0
                        != #[trigger] pair_views(out@)[b].0 by {
                        if b == before.len() {
                            assert(before[a].0 != monitor@);
                        } else {
                            assert(before[a].0 != before[b].0);
                        }
                    }
                }
            }
            i = i + 1;
        }
        proof {
            assert(pair_views(pairs@).take(pairs@.len() as int) =~= pair_views(pairs@));
        }
        MonitorSpecificWallpapers::Specific(out)
    }

    /// A copy of the assignment.
    pub fn duplicate(&self) -> (copy: MonitorSpecificWallpapers)
        ensures
            copy@ == self@,
    {
        match self {
            MonitorSpecificWallpapers::All(theme) => MonitorSpecificWallpapers::All(theme.clone()),
            MonitorSpecificWallpapers::Specific(pairs) => {
                let mut out: Vec<(String, String)> = Vec::new();
                let mut i: usize = 0;
                while i < pairs.len()
                    invariant
                        i <= pairs@.len(),
                        pair_views(out@) == pair_views(pairs@).take(i as int),
                    decreases pairs@.len() - i,
                {
                    let pair = &pairs[i];
                    let ghost before = out@;
                    let item = (pair.0.clone(), pair.1.clone());
                    out.push(item);
                    assert(out@ == before.push(item));
                    assert(pair_views(out@) =~= pair_views(before).push((item.0@, item.1@)));
                    assert(pair_views(out@) =~= pair_views(pairs@).take(i as int + 1));
                    i = i + 1;
                }
                assert(pair_views(pairs@).take(pairs@.len() as int) =~= pair_views(pairs@));
                MonitorSpecificWallpapers::Specific(out)
            },
        }
    }
}

/// Whether no monitor id occurs twice among the pairs: the pairs then form a map from
/// monitor ids to themes.
pub open spec fn distinct_monitors(pairs: Seq<(Seq<char>, Seq<char>)>) -> bool {
    forall|a: int, b: int| 0 <= a < b < pairs.len() ==> #[trigger] pairs[a].0 != #[trigger] pairs[b].0
}

/// Whether an assignment is well formed: per-monitor pairs name each monitor once.
pub open spec fn wallpapers_well_formed(w: WallpapersView) -> bool {
    match w {
        WallpapersView::All(_) => true,
        WallpapersView::Specific(pairs) => distinct_monitors(pairs),
    }
}

/// The theme the last pair naming `monitor` gives it, as when the pairs are entered
/// into a map one after the other.
pub open spec fn last_assignment(pairs: Seq<(Seq<char>, Seq<char>)>, monitor: Seq<char>) -> Option<
    Seq<char>,
>
    decreases pairs.len(),
{
    if pairs.len() == 0 {
        None
    } else if pairs.last().0 == monitor {
        Some(pairs.last().1)
    } else {
        last_assignment(pairs.drop_last(), monitor)
    }
}

/// On pairs that name each monitor once, the theme looked up for a monitor is the one
/// of the pair naming it: the first-match lookup is the map's lookup.
pub proof fn lemma_lookup_in_distinct_pairs(
    pairs: Seq<(Seq<char>, Seq<char>)>,
    k: int,
)
    requires
        distinct_monitors(pairs),
        0 <= k < pairs.len(),
    ensures
        lookup_theme(pairs, pairs[k].0) == Some(pairs[k].1),
    decreases pairs.len(),
{
    if k > 0 {
        assert(pairs[0].0 != pairs[k].0);
        let rest = pairs.drop_first();
        assert(rest[k - 1] == pairs[k]);
        assert forall|a: int, b: int| 0 <= a < b < rest.len() implies #[trigger] rest[a].0
            != #[trigger] rest[b].0 by {
            assert(rest[a] == pairs[a + 1]);
            assert(rest[b] == pairs[b + 1]);
        }
        lemma_lookup_in_distinct_pairs(rest, k - 1);
    }
}

/// A monitor with a theme is named by some pair.
proof fn lemma_lookup_some_position(pairs: Seq<(Seq<char>, Seq<char>)>, monitor: Seq<char>) -> (k: int)
    requires
        lookup_theme(pairs, monitor) is Some,
    ensures
        0 <= k < pairs.len(),
        pairs[k].0 == monitor,
    decreases pairs.len(),
{
    if pairs[0].0 == monitor {
        0
    } else {
        let j = lemma_lookup_some_position(pairs.drop_first(), monitor);
        assert(pairs.drop_first()[j] == pairs[j + 1]);
        j + 1
    }
}

/// Adding a pair changes the lookup only of a monitor that no earlier pair names.
proof fn lemma_lookup_after_push(
    pairs: Seq<(Seq<char>, Seq<char>)>,
    pair: (Seq<char>, Seq<char>),
    monitor: Seq<char>,
)
    ensures
        lookup_theme(pairs.push(pair), monitor) == match lookup_theme(pairs, monitor) {
            Some(t) => Some(t),
            None => if pair.0 == monitor {
                Some(pair.1)
            } else {
                None
            },
        },
    decreases pairs.len(),
{
    if pairs.len() > 0 {
        assert(pairs.push(pair).drop_first() =~= pairs.drop_first().push(pair));
        assert(pairs.push(pair)[0] == pairs[0]);
        lemma_lookup_after_push(pairs.drop_first(), pair, monitor);
    } else {
        let empty = Seq::<(Seq<char>, Seq<char>)>::empty();
        assert(pairs.push(pair).drop_first() =~= empty);
        assert(lookup_theme(empty, monitor) is None);
    }
}

/// Replacing the theme of the first pair naming a monitor changes the lookup of that
/// monitor only.
proof fn lemma_lookup_after_update(
    pairs: Seq<(Seq<char>, Seq<char>)>,
    k: int,
    theme: Seq<char>,
    monitor: Seq<char>,
)
    requires
        0 <= k < pairs.len(),
        forall|j: int| 0 <= j < k ==> #[trigger] pairs[j].0 != pairs[k].0,
    ensures
        lookup_theme(pairs.update(k, (pairs[k].0, theme)), monitor) == if monitor == pairs[k].0 {
            Some(theme)
        } else {
            lookup_theme(pairs, monitor)
        },
    decreases pairs.len(),
{
    let updated = pairs.update(k, (pairs[k].0, theme));
    if k > 0 {
        assert(pairs[0].0 != pairs[k].0);
        assert(updated[0] == pairs[0]);
        let rest = pairs.drop_first();
        assert(updated.drop_first() =~= rest.update(k - 1, (rest[k - 1].0, theme)));
        assert forall|j: int| 0 <= j < k - 1 implies #[trigger] rest[j].0 != rest[k - 1].0 by {
            assert(rest[j] == pairs[j + 1]);
        }
        lemma_lookup_after_update(rest, k - 1, theme, monitor);
    } else {
        assert(updated.drop_first() =~= pairs.drop_first());
    }
}

/// Default wallpaper assignment: no monitor has a theme.
pub fn default_monitor_specific_wallpapers() -> (w: MonitorSpecificWallpapers)
    ensures
        w@ == WallpapersView::Specific(Seq::empty()),
{
    let w = MonitorSpecificWallpapers::Specific(Vec::new());
    assert(pair_views(Seq::<(String, String)>::empty()) =~= Seq::empty());
    w
}

// ── Network ─────────────────────────────────────────────────────────────────
/// How theme downloads reach GitHub.
#[derive(Debug)]
pub enum Network {
    GitHubMirrorTemplate(String),
    Socks5 { host: String, port: u16 },
}

/// Abstract value of a network setting.
pub enum NetworkView {
    GitHubMirrorTemplate(Seq<char>),
    Socks5 { host: Seq<char>, port: u16 },
}

impl View for Network {
    type V = NetworkView;

    open spec fn view(&self) -> NetworkView {
        match self {
            Network::GitHubMirrorTemplate(t) => NetworkView::GitHubMirrorTemplate(t@),
            Network::Socks5 { host, port } => NetworkView::Socks5 { host: host@, port: *port },
        }
    }
}

impl Network {
    /// A copy of the setting.
    pub fn duplicate(&self) -> (copy: Network)
        ensures
            copy@ == self@,
    {
        match self {
            Network::GitHubMirrorTemplate(t) => Network::GitHubMirrorTemplate(t.clone()),
            Network::Socks5 { host, port } => Network::Socks5 { host: host.clone(), port: *port },
        }
    }
}

/// Abstract value of an optional network setting.
pub open spec fn network_view(n: Option<Network>) -> Option<NetworkView> {
    match n {
        Some(x) => Some(x@),
        None => None,
    }
}

// ── Config ──────────────────────────────────────────────────────────────────
/// Abstract value of a configuration.
pub struct ConfigView {
    pub network: Option<NetworkView>,
    pub image_format: ImageFormat,
    pub position_source: PositionSource,
    pub auto_detect_color_scheme: bool,
    pub lock_screen_wallpaper_enabled: bool,
    pub themes_directory: Seq<char>,
    pub customized_themes_directory: Seq<char>,
    pub monitor_specific_wallpapers: WallpapersView,
    pub interval: u16,
}

/// The default configuration with the given theme directories.
pub open spec fn default_config_view(themes_directory: Seq<char>, customized_themes_directory: Seq<
    char,
>) -> ConfigView {
    ConfigView {
        network: None,
        image_format: ImageFormat::Jpeg,
        position_source: PositionSource::Automatic {
            update_on_each_calculation: false,
            cache_minutes: DEFAULT_POSITION_CACHE_MINUTES,
        },
        auto_detect_color_scheme: DEFAULT_AUTO_DETECT_COLOR_SCHEME,
        lock_screen_wallpaper_enabled: DEFAULT_LOCK_SCREEN_WALLPAPER_ENABLED,
        themes_directory,
        customized_themes_directory,
        monitor_specific_wallpapers: WallpapersView::Specific(Seq::empty()),
        interval: DEFAULT_INTERVAL_SECONDS,
    }
}

/// The daemon configuration.
#[derive(Debug)]
pub struct Config {
    network: Option<Network>,
    image_format: ImageFormat,
    position_source: PositionSource,
    auto_detect_color_scheme: bool,
    lock_screen_wallpaper_enabled: bool,
    themes_directory: String,
    customized_themes_directory: String,
    monitor_specific_wallpapers: MonitorSpecificWallpapers,
    interval: u16,
}

impl View for Config {
    type V = ConfigView;

    closed spec fn view(&self) -> ConfigView {
        ConfigView {
            network: network_view(self.network),
            image_format: self.image_format,
            position_source: self.position_source,
            auto_detect_color_scheme: self.auto_detect_color_scheme,
            lock_screen_wallpaper_enabled: self.lock_screen_wallpaper_enabled,
            themes_directory: self.themes_directory@,
            customized_themes_directory: self.customized_themes_directory@,
            monitor_specific_wallpapers: self.monitor_specific_wallpapers@,
            interval: self.interval,
        }
    }
}

/// Whether a configuration passes validation.
pub open spec fn config_valid(c: ConfigView) -> bool {
    interval_in_range(c.interval as int) && position_source_valid(c.position_source)
}

/// The reason validation gives for rejecting a configuration: the interval is checked
/// first, then the coordinates; `None` when it is valid.
pub open spec fn validation_reason(c: ConfigView) -> Option<Seq<char>> {
    if !interval_in_range(c.interval as int) {
        Some("Interval is out of range"@)
    } else if !position_source_valid(c.position_source) {
        Some("Latitude or longitude is invalid"@)
    } else {
        None
    }
}

/// Whether `result` is what validating `c` gives: `Ok` for a valid configuration, else
/// a validation error with the reason.
pub open spec fn validation_outcome(c: ConfigView, result: Result<(), ConfigError>) -> bool {
    match validation_reason(c) {
        None => result is Ok,
        Some(r) => result matches Err(ConfigError::Validation { reason }) && reason@ == r,
    }
}

fn copy_network(n: &Option<Network>) -> (copy: Option<Network>)
    ensures
        network_view(copy) == network_view(*n),
{
    match n {
        Some(x) => Some(x.duplicate()),
        None => None,
    }
}

impl Config {
    /// A configuration from all of its values.
    pub fn new(
        network: Option<Network>,
        image_format: ImageFormat,
        position_source: PositionSource,
        auto_detect_color_scheme: bool,
        lock_screen_wallpaper_enabled: bool,
        themes_directory: String,
        customized_themes_directory: String,
        monitor_specific_wallpapers: MonitorSpecificWallpapers,
        interval: u16,
    ) -> (config: Config)
        ensures
            config@ == (ConfigView {
                network: network_view(network),
                image_format,
                position_source,
                auto_detect_color_scheme,
                lock_screen_wallpaper_enabled,
                themes_directory: themes_directory@,
                customized_themes_directory: customized_themes_directory@,
                monitor_specific_wallpapers: monitor_specific_wallpapers@,
                interval,
            }),
    {
        Config {
            network,
            image_format,
            position_source,
            auto_detect_color_scheme,
            lock_screen_wallpaper_enabled,
            themes_directory,
            customized_themes_directory,
            monitor_specific_wallpapers,
            interval,
        }
    }

    /// The default configuration, with the given theme directories: JPEG images,
    /// an automatic position, automatic color scheme, lock screen wallpaper,
    /// no monitor assignments and a 15 second interval.
    pub fn default_with_directories(
        themes_directory: String,
        customized_themes_directory: String,
    ) -> (config: Config)
        ensures
            config@.network is None,
            config@.image_format == ImageFormat::Jpeg,
            config@.position_source == (PositionSource::Automatic {
                update_on_each_calculation: false,
                cache_minutes: DEFAULT_POSITION_CACHE_MINUTES,
            }),
            config@.auto_detect_color_scheme == DEFAULT_AUTO_DETECT_COLOR_SCHEME,
            config@.lock_screen_wallpaper_enabled == DEFAULT_LOCK_SCREEN_WALLPAPER_ENABLED,
            config@.themes_directory == themes_directory@,
            config@.customized_themes_directory == customized_themes_directory@,
            config@.monitor_specific_wallpapers matches WallpapersView::Specific(pairs) && pairs.len()
                == 0,
            config@.interval == DEFAULT_INTERVAL_SECONDS,
            config@ == default_config_view(themes_directory@, customized_themes_directory@),
    {
        let wallpapers = default_monitor_specific_wallpapers();
        let config = Config {
            network: None,
            image_format: ImageFormat::default(),
            position_source: PositionSource::default(),
            auto_detect_color_scheme: DEFAULT_AUTO_DETECT_COLOR_SCHEME,
            lock_screen_wallpaper_enabled: DEFAULT_LOCK_SCREEN_WALLPAPER_ENABLED,
            themes_directory,
            customized_themes_directory,
            monitor_specific_wallpapers: wallpapers,
            interval: DEFAULT_INTERVAL_SECONDS,
        };
        config
    }

    /// Validates the interval range and the position source.
    pub fn validate(&self) -> (result: Result<(), ConfigError>)
        ensures
            !interval_in_range(self@.interval as int) ==> (result matches Err(
                ConfigError::Validation { reason },
            ) && reason@ == "Interval is out of range"@),
            interval_in_range(self@.interval as int) && !position_source_valid(
                self@.position_source,
            ) ==> (result matches Err(ConfigError::Validation { reason }) && reason@
                == "Latitude or longitude is invalid"@),
            config_valid(self@) <==> result is Ok,
            validation_outcome(self@, result),
    {
        if self.interval < MIN_INTERVAL_SECONDS || self.interval > MAX_INTERVAL_SECONDS {
            return Err(
                ConfigError::Validation { reason: String::from_str("Interval is out of range") },
            );
        }
        if !self.position_source.validate() {
            return Err(
                ConfigError::Validation {
                    reason: String::from_str("Latitude or longitude is invalid"),
                },
            );
        }
        Ok(())
    }

    /// Directory of the bundled themes.
    pub fn themes_directory(&self) -> (dir: &String)
        ensures
            dir@ == self@.themes_directory,
    {
        &self.themes_directory
    }

    /// Directory of the customized themes.
    pub fn customized_themes_directory(&self) -> (dir: &String)
        ensures
            dir@ == self@.customized_themes_directory,
    {
        &self.customized_themes_directory
    }

    /// Network setting.
    pub fn network(&self) -> (network: Option<&Network>)
        ensures
            network matches Some(n) ==> self@.network == Some(n@),
            network is None ==> self@.network is None,
    {
        match &self.network {
            Some(n) => Some(n),
            None => None,
        }
    }

    /// A copy of this configuration with another themes directory.
    pub fn with_themes_directory(&self, themes_directory: &String) -> (config: Config)
        ensures
            config@ == (ConfigView { themes_directory: themes_directory@, ..self@ }),
    {
        Config {
            network: copy_network(&self.network),
            image_format: self.image_format,
            position_source: self.position_source,
            auto_detect_color_scheme: self.auto_detect_color_scheme,
            lock_screen_wallpaper_enabled: self.lock_screen_wallpaper_enabled,
            themes_directory: themes_directory.clone(),
            customized_themes_directory: self.customized_themes_directory.clone(),
            monitor_specific_wallpapers: self.monitor_specific_wallpapers.duplicate(),
            interval: self.interval,
        }
    }

    /// Update interval in seconds.
    pub fn interval(&self) -> (seconds: u16)
        ensures
            seconds == self@.interval,
    {
        self.interval
    }

    /// Image format.
    pub fn image_format(&self) -> (format: &ImageFormat)
        ensures
            *format == self@.image_format,
    {
        &self.image_format
    }

    /// Whether the color scheme follows the sun.
    pub fn auto_detect_color_scheme(&self) -> (enabled: bool)
        ensures
            enabled == self@.auto_detect_color_scheme,
    {
        self.auto_detect_color_scheme
    }

    /// Whether the lock screen wallpaper is set.
    pub fn lock_screen_wallpaper_enabled(&self) -> (enabled: bool)
        ensures
            enabled == self@.lock_screen_wallpaper_enabled,
    {
        self.lock_screen_wallpaper_enabled
    }

    /// Position source.
    pub fn position_source(&self) -> (source: &PositionSource)
        ensures
            *source == self@.position_source,
    {
        &self.position_source
    }

    /// Monitor-specific wallpapers.
    pub fn monitor_specific_wallpapers(&self) -> (w: &MonitorSpecificWallpapers)
        ensures
            w@ == self@.monitor_specific_wallpapers,
    {
        &self.monitor_specific_wallpapers
    }
}

/// A configuration as read from a file, which may still carry the
/// `github_mirror_template` setting that `network` replaced.
#[derive(Debug)]
pub struct RawConfig {
    pub github_mirror_template: Option<String>,
    pub network: Option<Network>,
    pub image_format: ImageFormat,
    pub position_source: PositionSource,
    pub auto_detect_color_scheme: bool,
    pub lock_screen_wallpaper_enabled: bool,
    pub themes_directory: String,
    pub customized_themes_directory: String,
    pub monitor_specific_wallpapers: MonitorSpecificWallpapers,
    pub interval: u16,
}

/// The network setting after migration: `network` if present, else the legacy
/// mirror template.
pub open spec fn migrated_network(raw: RawConfig) -> Option<NetworkView> {
    match raw.network {
        Some(n) => Some(n@),
        None => match raw.github_mirror_template {
            Some(t) => Some(NetworkView::GitHubMirrorTemplate(t@)),
            None => None,
        },
    }
}

/// The configuration a file configuration stands for.
pub open spec fn raw_config_view(raw: RawConfig) -> ConfigView {
    ConfigView {
        network: migrated_network(raw),
        image_format: raw.image_format,
        position_source: raw.position_source,
        auto_detect_color_scheme: raw.auto_detect_color_scheme,
        lock_screen_wallpaper_enabled: raw.lock_screen_wallpaper_enabled,
        themes_directory: raw.themes_directory@,
        customized_themes_directory: raw.customized_themes_directory@,
        monitor_specific_wallpapers: raw.monitor_specific_wallpapers@,
        interval: raw.interval,
    }
}

impl Config {
    /// Converts a file configuration, migrating `github_mirror_template` into
    /// `network` when `network` is absent.
    pub fn from_raw(raw: RawConfig) -> (config: Config)
        ensures
            config@ == raw_config_view(raw),
    {
        let network = match raw.network {
            Some(n) => Some(n),
            None => match raw.github_mirror_template {
                Some(t) => Some(Network::GitHubMirrorTemplate(t)),
                None => None,
            },
        };
        Config {
            network,
            image_format: raw.image_format,
            position_source: raw.position_source,
            auto_detect_color_scheme: raw.auto_detect_color_scheme,
            lock_screen_wallpaper_enabled: raw.lock_screen_wallpaper_enabled,
            themes_directory: raw.themes_directory,
            customized_themes_directory: raw.customized_themes_directory,
            monitor_specific_wallpapers: raw.monitor_specific_wallpapers,
            interval: raw.interval,
        }
    }
}

/// Reads the configuration.
#[derive(Debug, Clone, Copy)]
pub struct ConfigReader;

impl ConfigReader {
    /// The configuration from the file's parsed contents: the default (with the given
    /// theme directories) when there is no file, else the file's configuration, migrated
    /// and validated.
    pub fn from_file_contents(
        raw: Option<RawConfig>,
        themes_directory: String,
        customized_themes_directory: String,
    ) -> (result: Result<Config, ConfigError>)
        ensures
            raw is None ==> (result matches Ok(c) && c@ == default_config_view(
                themes_directory@,
                customized_themes_directory@,
            )),
            raw matches Some(r) ==> (result is Ok <==> config_valid(raw_config_view(r))),
            raw matches Some(r) ==> (result matches Ok(c) ==> c@ == raw_config_view(r)),
            raw matches Some(r) ==> validation_outcome(
                raw_config_view(r),
                match result {
                    Ok(_) => Ok(()),
                    Err(e) => Err(e),
                },
            ),
    {
        match raw {
            None => Ok(Config::default_with_directories(themes_directory, customized_themes_directory)),
            Some(raw) => {
                let config = Config::from_raw(raw);
                match config.validate() {
                    Ok(()) => Ok(config),
                    Err(e) => Err(e),
                }
            },
        }
    }
}

/// Writes the configuration.
#[derive(Debug, Clone, Copy)]
pub struct ConfigWriter;

impl ConfigWriter {
    /// Only a valid configuration is written: the check made before serializing.
    pub fn check_before_write(&self, config: &Config) -> (result: Result<(), ConfigError>)
        ensures
            result is Ok <==> config_valid(config@),
            validation_outcome(config@, result),
    {
        config.validate()
    }
}

// ── Change detection ────────────────────────────────────────────────────────
/// A file modification time: seconds and nanoseconds since the Unix epoch.
#[derive(Debug, Clone, Copy, PartialEq, Eq, Structural)]
pub struct ModifiedTime {
    pub seconds: u64,
    pub nanos: u32,
}

/// Whether a file changed between two observations of its modification time
/// (`None`: the file did not exist).
pub open spec fn file_changed(last: Option<ModifiedTime>, current: Option<ModifiedTime>) -> bool {
    match (last, current) {
        (None, None) => false,
        (Some(a), Some(b)) => a != b,
        _ => true,
    }
}

/// Watches the configuration file for changes.
#[derive(Debug)]
pub struct ConfigWatcher {
    config_path: String,
    last_modified: Option<ModifiedTime>,
}

impl ConfigWatcher {
    /// Watched path.
    pub closed spec fn path(&self) -> Seq<char> {
        self.config_path@
    }

    /// Last observed modification time.
    pub closed spec fn last(&self) -> Option<ModifiedTime> {
        self.last_modified
    }

    /// A watcher for `config_path` that has not observed the file yet.
    pub fn new(config_path: String) -> (watcher: ConfigWatcher)
        ensures
            watcher.path() == config_path@,
            watcher.last() is None,
    {
        ConfigWatcher { config_path, last_modified: None }
    }

    /// The watched path.
    pub fn config_path(&self) -> (path: &String)
        ensures
            path@ == self.path(),
    {
        &self.config_path
    }

    /// Whether the file changed, given its current modification time: it
    /// appeared, disappeared, or its modification time differs.
    pub fn has_changed(&self, current_modified: Option<ModifiedTime>) -> (changed: bool)
        ensures
            changed == file_changed(self.last(), current_modified),
    {
        match (self.last_modified, current_modified) {
            (None, None) => false,
            (Some(last), Some(current)) => last != current,
            _ => true,
        }
    }

    /// Records the current modification time.
    pub fn update_modified_time(&mut self, current_modified: Option<ModifiedTime>)
        ensures
            final(self).last() == current_modified,
            final(self).path() == old(self).path(),
    {
        self.last_modified = current_modified;
    }
}

/// Once the watcher has recorded the current modification time, the file
/// counts as unchanged until that time changes.
pub proof fn lemma_no_change_after_update(current: Option<ModifiedTime>)
    ensures
        !file_changed(current, current),
{
}

} // verus!
