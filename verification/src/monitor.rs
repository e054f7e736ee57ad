//! Display monitors: their description, the cached list, and the detection of changes.

use vstd::prelude::*;

use crate::date::{decimal, push_decimal};
use crate::error::DwallError;
use crate::logging::{ascii_lower, eq_ignore_ascii_case};
use crate::wide_string::{lemma_unit_cast, wide_text, WideStringRead};

verus! {

/// How long a fetched monitor list stays valid, in seconds.
pub const CACHE_EXPIRY_SECONDS: u64 = 300;

/// A display monitor.
#[derive(Debug)]
pub struct DisplayMonitor {
    device_path: String,
    friendly_name: String,
    position_index: Option<u32>,
}

/// Abstract value of a monitor.
pub struct MonitorView {
    pub device_path: Seq<char>,
    pub friendly_name: Seq<char>,
    pub position_index: Option<u32>,
}

impl View for DisplayMonitor {
    type V = MonitorView;

    closed spec fn view(&self) -> MonitorView {
        MonitorView {
            device_path: self.device_path@,
            friendly_name: self.friendly_name@,
            position_index: self.position_index,
        }
    }
}

impl DisplayMonitor {
    fn new(device_path: String, friendly_name: String, position_index: Option<u32>) -> (m:
        DisplayMonitor)
        ensures
            m@ == (MonitorView {
                device_path: device_path@,
                friendly_name: friendly_name@,
                position_index,
            }),
    {
        DisplayMonitor { device_path, friendly_name, position_index }
    }

    /// A monitor built from its parts, for tests and other backends.
    pub fn new_test(device_path: String, friendly_name: String, position_index: Option<u32>) -> (m:
        DisplayMonitor)
        ensures
            m@ == (MonitorView {
                device_path: device_path@,
                friendly_name: friendly_name@,
                position_index,
            }),
    {
        Self::new(device_path, friendly_name, position_index)
    }

    /// The device interface path, which identifies the monitor.
    pub fn device_path(&self) -> (path: &str)
        ensures
            path@ == self@.device_path,
    {
        self.device_path.as_str()
    }

    /// The name shown to users.
    pub fn friendly_name(&self) -> (name: &str)
        ensures
            name@ == self@.friendly_name,
    {
        self.friendly_name.as_str()
    }

    /// The position of the monitor among the active display paths.
    pub fn position_index(&self) -> (index: Option<u32>)
        ensures
            index == self@.position_index,
    {
        self.position_index
    }

    /// A copy of the monitor.
    pub fn duplicate(&self) -> (copy: DisplayMonitor)
        ensures
            copy@ == self@,
    {
        DisplayMonitor {
            device_path: self.device_path.clone(),
            friendly_name: self.friendly_name.clone(),
            position_index: self.position_index,
        }
    }
}

/// Failures of the display backend, with the system's error codes.
#[derive(Debug, Clone, Copy, PartialEq, Eq, Structural)]
pub enum DisplayError {
    /// The monitor device collection could not be had.
    GetDeviceInfoSet(Option<i32>),
    /// The information of a monitor device could not be had.
    GetDeviceInfo(i32),
    /// The name of a display target could not be had.
    GetTargetName(i32),
    /// No device has the path that was looked for.
    MatchDevice,
    /// The friendly name of a device could not be had.
    GetFriendlyName(i32),
    /// The display configuration buffer sizes could not be had.
    GetBufferSizes(u32),
    /// The display configuration could not be queried.
    QueryDisplayConfig(u32),
    /// A device registry property could not be read.
    GetDeviceRegistryProperty(i32),
}

/// Source of the monitors attached to the system.
pub trait MonitorProvider {
    /// The monitors currently available, one per device path.
    fn get_monitors(&self) -> Result<Vec<DisplayMonitor>, DwallError>;

    /// The monitors, queried afresh from the system.
    fn refresh_monitors(&self) -> Result<Vec<DisplayMonitor>, DwallError>;

    /// Whether monitors were added, removed or changed since the last query.
    fn has_configuration_changed(&self) -> Result<bool, DwallError>;
}

/// The device paths of a list of monitors.
pub open spec fn paths_of(monitors: Seq<DisplayMonitor>) -> Seq<Seq<char>> {
    monitors.map_values(|m: DisplayMonitor| m@.device_path)
}

/// No two monitors of the list share a device path.
pub open spec fn unique_paths(monitors: Seq<DisplayMonitor>) -> bool {
    forall|i: int, j: int|
        0 <= i < j < monitors.len() ==> #[trigger] monitors[i]@.device_path
            != #[trigger] monitors[j]@.device_path
}

/// Whether `current` differs from `cached`: another count, or a path that `cached` lacks.
pub open spec fn configuration_changed(
    current: Seq<DisplayMonitor>,
    cached: Seq<DisplayMonitor>,
) -> bool {
    current.len() != cached.len() || exists|i: int|
        0 <= i < current.len() && !paths_of(cached).contains(#[trigger] current[i]@.device_path)
}

/// Seconds from `from` to `now`; zero when `now` is earlier.
pub open spec fn elapsed(from: u64, now: u64) -> int {
    if now >= from {
        now - from
    } else {
        0
    }
}

/// The monitor list last fetched, with the time it was fetched.
pub struct MonitorInfoCache {
    data: Vec<DisplayMonitor>,
    updated_at: u64,
    expiry_seconds: u64,
}

impl MonitorInfoCache {
    /// The monitors held.
    pub closed spec fn monitors(&self) -> Seq<DisplayMonitor> {
        self.data@
    }

    /// When they were fetched, in seconds.
    pub closed spec fn fetched_at(&self) -> u64 {
        self.updated_at
    }

    /// How long they stay valid, in seconds.
    pub closed spec fn expiry(&self) -> u64 {
        self.expiry_seconds
    }

    /// Whether the cached list may be used at time `now`.
    pub open spec fn valid_at(&self, now: u64) -> bool {
        self.monitors().len() > 0 && elapsed(self.fetched_at(), now) <= self.expiry()
    }

    /// An empty cache, fetched at time `now`.
    pub fn new(now: u64) -> (cache: MonitorInfoCache)
        ensures
            cache.monitors().len() == 0,
            cache.fetched_at() == now,
            cache.expiry() == CACHE_EXPIRY_SECONDS,
    {
        MonitorInfoCache { data: Vec::new(), updated_at: now, expiry_seconds: CACHE_EXPIRY_SECONDS }
    }

    /// Whether the list holds monitors and was fetched at most the expiry ago.
    pub fn is_valid(&self, now: u64) -> (valid: bool)
        ensures
            valid == self.valid_at(now),
    {
        let age = if now >= self.updated_at {
            now - self.updated_at
        } else {
            0
        };
        !self.data.is_empty() && age <= self.expiry_seconds
    }

    /// Replaces the list with `monitors`, fetched at time `now`.
    pub fn update(&mut self, monitors: Vec<DisplayMonitor>, now: u64)
        ensures
            final(self).monitors() == monitors@,
            final(self).fetched_at() == now,
            final(self).expiry() == old(self).expiry(),
    {
        self.data = monitors;
        self.updated_at = now;
    }
}

/// Copies of a list of monitors.
pub fn copy_monitors(monitors: &Vec<DisplayMonitor>) -> (copy: Vec<DisplayMonitor>)
    ensures
        copy@.len() == monitors@.len(),
        forall|i: int| 0 <= i < monitors@.len() ==> #[trigger] copy@[i]@ == monitors@[i]@,
{
    let mut copy: Vec<DisplayMonitor> = Vec::new();
    let mut i: usize = 0;
    while i < monitors.len()
        invariant
            i <= monitors@.len(),
            copy@.len() == i,
            forall|j: int| 0 <= j < i ==> #[trigger] copy@[j]@ == monitors@[j]@,
        decreases monitors@.len() - i,
    {
        copy.push(monitors[i].duplicate());
        i += 1;
    }
    copy
}

/// Whether the list's monitors are those of `views`, in order.
pub open spec fn views_of(monitors: Seq<DisplayMonitor>) -> Seq<MonitorView> {
    monitors.map_values(|m: DisplayMonitor| m@)
}

/// The monitor behind the display paths, kept with its cached list.
pub struct DisplayMonitorProvider {
    cache: MonitorInfoCache,
}

impl DisplayMonitorProvider {
    /// The cached list.
    pub closed spec fn cached(&self) -> MonitorInfoCache {
        self.cache
    }

    /// A provider whose cache is empty, so that the first query goes to the system.
    pub fn new() -> (provider: DisplayMonitorProvider)
        ensures
            provider.cached().monitors().len() == 0,
            provider.cached().expiry() == CACHE_EXPIRY_SECONDS,
    {
        DisplayMonitorProvider { cache: MonitorInfoCache::new(0) }
    }

    /// The cached monitors when the cache is valid at time `now`; `None` when the system
    /// has to be queried.
    pub fn cached_monitors(&self, now: u64) -> (monitors: Option<Vec<DisplayMonitor>>)
        ensures
            monitors is Some <==> self.cached().valid_at(now),
            monitors is Some ==> views_of(monitors->0@) == views_of(self.cached().monitors()),
    {
        if self.cache.is_valid(now) {
            let copy = copy_monitors(&self.cache.data);
            proof {
                assert(views_of(copy@) =~= views_of(self.cache.data@));
            }
            Some(copy)
        } else {
            None
        }
    }

    /// Stores the monitors just fetched from the system at time `now`.
    pub fn record_monitors(&mut self, monitors: Vec<DisplayMonitor>, now: u64)
        ensures
            final(self).cached().monitors() == monitors@,
            final(self).cached().fetched_at() == now,
            final(self).cached().expiry() == old(self).cached().expiry(),
    {
        self.cache.update(monitors, now);
    }

    /// Whether the monitors found now differ from the cached ones: another count, or a
    /// device path the cache lacks.
    pub fn has_configuration_changed(&self, current: &Vec<DisplayMonitor>) -> (changed: bool)
        ensures
            changed == configuration_changed(current@, self.cached().monitors()),
    {
        let cached = &self.cache.data;
        if current.len() != cached.len() {
            return true;
        }
        let mut i: usize = 0;
        while i < current.len()
            invariant
                i <= current@.len(),
                cached == &self.cache.data,
                forall|k: int|
                    0 <= k < i ==> paths_of(cached@).contains(#[trigger] current@[k]@.device_path),
            decreases current@.len() - i,
        {
            if !contains_path(cached, &current[i].device_path) {
                proof {
                    assert(!paths_of(cached@).contains(current@[i as int]@.device_path));
                }
                return true;
            }
            i += 1;
        }
        false
    }
}

/// Whether some monitor of the list has device path `path`.
fn contains_path(monitors: &Vec<DisplayMonitor>, path: &String) -> (found: bool)
    ensures
        found == paths_of(monitors@).contains(path@),
{
    let mut i: usize = 0;
    while i < monitors.len()
        invariant
            i <= monitors@.len(),
            forall|k: int| 0 <= k < i ==> #[trigger] monitors@[k]@.device_path != path@,
        decreases monitors@.len() - i,
    {
        if monitors[i].device_path == *path {
            proof {
                assert(paths_of(monitors@)[i as int] == path@);
            }
            return true;
        }
        i += 1;
    }
    proof {
        if paths_of(monitors@).contains(path@) {
            let k = choose|k: int| 0 <= k < paths_of(monitors@).len() && paths_of(monitors@)[k] == path@;
            assert(monitors@[k]@.device_path == path@);
        }
    }
    false
}

/// A display target reported by the system: its device path, and its friendly name when
/// that could be read.
pub struct DisplayTarget {
    pub device_path: String,
    pub friendly_name: Option<String>,
}

/// The name of the monitor at `index` whose friendly name could not be read.
pub open spec fn fallback_name(index: int) -> Seq<char> {
    "Display "@ + decimal((index + 1) as nat)
}

/// The monitor made of the target at `index`.
pub open spec fn target_view(target: DisplayTarget, index: int) -> MonitorView {
    MonitorView {
        device_path: target.device_path@,
        friendly_name: match target.friendly_name {
            Some(name) => name@,
            None => fallback_name(index),
        },
        position_index: Some(index as u32),
    }
}

/// No two monitors share a device path.
pub open spec fn unique_view_paths(views: Seq<MonitorView>) -> bool {
    forall|i: int, j: int|
        0 <= i < j < views.len() ==> #[trigger] views[i].device_path != #[trigger] views[j].device_path
}

/// `views` with `m` in place of the monitor of the same path, or `m` added at the end.
pub open spec fn insert_view(views: Seq<MonitorView>, m: MonitorView) -> Seq<MonitorView> {
    if exists|i: int| 0 <= i < views.len() && #[trigger] views[i].device_path == m.device_path {
        let i = choose|i: int| 0 <= i < views.len() && #[trigger] views[i].device_path == m.device_path;
        views.update(i, m)
    } else {
        views.push(m)
    }
}

/// The monitors made of the targets, in order, one per device path: a later target
/// replaces an earlier one with the same path.
pub open spec fn assembled(targets: Seq<DisplayTarget>) -> Seq<MonitorView>
    decreases targets.len(),
{
    if targets.len() == 0 {
        Seq::empty()
    } else {
        insert_view(
            assembled(targets.drop_last()),
            target_view(targets.last(), targets.len() - 1),
        )
    }
}

/// Puts `m` in place of the monitor with the same device path, or adds it.
fn insert_monitor(monitors: &mut Vec<DisplayMonitor>, m: DisplayMonitor)
    requires
        unique_view_paths(views_of(old(monitors)@)),
    ensures
        views_of(final(monitors)@) == insert_view(views_of(old(monitors)@), m@),
        unique_view_paths(views_of(final(monitors)@)),
{
    let ghost views = views_of(monitors@);
    let mut i: usize = 0;
    while i < monitors.len()
        invariant
            i <= monitors@.len(),
            monitors@ == old(monitors)@,
            views == views_of(monitors@),
            unique_view_paths(views),
            forall|k: int| 0 <= k < i ==> #[trigger] views[k].device_path != m@.device_path,
        decreases monitors@.len() - i,
    {
        if monitors[i].device_path == m.device_path {
            proof {
                assert(views[i as int].device_path == m@.device_path);
                let c = choose|c: int| 0 <= c < views.len() && #[trigger] views[c].device_path == m@.device_path;
                assert(c == i);
            }
            let ghost mv = m@;
            monitors.set(i, m);
            proof {
                assert(views_of(monitors@) =~= views.update(i as int, mv));
                assert forall|a: int, b: int| 0 <= a < b < views_of(monitors@).len() implies
                    #[trigger] views_of(monitors@)[a].device_path
                    != #[trigger] views_of(monitors@)[b].device_path by {
                    assert(views_of(monitors@)[a].device_path == views[a].device_path);
                    assert(views_of(monitors@)[b].device_path == views[b].device_path);
                }
            }
            return;
        }
        i += 1;
    }
    let ghost mv = m@;
    monitors.push(m);
    proof {
        assert(views_of(monitors@) =~= views.push(mv));
    }
}

/// The monitors of the display targets, positioned by their order; a target whose
/// friendly name is unknown gets the name `Display <position + 1>`.
pub fn assemble_monitors(targets: &Vec<DisplayTarget>) -> (monitors: Vec<DisplayMonitor>)
    requires
        targets@.len() < u32::MAX,
    ensures
        views_of(monitors@) == assembled(targets@),
        unique_view_paths(views_of(monitors@)),
{
    let mut monitors: Vec<DisplayMonitor> = Vec::new();
    let n = targets.len();
    let mut index: usize = 0;
    proof {
        assert(targets@.take(0) =~= Seq::<DisplayTarget>::empty());
        assert(views_of(monitors@) =~= Seq::<MonitorView>::empty());
    }
    while index < n
        invariant
            n == targets@.len(),
            n < u32::MAX,
            index <= n,
            views_of(monitors@) == assembled(targets@.take(index as int)),
            unique_view_paths(views_of(monitors@)),
        decreases n - index,
    {
        let target = &targets[index];
        let name = match &target.friendly_name {
            Some(name) => name.clone(),
            None => {
                let mut fallback = String::from_str("Display ");
                push_decimal(&mut fallback, (index + 1) as u32);
                fallback
            },
        };
        let m = DisplayMonitor::new(target.device_path.clone(), name, Some(index as u32));
        proof {
            assert(m@ == target_view(targets@[index as int], index as int));
            assert(targets@.take(index + 1).drop_last() =~= targets@.take(index as int));
            assert(targets@.take(index + 1).last() == targets@[index as int]);
        }
        insert_monitor(&mut monitors, m);
        index += 1;
    }
    proof {
        assert(targets@.take(n as int) =~= targets@);
    }
    monitors
}

/// The flag that marks a display path as active.
pub const DISPLAYCONFIG_PATH_ACTIVE: u32 = 0x00000001;

/// A display path as the display configuration query reports it.
#[derive(Debug, Clone, Copy)]
pub struct PathInfo {
    pub flags: u32,
    pub adapter_id: u32,
    pub target_id: u32,
}

/// An active display path: the adapter and the target it joins.
#[derive(Debug, Clone, Copy, PartialEq, Eq, Structural)]
pub struct DisplayPath {
    pub adapter_id: u32,
    pub target_id: u32,
}

/// Whether a reported path is active.
pub open spec fn path_is_active(path: PathInfo) -> bool {
    path.flags & DISPLAYCONFIG_PATH_ACTIVE != 0
}

/// The active paths among those reported, in order.
pub open spec fn active_paths(paths: Seq<PathInfo>) -> Seq<DisplayPath>
    decreases paths.len(),
{
    if paths.len() == 0 {
        Seq::empty()
    } else {
        let rest = active_paths(paths.drop_last());
        let last = paths.last();
        if path_is_active(last) {
            rest.push(DisplayPath { adapter_id: last.adapter_id, target_id: last.target_id })
        } else {
            rest
        }
    }
}

/// The active display paths among those the configuration query reported.
pub fn active_display_paths(paths: &[PathInfo]) -> (active: Vec<DisplayPath>)
    ensures
        active@ == active_paths(paths@),
{
    let mut active: Vec<DisplayPath> = Vec::new();
    let mut i: usize = 0;
    proof {
        assert(paths@.take(0) =~= Seq::<PathInfo>::empty());
    }
    while i < paths.len()
        invariant
            i <= paths@.len(),
            active@ == active_paths(paths@.take(i as int)),
        decreases paths@.len() - i,
    {
        let p = paths[i];
        proof {
            assert(paths@.take(i + 1).drop_last() =~= paths@.take(i as int));
            assert(paths@.take(i + 1).last() == p);
        }
        if p.flags & DISPLAYCONFIG_PATH_ACTIVE != 0 {
            active.push(DisplayPath { adapter_id: p.adapter_id, target_id: p.target_id });
        }
        i += 1;
    }
    proof {
        assert(paths@.take(paths@.len() as int) =~= paths@);
    }
    active
}

/// The little-endian code unit at `index` of a byte buffer.
pub open spec fn le_unit(bytes: Seq<u8>, index: int) -> u16 {
    (bytes[2 * index] + 256 * bytes[2 * index + 1]) as u16
}

/// The first `count` little-endian code units of a byte buffer.
pub open spec fn le_units(bytes: Seq<u8>, count: int) -> Seq<u16> {
    Seq::new(count as nat, |i: int| le_unit(bytes, i))
}

/// How many code units a registry read of `byte_count` bytes yields from `bytes`.
pub open spec fn unit_count(bytes: Seq<u8>, byte_count: u32) -> int {
    if byte_count / 2 < bytes.len() / 2 {
        (byte_count / 2) as int
    } else {
        (bytes.len() / 2) as int
    }
}

/// The little-endian code units of the first `byte_count` bytes of a registry buffer
/// (whole units only, and no more than the buffer holds).
pub fn units_from_le_bytes(bytes: &[u8], byte_count: u32) -> (units: Vec<u16>)
    ensures
        units@ == le_units(bytes@, unit_count(bytes@, byte_count)),
{
    let whole = bytes.len() / 2;
    let wanted = (byte_count / 2) as usize;
    let count = if wanted < whole {
        wanted
    } else {
        whole
    };
    let mut units: Vec<u16> = Vec::new();
    let mut i: usize = 0;
    while i < count
        invariant
            count <= bytes@.len() / 2,
            count == unit_count(bytes@, byte_count),
            i <= count,
            units@ == le_units(bytes@, i as int),
        decreases count - i,
    {
        let low = bytes[2 * i];
        let high = bytes[2 * i + 1];
        let unit: u16 = (low as u16) + (high as u16) * 256;
        proof {
            lemma_unit_cast(low + 256 * high);
        }
        units.push(unit);
        proof {
            assert(units@ =~= le_units(bytes@, i + 1));
        }
        i += 1;
    }
    units
}

/// The friendly name held in a registry buffer of UTF-16 text, `byte_count` bytes long.
pub fn friendly_name_from_registry(bytes: &[u8], byte_count: u32) -> (name: String)
    ensures
        name@ == wide_text(le_units(bytes@, unit_count(bytes@, byte_count))),
{
    let units = units_from_le_bytes(bytes, byte_count);
    units.to_string()
}

/// The code of a character in ASCII lower case.
fn lower_code(c: char) -> (code: u32)
    ensures
        code as int == ascii_lower(c) as int,
{
    let v = c as u32;
    if 'A' <= c && c <= 'Z' {
        v + 32
    } else {
        v
    }
}

/// Whether two texts are equal up to ASCII case.
pub fn equal_ignoring_ascii_case(a: &str, b: &str) -> (equal: bool)
    ensures
        equal == eq_ignore_ascii_case(a@, b@),
{
    let n = a.unicode_len();
    if n != b.unicode_len() {
        return false;
    }
    let mut i: usize = 0;
    while i < n
        invariant
            n == a@.len(),
            n == b@.len(),
            i <= n,
            forall|k: int| 0 <= k < i ==> ascii_lower(a@[k]) == ascii_lower(b@[k]),
        decreases n - i,
    {
        let x = lower_code(a.get_char(i));
        let y = lower_code(b.get_char(i));
        if x != y {
            return false;
        }
        proof {
            let (p, q) = (ascii_lower(a@[i as int]), ascii_lower(b@[i as int]));
            assert((p as int) as char == p);
            assert((q as int) as char == q);
        }
        i += 1;
    }
    true
}

/// Whether the device at a position reported `target_path`, up to ASCII case.
pub open spec fn device_matches(path: Option<String>, target_path: Seq<char>) -> bool {
    match path {
        Some(p) => eq_ignore_ascii_case(p@, target_path),
        None => false,
    }
}

/// The index of the first device whose interface path equals `target_path` up to ASCII
/// case (`None` stands for a device whose path could not be read).
pub fn find_device_by_path(device_paths: &[Option<String>], target_path: &str) -> (found: Result<
    u32,
    DisplayError,
>)
    requires
        device_paths@.len() <= u32::MAX,
    ensures
        found matches Ok(i) ==> i < device_paths@.len() && device_matches(
            device_paths@[i as int],
            target_path@,
        ) && forall|j: int|
            0 <= j < i ==> !device_matches(#[trigger] device_paths@[j], target_path@),
        found is Err ==> found == Err::<u32, DisplayError>(DisplayError::MatchDevice) && forall|
            j: int,
        |
            0 <= j < device_paths@.len() ==> !device_matches(
                #[trigger] device_paths@[j],
                target_path@,
            ),
{
    let mut index: usize = 0;
    while index < device_paths.len()
        invariant
            device_paths@.len() <= u32::MAX,
            index <= device_paths@.len(),
            forall|j: int| 0 <= j < index ==> !device_matches(#[trigger] device_paths@[j], target_path@),
        decreases device_paths@.len() - index,
    {
        match &device_paths[index] {
            Some(path) => {
                if equal_ignoring_ascii_case(path.as_str(), target_path) {
                    return Ok(index as u32);
                }
            },
            None => {},
        }
        index += 1;
    }
    Err(DisplayError::MatchDevice)
}

/// With one monitor per path on both sides, no change is found exactly when both lists
/// hold the same device paths.
pub proof fn lemma_unchanged_means_same_paths(current: Seq<DisplayMonitor>, cached: Seq<DisplayMonitor>)
    requires
        unique_paths(current),
        unique_paths(cached),
    ensures
        !configuration_changed(current, cached) <==> paths_of(current).to_set() == paths_of(
            cached,
        ).to_set(),
{
    broadcast use vstd::seq_lib::seq_to_set_is_finite;

    let pc = paths_of(current);
    let pk = paths_of(cached);
    assert(pc.no_duplicates()) by {
        assert forall|i: int, j: int| 0 <= i < pc.len() && 0 <= j < pc.len() && i != j implies pc[i]
            != pc[j] by {
            if i < j {
                assert(current[i]@.device_path != current[j]@.device_path);
            } else {
                assert(current[j]@.device_path != current[i]@.device_path);
            }
        }
    }
    assert(pk.no_duplicates()) by {
        assert forall|i: int, j: int| 0 <= i < pk.len() && 0 <= j < pk.len() && i != j implies pk[i]
            != pk[j] by {
            if i < j {
                assert(cached[i]@.device_path != cached[j]@.device_path);
            } else {
                assert(cached[j]@.device_path != cached[i]@.device_path);
            }
        }
    }
    pc.unique_seq_to_set();
    pk.unique_seq_to_set();
    if !configuration_changed(current, cached) {
        assert(pc.to_set().subset_of(pk.to_set())) by {
            assert forall|x: Seq<char>| pc.to_set().contains(x) implies pk.to_set().contains(x) by {
                let i = choose|i: int| 0 <= i < pc.len() && pc[i] == x;
                assert(pc[i] == current[i]@.device_path);
                assert(pk.contains(current[i]@.device_path));
            }
        }
        vstd::set_lib::lemma_subset_equality(pc.to_set(), pk.to_set());
    }
    if pc.to_set() == pk.to_set() {
        assert forall|i: int| 0 <= i < current.len() implies pk.contains(
            #[trigger] current[i]@.device_path,
        ) by {
            assert(pc[i] == current[i]@.device_path);
            assert(pc.to_set().contains(pc[i]));
        }
    }
}

/// Comparing the monitors just recorded with themselves finds no change.
pub proof fn lemma_recorded_list_is_unchanged(monitors: Seq<DisplayMonitor>)
    ensures
        !configuration_changed(monitors, monitors),
{
    assert forall|i: int| 0 <= i < monitors.len() implies paths_of(monitors).contains(
        #[trigger] monitors[i]@.device_path,
    ) by {
        assert(paths_of(monitors)[i] == monitors[i]@.device_path);
    }
}

} // verus!
