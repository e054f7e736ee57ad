//! One theme cycle's decisions: which monitors get which theme, and which image of a
//! theme matches the sun's position.

use vstd::prelude::*;

use crate::config::{theme_for, ImageFormat, MonitorSpecificWallpapers, WallpapersView};
use crate::error::DwallError;
use crate::monitor::{views_of, DisplayMonitor, MonitorProvider, MonitorView};
use crate::solar::SolarAngle;
use crate::theme::{
    effective_format, image_file_name, image_subdirectory, wallpaper_image_path, ThemeData,
    ThemeError, ThemeImagePath,
};
use crate::wallpaper::{
    angle_in_range, entries_in_range, is_first_closest, WallpaperProvider, WallpaperSelector,
};

verus! {

/// `(monitor, theme)` for each monitor that has a theme configured, in monitor order.
pub open spec fn monitor_plan(monitors: Seq<MonitorView>, wallpapers: WallpapersView) -> Seq<
    (Seq<char>, Seq<char>),
>
    decreases monitors.len(),
{
    if monitors.len() == 0 {
        Seq::empty()
    } else {
        let rest = monitor_plan(monitors.drop_last(), wallpapers);
        match theme_for(wallpapers, monitors.last().device_path) {
            Some(theme) => rest.push((monitors.last().device_path, theme)),
            None => rest,
        }
    }
}

/// The views of `(monitor, theme)` pairs.
pub open spec fn plan_views(plan: Seq<(String, String)>) -> Seq<(Seq<char>, Seq<char>)> {
    plan.map_values(|p: (String, String)| (p.0@, p.1@))
}

/// The theme to show on each monitor; monitors without a configured theme are skipped.
pub fn plan_monitor_themes(
    monitors: &Vec<DisplayMonitor>,
    wallpapers: &MonitorSpecificWallpapers,
) -> (plan: Vec<(String, String)>)
    ensures
        plan_views(plan@) == monitor_plan(views_of(monitors@), wallpapers@),
{
    let mut plan: Vec<(String, String)> = Vec::new();
    let mut i: usize = 0;
    proof {
        assert(views_of(monitors@).take(0) =~= Seq::<MonitorView>::empty());
        assert(plan_views(plan@) =~= Seq::<(Seq<char>, Seq<char>)>::empty());
    }
    while i < monitors.len()
        invariant
            i <= monitors@.len(),
            plan_views(plan@) == monitor_plan(views_of(monitors@).take(i as int), wallpapers@),
        decreases monitors@.len() - i,
    {
        let monitor = &monitors[i];
        let path = String::from_str(monitor.device_path());
        let ghost before = plan@;
        proof {
            let views = views_of(monitors@);
            assert(views.take(i + 1).drop_last() =~= views.take(i as int));
            assert(views.take(i + 1).last() == monitor@);
        }
        match wallpapers.get(&path) {
            Some(theme) => {
                plan.push((path, theme.clone()));
                proof {
                    assert(plan_views(plan@) =~= plan_views(before).push((monitor@.device_path, theme@)));
                }
            },
            None => {},
        }
        i += 1;
    }
    proof {
        assert(views_of(monitors@).take(monitors@.len() as int) =~= views_of(monitors@));
    }
    plan
}

/// The theme shown on the lock screen after a cycle in which `successes` monitors got
/// their wallpaper: the first configured theme, and none when no monitor succeeded.
pub fn lock_screen_theme(successes: usize, wallpapers: &MonitorSpecificWallpapers) -> (theme:
    Option<String>)
    ensures
        successes == 0 ==> theme is None,
        successes > 0 ==> (wallpapers@ matches WallpapersView::All(t) ==> (theme matches Some(s)
            && s@ == t)),
        successes > 0 ==> (wallpapers@ matches WallpapersView::Specific(pairs) ==> (pairs.len()
            == 0 <==> theme is None) && (pairs.len() > 0 ==> (theme matches Some(s) && s@
            == pairs[0].1))),
{
    if successes == 0 {
        None
    } else {
        wallpapers.first_theme()
    }
}

/// A theme cycle needs at least one configured theme.
pub fn check_wallpapers_configured(wallpapers: &MonitorSpecificWallpapers) -> (result: Result<
    (),
    ThemeError,
>)
    ensures
        (wallpapers@ matches WallpapersView::Specific(pairs) && pairs.len() == 0) ==> result
            == Err::<(), ThemeError>(ThemeError::MonitorWallpaperConfigurationMissing),
        !(wallpapers@ matches WallpapersView::Specific(pairs) && pairs.len() == 0) ==> result is Ok,
{
    if wallpapers.is_empty() {
        Err(ThemeError::MonitorWallpaperConfigurationMissing)
    } else {
        Ok(())
    }
}

/// The image of a theme chosen for the sun's position.
#[derive(Debug)]
pub struct WallpaperChoice {
    /// The frame index of the image.
    pub index: u8,
    /// Where the image lies in the theme directory.
    pub path: ThemeImagePath,
}

/// The image of a theme for the sun at `altitude` and `azimuth`: that of the first frame
/// closest to the sun, in the theme's declared format or else the configured one.
///
/// A theme without frames gives `ImageSolarConfigurationMismatch`.
pub fn choose_wallpaper(
    theme_data: &ThemeData,
    configured_format: &ImageFormat,
    is_customized: bool,
    altitude: i64,
    azimuth: i64,
) -> (result: Result<WallpaperChoice, ThemeError>)
    requires
        entries_in_range(theme_data.angles@),
        angle_in_range(altitude as int),
        angle_in_range(azimuth as int),
    ensures
        theme_data.angles@.len() == 0 ==> result == Err::<WallpaperChoice, ThemeError>(
            ThemeError::ImageSolarConfigurationMismatch { expected: 0, found: 0 },
        ),
        theme_data.angles@.len() > 0 ==> (result matches Ok(choice) && (exists|k: int|
            is_first_closest(theme_data.angles@, k, altitude as int, azimuth as int) && choice.index
                == #[trigger] theme_data.angles@[k].idx()) && ({
            let format = effective_format(theme_data.image_format, *configured_format);
            &&& choice.path.subdirectory@ == image_subdirectory(format, is_customized)
            &&& choice.path.file_name@ == image_file_name(choice.index, format)
        })),
{
    match WallpaperSelector::find_closest_image(theme_data.angles.as_slice(), altitude, azimuth) {
        Some(index) => {
            let format = match theme_data.image_format {
                Some(f) => f,
                None => *configured_format,
            };
            let path = wallpaper_image_path(index, &format, is_customized);
            Ok(WallpaperChoice { index, path })
        },
        None => Err(
            ThemeError::ImageSolarConfigurationMismatch {
                expected: theme_data.angles.len(),
                found: 0,
            },
        ),
    }
}

/// The wallpaper setter and the monitor source a theme cycle works with.
pub struct WallpaperApplier<W: WallpaperProvider, M: MonitorProvider> {
    wallpaper_provider: W,
    monitor_provider: M,
}

impl<W: WallpaperProvider, M: MonitorProvider> WallpaperApplier<W, M> {
    /// The setter.
    pub closed spec fn spec_setter(&self) -> W {
        self.wallpaper_provider
    }

    /// The monitor source.
    pub closed spec fn spec_monitor(&self) -> M {
        self.monitor_provider
    }

    /// An applier working with `wallpaper_provider` and `monitor_provider`.
    pub fn new(wallpaper_provider: W, monitor_provider: M) -> (applier: Self)
        ensures
            applier.spec_setter() == wallpaper_provider,
            applier.spec_monitor() == monitor_provider,
    {
        WallpaperApplier { wallpaper_provider, monitor_provider }
    }

    /// The wallpaper setter.
    pub fn setter(&self) -> (setter: &W)
        ensures
            *setter == self.spec_setter(),
    {
        &self.wallpaper_provider
    }

    /// The monitor source.
    pub fn monitor(&self) -> (monitor: &M)
        ensures
            *monitor == self.spec_monitor(),
    {
        &self.monitor_provider
    }

    /// The monitors available, as the monitor source reports them.
    pub fn list_monitors(&self) -> (monitors: Result<Vec<DisplayMonitor>, DwallError>) {
        self.monitor_provider.get_monitors()
    }
}

} // verus!
