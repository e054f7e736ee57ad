use dwall::theme_list::{available_theme_names, text_less};
use std::rc::Rc;

use dwall::config::{ImageFormat, MonitorSpecificWallpapers};
use dwall::monitor::DisplayMonitor;
use dwall::solar::SolarAngle;
use dwall::theme::{image_file_name_of, wallpaper_image_path, SolarAngleCache, ThemeData, ThemeError, ThemeValidator};
use dwall::theme_engine::{check_wallpapers_configured, choose_wallpaper, lock_screen_theme, plan_monitor_themes};
use dwall::theme_manifest::{
    frames_to_angles, Appearance, DateInput, NativeFrame, SolarSection, ThemeInfo, ThemeManifest, TimedFrame,
    SUPPORTED_SCHEMA,
};
use dwall::wallpaper::{compute_solar_distance, WallpaperSelector};

fn micro(value: f64) -> i64 {
    (value * 1e6).round() as i64
}

fn info() -> ThemeInfo {
    ThemeInfo {
        id: "demo".to_string(),
        name: "Demo".to_string(),
        author: "alice".to_string(),
        version: 2,
        created_at: 1_700_000_000,
        image_format: ImageFormat::Jpeg,
        email: None,
        homepage: None,
        description: None,
    }
}

fn manifest(schema: u32, solar: Option<SolarSection>) -> ThemeManifest {
    ThemeManifest { schema, theme: info(), appearance: None, solar, images: vec![] }
}

fn native(frames: Vec<(usize, f64, f64)>) -> Option<SolarSection> {
    Some(SolarSection::Native {
        frames: frames
            .into_iter()
            .map(|(index, altitude, azimuth)| NativeFrame { index, altitude: micro(altitude), azimuth: micro(azimuth) })
            .collect(),
    })
}

#[test]
fn parses_calculated_frames_and_format() {
    let frame = |index: usize, hour: u8, altitude: f64, azimuth: f64| TimedFrame {
        index,
        hour,
        minute: 0,
        altitude: micro(altitude),
        azimuth: micro(azimuth),
    };
    let m = manifest(
        1,
        Some(SolarSection::Calculated {
            latitude: micro(39.9),
            longitude: micro(116.4),
            altitude: 0,
            reference_date: DateInput { year: 2024, month: 6, day: 21 },
            frames: vec![frame(0, 6, -2.5, 65.0), frame(1, 12, 72.0, 180.0)],
        }),
    );
    assert_eq!(m.theme.name, "Demo");
    assert_eq!(m.image_format(), &ImageFormat::Jpeg);

    let angles = m.solar_angles().unwrap();
    assert_eq!(angles.len(), 2);
    assert_eq!(angles[0].index(), 0);
    assert_eq!(angles[0].altitude(), micro(-2.5));
    assert_eq!(angles[0].azimuth(), micro(65.0));
    assert_eq!(angles[1].index(), 1);
    assert_eq!(angles[1].azimuth(), micro(180.0));
}

#[test]
fn parses_native_frames() {
    let m = manifest(1, native(vec![(3, 25.0, 110.0)]));
    let angles = m.solar_angles().unwrap();
    assert_eq!(angles.len(), 1);
    assert_eq!(angles[0].index(), 3);
    assert_eq!(angles[0].altitude(), micro(25.0));
    assert_eq!(m.image_format(), &ImageFormat::Jpeg);
}

#[test]
fn rejects_unsupported_schema() {
    assert!(manifest(SUPPORTED_SCHEMA, None).check_schema().is_ok());
    assert_eq!(manifest(2, None).check_schema(), Err(ThemeError::UnsupportedThemeSchema(2)));
}

#[test]
fn rejects_missing_frames() {
    assert_eq!(manifest(1, None).solar_angles().unwrap_err(), ThemeError::NoSolarFrames);
    assert_eq!(manifest(1, native(vec![])).solar_angles().unwrap_err(), ThemeError::NoSolarFrames);
}

#[test]
fn rejects_out_of_range_frame_index() {
    let m = manifest(1, native(vec![(300, 10.0, 90.0)]));
    assert_eq!(m.solar_angles().unwrap_err(), ThemeError::FrameIndexOutOfRange(300));
    assert!(frames_to_angles(&vec![(255, 0, 0)]).is_ok());
    assert_eq!(frames_to_angles(&vec![(1, 0, 0), (256, 0, 0)]).unwrap_err(), ThemeError::FrameIndexOutOfRange(256));
}

#[test]
fn appearance_holds_indices() {
    let a = Appearance { light: 1, dark: 4 };
    assert_eq!((a.light, a.dark), (1, 4));
}

#[test]
fn image_paths() {
    assert_eq!(image_file_name_of(0, &ImageFormat::Jpeg), "1.jpg");
    let p = wallpaper_image_path(4, &ImageFormat::Jpeg, false);
    assert_eq!((p.subdirectory.as_str(), p.file_name.as_str()), ("jpg", "5.jpg"));
    let c = wallpaper_image_path(4, &ImageFormat::Jpeg, true);
    assert_eq!(c.subdirectory, "images");
    // Frame 255, the largest valid index, is image 256.
    let last = wallpaper_image_path(255, &ImageFormat::Jpeg, false);
    assert_eq!((last.subdirectory.as_str(), last.file_name.as_str()), ("jpg", "256.jpg"));
}

fn data(angles: Vec<SolarAngle>, format: Option<ImageFormat>) -> ThemeData {
    ThemeData { angles, image_format: format }
}

#[test]
fn validator_reports_each_failure() {
    let id = "t".to_string();
    let good = data(vec![SolarAngle::new(0, 0, 0), SolarAngle::new(1, micro(10.0), micro(90.0))], None);
    assert_eq!(
        ThemeValidator::validate(&id, false, &good, true, &[true, true]),
        Err(ThemeError::ThemeDirectoryNotFound("t".to_string()))
    );
    assert_eq!(ThemeValidator::validate(&id, true, &good, true, &[true, true]), Ok(()));
    assert_eq!(
        ThemeValidator::validate(&id, true, &good, false, &[false, false]),
        Err(ThemeError::ImageSolarConfigurationMismatch { expected: 2, found: 0 })
    );
    assert_eq!(
        ThemeValidator::validate(&id, true, &good, true, &[true, false]),
        Err(ThemeError::ImageSolarConfigurationMismatch { expected: 2, found: 1 })
    );
    let bad = data(vec![SolarAngle::new(0, micro(95.0), 0)], Some(ImageFormat::Jpeg));
    assert_eq!(ThemeValidator::validate(&id, true, &bad, true, &[true]), Err(ThemeError::InvalidAltitude(micro(95.0))));
    let req = ThemeValidator::required_images(&good, &ImageFormat::Jpeg, true);
    assert_eq!(req.subdirectory, "images");
    assert_eq!(req.files, vec!["1.jpg".to_string(), "2.jpg".to_string()]);
}

#[test]
fn closest_image_is_the_first_nearest_frame() {
    let angles = vec![
        SolarAngle::new(0, micro(-10.0), micro(90.0)),
        SolarAngle::new(1, micro(30.0), micro(180.0)),
        SolarAngle::new(2, micro(-10.0), micro(270.0)),
    ];
    assert_eq!(WallpaperSelector::find_closest_image(&angles, micro(25.0), micro(170.0)), Some(1));
    assert_eq!(WallpaperSelector::find_closest_image(&angles, micro(-10.0), micro(100.0)), Some(0));
    assert_eq!(WallpaperSelector::find_closest_entry(&angles, micro(-40.0), micro(180.0)), Some(0));
    assert_eq!(WallpaperSelector::find_closest_image(&[], 0, 0), None);
    // The azimuth gap wraps around north.
    assert_eq!(compute_solar_distance(0, micro(359.0), 0, micro(1.0)), compute_solar_distance(0, micro(1.0), 0, micro(3.0)));
}

#[test]
fn choose_wallpaper_uses_the_declared_format_and_directory() {
    let d = data(vec![SolarAngle::new(0, 0, 0), SolarAngle::new(7, micro(40.0), micro(180.0))], Some(ImageFormat::Jpeg));
    let choice = choose_wallpaper(&d, &ImageFormat::Jpeg, true, micro(45.0), micro(170.0)).unwrap();
    assert_eq!(choice.index, 7);
    assert_eq!(choice.path.subdirectory, "images");
    assert_eq!(choice.path.file_name, "8.jpg");
    let empty = data(vec![], None);
    assert_eq!(
        choose_wallpaper(&empty, &ImageFormat::Jpeg, false, 0, 0).unwrap_err(),
        ThemeError::ImageSolarConfigurationMismatch { expected: 0, found: 0 }
    );
}

#[test]
fn monitors_without_a_theme_are_skipped() {
    let monitors = vec![
        DisplayMonitor::new_test("m1".to_string(), "One".to_string(), Some(0)),
        DisplayMonitor::new_test("m2".to_string(), "Two".to_string(), Some(1)),
    ];
    let w = MonitorSpecificWallpapers::Specific(vec![("m2".to_string(), "beach".to_string())]);
    assert_eq!(plan_monitor_themes(&monitors, &w), vec![("m2".to_string(), "beach".to_string())]);
    let all = MonitorSpecificWallpapers::All("city".to_string());
    assert_eq!(
        plan_monitor_themes(&monitors, &all),
        vec![("m1".to_string(), "city".to_string()), ("m2".to_string(), "city".to_string())]
    );
}

#[test]
fn a_cycle_needs_configured_wallpapers() {
    assert_eq!(
        check_wallpapers_configured(&MonitorSpecificWallpapers::Specific(vec![])),
        Err(ThemeError::MonitorWallpaperConfigurationMissing)
    );
    assert_eq!(check_wallpapers_configured(&MonitorSpecificWallpapers::All("x".to_string())), Ok(()));
}

#[test]
fn solar_angle_cache_evicts_the_least_recent() {
    let mut cache: SolarAngleCache<u32> = SolarAngleCache::new();
    cache.insert("a".to_string(), Rc::new(1));
    cache.insert("b".to_string(), Rc::new(2));
    assert_eq!(cache.get(&"a".to_string()).map(|v| *v), Some(1));
    assert_eq!(cache.get(&"c".to_string()), None);
    for i in 0..40u32 {
        cache.insert(format!("k{i}"), Rc::new(i));
    }
    assert_eq!(cache.get(&"a".to_string()), None);
    assert_eq!(cache.get(&"k39".to_string()).map(|v| *v), Some(39));
}

#[test]
fn theme_names_are_unique_and_sorted() {
    let candidates: Vec<String> = ["Sur", "Big Sur", "Catalina", "Sur", "big", "Ébène"].iter().map(|s| s.to_string()).collect();
    let names = available_theme_names(&candidates);
    let mut expected: Vec<String> = candidates.clone();
    expected.sort();
    expected.dedup();
    assert_eq!(names, expected);
    assert!(text_less("Big", "Big Sur"));
    assert!(!text_less("b", "B"));
    assert!(text_less("", "a"));
    assert!(!text_less("a", "a"));
    assert!(available_theme_names(&[]).is_empty());
}

#[test]
fn lock_screen_follows_the_first_configured_theme() {
    let pairs = MonitorSpecificWallpapers::Specific(vec![
        ("m1".to_string(), "beach".to_string()),
        ("m2".to_string(), "city".to_string()),
    ]);
    assert_eq!(lock_screen_theme(2, &pairs), Some("beach".to_string()));
    assert_eq!(lock_screen_theme(0, &pairs), None);
    assert_eq!(lock_screen_theme(1, &MonitorSpecificWallpapers::All("city".to_string())), Some("city".to_string()));
    assert_eq!(lock_screen_theme(1, &MonitorSpecificWallpapers::Specific(vec![])), None);
}
