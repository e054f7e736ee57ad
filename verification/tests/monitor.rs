use dwall::monitor::{equal_ignoring_ascii_case, find_device_by_path, DisplayError};
use dwall::monitor::{
    active_display_paths, assemble_monitors, copy_monitors, friendly_name_from_registry, units_from_le_bytes,
    DisplayMonitor, DisplayMonitorProvider, DisplayPath, DisplayTarget, MonitorInfoCache, PathInfo,
};

fn monitor(path: &str, name: &str, index: u32) -> DisplayMonitor {
    DisplayMonitor::new_test(path.to_string(), name.to_string(), Some(index))
}

#[test]
fn display_monitor_accessors() {
    let m = DisplayMonitor::new_test("path1".to_string(), "Display 1".to_string(), Some(0));
    assert_eq!(m.device_path(), "path1");
    assert_eq!(m.friendly_name(), "Display 1");
    assert_eq!(m.position_index(), Some(0));
    let copy = m.duplicate();
    assert_eq!(copy.device_path(), "path1");
    assert_eq!(copy.position_index(), Some(0));
}

#[test]
fn cache_is_valid_only_with_monitors_and_before_expiry() {
    let mut cache = MonitorInfoCache::new(0);
    assert!(!cache.is_valid(0));
    cache.update(vec![monitor("a", "A", 0)], 1000);
    assert!(cache.is_valid(1000));
    assert!(cache.is_valid(1300));
    assert!(!cache.is_valid(1301));
    // A clock that went back counts as no time elapsed.
    assert!(cache.is_valid(10));
}

#[test]
fn provider_serves_the_cache_until_it_expires() {
    let mut provider = DisplayMonitorProvider::new();
    assert!(provider.cached_monitors(0).is_none());
    provider.record_monitors(vec![monitor("a", "A", 0), monitor("b", "B", 1)], 100);
    let cached = provider.cached_monitors(200).unwrap();
    assert_eq!(cached.len(), 2);
    assert_eq!(cached[1].device_path(), "b");
    assert!(provider.cached_monitors(401).is_none());
}

#[test]
fn configuration_change_detection() {
    let mut provider = DisplayMonitorProvider::new();
    provider.record_monitors(vec![monitor("a", "A", 0), monitor("b", "B", 1)], 0);
    // Same paths, in another order and with other names: unchanged.
    assert!(!provider.has_configuration_changed(&vec![monitor("b", "X", 0), monitor("a", "Y", 1)]));
    // One monitor fewer.
    assert!(provider.has_configuration_changed(&vec![monitor("a", "A", 0)]));
    // Same count, another path.
    assert!(provider.has_configuration_changed(&vec![monitor("a", "A", 0), monitor("c", "C", 1)]));
}

#[test]
fn recorded_list_is_unchanged() {
    let mut provider = DisplayMonitorProvider::new();
    let list = vec![monitor("a", "A", 0), monitor("b", "B", 1)];
    let copy = copy_monitors(&list);
    provider.record_monitors(list, 0);
    assert!(!provider.has_configuration_changed(&copy));
}

#[test]
fn assemble_names_and_positions_monitors() {
    let targets = vec![
        DisplayTarget { device_path: "p0".to_string(), friendly_name: Some("Dell".to_string()) },
        DisplayTarget { device_path: "p1".to_string(), friendly_name: None },
    ];
    let monitors = assemble_monitors(&targets);
    assert_eq!(monitors.len(), 2);
    assert_eq!(monitors[0].friendly_name(), "Dell");
    assert_eq!(monitors[0].position_index(), Some(0));
    assert_eq!(monitors[1].friendly_name(), "Display 2");
    assert_eq!(monitors[1].position_index(), Some(1));
}

#[test]
fn assemble_keeps_one_monitor_per_path() {
    let targets = vec![
        DisplayTarget { device_path: "p".to_string(), friendly_name: Some("First".to_string()) },
        DisplayTarget { device_path: "q".to_string(), friendly_name: Some("Other".to_string()) },
        DisplayTarget { device_path: "p".to_string(), friendly_name: None },
    ];
    let monitors = assemble_monitors(&targets);
    assert_eq!(monitors.len(), 2);
    let p = monitors.iter().find(|m| m.device_path() == "p").unwrap();
    assert_eq!(p.friendly_name(), "Display 3");
    assert_eq!(p.position_index(), Some(2));
}

#[test]
fn only_active_paths_are_kept() {
    let paths = [
        PathInfo { flags: 1, adapter_id: 7, target_id: 1 },
        PathInfo { flags: 0, adapter_id: 7, target_id: 2 },
        PathInfo { flags: 3, adapter_id: 8, target_id: 3 },
    ];
    let active = active_display_paths(&paths);
    assert_eq!(
        active,
        vec![DisplayPath { adapter_id: 7, target_id: 1 }, DisplayPath { adapter_id: 8, target_id: 3 }]
    );
}

#[test]
fn registry_bytes_decode_little_endian() {
    let bytes = [0x48, 0x00, 0x69, 0x00, 0x00, 0x00, 0xFF];
    assert_eq!(units_from_le_bytes(&bytes, 6), vec![0x48, 0x69, 0]);
    assert_eq!(units_from_le_bytes(&bytes, 3), vec![0x48]);
    assert_eq!(units_from_le_bytes(&bytes, 100), vec![0x48, 0x69, 0]);
    assert_eq!(units_from_le_bytes(&[0x34, 0x12], 2), vec![0x1234]);
}

#[test]
fn friendly_name_from_registry_buffer() {
    let mut bytes = vec![0u8; 512];
    for (i, unit) in "Dell U2720Q".encode_utf16().enumerate() {
        bytes[2 * i] = (unit & 0xFF) as u8;
        bytes[2 * i + 1] = (unit >> 8) as u8;
    }
    assert_eq!(friendly_name_from_registry(&bytes, 24), "Dell U2720Q");
}

#[test]
fn device_paths_match_ignoring_ascii_case() {
    assert!(equal_ignoring_ascii_case("\\\\?\\DISPLAY#DEL1234", "\\\\?\\display#del1234"));
    assert!(!equal_ignoring_ascii_case("abc", "abd"));
    assert!(!equal_ignoring_ascii_case("abc", "abcd"));
    assert!(!equal_ignoring_ascii_case("É", "é"));
    let paths = vec![None, Some("\\\\?\\DISPLAY#A".to_string()), Some("\\\\?\\display#b".to_string())];
    assert_eq!(find_device_by_path(&paths, "\\\\?\\Display#B"), Ok(2));
    assert_eq!(find_device_by_path(&paths, "\\\\?\\display#a"), Ok(1));
    assert_eq!(find_device_by_path(&paths, "nothing"), Err(DisplayError::MatchDevice));
}
