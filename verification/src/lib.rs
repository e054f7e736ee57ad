//! Dynamic wallpaper and color-scheme logic, driven by the position of the sun.

pub mod cache;
pub mod color_scheme;
pub mod color_scheme_applier;
pub mod config;
pub mod date;
pub mod error;
pub mod geolocation;
pub mod logging;
pub mod monitor;
pub mod month;
pub mod random_mode;
pub mod random_selector;
pub mod solar;
pub mod solar_transitions;
pub mod theme;
pub mod theme_engine;
pub mod theme_list;
pub mod theme_manifest;
pub mod update_loop;
pub mod wallpaper;
pub mod wide_string;
