# dwall

Dynamic wallpapers and automatic light/dark switching driven by the position of the
sun.

- `src/` is the verified library (Verus). Angles are fixed-point values in millionths
  of a degree, altitudes above sea level in millionths of a metre, times in seconds.
  - `color_scheme`, `color_scheme_applier`: location-dependent twilight threshold,
    daylight classification (midnight sun, polar night, white night), the hysteresis
    decision, and one update of the system scheme with day-long caching.
  - `wallpaper`, `theme`, `theme_manifest`, `theme_engine`, `theme_list`: the image
    closest to the sun, theme validation and manifests, per-monitor planning, and the
    installed theme names.
  - `random_selector`, `random_mode`: pool filtering, xorshift shuffle, one theme per day
    without repeats within a round.
  - `monitor`, `wide_string`: monitor lists and change detection, UTF-16 buffers.
  - `geolocation`, `solar`, `solar_transitions`, `cache`: positions, the typed cache, and
    sunrise/sunset search.
  - `config`, `update_loop`, `logging`, `date`, `month`: configuration, the update loop's
    decisions, log filtering and line layout, and calendar values.
- `tests/` runs the library on concrete values.
- `app/` is the daemon around it: files, the solar formulas in floating point, the `log`
  backend, and the platform backends. The backends for wallpapers, monitors, the color
  scheme and geolocation need the Windows API; in this build they are stubs that always
  report a platform error.
