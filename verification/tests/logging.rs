use dwall::logging::{
    default_log_level, file_line, level_colors, level_label, level_passes, log_level_from_setting, restore_color,
    starts_with, styled_key, terminal_text, Level, LevelFilter, Logger, BOLD, CYAN, DIM, ITALIC, RED, RESET,
    YELLOW,
};

#[test]
fn default_log_level_by_build() {
    assert_eq!(default_log_level(true), LevelFilter::Trace);
    assert_eq!(default_log_level(false), LevelFilter::Warn);
}

#[test]
fn level_setting_is_parsed_ignoring_case() {
    assert_eq!(log_level_from_setting(Some("info"), false), LevelFilter::Info);
    assert_eq!(log_level_from_setting(Some("DEBUG"), true), LevelFilter::Debug);
    assert_eq!(log_level_from_setting(Some("Off"), true), LevelFilter::Off);
    assert_eq!(log_level_from_setting(Some("verbose"), false), LevelFilter::Warn);
    assert_eq!(log_level_from_setting(None, true), LevelFilter::Trace);
}

#[test]
fn levels_pass_filters_by_severity() {
    assert!(level_passes(Level::Error, LevelFilter::Warn));
    assert!(level_passes(Level::Warn, LevelFilter::Warn));
    assert!(!level_passes(Level::Info, LevelFilter::Warn));
    assert!(!level_passes(Level::Error, LevelFilter::Off));
    assert!(level_passes(Level::Trace, LevelFilter::Trace));
}

#[test]
fn logger_without_targets_filters_by_level() {
    let logger = Logger::new(LevelFilter::Info);
    assert!(logger.enabled(Level::Info, "anything"));
    assert!(!logger.enabled(Level::Debug, "anything"));
}

#[test]
fn target_captures_the_level_set_before_it() {
    let logger = Logger::new(LevelFilter::Warn).with_level(LevelFilter::Info).with_target("dwall");
    assert!(logger.enabled(Level::Info, "dwall::config"));
    assert!(!logger.enabled(Level::Debug, "dwall::config"));
    // Targets that match no filter are not logged.
    assert!(!logger.enabled(Level::Error, "other"));

    let wrong_order = Logger::new(LevelFilter::Warn).with_target("dwall").with_level(LevelFilter::Info);
    assert!(!wrong_order.enabled(Level::Info, "dwall"));
}

#[test]
fn first_matching_target_decides() {
    let logger = Logger::new(LevelFilter::Warn)
        .with_target_level("dwall", LevelFilter::Error)
        .with_target_level("dwall::theme", LevelFilter::Trace);
    assert!(!logger.enabled(Level::Debug, "dwall::theme"));
    assert!(logger.enabled(Level::Error, "dwall::theme"));
}

#[test]
fn prefix_check() {
    assert!(starts_with("dwall::config", "dwall"));
    assert!(starts_with("abc", ""));
    assert!(!starts_with("dw", "dwall"));
    assert!(!starts_with("other", "dwall"));
}

#[test]
fn restore_color_keeps_the_base_color() {
    let cyan = "\x1b[36m";
    let msg = format!("a {BOLD}b{RESET} c");
    assert_eq!(restore_color(&msg, cyan), format!("a {BOLD}b{RESET}{cyan} c"));
    assert_eq!(restore_color("plain", cyan), "plain");
    assert_eq!(restore_color(&format!("{RESET}{RESET}"), "x"), format!("{RESET}x{RESET}x"));
}

#[test]
fn styled_key_wraps_in_bold_italics() {
    assert_eq!(styled_key("path"), format!("{BOLD}{ITALIC}path{RESET}"));
}

#[test]
fn level_labels_and_colors() {
    assert_eq!(level_label(Level::Warn), "WARN");
    assert_eq!(level_label(Level::Trace), "TRACE");
    assert_eq!(level_colors(Level::Error), (RED, "ERROR"));
    assert_eq!(level_colors(Level::Warn), (YELLOW, "WARN "));
    assert_eq!(level_colors(Level::Info), (CYAN, "INFO "));
}

#[test]
fn file_line_layout() {
    assert_eq!(
        file_line("2024-01-01T00:00:00Z", Level::Info, "dwall::config", "Reading configuration"),
        "2024-01-01T00:00:00Z INFO [dwall::config] Reading configuration\n"
    );
}

#[test]
fn terminal_text_layout() {
    let text = terminal_text("T", Level::Warn, &format!("a{RESET}b"), Some("src/config.rs"), Some(79));
    assert_eq!(
        text,
        format!(
            "  {DIM}T{RESET} {BOLD}{YELLOW}WARN {RESET} {YELLOW}a{RESET}{YELLOW}b{RESET}\n    {DIM}{ITALIC}at{RESET} src/config.rs:79\n"
        )
    );
    let unknown = terminal_text("T", Level::Info, "m", None, None);
    assert!(unknown.ends_with("<unknown>:0\n"));
}

#[test]
fn release_builds_do_not_log_below_info() {
    assert_eq!(log_level_from_setting(Some("debug"), false), LevelFilter::Info);
    assert_eq!(log_level_from_setting(Some("trace"), false), LevelFilter::Info);
    assert_eq!(log_level_from_setting(Some("error"), false), LevelFilter::Error);
    assert_eq!(log_level_from_setting(Some("trace"), true), LevelFilter::Trace);
}
