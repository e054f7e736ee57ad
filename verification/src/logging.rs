//! The logger's filtering rules: levels, per-target filters, and the terminal styling of
//! messages.

use vstd::prelude::*;

use crate::date::{decimal, push_decimal, string_push};

verus! {

/// How much a logger lets through, from nothing to everything.
#[derive(Debug, Clone, Copy, PartialEq, Eq, Structural)]
pub enum LevelFilter {
    Off,
    Error,
    Warn,
    Info,
    Debug,
    Trace,
}

/// The level of a log record, from the most to the least severe.
#[derive(Debug, Clone, Copy, PartialEq, Eq, Structural)]
pub enum Level {
    Error,
    Warn,
    Info,
    Debug,
    Trace,
}

/// The verbosity rank of a filter: `Off` is 0, `Trace` is 5.
pub open spec fn filter_rank(filter: LevelFilter) -> int {
    match filter {
        LevelFilter::Off => 0,
        LevelFilter::Error => 1,
        LevelFilter::Warn => 2,
        LevelFilter::Info => 3,
        LevelFilter::Debug => 4,
        LevelFilter::Trace => 5,
    }
}

/// The verbosity rank of a level: `Error` is 1, `Trace` is 5.
pub open spec fn level_rank(level: Level) -> int {
    match level {
        Level::Error => 1,
        Level::Warn => 2,
        Level::Info => 3,
        Level::Debug => 4,
        Level::Trace => 5,
    }
}

/// Whether a record of `level` passes `filter` (`level <= filter`).
pub fn level_passes(level: Level, filter: LevelFilter) -> (passes: bool)
    ensures
        passes == (level_rank(level) <= filter_rank(filter)),
{
    let rank: u8 = match level {
        Level::Error => 1,
        Level::Warn => 2,
        Level::Info => 3,
        Level::Debug => 4,
        Level::Trace => 5,
    };
    let limit: u8 = match filter {
        LevelFilter::Off => 0,
        LevelFilter::Error => 1,
        LevelFilter::Warn => 2,
        LevelFilter::Info => 3,
        LevelFilter::Debug => 4,
        LevelFilter::Trace => 5,
    };
    rank <= limit
}

/// The level used when none is configured: everything in debug builds, warnings and
/// errors otherwise.
pub fn default_log_level(debug_build: bool) -> (filter: LevelFilter)
    ensures
        debug_build ==> filter == LevelFilter::Trace,
        !debug_build ==> filter == LevelFilter::Warn,
{
    if debug_build {
        LevelFilter::Trace
    } else {
        LevelFilter::Warn
    }
}

/// ASCII lower case of a character; other characters are kept.
pub open spec fn ascii_lower(c: char) -> char {
    if 'A' <= c <= 'Z' {
        ((c as int) + 32) as char
    } else {
        c
    }
}

/// Whether two texts are equal up to ASCII case.
pub open spec fn eq_ignore_ascii_case(a: Seq<char>, b: Seq<char>) -> bool {
    a.len() == b.len() && forall|i: int| 0 <= i < a.len() ==> ascii_lower(a[i]) == ascii_lower(b[i])
}

/// The filter whose name (`off`, `error`, `warn`, `info`, `debug`, `trace`) `text` is, up
/// to ASCII case.
pub open spec fn level_named(text: Seq<char>) -> Option<LevelFilter> {
    if eq_ignore_ascii_case(text, "off"@) {
        Some(LevelFilter::Off)
    } else if eq_ignore_ascii_case(text, "error"@) {
        Some(LevelFilter::Error)
    } else if eq_ignore_ascii_case(text, "warn"@) {
        Some(LevelFilter::Warn)
    } else if eq_ignore_ascii_case(text, "info"@) {
        Some(LevelFilter::Info)
    } else if eq_ignore_ascii_case(text, "debug"@) {
        Some(LevelFilter::Debug)
    } else if eq_ignore_ascii_case(text, "trace"@) {
        Some(LevelFilter::Trace)
    } else {
        None
    }
}

/// `log::LevelFilter::from_str`: the filter named by `text`, up to ASCII case.
#[verifier::external_body]
fn parse_level_filter(text: &str) -> (filter: Option<LevelFilter>)
    ensures
        filter == level_named(text@),
{
    match text.parse::<log::LevelFilter>() {
        Ok(log::LevelFilter::Off) => Some(LevelFilter::Off),
        Ok(log::LevelFilter::Error) => Some(LevelFilter::Error),
        Ok(log::LevelFilter::Warn) => Some(LevelFilter::Warn),
        Ok(log::LevelFilter::Info) => Some(LevelFilter::Info),
        Ok(log::LevelFilter::Debug) => Some(LevelFilter::Debug),
        Ok(log::LevelFilter::Trace) => Some(LevelFilter::Trace),
        Err(_) => None,
    }
}

/// The most a release build logs: nothing below `Info`.
pub open spec fn release_capped(filter: LevelFilter, debug_build: bool) -> LevelFilter {
    if !debug_build && filter_rank(filter) > filter_rank(LevelFilter::Info) {
        LevelFilter::Info
    } else {
        filter
    }
}

/// The level from a setting (such as an environment variable): the filter it names, or
/// the default when it is absent or names none. A release build does not log below
/// `Info`, so a more verbose setting is lowered to `Info` there.
pub fn log_level_from_setting(setting: Option<&str>, debug_build: bool) -> (filter: LevelFilter)
    ensures
        (setting matches Some(text) && level_named(text@) is Some) ==> Some(filter) == (
        match level_named(setting->0@) {
            Some(f) => Some(release_capped(f, debug_build)),
            None => None,
        }),
        !(setting matches Some(text) && level_named(text@) is Some) ==> (debug_build ==> filter
            == LevelFilter::Trace) && (!debug_build ==> filter == LevelFilter::Warn),
        !debug_build ==> filter_rank(filter) <= filter_rank(LevelFilter::Info),
{
    let named = match setting {
        Some(text) => parse_level_filter(text),
        None => None,
    };
    match named {
        Some(filter) => {
            let too_verbose = match filter {
                LevelFilter::Debug | LevelFilter::Trace => true,
                _ => false,
            };
            if !debug_build && too_verbose {
                LevelFilter::Info
            } else {
                filter
            }
        },
        None => default_log_level(debug_build),
    }
}

/// Whether `text` starts with `prefix`.
pub fn starts_with(text: &str, prefix: &str) -> (found: bool)
    ensures
        found == prefix@.is_prefix_of(text@),
{
    let n = prefix.unicode_len();
    let m = text.unicode_len();
    if n > m {
        return false;
    }
    let mut i: usize = 0;
    while i < n
        invariant
            n == prefix@.len(),
            m == text@.len(),
            n <= m,
            i <= n,
            forall|k: int| 0 <= k < i ==> prefix@[k] == text@[k],
        decreases n - i,
    {
        if prefix.get_char(i) != text.get_char(i) {
            return false;
        }
        i += 1;
    }
    proof {
        assert(text@.subrange(0, n as int) =~= prefix@);
    }
    true
}

/// The logger's level and per-target filters.
#[derive(Debug)]
pub struct Logger {
    level: LevelFilter,
    targets: Option<Vec<(String, LevelFilter)>>,
}

/// The views of `(target, filter)` pairs.
pub open spec fn target_views(targets: Seq<(String, LevelFilter)>) -> Seq<(Seq<char>, LevelFilter)> {
    targets.map_values(|t: (String, LevelFilter)| (t.0@, t.1))
}

/// The filter of the first target that `target` starts with.
pub open spec fn first_matching_filter(targets: Seq<(Seq<char>, LevelFilter)>, target: Seq<char>) -> Option<
    LevelFilter,
>
    decreases targets.len(),
{
    if targets.len() == 0 {
        None
    } else if targets[0].0.is_prefix_of(target) {
        Some(targets[0].1)
    } else {
        first_matching_filter(targets.drop_first(), target)
    }
}

/// Whether a record of `level` from `target` is logged: by the level when no targets are
/// set, else by the filter of the first target that `target` starts with (none: not
/// logged).
pub open spec fn record_enabled(
    level_filter: LevelFilter,
    targets: Option<Seq<(Seq<char>, LevelFilter)>>,
    level: Level,
    target: Seq<char>,
) -> bool {
    match targets {
        None => level_rank(level) <= filter_rank(level_filter),
        Some(ts) => match first_matching_filter(ts, target) {
            Some(f) => level_rank(level) <= filter_rank(f),
            None => false,
        },
    }
}

/// A filter added after the others decides the records of targets that start with its
/// name and that no earlier filter matches; a record an earlier filter matches keeps it.
pub proof fn lemma_added_target_filter(
    targets: Seq<(Seq<char>, LevelFilter)>,
    name: Seq<char>,
    filter: LevelFilter,
    target: Seq<char>,
)
    ensures
        first_matching_filter(targets.push((name, filter)), target) == match first_matching_filter(
            targets,
            target,
        ) {
            Some(f) => Some(f),
            None => if name.is_prefix_of(target) {
                Some(filter)
            } else {
                None
            },
        },
    decreases targets.len(),
{
    if targets.len() > 0 {
        assert(targets.push((name, filter)).drop_first() =~= targets.drop_first().push(
            (name, filter),
        ));
        assert(targets.push((name, filter))[0] == targets[0]);
        lemma_added_target_filter(targets.drop_first(), name, filter, target);
    } else {
        let empty = Seq::<(Seq<char>, LevelFilter)>::empty();
        assert(targets.push((name, filter)).drop_first() =~= empty);
        assert(first_matching_filter(empty, target) is None);
    }
}

/// A target filter takes the level the logger has when it is added: a record from a
/// target that starts with the name, and that no earlier filter matches, is logged exactly
/// when its level passes that level, whatever level the logger is given afterwards.
pub proof fn lemma_target_keeps_level_at_addition(
    earlier: Option<Seq<(Seq<char>, LevelFilter)>>,
    level_then: LevelFilter,
    level_later: LevelFilter,
    name: Seq<char>,
    record_level: Level,
    target: Seq<char>,
)
    requires
        name.is_prefix_of(target),
        earlier matches Some(ts) ==> first_matching_filter(ts, target) is None,
    ensures
        record_enabled(
            level_later,
            Some(
                match earlier {
                    Some(ts) => ts,
                    None => Seq::empty(),
                }.push((name, level_then)),
            ),
            record_level,
            target,
        ) == (level_rank(record_level) <= filter_rank(level_then)),
{
    let ts = match earlier {
        Some(ts) => ts,
        None => Seq::<(Seq<char>, LevelFilter)>::empty(),
    };
    lemma_added_target_filter(ts, name, level_then, target);
}

impl Logger {
    /// The level.
    pub closed spec fn level(&self) -> LevelFilter {
        self.level
    }

    /// The per-target filters, in the order they were added.
    pub closed spec fn targets(&self) -> Option<Seq<(Seq<char>, LevelFilter)>> {
        match self.targets {
            Some(ts) => Some(target_views(ts@)),
            None => None,
        }
    }

    /// A logger at `level` with no target filters.
    pub fn new(level: LevelFilter) -> (logger: Logger)
        ensures
            logger.level() == level,
            logger.targets() is None,
    {
        Logger { level, targets: None }
    }

    /// The logger with its level set to `level`.
    pub fn with_level(self, level: LevelFilter) -> (logger: Logger)
        ensures
            logger.level() == level,
            logger.targets() == self.targets(),
    {
        Logger { level, targets: self.targets }
    }

    /// The logger with a filter for `target` at the logger's current level.
    pub fn with_target(self, target: &str) -> (logger: Logger)
        ensures
            logger.level() == self.level(),
            logger.targets() == Some(
                match self.targets() {
                    Some(ts) => ts,
                    None => Seq::empty(),
                }.push((target@, self.level())),
            ),
    {
        let level = self.level;
        self.with_target_level(target, level)
    }

    /// The logger with a filter for `target` at `level`.
    pub fn with_target_level(self, target: &str, level: LevelFilter) -> (logger: Logger)
        ensures
            logger.level() == self.level(),
            logger.targets() == Some(
                match self.targets() {
                    Some(ts) => ts,
                    None => Seq::empty(),
                }.push((target@, level)),
            ),
    {
        let name = String::from_str(target);
        let targets = match self.targets {
            Some(mut ts) => {
                let ghost before = ts@;
                ts.push((name, level));
                proof {
                    assert(target_views(ts@) =~= target_views(before).push((target@, level)));
                }
                ts
            },
            None => {
                let mut ts: Vec<(String, LevelFilter)> = Vec::new();
                ts.push((name, level));
                proof {
                    assert(target_views(ts@) =~= Seq::<(Seq<char>, LevelFilter)>::empty().push(
                        (target@, level),
                    ));
                }
                ts
            },
        };
        Logger { level: self.level, targets: Some(targets) }
    }

    /// Whether a record of `level` from `target` is logged.
    pub fn enabled(&self, level: Level, target: &str) -> (enabled: bool)
        ensures
            enabled == record_enabled(self.level(), self.targets(), level, target@),
    {
        match &self.targets {
            None => level_passes(level, self.level),
            Some(targets) => {
                let ghost views = target_views(targets@);
                let mut i: usize = 0;
                proof {
                    assert(views.skip(0) =~= views);
                }
                while i < targets.len()
                    invariant
                        i <= targets@.len(),
                        views == target_views(targets@),
                        self.targets() == Some(views),
                        first_matching_filter(views, target@) == first_matching_filter(
                            views.skip(i as int),
                            target@,
                        ),
                    decreases targets@.len() - i,
                {
                    let ghost rest = views.skip(i as int);
                    proof {
                        assert(rest[0] == views[i as int]);
                        assert(views[i as int] == (targets@[i as int].0@, targets@[i as int].1));
                        assert(rest.drop_first() =~= views.skip(i + 1));
                    }
                    if starts_with(target, targets[i].0.as_str()) {
                        return level_passes(level, targets[i].1);
                    }
                    i += 1;
                }
                proof {
                    assert(views.skip(i as int) =~= Seq::<(Seq<char>, LevelFilter)>::empty());
                }
                false
            },
        }
    }
}

/// Terminal escape that resets the style.
pub const RESET: &'static str = "\x1b[0m";

/// Terminal escape for bold text.
pub const BOLD: &'static str = "\x1b[1m";

/// Terminal escape for italic text.
pub const ITALIC: &'static str = "\x1b[3m";

/// Terminal escape for dim text.
pub const DIM: &'static str = "\x1b[2m";

/// Terminal escape for red text.
pub const RED: &'static str = "\x1b[31m";

/// Terminal escape for yellow text.
pub const YELLOW: &'static str = "\x1b[33m";

/// Terminal escape for cyan text.
pub const CYAN: &'static str = "\x1b[36m";

/// Terminal escape for magenta text.
pub const MAGENTA: &'static str = "\x1b[35m";

/// Terminal escape for white text.
pub const WHITE: &'static str = "\x1b[37m";

/// A level's name in log files.
pub open spec fn level_name(level: Level) -> Seq<char> {
    match level {
        Level::Error => "ERROR"@,
        Level::Warn => "WARN"@,
        Level::Info => "INFO"@,
        Level::Debug => "DEBUG"@,
        Level::Trace => "TRACE"@,
    }
}

/// A level's color and its name padded to five places, as the terminal shows them.
pub open spec fn level_style(level: Level) -> (Seq<char>, Seq<char>) {
    match level {
        Level::Error => (RED@, "ERROR"@),
        Level::Warn => (YELLOW@, "WARN "@),
        Level::Info => (CYAN@, "INFO "@),
        Level::Debug => (WHITE@, "DEBUG"@),
        Level::Trace => (MAGENTA@, "TRACE"@),
    }
}

/// A level's name in log files.
pub fn level_label(level: Level) -> (name: &'static str)
    ensures
        name@ == level_name(level),
{
    match level {
        Level::Error => "ERROR",
        Level::Warn => "WARN",
        Level::Info => "INFO",
        Level::Debug => "DEBUG",
        Level::Trace => "TRACE",
    }
}

/// A level's color and padded name on the terminal.
pub fn level_colors(level: Level) -> (style: (&'static str, &'static str))
    ensures
        (style.0@, style.1@) == level_style(level),
{
    match level {
        Level::Error => (RED, "ERROR"),
        Level::Warn => (YELLOW, "WARN "),
        Level::Info => (CYAN, "INFO "),
        Level::Debug => (WHITE, "DEBUG"),
        Level::Trace => (MAGENTA, "TRACE"),
    }
}

/// A record as a line of a log file: `timestamp LEVEL [target] message`.
pub fn file_line(timestamp: &str, level: Level, target: &str, message: &str) -> (line: String)
    ensures
        line@ == timestamp@ + " "@ + level_name(level) + " ["@ + target@ + "] "@ + message@
            + "\n"@,
{
    let mut line = String::new();
    push_all(&mut line, timestamp);
    push_all(&mut line, " ");
    push_all(&mut line, level_label(level));
    push_all(&mut line, " [");
    push_all(&mut line, target);
    push_all(&mut line, "] ");
    push_all(&mut line, message);
    push_all(&mut line, "\n");
    proof {
        assert(line@ =~= timestamp@ + " "@ + level_name(level) + " ["@ + target@ + "] "@
            + message@ + "\n"@);
    }
    line
}

/// The source location of a record as the terminal shows it: the file, or `<unknown>`,
/// a colon, and the line, or 0.
pub open spec fn location_text(file: Option<Seq<char>>, line: Option<u32>) -> Seq<char> {
    (match file {
        Some(f) => f,
        None => "<unknown>"@,
    }) + ":"@ + decimal(
        match line {
            Some(n) => n as nat,
            None => 0,
        },
    )
}

/// A record as the terminal shows it: the dimmed timestamp, the level in bold in its
/// color, the message in that color (its style resets falling back to it), and below,
/// in dim italics, where the record comes from.
pub open spec fn terminal_entry(
    timestamp: Seq<char>,
    level: Level,
    message: Seq<char>,
    file: Option<Seq<char>>,
    line: Option<u32>,
) -> Seq<char> {
    let (color, label) = level_style(level);
    "  "@ + DIM@ + timestamp + RESET@ + " "@ + BOLD@ + color + label + RESET@ + " "@ + color
        + replace_all(message, RESET@, RESET@ + color) + RESET@ + "\n    "@ + DIM@ + ITALIC@
        + "at"@ + RESET@ + " "@ + location_text(file, line) + "\n"@
}

/// A record as the terminal shows it (see `terminal_entry`).
pub fn terminal_text(
    timestamp: &str,
    level: Level,
    message: &str,
    file: Option<&str>,
    line: Option<u32>,
) -> (entry: String)
    ensures
        entry@ == terminal_entry(
            timestamp@,
            level,
            message@,
            match file {
                Some(f) => Some(f@),
                None => None,
            },
            line,
        ),
{
    let (color, label) = level_colors(level);
    let restored = restore_color(message, color);
    let mut entry = String::new();
    push_all(&mut entry, "  ");
    push_all(&mut entry, DIM);
    push_all(&mut entry, timestamp);
    push_all(&mut entry, RESET);
    push_all(&mut entry, " ");
    push_all(&mut entry, BOLD);
    push_all(&mut entry, color);
    push_all(&mut entry, label);
    push_all(&mut entry, RESET);
    push_all(&mut entry, " ");
    push_all(&mut entry, color);
    push_all(&mut entry, restored.as_str());
    push_all(&mut entry, RESET);
    push_all(&mut entry, "\n    ");
    push_all(&mut entry, DIM);
    push_all(&mut entry, ITALIC);
    push_all(&mut entry, "at");
    push_all(&mut entry, RESET);
    push_all(&mut entry, " ");
    let ghost before_location = entry@;
    match file {
        Some(f) => push_all(&mut entry, f),
        None => push_all(&mut entry, "<unknown>"),
    }
    push_all(&mut entry, ":");
    let number = match line {
        Some(n) => n,
        None => 0,
    };
    push_decimal(&mut entry, number);
    push_all(&mut entry, "\n");
    proof {
        let file_view = match file {
            Some(f) => Some(f@),
            None => None,
        };
        let name = match file_view {
            Some(f) => f,
            None => "<unknown>"@,
        };
        assert(location_text(file_view, line) == name + ":"@ + decimal(number as nat));
        assert(entry@ =~= before_location + name + ":"@ + decimal(number as nat) + "\n"@);
        assert(entry@ =~= terminal_entry(timestamp@, level, message@, file_view, line));
    }
    entry
}

/// `text` with every occurrence of `pattern`, scanning from the left without overlap,
/// replaced by `replacement`.
pub open spec fn replace_all(text: Seq<char>, pattern: Seq<char>, replacement: Seq<char>) -> Seq<
    char,
>
    decreases text.len(),
{
    if text.len() == 0 {
        Seq::empty()
    } else if pattern.len() > 0 && pattern.is_prefix_of(text) {
        replacement + replace_all(text.skip(pattern.len() as int), pattern, replacement)
    } else {
        seq![text[0]] + replace_all(text.skip(1), pattern, replacement)
    }
}

/// Whether `pattern` occurs in `text` at position `at`.
fn occurs_at(text: &str, n: usize, at: usize, pattern: &str) -> (found: bool)
    requires
        n == text@.len(),
        at <= n,
    ensures
        found == pattern@.is_prefix_of(text@.skip(at as int)),
{
    let m = pattern.unicode_len();
    if m > n - at {
        return false;
    }
    let mut k: usize = 0;
    while k < m
        invariant
            m == pattern@.len(),
            n == text@.len(),
            at + m <= n,
            k <= m,
            forall|j: int| 0 <= j < k ==> pattern@[j] == text@[at + j],
        decreases m - k,
    {
        if pattern.get_char(k) != text.get_char(at + k) {
            proof {
                assert(text@.skip(at as int)[k as int] == text@[at + k]);
            }
            return false;
        }
        k += 1;
    }
    proof {
        assert(text@.skip(at as int).subrange(0, m as int) =~= pattern@);
    }
    true
}

/// Appends all of `tail` to `text`.
fn push_all(text: &mut String, tail: &str)
    ensures
        final(text)@ == old(text)@ + tail@,
{
    let n = tail.unicode_len();
    let mut i: usize = 0;
    while i < n
        invariant
            n == tail@.len(),
            i <= n,
            text@ == old(text)@ + tail@.take(i as int),
        decreases n - i,
    {
        string_push(text, tail.get_char(i));
        proof {
            assert(tail@.take(i + 1) =~= tail@.take(i as int).push(tail@[i as int]));
        }
        i += 1;
    }
    proof {
        assert(tail@.take(n as int) =~= tail@);
    }
}

/// A message whose style resets fall back to `base_color` instead of the plain style, so
/// that the rest of the message keeps the level's color.
pub fn restore_color(text: &str, base_color: &str) -> (restored: String)
    ensures
        restored@ == replace_all(text@, RESET@, RESET@ + base_color@),
{
    let n = text.unicode_len();
    let m = RESET.unicode_len();
    let mut restored = String::new();
    let mut i: usize = 0;
    proof {
        assert(text@.skip(0) =~= text@);
        assert(restored@ + replace_all(text@, RESET@, RESET@ + base_color@) =~= replace_all(
            text@,
            RESET@,
            RESET@ + base_color@,
        ));
    }
    while i < n
        invariant
            n == text@.len(),
            m == RESET@.len(),
            i <= n,
            replace_all(text@, RESET@, RESET@ + base_color@) == restored@ + replace_all(
                text@.skip(i as int),
                RESET@,
                RESET@ + base_color@,
            ),
        decreases n - i,
    {
        let ghost before = restored@;
        let ghost rest = text@.skip(i as int);
        if m > 0 && occurs_at(text, n, i, RESET) {
            push_all(&mut restored, RESET);
            push_all(&mut restored, base_color);
            proof {
                assert(rest.skip(m as int) =~= text@.skip(i + m));
                assert(restored@ =~= before + (RESET@ + base_color@));
            }
            i += m;
        } else {
            string_push(&mut restored, text.get_char(i));
            proof {
                assert(rest[0] == text@[i as int]);
                assert(rest.skip(1) =~= text@.skip(i + 1));
                assert(restored@ =~= before + seq![rest[0]]);
            }
            i += 1;
        }
        proof {
            assert(before + replace_all(rest, RESET@, RESET@ + base_color@) =~= restored@
                + replace_all(text@.skip(i as int), RESET@, RESET@ + base_color@));
        }
    }
    proof {
        assert(text@.skip(n as int) =~= Seq::<char>::empty());
        assert(restored@ + Seq::<char>::empty() =~= restored@);
    }
    restored
}

/// A field name in bold italics, as debug output shows it.
pub fn styled_key(key: &str) -> (styled: String)
    ensures
        styled@ == BOLD@ + ITALIC@ + key@ + RESET@,
{
    let mut styled = String::new();
    push_all(&mut styled, BOLD);
    push_all(&mut styled, ITALIC);
    push_all(&mut styled, key);
    push_all(&mut styled, RESET);
    proof {
        assert(styled@ =~= BOLD@ + ITALIC@ + key@ + RESET@);
    }
    styled
}

} // verus!
