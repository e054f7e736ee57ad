use dwall::date::Date;
use dwall::month::Month;
use dwall::random_mode::{todays_random_theme, RandomSelection};
use dwall::random_selector::{filter_themes_by_pool, DailyRandomThemeSelector, SimpleRng};

fn date(year: i32, month: Month, day: u8) -> Date {
    Date::from_calendar_date(year, month, day).unwrap()
}

fn names(items: &[&str]) -> Vec<String> {
    items.iter().map(|s| s.to_string()).collect()
}

fn rng_deterministic() {
    let mut rng1 = SimpleRng::new(12345);
    let mut rng2 = SimpleRng::new(12345);
    for _ in 0..10 {
        assert_eq!(rng1.next(), rng2.next());
    }
}

fn rng_shuffle() {
    let mut rng = SimpleRng::new(42);
    let mut items = vec![1, 2, 3, 4, 5];
    rng.shuffle(&mut items);
    let mut sorted = items.clone();
    sorted.sort();
    assert_eq!(sorted, vec![1, 2, 3, 4, 5]);
}

fn pool_empty_pool() {
    let available = names(&["theme1", "theme2", "theme3"]);
    let pool: Option<Vec<String>> = Some(vec![]);
    let themes_to_select = filter_themes_by_pool(&available, pool.as_ref());
    assert!(themes_to_select.is_empty());
}

fn pool_with_valid_pool() {
    let available = names(&["theme1", "theme2", "theme3"]);
    let pool = Some(names(&["theme1", "theme3"]));
    let themes_to_select = filter_themes_by_pool(&available, pool.as_ref());
    assert_eq!(themes_to_select.len(), 2);
    assert!(themes_to_select.contains(&"theme1".to_string()));
    assert!(themes_to_select.contains(&"theme3".to_string()));
}

fn pool_has_invalid_themes() {
    let available = names(&["theme1", "theme2"]);
    let pool = Some(names(&["theme1", "nonexistent"]));
    let themes_to_select = filter_themes_by_pool(&available, pool.as_ref());
    assert_eq!(themes_to_select.len(), 1);
    assert_eq!(themes_to_select[0], "theme1");
}

fn pool_none_uses_all() {
    let available = names(&["theme1", "theme2", "theme3"]);
    let pool: Option<Vec<String>> = None;
    let themes_to_select = filter_themes_by_pool(&available, pool.as_ref());
    assert_eq!(themes_to_select.len(), 3);
    assert_eq!(themes_to_select.len(), available.len());
    for (selected, avail) in themes_to_select.iter().zip(available.iter()) {
        assert_eq!(selected, avail);
    }
}

fn pool_empty_available() {
    let available: Vec<String> = vec![];
    let pool = Some(names(&["theme1"]));
    let themes_to_select = filter_themes_by_pool(&available, pool.as_ref());
    assert!(themes_to_select.is_empty());
}

fn pool_case_sensitive() {
    let available = names(&["Theme1", "theme1"]);
    let pool = Some(names(&["theme1"]));
    let themes_to_select = filter_themes_by_pool(&available, pool.as_ref());
    assert_eq!(themes_to_select.len(), 1);
    assert_eq!(themes_to_select[0], "theme1");
}

#[test]
fn random_selector_test_simple_rng_deterministic() {
    rng_deterministic();
}

#[test]
fn random_selector_test_simple_rng_shuffle() {
    rng_shuffle();
}

#[test]
fn random_selector_test_pool_filtering_empty_pool() {
    pool_empty_pool();
}

#[test]
fn random_selector_test_pool_filtering_with_valid_pool() {
    pool_with_valid_pool();
}

#[test]
fn random_selector_test_pool_filtering_pool_has_invalid_themes() {
    pool_has_invalid_themes();
}

#[test]
fn random_selector_test_pool_filtering_none_pool_uses_all() {
    pool_none_uses_all();
}

#[test]
fn random_selector_test_pool_filtering_empty_available() {
    pool_empty_available();
}

#[test]
fn random_selector_test_pool_filtering_case_sensitive() {
    pool_case_sensitive();
}

#[test]
fn theme_test_simple_rng_deterministic() {
    rng_deterministic();
}

#[test]
fn theme_test_simple_rng_shuffle() {
    rng_shuffle();
}

#[test]
fn theme_test_pool_filtering_empty_pool() {
    pool_empty_pool();
}

#[test]
fn theme_test_pool_filtering_with_valid_pool() {
    pool_with_valid_pool();
}

#[test]
fn theme_test_pool_filtering_pool_has_invalid_themes() {
    pool_has_invalid_themes();
}

#[test]
fn theme_test_pool_filtering_none_pool_uses_all() {
    pool_none_uses_all();
}

#[test]
fn theme_test_pool_filtering_empty_available() {
    pool_empty_available();
}

#[test]
fn theme_test_pool_filtering_case_sensitive() {
    pool_case_sensitive();
}

fn selector_needs_switch() {
    let selector = DailyRandomThemeSelector::new();
    let today = date(2026, Month::August, 1);
    assert!(selector.needs_switch(&today));
}

fn selector_no_switch_same_day() {
    let mut selector = DailyRandomThemeSelector::new();
    let today = date(2026, Month::August, 1);
    selector.mark_applied(&today);
    assert!(!selector.needs_switch(&today));
}

fn selector_switch_new_day() {
    let mut selector = DailyRandomThemeSelector::new();
    let today = date(2026, Month::August, 1);
    let tomorrow = date(2026, Month::August, 2);
    selector.mark_applied(&today);
    assert!(selector.needs_switch(&tomorrow));
}

fn selector_select_next() {
    let mut selector = DailyRandomThemeSelector::new();
    let themes = names(&["theme1", "theme2", "theme3"]);
    let selected = selector.select_next(&themes);
    assert!(selected.is_some());
    assert!(themes.contains(&selected.unwrap()));
}

fn selector_empty_themes() {
    let mut selector = DailyRandomThemeSelector::new();
    let themes: Vec<String> = vec![];
    assert!(selector.select_next(&themes).is_none());
}

fn selector_no_repeat_until_all_used() {
    let mut selector = DailyRandomThemeSelector::new();
    let themes = names(&["a", "b", "c"]);
    let mut selected = Vec::new();
    for _ in 0..3 {
        if let Some(theme) = selector.select_next(&themes) {
            selected.push(theme);
        }
    }
    let mut sorted = selected.clone();
    sorted.sort();
    assert_eq!(sorted, vec!["a", "b", "c"]);
    let next = selector.select_next(&themes);
    assert!(next.is_some());
}

#[test]
fn random_selector_test_daily_selector_needs_switch() {
    selector_needs_switch();
}

#[test]
fn random_selector_test_daily_selector_no_switch_same_day() {
    selector_no_switch_same_day();
}

#[test]
fn random_selector_test_daily_selector_switch_new_day() {
    selector_switch_new_day();
}

#[test]
fn random_selector_test_daily_selector_select_next() {
    selector_select_next();
}

#[test]
fn random_selector_test_daily_selector_empty_themes() {
    selector_empty_themes();
}

#[test]
fn random_selector_test_daily_selector_no_repeat_until_all_used() {
    selector_no_repeat_until_all_used();
}

#[test]
fn theme_test_daily_selector_needs_switch() {
    selector_needs_switch();
}

#[test]
fn theme_test_daily_selector_no_switch_same_day() {
    selector_no_switch_same_day();
}

#[test]
fn theme_test_daily_selector_switch_new_day() {
    selector_switch_new_day();
}

#[test]
fn theme_test_daily_selector_select_next() {
    selector_select_next();
}

#[test]
fn theme_test_daily_selector_empty_themes() {
    selector_empty_themes();
}

#[test]
fn theme_test_daily_selector_no_repeat_until_all_used() {
    selector_no_repeat_until_all_used();
}

#[test]
fn rng_known_first_value() {
    // xorshift64 step: x ^= x << 13; x ^= x >> 7; x ^= x << 17.
    let mut rng = SimpleRng::new(1);
    let mut x: u64 = 1;
    x ^= x << 13;
    x ^= x >> 7;
    x ^= x << 17;
    assert_eq!(rng.next(), x);
}

#[test]
fn rng_zero_seed_is_not_stuck() {
    let mut rng = SimpleRng::new(0);
    assert_ne!(rng.next(), 0);
}

#[test]
fn random_selection_formats_the_date() {
    let selection = RandomSelection::new(&date(2026, Month::August, 1), "theme".to_string());
    assert_eq!(selection.date, "2026-08-01");
    assert_eq!(selection.theme_id, "theme");
    let early = RandomSelection::new(&date(987, Month::March, 9), "t".to_string());
    assert_eq!(early.date, "0987-03-09");
}

#[test]
fn random_mode_draws_once_a_day() {
    let mut state = None;
    let available = names(&["a", "b", "c"]);
    let today = date(2026, Month::August, 1);
    let first = todays_random_theme(&mut state, &today, &available, None).unwrap();
    assert!(available.contains(&first));
    // The same day keeps the theme.
    let again = todays_random_theme(&mut state, &today, &available, None).unwrap();
    assert_eq!(first, again);
    // The next day draws another theme of the round.
    let tomorrow = date(2026, Month::August, 2);
    let second = todays_random_theme(&mut state, &tomorrow, &available, None).unwrap();
    assert!(available.contains(&second));
    assert_ne!(first, second);
}

#[test]
fn random_mode_respects_the_pool() {
    let mut state = None;
    let available = names(&["a", "b", "c"]);
    let pool = names(&["b"]);
    let today = date(2026, Month::August, 1);
    assert_eq!(todays_random_theme(&mut state, &today, &available, Some(&pool)), Some("b".to_string()));
}

#[test]
fn random_mode_without_candidates_draws_nothing() {
    let mut state = None;
    let available: Vec<String> = vec![];
    let today = date(2026, Month::August, 1);
    assert_eq!(todays_random_theme(&mut state, &today, &available, None), None);
    assert!(state.is_none());
    let available = names(&["a"]);
    let pool = names(&["z"]);
    assert_eq!(todays_random_theme(&mut state, &today, &available, Some(&pool)), None);
    assert!(state.is_none());
}

#[test]
fn selector_skips_themes_no_longer_available() {
    let mut selector = DailyRandomThemeSelector::new();
    let first = vec!["a".to_string(), "b".to_string()];
    assert!(selector.select_next(&first).is_some());
    let now = vec!["z".to_string()];
    assert_eq!(selector.select_next(&now), Some("z".to_string()));
}
