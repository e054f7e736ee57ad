use dwall::cache::Cache;
use dwall::color_scheme::ThresholdConfig;
use dwall::date::Date;
use dwall::month::{is_leap_year, DateTimeError, Month};
use dwall::solar::Position;

#[test]
fn month_numbers_round_trip() {
    for n in 1..=12u8 {
        assert_eq!(Month::try_from_u8(n).unwrap().as_u8(), n);
        assert_eq!(Month::from_u8_unchecked(n).as_u8(), n);
    }
    assert_eq!(Month::try_from_u8(0), Err(DateTimeError::InvalidMonth(0)));
    assert_eq!(Month::try_from_u8(13), Err(DateTimeError::InvalidMonth(13)));
}

#[test]
fn month_lengths() {
    assert_eq!(Month::February.days_in_month(2024), 29);
    assert_eq!(Month::February.days_in_month(2023), 28);
    assert_eq!(Month::February.days_in_month(1900), 28);
    assert_eq!(Month::February.days_in_month(2000), 29);
    assert_eq!(Month::April.days_in_month(2023), 30);
    assert_eq!(Month::December.days_in_month(2023), 31);
    assert!(is_leap_year(2024));
    assert!(!is_leap_year(2100));
}

#[test]
fn dates_are_checked_and_formatted() {
    let d = Date::from_calendar_date(2026, Month::August, 1).unwrap();
    assert_eq!((d.year(), d.month(), d.day()), (2026, Month::August, 1));
    assert_eq!(d.format_iso(), "2026-08-01");
    assert_eq!(Date::from_calendar_date(2023, Month::February, 29), Err(DateTimeError::InvalidDay(29)));
    assert_eq!(Date::from_calendar_date(10000, Month::January, 1), Err(DateTimeError::InvalidYear(10000)));
    assert_eq!(Date::from_calendar_date(-5, Month::May, 3).unwrap().format_iso(), "-005-05-03");
}

#[test]
fn cache_returns_what_was_stored_until_it_expires() {
    let mut cache = Cache::new();
    let p = Position::from_raw_position(1, 2, 3);
    cache.set(p, 10, 100);
    let got: Option<Position> = cache.get(105);
    assert_eq!(got.map(|q| q.latitude()), Some(1));
    // Other types live in other slots.
    assert!(cache.get::<ThresholdConfig>(105).is_none());
    assert!(cache.get::<Position>(110).is_none());
    // The expired entry was removed.
    assert!(cache.get::<Position>(105).is_none());
}
