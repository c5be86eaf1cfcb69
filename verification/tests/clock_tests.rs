use be_low_level::clock::{wins_key, wins_key_for, CalendarDay, ClockReading};
use be_low_level::state::GameState;
use chrono::Datelike;

fn day(year: i32, month: u32, day: u32) -> CalendarDay {
    CalendarDay::new(year, month, day).unwrap()
}

fn reading(second_of_day: u32, nanosecond: u32) -> ClockReading {
    ClockReading::new(day(2024, 5, 17), second_of_day, nanosecond).unwrap()
}

#[test]
fn calendar_day_keeps_its_fields() {
    let d = day(2024, 2, 29);
    assert_eq!(d.year(), 2024);
    assert_eq!(d.month(), 2);
    assert_eq!(d.day(), 29);
}

#[test]
fn calendar_day_knows_leap_years() {
    assert!(CalendarDay::new(2024, 2, 29).is_some());
    assert!(CalendarDay::new(2023, 2, 29).is_none());
    assert!(CalendarDay::new(1900, 2, 29).is_none());
    assert!(CalendarDay::new(2000, 2, 29).is_some());
    assert!(CalendarDay::new(-4, 2, 29).is_some());
    assert!(CalendarDay::new(-100, 2, 29).is_none());
    assert!(CalendarDay::new(-400, 2, 29).is_some());
}

#[test]
fn calendar_day_rejects_what_the_calendar_lacks() {
    assert!(CalendarDay::new(2024, 0, 1).is_none());
    assert!(CalendarDay::new(2024, 13, 1).is_none());
    assert!(CalendarDay::new(2024, 1, 0).is_none());
    assert!(CalendarDay::new(2024, 1, 32).is_none());
    assert!(CalendarDay::new(2024, 4, 31).is_none());
    assert!(CalendarDay::new(2024, 6, 31).is_none());
    assert!(CalendarDay::new(2024, 9, 31).is_none());
    assert!(CalendarDay::new(2024, 11, 31).is_none());
    assert!(CalendarDay::new(2024, 12, 31).is_some());
    assert!(CalendarDay::new(262142, 12, 31).is_some());
    assert!(CalendarDay::new(262143, 1, 1).is_none());
    assert!(CalendarDay::new(-262143, 1, 1).is_some());
    assert!(CalendarDay::new(-262144, 12, 31).is_none());
}

#[test]
fn calendar_day_agrees_with_chrono_on_every_day_of_some_years() {
    for year in [-401, -400, -100, -4, -1, 0, 1, 1900, 1999, 2000, 2023, 2024, 2100, 9999, 10000] {
        for month in 0..14u32 {
            for d in 0..33u32 {
                let ours = CalendarDay::new(year, month, d).is_some();
                let theirs = chrono::NaiveDate::from_ymd_opt(year, month, d).is_some();
                assert_eq!(ours, theirs, "{year}-{month}-{d}");
            }
        }
    }
}

#[test]
fn wins_key_is_prefix_and_day_text() {
    assert_eq!(wins_key(&day(2024, 1, 15)), "wins:2024-01-15");
    assert_eq!(wins_key(&day(1999, 12, 31)), "wins:1999-12-31");
    assert_eq!(wins_key(&day(5, 3, 9)), "wins:0005-03-09");
}

#[test]
fn wins_key_follows_chrono_outside_four_digit_years() {
    assert_eq!(wins_key(&day(10000, 12, 31)), "wins:+10000-12-31");
    assert_eq!(wins_key(&day(-1, 1, 1)), "wins:-0001-01-01");
    let date = chrono::NaiveDate::from_ymd_opt(-262143, 1, 1).unwrap();
    assert_eq!(wins_key(&day(-262143, 1, 1)), format!("wins:{date}"));
}

#[test]
fn wins_key_for_prepends_the_prefix() {
    assert_eq!(wins_key_for("2024-01-15"), "wins:2024-01-15");
    assert_eq!(wins_key_for(""), "wins:");
    assert_eq!(wins_key_for("wins:"), "wins:wins:");
}

#[test]
fn clock_reading_rejects_times_outside_the_day() {
    let d = day(2024, 5, 17);
    assert!(ClockReading::new(d, 0, 0).is_some());
    assert!(ClockReading::new(d, 86399, 1_999_999_999).is_some());
    assert!(ClockReading::new(d, 86400, 0).is_none());
    assert!(ClockReading::new(d, 0, 2_000_000_000).is_none());
    assert!(ClockReading::new(d, u32::MAX, u32::MAX).is_none());
}

#[test]
fn clock_reading_keeps_its_day() {
    assert_eq!(reading(10, 20).today(), day(2024, 5, 17));
}

#[test]
fn seconds_until_midnight_counts_whole_seconds() {
    assert_eq!(reading(0, 0).seconds_until_midnight(), 86400);
    assert_eq!(reading(1, 0).seconds_until_midnight(), 86399);
    assert_eq!(reading(43200, 0).seconds_until_midnight(), 43200);
    assert_eq!(reading(86399, 0).seconds_until_midnight(), 1);
}

#[test]
fn seconds_until_midnight_rounds_toward_zero() {
    assert_eq!(reading(0, 1).seconds_until_midnight(), 86399);
    assert_eq!(reading(43200, 500_000_000).seconds_until_midnight(), 43199);
    assert_eq!(reading(86398, 999_999_999).seconds_until_midnight(), 1);
    assert_eq!(reading(86399, 1).seconds_until_midnight(), 0);
    assert_eq!(reading(86399, 999_999_999).seconds_until_midnight(), 0);
}

#[test]
fn seconds_until_midnight_within_a_leap_second() {
    assert_eq!(reading(86399, 1_000_000_000).seconds_until_midnight(), 0);
    assert_eq!(reading(86399, 1_500_000_000).seconds_until_midnight(), 0);
    assert_eq!(reading(86398, 1_500_000_000).seconds_until_midnight(), 0);
    assert_eq!(reading(86397, 1_999_999_999).seconds_until_midnight(), 1);
}

#[test]
fn seconds_until_midnight_matches_chrono_away_from_clock_changes() {
    for (second, nano) in [(0u32, 0u32), (1, 999), (3600, 250_000_000), (86399, 999_999_999)] {
        let now = chrono::NaiveDate::from_ymd_opt(2024, 5, 17)
            .unwrap()
            .and_hms_opt(0, 0, 0)
            .unwrap()
            + chrono::Duration::seconds(second as i64)
            + chrono::Duration::nanoseconds(nano as i64);
        let midnight = chrono::NaiveDate::from_ymd_opt(2024, 5, 18)
            .unwrap()
            .and_hms_opt(0, 0, 0)
            .unwrap();
        assert_eq!(
            reading(second, nano).seconds_until_midnight(),
            (midnight - now).num_seconds()
        );
    }
}

#[test]
fn game_state_starts_empty_on_todays_date() {
    let before = chrono::Utc::now().date_naive();
    let state = GameState::new();
    let after = chrono::Utc::now().date_naive();
    assert_eq!(state.wins_today, 0);
    let date = state.last_reset_date;
    let made = chrono::NaiveDate::from_ymd_opt(date.year(), date.month(), date.day()).unwrap();
    assert!(before <= made && made <= after);
    assert_eq!(made.year(), date.year());
}

#[test]
fn game_state_default_is_new() {
    let state = GameState::default();
    assert_eq!(state.wins_today, 0);
    assert!(CalendarDay::new(
        state.last_reset_date.year(),
        state.last_reset_date.month(),
        state.last_reset_date.day()
    )
    .is_some());
}
