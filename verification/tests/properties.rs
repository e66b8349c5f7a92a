use std::time::Duration;
use time_humanize::{Accuracy, HumanTime, Humanize, Tense};

fn rough(ht: HumanTime) -> String {
    ht.locale_en(Accuracy::Rough)
}

fn precise(ht: HumanTime) -> String {
    ht.to_text_en(Accuracy::Precise, Tense::Present)
}

// Every rough threshold, tested at the boundary and just above it.

#[test]
fn boundary_now_to_seconds() {
    assert_eq!("now", rough(HumanTime::from_seconds(10)));
    assert_eq!("in 11 seconds", rough(HumanTime::from_seconds(11)));
}

#[test]
fn boundary_seconds_to_one_minute() {
    assert_eq!("in 45 seconds", rough(HumanTime::from_seconds(45)));
    assert_eq!("in a minute", rough(HumanTime::from_seconds(46)));
}

#[test]
fn boundary_one_minute_to_minutes() {
    assert_eq!("in a minute", rough(HumanTime::from_seconds(90)));
    assert_eq!("in 2 minutes", rough(HumanTime::from_seconds(91)));
}

#[test]
fn boundary_minutes_to_one_hour() {
    assert_eq!("in 45 minutes", rough(HumanTime::from_seconds(45 * 60)));
    assert_eq!("in an hour", rough(HumanTime::from_seconds(45 * 60 + 1)));
}

#[test]
fn boundary_one_hour_to_hours() {
    assert_eq!("in an hour", rough(HumanTime::from_seconds(90 * 60)));
    assert_eq!("in 2 hours", rough(HumanTime::from_seconds(90 * 60 + 1)));
}

#[test]
fn boundary_hours_to_one_day() {
    assert_eq!("in 22 hours", rough(HumanTime::from_seconds(22 * 3600)));
    assert_eq!("in a day", rough(HumanTime::from_seconds(22 * 3600 + 1)));
}

#[test]
fn boundary_one_day_to_days() {
    assert_eq!("in a day", rough(HumanTime::from_seconds(36 * 3600)));
    assert_eq!("in 2 days", rough(HumanTime::from_seconds(36 * 3600 + 1)));
}

#[test]
fn boundary_days_to_one_week() {
    let b: i64 = 6 * 86400 + 12 * 3600;
    assert_eq!("in 6 days", rough(HumanTime::from_seconds(b)));
    assert_eq!("in a week", rough(HumanTime::from_seconds(b + 1)));
}

#[test]
fn boundary_one_week_to_weeks() {
    let b: i64 = 10 * 86400 + 12 * 3600;
    assert_eq!("in a week", rough(HumanTime::from_seconds(b)));
    assert_eq!("in 2 weeks", rough(HumanTime::from_seconds(b + 1)));
}

#[test]
fn boundary_weeks_to_one_month() {
    let b: i64 = 29 * 86400;
    assert_eq!("in 4 weeks", rough(HumanTime::from_seconds(b)));
    assert_eq!("in a month", rough(HumanTime::from_seconds(b + 1)));
}

#[test]
fn boundary_one_month_to_months() {
    let b: i64 = 45 * 86400;
    assert_eq!("in a month", rough(HumanTime::from_seconds(b)));
    assert_eq!("in 2 months", rough(HumanTime::from_seconds(b + 1)));
}

#[test]
fn boundary_months_to_one_year() {
    let b: i64 = 345 * 86400;
    assert_eq!("in 11 months", rough(HumanTime::from_seconds(b)));
    assert_eq!("in a year", rough(HumanTime::from_seconds(b + 1)));
}

#[test]
fn boundary_one_year_to_years() {
    let b: i64 = 547 * 86400;
    assert_eq!("in a year", rough(HumanTime::from_seconds(b)));
    assert_eq!("in 2 years", rough(HumanTime::from_seconds(b + 1)));
}

// The precise decomposition skips zero units and joins with commas and "and".

#[test]
fn precise_year_day_second() {
    let ht = HumanTime::from_seconds(365 * 86400 + 86400 + 1);
    assert_eq!("1 year, 1 day and 1 second", precise(ht));
}

#[test]
fn precise_zero() {
    assert_eq!("0 seconds", precise(HumanTime::from_seconds(0)));
}

#[test]
fn precise_single_unit() {
    assert_eq!("2 minutes", precise(HumanTime::from_seconds(120)));
}

#[test]
fn precise_two_units() {
    assert_eq!("1 minute and 1 second", precise(HumanTime::from_seconds(61)));
}

#[test]
fn precise_full_clock() {
    assert_eq!(
        "1 hour, 1 minute and 1 second",
        precise(HumanTime::from_seconds(3661))
    );
}

#[test]
fn precise_subsecond_units() {
    let ht = HumanTime::from_duration(&Duration::new(0, 1_234_567));
    assert_eq!("1 ms, 234 µs and 567 ns", precise(ht));
}

#[test]
fn precise_second_and_millis() {
    let ht = HumanTime::from_duration(&Duration::new(1, 500_000_000));
    assert_eq!("1 second and 500 ms", precise(ht));
}

#[test]
fn precise_default_tense() {
    let ht = HumanTime::from_seconds(365 * 86400 + 86400 + 1);
    assert_eq!(
        "in 1 year, 1 day and 1 second",
        ht.locale_en(Accuracy::Precise)
    );
    let back = HumanTime::from_seconds(-(365 * 86400 + 86400 + 1));
    assert_eq!(
        "1 year, 1 day and 1 second ago",
        back.locale_en(Accuracy::Precise)
    );
}

#[test]
fn precise_zero_is_future() {
    // At precise accuracy the present tense is never selected, and a zero
    // span counts as positive, so the phrase is framed as future.
    assert_eq!("in 0 seconds", HumanTime::from_seconds(0).locale_en(Accuracy::Precise));
}

// A zero span comes from a zero count, and only from one.

#[test]
fn zero_from_every_constructor() {
    assert!(HumanTime::from_seconds(0).is_zero());
    assert!(HumanTime::from_minutes(0).is_zero());
    assert!(HumanTime::from_hours(0).is_zero());
    assert!(HumanTime::from_days(0).is_zero());
    assert!(HumanTime::from_weeks(0).is_zero());
    assert!(HumanTime::from_months(0).is_zero());
    assert!(HumanTime::from_years(0).is_zero());
    assert!(HumanTime::now().is_zero());
}

#[test]
fn nonzero_from_nonzero_counts() {
    assert!(!HumanTime::from_seconds(1).is_zero());
    assert!(!HumanTime::from_seconds(-1).is_zero());
    assert!(!HumanTime::from_minutes(-1).is_zero());
    assert!(!HumanTime::from_years(3).is_zero());
}

// The sign rule: zero is positive, and the constructors keep the magnitude.

#[test]
fn sign_and_magnitude() {
    let pos = HumanTime::from_seconds(90);
    assert!(pos.is_positive());
    assert_eq!(90, pos.secs());
    assert_eq!(0, pos.subsec_nanos());

    let neg = HumanTime::from_seconds(-90);
    assert!(!neg.is_positive());
    assert_eq!(90, neg.secs());

    assert!(HumanTime::from_seconds(0).is_positive());
    assert!(HumanTime::from_minutes(-3).sub(HumanTime::from_minutes(-3)).is_positive());
}

#[test]
fn from_duration_keeps_the_parts() {
    let ht = HumanTime::from_duration(&Duration::new(2, 750_000_000));
    assert!(ht.is_positive());
    assert_eq!(2, ht.secs());
    assert_eq!(750_000_000, ht.subsec_nanos());
    assert!(HumanTime::from_duration(&Duration::new(0, 0)).is_zero());
}

#[test]
fn add_drops_subseconds() {
    let ht = HumanTime::from_duration(&Duration::new(1, 900_000_000));
    let sum = ht.add(HumanTime::now());
    assert_eq!(1, sum.secs());
    assert_eq!(0, sum.subsec_nanos());
}

#[test]
fn humanize_subsecond_is_now() {
    assert_eq!("now", Duration::from_millis(1500).humanize());
}

// Explicit tense framing through the low-level entry point.

#[test]
fn explicit_tenses() {
    let ht = HumanTime::from_seconds(15);
    assert_eq!("15 seconds", ht.to_text_en(Accuracy::Rough, Tense::Present));
    assert_eq!("in 15 seconds", ht.to_text_en(Accuracy::Rough, Tense::Future));
    assert_eq!("15 seconds ago", ht.to_text_en(Accuracy::Rough, Tense::Past));
}

// Timestamp conversions against an injected current instant.

#[test]
fn unix_timestamp_round() {
    let now_secs: u64 = 1_000;
    assert_eq!(1_100, HumanTime::from_seconds(100).to_unix_timestamp(now_secs));
    assert_eq!(900, HumanTime::from_seconds(-100).to_unix_timestamp(now_secs));
    assert_eq!(1_000, HumanTime::now().to_unix_timestamp(now_secs));
}

#[test]
fn duration_since_timestamp_is_past() {
    let ht = HumanTime::from_duration_since_timestamp(500, 1_500);
    assert!(!ht.is_positive());
    assert_eq!(1_000, ht.secs());
    assert_eq!("16 minutes ago", rough(ht));
}
