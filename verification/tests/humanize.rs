use std::time::Duration;
use time_humanize::{Accuracy, HumanTime, Humanize};

fn rough_back(seconds: i64) -> String {
    HumanTime::from_seconds(-seconds).locale_en(Accuracy::Rough)
}

#[test]
fn humanize_now() {
    assert_eq!("now", Duration::from_secs(0).humanize());
}

#[test]
fn humanize_plus_5s() {
    assert_eq!("now", Duration::from_secs(5).humanize());
}

#[test]
fn humanize_minus_5s() {
    assert_eq!("now", rough_back(5));
}

#[test]
fn humanize_plus_15s() {
    assert_eq!("in 15 seconds", Duration::from_secs(15).humanize());
}

#[test]
fn humanize_minus_15s() {
    assert_eq!("15 seconds ago", rough_back(15));
}

#[test]
fn humanize_plus_95s() {
    assert_eq!("in 2 minutes", Duration::from_secs(95).humanize());
}

#[test]
fn humanize_minus_95s() {
    assert_eq!("2 minutes ago", rough_back(95));
}

#[test]
fn humanize_plus_125s() {
    assert_eq!("in 2 minutes", Duration::from_secs(125).humanize());
}

#[test]
fn humanize_minus_125s() {
    assert_eq!("2 minutes ago", rough_back(125));
}

#[test]
fn humanize_plus_31m() {
    assert_eq!("in 31 minutes", Duration::from_secs(31 * 60).humanize());
}

#[test]
fn humanize_minus_31m() {
    assert_eq!("31 minutes ago", rough_back(31 * 60));
}

#[test]
fn humanize_plus_45m() {
    assert_eq!("in 45 minutes", Duration::from_secs(45 * 60).humanize());
}

#[test]
fn humanize_minus_45m() {
    assert_eq!("45 minutes ago", rough_back(45 * 60));
}

#[test]
fn humanize_plus_46m() {
    assert_eq!("in an hour", Duration::from_secs(46 * 60).humanize());
}

#[test]
fn humanize_minus_46m() {
    assert_eq!("an hour ago", rough_back(46 * 60));
}

#[test]
fn humanize_plus_1h() {
    assert_eq!("in an hour", Duration::from_secs(60 * 60).humanize());
}

#[test]
fn humanize_minus_1h() {
    assert_eq!("an hour ago", rough_back(60 * 60));
}

#[test]
fn humanize_plus_12h() {
    assert_eq!("in 12 hours", Duration::from_secs(12 * 60 * 60).humanize());
}

#[test]
fn humanize_minus_12h() {
    assert_eq!("12 hours ago", rough_back(12 * 60 * 60));
}

#[test]
fn humanize_plus_23h() {
    assert_eq!("in a day", Duration::from_secs(23 * 60 * 60).humanize());
}

#[test]
fn humanize_minus_23h() {
    assert_eq!("a day ago", rough_back(23 * 60 * 60));
}

#[test]
fn humanize_plus_26h() {
    assert_eq!("in a day", Duration::from_secs(26 * 60 * 60).humanize());
}

#[test]
fn humanize_minus_26h() {
    assert_eq!("a day ago", rough_back(26 * 60 * 60));
}

#[test]
fn humanize_plus_1d() {
    assert_eq!("in a day", Duration::from_secs(24 * 60 * 60).humanize());
}

#[test]
fn humanize_minus_1d() {
    assert_eq!("a day ago", rough_back(24 * 60 * 60));
}

#[test]
fn humanize_plus_2d() {
    assert_eq!("in 2 days", Duration::from_secs(2 * 24 * 60 * 60).humanize());
}

#[test]
fn humanize_minus_2d() {
    assert_eq!("2 days ago", rough_back(2 * 24 * 60 * 60));
}
