use time_humanize::{Accuracy, HumanTime};

#[test]
fn test_duration_from_system_time() {
    let now_secs: u64 = 1_700_000_000;
    let ht = HumanTime::from_duration_since_timestamp(now_secs, now_secs);
    assert_eq!("now", ht.locale_en(Accuracy::Rough));
}

#[test]
fn test_duration_from_system_time_since_epoch() {
    // An instant a little over fifty-one years after the epoch.
    let now_secs: u64 = 1_609_459_200;
    let ht = HumanTime::from_duration_since_timestamp(0, now_secs);
    assert_eq!("51 years ago", ht.locale_en(Accuracy::Rough));
}

#[test]
fn test_add_human_time() {
    let ht1 = HumanTime::from_seconds(30);
    let ht2 = HumanTime::from_seconds(30);

    let result = ht1.add(ht2);
    assert_eq!(result.secs(), 60);
    assert!(result.is_positive());
}

#[test]
fn test_add_human_time_neg() {
    let ht1 = HumanTime::from_seconds(30);
    let ht2 = HumanTime::from_seconds(-40);

    let result = ht1.add(ht2);
    assert_eq!(result.secs(), 10);
    assert!(!result.is_positive());
}

#[test]
fn test_sub_human_time() {
    let ht1 = HumanTime::from_seconds(30);
    let ht2 = HumanTime::from_seconds(30);

    let result = ht1.sub(ht2);
    assert_eq!(result.secs(), 0);
    assert!(result.is_positive());
}

#[test]
fn test_sub_human_time_neg() {
    let ht1 = HumanTime::from_seconds(30);
    let ht2 = HumanTime::from_seconds(-40);

    let result = ht1.add(ht2);
    assert_eq!(result.secs(), 10);
    assert!(!result.is_positive());
}
