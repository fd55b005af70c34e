use lazer_stats::changelog::{summary_fits, StreamCount};
use lazer_stats::models::{daily_convertible, measurements_convertible, DailyEntry, MeasurementEntry};
use lazer_stats::regression::{daily_sums_fit_all, offsets_fit_all};
use lazer_stats::time::{MAX_UTC_TIMESTAMP, MIN_UTC_TIMESTAMP};

#[test]
fn measurement_convertibility_follows_chrono_range_and_overflow() {
    assert!(MeasurementEntry { timestamp: 0, stable: 1, lazer: 1 }.is_convertible());
    assert!(MeasurementEntry { timestamp: MAX_UTC_TIMESTAMP, stable: 1, lazer: 1 }.is_convertible());
    assert!(!MeasurementEntry { timestamp: MAX_UTC_TIMESTAMP + 1, stable: 1, lazer: 1 }.is_convertible());
    assert!(!MeasurementEntry { timestamp: MIN_UTC_TIMESTAMP - 1, stable: 1, lazer: 1 }.is_convertible());
    assert!(!MeasurementEntry { timestamp: 0, stable: i64::MAX, lazer: 1 }.is_convertible());
    assert!(DailyEntry { date: 0, stable: i64::MIN, lazer: i64::MAX }.is_convertible());
    assert!(!DailyEntry { date: i64::MIN, stable: 0, lazer: 0 }.is_convertible());
}

#[test]
fn series_convertibility_checks_every_row() {
    let ok = vec![MeasurementEntry { timestamp: 1, stable: 1, lazer: 1 }];
    let bad = vec![MeasurementEntry { timestamp: 1, stable: 1, lazer: 1 }, MeasurementEntry { timestamp: i64::MAX, stable: 0, lazer: 0 }];
    assert!(measurements_convertible(&ok));
    assert!(!measurements_convertible(&bad));
    assert!(daily_convertible(&Vec::new()));
    assert!(!daily_convertible(&vec![DailyEntry { date: 0, stable: -1, lazer: i64::MIN }]));
}

#[test]
fn changelog_summary_needs_the_final_sum_to_fit() {
    let s = |name: &str, c: i64| StreamCount { name: name.to_string(), user_count: Some(c) };
    assert!(summary_fits(&vec![s("stable40", 1), s("lazer", 2)]));
    assert!(!summary_fits(&vec![s("stable40", i64::MAX), s("lazer", 1)]));
    assert!(!summary_fits(&vec![s("stable40", i64::MAX), s("cuttingedge", 1)]));
}

#[test]
fn regression_input_checks() {
    let d = |date: i64, stable: i64, lazer: i64| DailyEntry { date, stable, lazer };
    assert!(daily_sums_fit_all(&vec![d(0, 1, 2)]));
    assert!(!daily_sums_fit_all(&vec![d(0, 1, 2), d(1, i64::MAX, 1)]));
    assert!(offsets_fit_all(&vec![d(0, 1, 1), d(86_400, 1, 1)]));
    assert!(!offsets_fit_all(&vec![d(i64::MIN, 1, 1), d(1, 1, 1)]));
}
