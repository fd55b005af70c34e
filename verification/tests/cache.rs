use lazer_stats::models::{DailyEntry, MeasurementEntry};
use lazer_stats::time::{past_day_start, UtcTime, MAX_UTC_TIMESTAMP, MIN_UTC_TIMESTAMP};
use lazer_stats::types::{ApplicationCache, SinglePointResponse};

fn cache_at(last_update: UtcTime) -> ApplicationCache {
    ApplicationCache::assemble(
        last_update,
        SinglePointResponse { timestamp: 900, stable: 60, lazer: 40, sum: 100 },
        MeasurementEntry { timestamp: 100, stable: 10, lazer: 90 },
        MeasurementEntry { timestamp: 200, stable: 20, lazer: 80 },
        MeasurementEntry { timestamp: 300, stable: 30, lazer: 70 },
        vec![MeasurementEntry { timestamp: 400, stable: 1, lazer: 2 }],
        vec![DailyEntry { date: 86_400, stable: 3, lazer: 4 }, DailyEntry { date: 172_800, stable: 5, lazer: 6 }],
    )
}

#[test]
fn cache_serves_what_it_was_assembled_from() {
    let c = cache_at(UtcTime { secs: 1_000, nanos: 0 });
    assert_eq!(c.latest(), SinglePointResponse { timestamp: 900, stable: 60, lazer: 40, sum: 100 });
    assert_eq!(c.peak_user_count(), SinglePointResponse { timestamp: 100, stable: 10, lazer: 90, sum: 100 });
    assert_eq!(c.peak_user_percentage(), SinglePointResponse { timestamp: 200, stable: 20, lazer: 80, sum: 100 });
    assert_eq!(c.peak_percentile_percentage(), SinglePointResponse { timestamp: 300, stable: 30, lazer: 70, sum: 100 });
    let day = c.daily_user_graph();
    assert_eq!((day.timestamp, day.stable, day.lazer, day.sum), (vec![400], vec![1], vec![2], vec![3]));
    let hist = c.historical_user_graph();
    assert_eq!(hist.timestamp, vec![86_400, 172_800]);
    assert_eq!(hist.sum, vec![7, 11]);
}

#[test]
fn staleness_compares_update_with_now() {
    let c = cache_at(UtcTime { secs: 1_000, nanos: 0 });
    assert!(!c.is_stale(UtcTime { secs: 1_000, nanos: 0 }));
    assert!(!c.is_stale(UtcTime { secs: 5_000, nanos: 0 }));
    assert!(!c.is_stale(UtcTime { secs: 700, nanos: 0 }));
    assert!(c.is_stale(UtcTime { secs: 699, nanos: 999_999_999 }));
}

#[test]
fn durations_count_nanoseconds() {
    let a = UtcTime { secs: 10, nanos: 5 };
    let b = UtcTime { secs: 8, nanos: 999_999_999 };
    assert_eq!(a.nanos_since(b), 1_000_000_006);
    assert_eq!(b.nanos_since(a), -1_000_000_006);
}

#[test]
fn past_day_starts_one_day_earlier() {
    assert_eq!(
        past_day_start(UtcTime { secs: 1_700_000_000, nanos: 123 }),
        Some(UtcTime { secs: 1_699_913_600, nanos: 123 })
    );
    assert_eq!(
        past_day_start(UtcTime { secs: MIN_UTC_TIMESTAMP + 86_400, nanos: 0 }),
        Some(UtcTime { secs: MIN_UTC_TIMESTAMP, nanos: 0 })
    );
    assert_eq!(past_day_start(UtcTime { secs: MIN_UTC_TIMESTAMP + 86_399, nanos: 0 }), None);
    assert_eq!(past_day_start(UtcTime { secs: i64::MIN, nanos: 0 }), None);
    assert_eq!(past_day_start(UtcTime { secs: i64::MAX, nanos: 0 }), None);
    assert_eq!(
        past_day_start(UtcTime { secs: MAX_UTC_TIMESTAMP + 86_400, nanos: 5 }),
        Some(UtcTime { secs: MAX_UTC_TIMESTAMP, nanos: 5 })
    );
}
