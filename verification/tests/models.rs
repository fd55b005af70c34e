use lazer_stats::models::{DailyEntry, MeasurementEntry};
use lazer_stats::types::{PointLineResponse, SinglePointResponse};

#[test]
fn point_from_measurement_adds_counts() {
    let e = MeasurementEntry { timestamp: 1_700_000_000, stable: 120_000, lazer: 80_000 };
    let p = SinglePointResponse::from_measurement(e);
    assert_eq!(p, SinglePointResponse { timestamp: 1_700_000_000, stable: 120_000, lazer: 80_000, sum: 200_000 });
}

#[test]
fn measurement_round_trips_through_point() {
    let e = MeasurementEntry { timestamp: 1_702_252_800, stable: 7, lazer: -3 };
    let back = MeasurementEntry::from_point(SinglePointResponse::from_measurement(e));
    assert_eq!(back, e);
}

#[test]
fn point_round_trips_through_measurement() {
    let p = SinglePointResponse { timestamp: 42, stable: 10, lazer: 5, sum: 15 };
    let back = SinglePointResponse::from_measurement(MeasurementEntry::from_point(p));
    assert_eq!(back, p);
}

#[test]
fn graph_from_measurements_keeps_rows_aligned() {
    let rows = vec![
        MeasurementEntry { timestamp: 100, stable: 1, lazer: 2 },
        MeasurementEntry { timestamp: 200, stable: 3, lazer: 4 },
        MeasurementEntry { timestamp: 300, stable: 5, lazer: 6 },
    ];
    let g = PointLineResponse::from_measurements(rows);
    assert_eq!(g.timestamp, vec![100, 200, 300]);
    assert_eq!(g.stable, vec![1, 3, 5]);
    assert_eq!(g.lazer, vec![2, 4, 6]);
    assert_eq!(g.sum, vec![3, 7, 11]);
}

#[test]
fn graph_from_daily_uses_bucket_dates() {
    let rows = vec![
        DailyEntry { date: 1_702_252_800, stable: 10, lazer: 0 },
        DailyEntry { date: 1_702_339_200, stable: 9, lazer: 2 },
    ];
    let g = PointLineResponse::from_daily(rows);
    assert_eq!(g.timestamp, vec![1_702_252_800, 1_702_339_200]);
    assert_eq!(g.stable, vec![10, 9]);
    assert_eq!(g.lazer, vec![0, 2]);
    assert_eq!(g.sum, vec![10, 11]);
}

#[test]
fn empty_graph_has_empty_columns() {
    let g = PointLineResponse::from_measurements(Vec::new());
    assert!(g.timestamp.is_empty() && g.stable.is_empty() && g.lazer.is_empty() && g.sum.is_empty());
}

#[test]
fn point_at_timestamp_edges() {
    let lo = MeasurementEntry { timestamp: lazer_stats::time::MIN_UTC_TIMESTAMP, stable: 0, lazer: 0 };
    let hi = MeasurementEntry { timestamp: lazer_stats::time::MAX_UTC_TIMESTAMP, stable: 0, lazer: 0 };
    assert_eq!(SinglePointResponse::from_measurement(lo).timestamp, -8334601228800);
    assert_eq!(SinglePointResponse::from_measurement(hi).timestamp, 8210266876799);
}
