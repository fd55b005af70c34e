use lazer_stats::changelog::{classify_stream, stream_totals_fit, sum_streams, summarize_changelog, StreamCount, StreamKind};

fn s(name: &str, user_count: Option<i64>) -> StreamCount {
    StreamCount { name: name.to_string(), user_count }
}

#[test]
fn stream_names_map_to_clients() {
    assert_eq!(classify_stream(&"stable40".to_string()), Some(StreamKind::Stable));
    assert_eq!(classify_stream(&"cuttingedge".to_string()), Some(StreamKind::Stable));
    assert_eq!(classify_stream(&"lazer".to_string()), Some(StreamKind::Lazer));
    assert_eq!(classify_stream(&"tachyon".to_string()), Some(StreamKind::Lazer));
    assert_eq!(classify_stream(&"beta40".to_string()), None);
    assert_eq!(classify_stream(&"Lazer".to_string()), None);
    assert_eq!(classify_stream(&"".to_string()), None);
}

#[test]
fn totals_add_streams_by_client() {
    let streams = vec![
        s("stable40", Some(100_000)),
        s("beta40", Some(5_000)),
        s("cuttingedge", Some(2_000)),
        s("lazer", Some(60_000)),
        s("tachyon", Some(1_500)),
        s("web", None),
    ];
    assert!(stream_totals_fit(&streams));
    assert_eq!(sum_streams(&streams), (102_000, 61_500));
}

#[test]
fn missing_user_count_adds_nothing() {
    let streams = vec![s("stable40", None), s("lazer", Some(7)), s("tachyon", None)];
    assert_eq!(sum_streams(&streams), (0, 7));
}

#[test]
fn empty_listing_sums_to_zero() {
    assert_eq!(sum_streams(&Vec::new()), (0, 0));
}

#[test]
fn overflowing_totals_are_detected() {
    let streams = vec![s("lazer", Some(i64::MAX)), s("tachyon", Some(1))];
    assert!(!stream_totals_fit(&streams));
    let fine = vec![s("lazer", Some(i64::MAX)), s("stable40", Some(1)), s("beta40", Some(i64::MAX))];
    assert!(stream_totals_fit(&fine));
    let back_in_range = vec![s("lazer", Some(i64::MAX)), s("lazer", Some(1)), s("lazer", Some(-5))];
    assert!(!stream_totals_fit(&back_in_range));
}

#[test]
fn changelog_point_carries_totals_and_sum() {
    let streams = vec![s("stable40", Some(30)), s("lazer", Some(12)), s("cuttingedge", Some(3))];
    let p = summarize_changelog(1_750_000_000, &streams);
    assert_eq!((p.timestamp, p.stable, p.lazer, p.sum), (1_750_000_000, 33, 12, 45));
}

#[test]
fn totals_ignore_order_and_other_streams() {
    let a = vec![s("stable40", Some(10)), s("lazer", Some(4)), s("cuttingedge", Some(1))];
    let b = vec![s("beta40", Some(99)), s("cuttingedge", Some(1)), s("lazer", Some(4)), s("web", None), s("stable40", Some(10))];
    assert_eq!(sum_streams(&a), sum_streams(&b));
}
