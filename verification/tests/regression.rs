use lazer_stats::models::DailyEntry;
use lazer_stats::regression::{entry_has_users, regression_window, seconds_since_first, valid_entries, RegressionError, REGRESSION_WINDOW};

fn d(date: i64, stable: i64, lazer: i64) -> DailyEntry {
    DailyEntry { date, stable, lazer }
}

#[test]
fn rows_without_players_are_dropped() {
    let rows = vec![d(0, 0, 0), d(1, 5, 0), d(2, -3, 3), d(3, 0, 2), d(4, -1, 0)];
    assert_eq!(valid_entries(&rows), vec![d(1, 5, 0), d(3, 0, 2)]);
    assert!(entry_has_users(&d(0, 1, 0)));
    assert!(!entry_has_users(&d(0, 0, 0)));
}

#[test]
fn no_players_at_all_is_an_error() {
    assert_eq!(regression_window(&vec![d(0, 0, 0), d(1, 0, 0)]), Err(RegressionError::NoValidEntries));
    assert_eq!(regression_window(&Vec::new()), Err(RegressionError::NoValidEntries));
}

#[test]
fn a_single_row_is_too_few() {
    assert_eq!(regression_window(&vec![d(0, 0, 0), d(1, 4, 4)]), Err(RegressionError::TooFewValidEntries));
}

#[test]
fn window_keeps_the_last_thirty_rows_with_players() {
    let mut rows = Vec::new();
    for i in 0..45i64 {
        rows.push(d(i * 86_400, 100 + i, i));
        rows.push(d(i * 86_400 + 1, 0, 0));
    }
    let w = regression_window(&rows).unwrap();
    assert_eq!(w.len(), REGRESSION_WINDOW);
    assert_eq!(w[0], d(15 * 86_400, 115, 15));
    assert_eq!(w[29], d(44 * 86_400, 144, 44));
}

#[test]
fn short_history_is_kept_whole() {
    let rows = vec![d(10, 1, 1), d(20, 0, 0), d(30, 2, 1)];
    assert_eq!(regression_window(&rows), Ok(vec![d(10, 1, 1), d(30, 2, 1)]));
}

#[test]
fn offsets_count_seconds_from_first_row() {
    let w = vec![d(1_702_252_800, 1, 1), d(1_702_339_200, 1, 1), d(1_702_512_000, 1, 1)];
    assert_eq!(seconds_since_first(&w), vec![0, 86_400, 259_200]);
}

#[test]
fn rows_without_players_do_not_change_the_window() {
    let rows = vec![d(10, 1, 1), d(20, 2, 1), d(30, 2, 2)];
    let with_empty = vec![d(10, 1, 1), d(15, 0, 0), d(20, 2, 1), d(25, -4, 1), d(30, 2, 2)];
    assert_eq!(regression_window(&rows), regression_window(&with_empty));
}

#[test]
fn an_older_row_beyond_thirty_is_not_used() {
    let mut rows = Vec::new();
    for i in 1..=30i64 {
        rows.push(d(i * 86_400, 10, i));
    }
    let mut older = vec![d(0, 1, 1)];
    older.extend(rows.iter().copied());
    assert_eq!(regression_window(&older), regression_window(&rows));
}
