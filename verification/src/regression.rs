//! Which daily rows feed the estimate of when lazer reaches a share of the
//! players: the rows with players at all, the most recent of them, and their
//! distance in time from the first one.

use vstd::prelude::*;
use crate::models::{sum_fits, DailyEntry};

verus! {

/// How many of the most recent rows the regression looks at.
pub const REGRESSION_WINDOW: usize = 30usize;

/// Why no regression can be made.
#[derive(Clone, Copy, Debug, PartialEq, Eq, Structural)]
pub enum RegressionError {
    /// No row has any player.
    NoValidEntries,
    /// Only one row has players.
    TooFewValidEntries,
}

/// A row counts when it has players at all.
pub open spec fn has_users(e: DailyEntry) -> bool {
    e.stable + e.lazer > 0
}

/// The rows that have players, in their order.
pub open spec fn valid_daily(s: Seq<DailyEntry>) -> Seq<DailyEntry>
    decreases s.len(),
{
    if s.len() == 0 {
        Seq::empty()
    } else {
        let prev = valid_daily(s.drop_last());
        if has_users(s.last()) {
            prev.push(s.last())
        } else {
            prev
        }
    }
}

/// Every row's player counts can be added up in `i64`.
pub open spec fn daily_sums_fit(s: Seq<DailyEntry>) -> bool {
    forall|i: int| 0 <= i < s.len() ==> sum_fits(#[trigger] s[i].stable, s[i].lazer)
}

/// Whether every row's player counts can be added up in `i64`.
pub fn daily_sums_fit_all(entries: &Vec<DailyEntry>) -> (res: bool)
    ensures
        res == daily_sums_fit(entries@),
{
    let mut i: usize = 0;
    while i < entries.len()
        invariant
            i <= entries.len(),
            forall|j: int| 0 <= j < i ==> sum_fits(#[trigger] entries@[j].stable, entries@[j].lazer),
        decreases entries.len() - i,
    {
        if entries[i].stable.checked_add(entries[i].lazer).is_none() {
            return false;
        }
        i = i + 1;
    }
    true
}

/// Where the window of the most recent rows starts among `n` rows.
pub open spec fn window_start(n: int) -> int {
    if n > REGRESSION_WINDOW {
        n - REGRESSION_WINDOW
    } else {
        0
    }
}

/// The regression's rows, or why there are too few of them.
pub open spec fn regression_rows(s: Seq<DailyEntry>) -> Result<Seq<DailyEntry>, RegressionError> {
    let valid = valid_daily(s);
    if valid.len() == 0 {
        Err(RegressionError::NoValidEntries)
    } else if valid.len() < 2 {
        Err(RegressionError::TooFewValidEntries)
    } else {
        Ok(valid.skip(window_start(valid.len() as int)))
    }
}

/// Whether the row has players at all.
pub fn entry_has_users(e: &DailyEntry) -> (res: bool)
    requires
        sum_fits(e.stable, e.lazer),
    ensures
        res == has_users(*e),
{
    e.stable + e.lazer > 0
}

/// The rows that have players, in their order.
pub fn valid_entries(entries: &Vec<DailyEntry>) -> (res: Vec<DailyEntry>)
    requires
        daily_sums_fit(entries@),
    ensures
        res@ == valid_daily(entries@),
        res@ == entries@.filter(|e: DailyEntry| e.stable + e.lazer > 0),
{
    proof {
        lemma_valid_daily_is_filter(entries@);
    }
    let n = entries.len();
    let mut res: Vec<DailyEntry> = Vec::new();
    assert(entries@.take(0) =~= Seq::<DailyEntry>::empty());
    let mut i: usize = 0;
    while i < n
        invariant
            n == entries.len(),
            i <= n,
            daily_sums_fit(entries@),
            res@ == valid_daily(entries@.take(i as int)),
        decreases n - i,
    {
        let e = entries[i];
        assert(sum_fits(entries@[i as int].stable, entries@[i as int].lazer));
        assert(entries@.take(i + 1).drop_last() =~= entries@.take(i as int));
        if entry_has_users(&e) {
            res.push(e);
        }
        i = i + 1;
    }
    assert(entries@.take(n as int) =~= entries@);
    res
}

/// The most recent rows with players, at most `REGRESSION_WINDOW` of them, in
/// their order; an error when fewer than two rows have players.
pub fn regression_window(entries: &Vec<DailyEntry>) -> (res: Result<Vec<DailyEntry>, RegressionError>)
    requires
        daily_sums_fit(entries@),
    ensures
        match res {
            Ok(w) => regression_rows(entries@) == Ok::<Seq<DailyEntry>, RegressionError>(w@),
            Err(e) => regression_rows(entries@) == Err::<Seq<DailyEntry>, RegressionError>(e),
        },
        ({
            let rows = entries@.filter(|e: DailyEntry| e.stable + e.lazer > 0);
            let k = rows.len();
            &&& (res == Err::<Vec<DailyEntry>, RegressionError>(RegressionError::NoValidEntries) <==> k == 0)
            &&& (res == Err::<Vec<DailyEntry>, RegressionError>(RegressionError::TooFewValidEntries) <==> k
                == 1)
            &&& (res matches Ok(w) ==> {
                &&& w@.len() == (if k <= REGRESSION_WINDOW { k } else { REGRESSION_WINDOW as nat })
                &&& w@ == rows.subrange(k - w@.len(), k as int)
            })
        }),
{
    proof {
        lemma_regression_rows_law(entries@);
    }
    let valid = valid_entries(entries);
    if valid.len() == 0 {
        return Err(RegressionError::NoValidEntries);
    }
    let len = valid.len();
    let start = len.saturating_sub(REGRESSION_WINDOW);
    let mut window: Vec<DailyEntry> = Vec::new();
    let mut i: usize = start;
    while i < len
        invariant
            len == valid.len(),
            start == window_start(len as int),
            start <= i <= len,
            window@ == valid@.subrange(start as int, i as int),
        decreases len - i,
    {
        window.push(valid[i]);
        assert(valid@.subrange(start as int, i + 1) =~= valid@.subrange(start as int, i as int).push(valid@[i as int]));
        i = i + 1;
    }
    assert(window@ =~= valid@.skip(start as int));
    if window.len() < 2 {
        return Err(RegressionError::TooFewValidEntries);
    }
    Ok(window)
}

/// Every row's date minus the first row's date fits in `i64`.
pub open spec fn offsets_fit(s: Seq<DailyEntry>) -> bool {
    forall|i: int| 0 <= i < s.len() ==> i64::MIN <= #[trigger] s[i].date - s[0].date <= i64::MAX
}

/// Whether every row's distance from the first row fits in `i64`.
pub fn offsets_fit_all(window: &Vec<DailyEntry>) -> (res: bool)
    requires
        window.len() > 0,
    ensures
        res == offsets_fit(window@),
{
    let first = window[0].date;
    let mut i: usize = 0;
    while i < window.len()
        invariant
            i <= window.len(),
            window.len() > 0,
            first == window@[0].date,
            forall|j: int| 0 <= j < i ==> i64::MIN <= #[trigger] window@[j].date - window@[0].date <= i64::MAX,
        decreases window.len() - i,
    {
        if window[i].date.checked_sub(first).is_none() {
            return false;
        }
        i = i + 1;
    }
    true
}

/// How many seconds after the first row each row is dated.
pub fn seconds_since_first(window: &Vec<DailyEntry>) -> (res: Vec<i64>)
    requires
        window.len() > 0,
        offsets_fit(window@),
    ensures
        res.len() == window.len(),
        forall|i: int| 0 <= i < res.len() ==> #[trigger] res[i] == window@[i].date - window@[0].date,
{
    let first = window[0].date;
    let n = window.len();
    let mut res: Vec<i64> = Vec::with_capacity(n);
    let mut i: usize = 0;
    while i < n
        invariant
            n == window.len(),
            n > 0,
            first == window@[0].date,
            offsets_fit(window@),
            i <= n,
            res.len() == i,
            forall|j: int| 0 <= j < i ==> #[trigger] res[j] == window@[j].date - window@[0].date,
        decreases n - i,
    {
        assert(i64::MIN <= window@[i as int].date - window@[0].date <= i64::MAX);
        res.push(window[i].date - first);
        i = i + 1;
    }
    res
}

/// Every row that the regression keeps has players.
pub proof fn lemma_valid_rows_have_users(s: Seq<DailyEntry>)
    ensures
        forall|i: int| 0 <= i < valid_daily(s).len() ==> has_users(#[trigger] valid_daily(s)[i]),
        valid_daily(s).len() <= s.len(),
    decreases s.len(),
{
    if s.len() > 0 {
        lemma_valid_rows_have_users(s.drop_last());
    }
}

/// The regression looks at between two and `REGRESSION_WINDOW` rows, each of
/// them with players, and they are the last rows with players.
pub proof fn lemma_regression_rows_shape(s: Seq<DailyEntry>)
    ensures
        regression_rows(s) matches Ok(w) ==> {
            &&& 2 <= w.len() <= REGRESSION_WINDOW
            &&& forall|i: int| 0 <= i < w.len() ==> has_users(#[trigger] w[i])
            &&& w.is_suffix_of(valid_daily(s))
        },
{
    lemma_valid_rows_have_users(s);
    let valid = valid_daily(s);
    if let Ok(w) = regression_rows(s) {
        let start = window_start(valid.len() as int);
        assert forall|i: int| 0 <= i < w.len() implies has_users(#[trigger] w[i]) by {
            assert(w[i] == valid[start + i]);
        }
        assert(valid.subrange(valid.len() - w.len(), valid.len() as int) =~= w);
    }
}

/// Picking the rows with players works piece by piece: the rows with players
/// of two histories laid end to end are those of each, laid end to end.
pub proof fn lemma_valid_daily_concat(a: Seq<DailyEntry>, b: Seq<DailyEntry>)
    ensures
        valid_daily(a + b) == valid_daily(a) + valid_daily(b),
    decreases b.len(),
{
    if b.len() == 0 {
        assert(a + b =~= a);
        assert(valid_daily(a) + valid_daily(b) =~= valid_daily(a));
    } else {
        lemma_valid_daily_concat(a, b.drop_last());
        assert((a + b).drop_last() =~= a + b.drop_last());
        assert((a + b).last() == b.last());
        if has_users(b.last()) {
            assert(valid_daily(a) + valid_daily(b.drop_last()).push(b.last()) =~= (valid_daily(a)
                + valid_daily(b.drop_last())).push(b.last()));
        }
    }
}

/// A row without players, inserted anywhere, changes neither the rows with
/// players nor what the regression is fed (nor its error).
pub proof fn lemma_row_without_users_ignored(s: Seq<DailyEntry>, i: int, e: DailyEntry)
    requires
        0 <= i <= s.len(),
        !has_users(e),
    ensures
        valid_daily(s.insert(i, e)) == valid_daily(s),
        regression_rows(s.insert(i, e)) == regression_rows(s),
{
    let a = s.take(i);
    let b = s.skip(i);
    assert(s.insert(i, e) =~= a + seq![e] + b);
    assert(s =~= a + b);
    lemma_valid_daily_concat(a + seq![e], b);
    lemma_valid_daily_concat(a, seq![e]);
    lemma_valid_daily_concat(a, b);
    assert(seq![e].drop_last() =~= Seq::<DailyEntry>::empty());
    assert(seq![e].last() == e);
    assert(valid_daily(Seq::<DailyEntry>::empty()) =~= Seq::<DailyEntry>::empty());
    assert(valid_daily(seq![e]) =~= Seq::<DailyEntry>::empty());
    assert(valid_daily(a) + valid_daily(seq![e]) =~= valid_daily(a));
}

/// Once at least `REGRESSION_WINDOW` rows have players, a row put in front of
/// the history (an older day) does not change what the regression is fed.
pub proof fn lemma_older_row_outside_window(d: DailyEntry, s: Seq<DailyEntry>)
    requires
        valid_daily(s).len() >= REGRESSION_WINDOW,
    ensures
        regression_rows(seq![d] + s) == regression_rows(s),
{
    lemma_valid_daily_concat(seq![d], s);
    assert(seq![d].drop_last() =~= Seq::<DailyEntry>::empty());
    assert(valid_daily(Seq::<DailyEntry>::empty()) =~= Seq::<DailyEntry>::empty());
    let v = valid_daily(s);
    let w = valid_daily(seq![d] + s);
    let pre = valid_daily(seq![d]);
    assert(pre.len() <= 1);
    assert(w == pre + v);
    let n = v.len() as int;
    assert(w.skip(window_start(w.len() as int)) =~= v.skip(window_start(n)));
}

/// The rows with players are the history filtered by "stable plus lazer is
/// positive", in their order.
pub proof fn lemma_valid_daily_is_filter(s: Seq<DailyEntry>)
    ensures
        valid_daily(s) == s.filter(|e: DailyEntry| e.stable + e.lazer > 0),
    decreases s.len(),
{
    reveal(Seq::filter);
    if s.len() > 0 {
        lemma_valid_daily_is_filter(s.drop_last());
    }
}

/// What the regression is fed: with no row with players, the no-rows error;
/// with one, the too-few error; with `k >= 2`, the last `min(k, 30)` rows with
/// players, in their order (all of them when `k <= 30`).
pub proof fn lemma_regression_rows_law(s: Seq<DailyEntry>)
    ensures
        ({
            let rows = s.filter(|e: DailyEntry| e.stable + e.lazer > 0);
            let k = rows.len();
            &&& (regression_rows(s) == Err::<Seq<DailyEntry>, RegressionError>(
                RegressionError::NoValidEntries,
            ) <==> k == 0)
            &&& (regression_rows(s) == Err::<Seq<DailyEntry>, RegressionError>(
                RegressionError::TooFewValidEntries,
            ) <==> k == 1)
            &&& (k >= 2 ==> (regression_rows(s) matches Ok(w) && {
                &&& w.len() == (if k <= REGRESSION_WINDOW { k } else { REGRESSION_WINDOW as nat })
                &&& w == rows.subrange(k - w.len(), k as int)
            }))
        }),
{
    lemma_valid_daily_is_filter(s);
    let rows = s.filter(|e: DailyEntry| e.stable + e.lazer > 0);
    let k = rows.len();
    if k >= 2 {
        let w = rows.skip(window_start(k as int));
        assert(w =~= rows.subrange(k - w.len(), k as int));
    }
}

} // verus!
