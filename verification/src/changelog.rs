//! Summing the user counts of the changelog's update streams into the
//! stable and lazer totals.

use vstd::prelude::*;
use crate::types::SinglePointResponse;

verus! {

/// One update stream of the changelog listing, by name, with the number of
/// users on it when the listing reports one.
#[derive(Debug)]
pub struct StreamCount {
    pub name: String,
    pub user_count: Option<i64>,
}

/// The client that a stream belongs to.
#[derive(Clone, Copy, Debug, PartialEq, Eq, Structural)]
pub enum StreamKind {
    Stable,
    Lazer,
}

/// The client of a stream name: "stable40" and "cuttingedge" are stable,
/// "lazer" and "tachyon" are lazer; any other stream counts for neither.
pub open spec fn stream_kind(name: Seq<char>) -> Option<StreamKind> {
    if name == "stable40"@ || name == "cuttingedge"@ {
        Some(StreamKind::Stable)
    } else if name == "lazer"@ || name == "tachyon"@ {
        Some(StreamKind::Lazer)
    } else {
        None
    }
}

/// The users a stream contributes; a stream without a count contributes none.
pub open spec fn stream_users(s: StreamCount) -> int {
    match s.user_count {
        Some(c) => c as int,
        None => 0,
    }
}

/// The stable and lazer totals of a sequence of streams.
pub open spec fn stream_totals(s: Seq<StreamCount>) -> (int, int)
    decreases s.len(),
{
    if s.len() == 0 {
        (0, 0)
    } else {
        let prev = stream_totals(s.drop_last());
        let last = s.last();
        match stream_kind(last.name@) {
            Some(StreamKind::Stable) => (prev.0 + stream_users(last), prev.1),
            Some(StreamKind::Lazer) => (prev.0, prev.1 + stream_users(last)),
            None => prev,
        }
    }
}

/// Whether a pair of totals fits in `i64`.
pub open spec fn totals_in_range(t: (int, int)) -> bool {
    &&& i64::MIN <= t.0 <= i64::MAX
    &&& i64::MIN <= t.1 <= i64::MAX
}

/// Summing the streams in order never leaves `i64`: every running total fits.
pub open spec fn totals_fit(s: Seq<StreamCount>) -> bool {
    forall|k: int| 0 <= k <= s.len() ==> #[trigger] totals_in_range(stream_totals(s.take(k)))
}

/// Whether a string equals a literal.
fn name_is(name: &String, literal: &str) -> (res: bool)
    ensures
        res == (name@ == literal@),
{
    let other = literal.to_owned();
    *name == other
}

/// The client that a stream name belongs to.
pub fn classify_stream(name: &String) -> (res: Option<StreamKind>)
    ensures
        res == stream_kind(name@),
        res == Some(StreamKind::Stable) <==> (name@ == "stable40"@ || name@ == "cuttingedge"@),
        res == Some(StreamKind::Lazer) <==> (name@ == "lazer"@ || name@ == "tachyon"@),
{
    proof {
        reveal_strlit("stable40");
        reveal_strlit("cuttingedge");
        reveal_strlit("lazer");
        reveal_strlit("tachyon");
        assert("stable40"@.len() == 8 && "cuttingedge"@.len() == 11);
        assert("lazer"@.len() == 5 && "tachyon"@.len() == 7);
    }
    if name_is(name, "stable40") || name_is(name, "cuttingedge") {
        Some(StreamKind::Stable)
    } else if name_is(name, "lazer") || name_is(name, "tachyon") {
        Some(StreamKind::Lazer)
    } else {
        None
    }
}

/// Adds one stream to running totals, in `i128` where nothing overflows.
fn add_stream(acc: (i128, i128), s: &StreamCount) -> (res: (i128, i128))
    requires
        totals_in_range((acc.0 as int, acc.1 as int)),
    ensures
        res.0 == acc.0 + (if stream_kind(s.name@) == Some(StreamKind::Stable) { stream_users(*s) } else { 0 }),
        res.1 == acc.1 + (if stream_kind(s.name@) == Some(StreamKind::Lazer) { stream_users(*s) } else { 0 }),
{
    let users: i64 = match s.user_count {
        Some(c) => c,
        None => 0,
    };
    match classify_stream(&s.name) {
        Some(StreamKind::Stable) => (acc.0 + users as i128, acc.1),
        Some(StreamKind::Lazer) => (acc.0, acc.1 + users as i128),
        None => acc,
    }
}

/// Whether the streams can be summed in `i64` without overflow.
pub fn stream_totals_fit(streams: &Vec<StreamCount>) -> (res: bool)
    ensures
        res == totals_fit(streams@),
{
    let n = streams.len();
    let mut acc: (i128, i128) = (0, 0);
    assert(streams@.take(0) =~= Seq::<StreamCount>::empty());
    let mut i: usize = 0;
    while i < n
        invariant
            n == streams.len(),
            i <= n,
            (acc.0 as int, acc.1 as int) == stream_totals(streams@.take(i as int)),
            forall|k: int| 0 <= k <= i ==> #[trigger] totals_in_range(stream_totals(streams@.take(k))),
        decreases n - i,
    {
        acc = add_stream(acc, &streams[i]);
        assert(streams@.take(i + 1).drop_last() =~= streams@.take(i as int));
        i = i + 1;
        if !(i64::MIN as i128 <= acc.0 && acc.0 <= i64::MAX as i128 && i64::MIN as i128 <= acc.1
            && acc.1 <= i64::MAX as i128) {
            assert(!totals_in_range(stream_totals(streams@.take(i as int))));
            return false;
        }
    }
    assert(streams@.take(n as int) =~= streams@);
    true
}

/// The stable and lazer totals of the streams: the user counts of the streams
/// of each client added up in order, a missing count adding nothing.
pub fn sum_streams(streams: &Vec<StreamCount>) -> (res: (i64, i64))
    requires
        totals_fit(streams@),
    ensures
        (res.0 as int, res.1 as int) == stream_totals(streams@),
{
    let n = streams.len();
    let mut stable: i64 = 0;
    let mut lazer: i64 = 0;
    assert(streams@.take(0) =~= Seq::<StreamCount>::empty());
    let mut i: usize = 0;
    while i < n
        invariant
            n == streams.len(),
            i <= n,
            totals_fit(streams@),
            (stable as int, lazer as int) == stream_totals(streams@.take(i as int)),
        decreases n - i,
    {
        let s = &streams[i];
        assert(streams@.take(i + 1).drop_last() =~= streams@.take(i as int));
        assert(totals_in_range(stream_totals(streams@.take(i + 1))));
        let users: i64 = match s.user_count {
            Some(c) => c,
            None => 0,
        };
        match classify_stream(&s.name) {
            Some(StreamKind::Stable) => {
                stable = stable + users;
            },
            Some(StreamKind::Lazer) => {
                lazer = lazer + users;
            },
            None => {},
        }
        i = i + 1;
    }
    assert(streams@.take(n as int) =~= streams@);
    (stable, lazer)
}

/// Whether a listing can be summarized: its running totals and their final
/// sum all fit in `i64`.
pub fn summary_fits(streams: &Vec<StreamCount>) -> (res: bool)
    ensures
        res == (totals_fit(streams@) && i64::MIN <= stream_totals(streams@).0 + stream_totals(streams@).1
            <= i64::MAX),
{
    if !stream_totals_fit(streams) {
        return false;
    }
    let (stable, lazer) = sum_streams(streams);
    stable.checked_add(lazer).is_some()
}

/// The point that a changelog listing read at `timestamp` describes: the
/// stable and lazer totals of its streams, and their sum.
pub fn summarize_changelog(timestamp: i64, streams: &Vec<StreamCount>) -> (res: SinglePointResponse)
    requires
        totals_fit(streams@),
        i64::MIN <= stream_totals(streams@).0 + stream_totals(streams@).1 <= i64::MAX,
    ensures
        res.timestamp == timestamp,
        res.stable == stream_totals(streams@).0,
        res.lazer == stream_totals(streams@).1,
        res.wf(),
{
    let (stable, lazer) = sum_streams(streams);
    SinglePointResponse { timestamp, stable, lazer, sum: stable + lazer }
}

/// Summing streams is additive: the totals of two listings laid end to end
/// are the totals of each added up.
pub proof fn lemma_totals_additive(a: Seq<StreamCount>, b: Seq<StreamCount>)
    ensures
        stream_totals(a + b).0 == stream_totals(a).0 + stream_totals(b).0,
        stream_totals(a + b).1 == stream_totals(a).1 + stream_totals(b).1,
    decreases b.len(),
{
    if b.len() == 0 {
        assert(a + b =~= a);
    } else {
        lemma_totals_additive(a, b.drop_last());
        assert((a + b).drop_last() =~= a + b.drop_last());
        assert((a + b).last() == b.last());
    }
}

/// The order of two listings does not change the totals.
pub proof fn lemma_totals_order_free(a: Seq<StreamCount>, b: Seq<StreamCount>)
    ensures
        stream_totals(a + b) == stream_totals(b + a),
{
    lemma_totals_additive(a, b);
    lemma_totals_additive(b, a);
}

/// The totals of a listing of a single stream are what that stream adds: its
/// users to the stable total for a stable stream, to the lazer total for a
/// lazer stream, and nothing otherwise.
pub proof fn lemma_totals_single(x: StreamCount)
    ensures
        stream_totals(seq![x]) == match stream_kind(x.name@) {
            Some(StreamKind::Stable) => (stream_users(x), 0int),
            Some(StreamKind::Lazer) => (0int, stream_users(x)),
            None => (0int, 0int),
        },
{
    assert(seq![x].drop_last() =~= Seq::<StreamCount>::empty());
    assert(seq![x].last() == x);
    assert(stream_totals(Seq::<StreamCount>::empty()) == (0int, 0int));
}

/// The totals do not depend on the order of the streams: any two listings
/// with the same streams, each as often, have the same totals.
pub proof fn lemma_totals_permutation(a: Seq<StreamCount>, b: Seq<StreamCount>)
    requires
        a.to_multiset() == b.to_multiset(),
    ensures
        stream_totals(a) == stream_totals(b),
    decreases a.len(),
{
    broadcast use vstd::seq_lib::group_to_multiset_ensures;
    broadcast use vstd::multiset::group_multiset_axioms;

    if a.len() == 0 {
        assert(b.to_multiset().len() == 0);
        assert(b.len() == 0);
        assert(a =~= b);
    } else {
        let x = a.last();
        let a1 = a.drop_last();
        assert(a1.push(x) =~= a);
        assert(a.to_multiset() =~= a1.to_multiset().insert(x));
        assert(a.to_multiset().count(x) > 0);
        assert(b.to_multiset().count(x) > 0);
        assert(b.contains(x));
        let j = choose|j: int| 0 <= j < b.len() && b[j] == x;
        let b1 = b.remove(j);
        assert(b1.to_multiset() =~= b.to_multiset().remove(x));
        assert(a1.to_multiset() =~= a1.to_multiset().insert(x).remove(x));
        lemma_totals_permutation(a1, b1);
        let left = b.take(j);
        let right = b.skip(j + 1);
        assert(b =~= left + seq![x] + right);
        assert(b1 =~= left + right);
        lemma_totals_additive(left + seq![x], right);
        lemma_totals_additive(left, seq![x]);
        lemma_totals_additive(left, right);
        lemma_totals_single(x);
    }
}

/// A listing of streams that belong to neither client has zero totals.
pub proof fn lemma_other_streams_add_nothing(extra: Seq<StreamCount>)
    requires
        forall|i: int| 0 <= i < extra.len() ==> stream_kind(#[trigger] extra[i].name@) is None,
    ensures
        stream_totals(extra) == (0int, 0int),
    decreases extra.len(),
{
    if extra.len() > 0 {
        lemma_other_streams_add_nothing(extra.drop_last());
    }
}

/// Reordering a listing and adding streams with other names (such as
/// "beta40") leaves its totals as they were.
pub proof fn lemma_totals_ignore_order_and_other_streams(
    a: Seq<StreamCount>,
    b: Seq<StreamCount>,
    extra: Seq<StreamCount>,
)
    requires
        forall|i: int| 0 <= i < extra.len() ==> stream_kind(#[trigger] extra[i].name@) is None,
        b.to_multiset() == a.to_multiset().add(extra.to_multiset()),
    ensures
        stream_totals(b) == stream_totals(a),
{
    vstd::seq_lib::lemma_multiset_commutative(a, extra);
    lemma_totals_permutation(a + extra, b);
    lemma_totals_additive(a, extra);
    lemma_other_streams_add_nothing(extra);
}

} // verus!
