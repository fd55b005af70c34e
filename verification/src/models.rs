//! Rows read from the measurement store, and how they become responses.

use vstd::prelude::*;
use crate::time::{datetime_from_timestamp_secs, representable_timestamp};
use crate::types::{PointLineResponse, PointLineView, SinglePointResponse};

verus! {

/// Whether `a + b` fits in an `i64`.
pub open spec fn sum_fits(a: i64, b: i64) -> bool {
    i64::MIN <= a + b <= i64::MAX
}

/// One measurement of the stream user counts at a Unix timestamp.
#[derive(Clone, Copy, Debug, PartialEq, Eq, Structural)]
pub struct MeasurementEntry {
    pub timestamp: i64,
    pub stable: i64,
    pub lazer: i64,
}

/// The average user counts of one day (or bucket), dated by the Unix
/// timestamp at which the bucket starts.
#[derive(Clone, Copy, Debug, PartialEq, Eq, Structural)]
pub struct DailyEntry {
    pub date: i64,
    pub stable: i64,
    pub lazer: i64,
}

impl MeasurementEntry {
    /// The measurement can be turned into a response: its timestamp names a
    /// UTC instant and its counts can be added up.
    pub open spec fn convertible(self) -> bool {
        representable_timestamp(self.timestamp as int) && sum_fits(self.stable, self.lazer)
    }

    /// The measurement a response describes.
    pub open spec fn of_point(value: SinglePointResponse) -> MeasurementEntry {
        MeasurementEntry { timestamp: value.timestamp, stable: value.stable, lazer: value.lazer }
    }

    /// Whether the measurement can be turned into a response.
    pub fn is_convertible(&self) -> (res: bool)
        ensures
            res == self.convertible(),
    {
        datetime_from_timestamp_secs(self.timestamp).is_some() && self.stable.checked_add(self.lazer).is_some()
    }

    /// Reads a measurement back out of a response.
    pub fn from_point(value: SinglePointResponse) -> (res: MeasurementEntry)
        ensures
            res == MeasurementEntry::of_point(value),
            res.timestamp == value.timestamp,
            res.stable == value.stable,
            res.lazer == value.lazer,
    {
        MeasurementEntry { timestamp: value.timestamp, stable: value.stable, lazer: value.lazer }
    }
}

impl DailyEntry {
    /// The entry can be turned into a graph point.
    pub open spec fn convertible(self) -> bool {
        representable_timestamp(self.date as int) && sum_fits(self.stable, self.lazer)
    }

    /// Whether the entry can be turned into a graph point.
    pub fn is_convertible(&self) -> (res: bool)
        ensures
            res == self.convertible(),
    {
        datetime_from_timestamp_secs(self.date).is_some() && self.stable.checked_add(self.lazer).is_some()
    }
}

impl SinglePointResponse {
    /// The response that describes a measurement.
    pub open spec fn of_measurement(value: MeasurementEntry) -> SinglePointResponse {
        SinglePointResponse {
            timestamp: value.timestamp,
            stable: value.stable,
            lazer: value.lazer,
            sum: (value.stable + value.lazer) as i64,
        }
    }

    /// Turns a measurement into a response, checking its timestamp with
    /// chrono and adding up its counts.
    pub fn from_measurement(value: MeasurementEntry) -> (res: SinglePointResponse)
        requires
            value.convertible(),
        ensures
            res == SinglePointResponse::of_measurement(value),
            res.wf(),
            point_describes(res, value),
    {
        let timestamp = match datetime_from_timestamp_secs(value.timestamp) {
            Some(t) => t,
            None => value.timestamp,
        };
        SinglePointResponse {
            timestamp,
            stable: value.stable,
            lazer: value.lazer,
            sum: value.stable + value.lazer,
        }
    }
}

/// Every measurement of a sequence can be turned into a response.
pub open spec fn all_measurements_convertible(s: Seq<MeasurementEntry>) -> bool {
    forall|i: int| 0 <= i < s.len() ==> #[trigger] s[i].convertible()
}

/// Every daily entry of a sequence can be turned into a graph point.
pub open spec fn all_daily_convertible(s: Seq<DailyEntry>) -> bool {
    forall|i: int| 0 <= i < s.len() ==> #[trigger] s[i].convertible()
}

/// Whether every measurement can be turned into a response.
pub fn measurements_convertible(v: &Vec<MeasurementEntry>) -> (res: bool)
    ensures
        res == all_measurements_convertible(v@),
{
    let mut i: usize = 0;
    while i < v.len()
        invariant
            i <= v.len(),
            forall|j: int| 0 <= j < i ==> #[trigger] v@[j].convertible(),
        decreases v.len() - i,
    {
        if !v[i].is_convertible() {
            return false;
        }
        i = i + 1;
    }
    true
}

/// Whether every daily entry can be turned into a graph point.
pub fn daily_convertible(v: &Vec<DailyEntry>) -> (res: bool)
    ensures
        res == all_daily_convertible(v@),
{
    let mut i: usize = 0;
    while i < v.len()
        invariant
            i <= v.len(),
            forall|j: int| 0 <= j < i ==> #[trigger] v@[j].convertible(),
        decreases v.len() - i,
    {
        if !v[i].is_convertible() {
            return false;
        }
        i = i + 1;
    }
    true
}

impl PointLineView {
    /// The graph of a sequence of measurements: one column per field, row `i`
    /// of each column taken from measurement `i`.
    pub open spec fn of_measurements(s: Seq<MeasurementEntry>) -> PointLineView {
        PointLineView {
            timestamp: s.map_values(|e: MeasurementEntry| e.timestamp),
            stable: s.map_values(|e: MeasurementEntry| e.stable),
            lazer: s.map_values(|e: MeasurementEntry| e.lazer),
            sum: s.map_values(|e: MeasurementEntry| (e.stable + e.lazer) as i64),
        }
    }

    /// The graph of a sequence of daily entries, dated by their bucket start.
    pub open spec fn of_daily(s: Seq<DailyEntry>) -> PointLineView {
        PointLineView {
            timestamp: s.map_values(|e: DailyEntry| e.date),
            stable: s.map_values(|e: DailyEntry| e.stable),
            lazer: s.map_values(|e: DailyEntry| e.lazer),
            sum: s.map_values(|e: DailyEntry| (e.stable + e.lazer) as i64),
        }
    }

}

impl PointLineResponse {
    /// Lays measurements out as a graph, checking each timestamp with chrono.
    pub fn from_measurements(value: Vec<MeasurementEntry>) -> (res: PointLineResponse)
        requires
            all_measurements_convertible(value@),
        ensures
            res@ == PointLineView::of_measurements(value@),
            res.wf(),
            res.timestamp@.len() == value@.len(),
            res.stable@.len() == value@.len(),
            res.lazer@.len() == value@.len(),
            res.sum@.len() == value@.len(),
            forall|i: int|
                0 <= i < value@.len() ==> {
                    &&& #[trigger] res.timestamp@[i] == value@[i].timestamp
                    &&& res.stable@[i] == value@[i].stable
                    &&& res.lazer@[i] == value@[i].lazer
                    &&& res.sum@[i] == value@[i].stable + value@[i].lazer
                },
    {
        proof {
            lemma_measurements_graph_rows(value@);
        }
        let n = value.len();
        let mut response = PointLineResponse {
            timestamp: Vec::with_capacity(n),
            stable: Vec::with_capacity(n),
            lazer: Vec::with_capacity(n),
            sum: Vec::with_capacity(n),
        };
        assert(response@ =~= PointLineView::of_measurements(value@.take(0)));
        let mut i: usize = 0;
        while i < n
            invariant
                n == value.len(),
                i <= n,
                all_measurements_convertible(value@),
                response@ == PointLineView::of_measurements(value@.take(i as int)),
                response.wf(),
            decreases n - i,
        {
            let entry = value[i];
            assert(entry.convertible());
            let timestamp = match datetime_from_timestamp_secs(entry.timestamp) {
                Some(t) => t,
                None => entry.timestamp,
            };
            response.timestamp.push(timestamp);
            response.stable.push(entry.stable);
            response.lazer.push(entry.lazer);
            response.sum.push(entry.stable + entry.lazer);
            assert(value@.take(i + 1) =~= value@.take(i as int).push(entry));
            assert(response@ =~= PointLineView::of_measurements(value@.take(i + 1)));
            i = i + 1;
        }
        assert(value@.take(n as int) =~= value@);
        response
    }

    /// Lays daily entries out as a graph, checking each date with chrono.
    pub fn from_daily(value: Vec<DailyEntry>) -> (res: PointLineResponse)
        requires
            all_daily_convertible(value@),
        ensures
            res@ == PointLineView::of_daily(value@),
            res.wf(),
            res.timestamp@.len() == value@.len(),
            res.stable@.len() == value@.len(),
            res.lazer@.len() == value@.len(),
            res.sum@.len() == value@.len(),
            forall|i: int|
                0 <= i < value@.len() ==> {
                    &&& #[trigger] res.timestamp@[i] == value@[i].date
                    &&& res.stable@[i] == value@[i].stable
                    &&& res.lazer@[i] == value@[i].lazer
                    &&& res.sum@[i] == value@[i].stable + value@[i].lazer
                },
    {
        proof {
            lemma_daily_graph_rows(value@);
        }
        let n = value.len();
        let mut response = PointLineResponse {
            timestamp: Vec::with_capacity(n),
            stable: Vec::with_capacity(n),
            lazer: Vec::with_capacity(n),
            sum: Vec::with_capacity(n),
        };
        assert(response@ =~= PointLineView::of_daily(value@.take(0)));
        let mut i: usize = 0;
        while i < n
            invariant
                n == value.len(),
                i <= n,
                all_daily_convertible(value@),
                response@ == PointLineView::of_daily(value@.take(i as int)),
                response.wf(),
            decreases n - i,
        {
            let entry = value[i];
            assert(entry.convertible());
            let date = match datetime_from_timestamp_secs(entry.date) {
                Some(t) => t,
                None => entry.date,
            };
            response.timestamp.push(date);
            response.stable.push(entry.stable);
            response.lazer.push(entry.lazer);
            response.sum.push(entry.stable + entry.lazer);
            assert(value@.take(i + 1) =~= value@.take(i as int).push(entry));
            assert(response@ =~= PointLineView::of_daily(value@.take(i + 1)));
            i = i + 1;
        }
        assert(value@.take(n as int) =~= value@);
        response
    }
}

/// A measurement turned into a response and read back is the measurement
/// it started as.
pub proof fn lemma_measurement_round_trip(e: MeasurementEntry)
    ensures
        MeasurementEntry::of_point(SinglePointResponse::of_measurement(e)) == e,
{
}

/// A well-formed response read as a measurement and turned back into a
/// response is the response it started as.
pub proof fn lemma_point_round_trip(p: SinglePointResponse)
    requires
        p.wf(),
    ensures
        SinglePointResponse::of_measurement(MeasurementEntry::of_point(p)) == p,
{
}

/// The graph of measurements laid end to end is the two graphs laid end to end.
pub proof fn lemma_graph_of_concatenation(a: Seq<MeasurementEntry>, b: Seq<MeasurementEntry>)
    ensures
        PointLineView::of_measurements(a + b).timestamp == PointLineView::of_measurements(a).timestamp
            + PointLineView::of_measurements(b).timestamp,
        PointLineView::of_measurements(a + b).stable == PointLineView::of_measurements(a).stable
            + PointLineView::of_measurements(b).stable,
        PointLineView::of_measurements(a + b).lazer == PointLineView::of_measurements(a).lazer
            + PointLineView::of_measurements(b).lazer,
        PointLineView::of_measurements(a + b).sum == PointLineView::of_measurements(a).sum
            + PointLineView::of_measurements(b).sum,
{
    assert(PointLineView::of_measurements(a + b).timestamp =~= PointLineView::of_measurements(a).timestamp
        + PointLineView::of_measurements(b).timestamp);
    assert(PointLineView::of_measurements(a + b).stable =~= PointLineView::of_measurements(a).stable
        + PointLineView::of_measurements(b).stable);
    assert(PointLineView::of_measurements(a + b).lazer =~= PointLineView::of_measurements(a).lazer
        + PointLineView::of_measurements(b).lazer);
    assert(PointLineView::of_measurements(a + b).sum =~= PointLineView::of_measurements(a).sum
        + PointLineView::of_measurements(b).sum);
}

/// A response describes a measurement when it carries the measurement's
/// timestamp and counts, and their sum as the total.
pub open spec fn point_describes(p: SinglePointResponse, e: MeasurementEntry) -> bool {
    &&& p.timestamp == e.timestamp
    &&& p.stable == e.stable
    &&& p.lazer == e.lazer
    &&& p.sum == e.stable + e.lazer
}

/// A graph lists a sequence of measurements when it has one row per
/// measurement and row `i` holds measurement `i`'s timestamp, counts and sum.
pub open spec fn graph_lists_measurements(g: PointLineView, s: Seq<MeasurementEntry>) -> bool {
    &&& g.timestamp.len() == s.len()
    &&& g.stable.len() == s.len()
    &&& g.lazer.len() == s.len()
    &&& g.sum.len() == s.len()
    &&& forall|i: int|
        0 <= i < s.len() ==> {
            &&& #[trigger] g.timestamp[i] == s[i].timestamp
            &&& g.stable[i] == s[i].stable
            &&& g.lazer[i] == s[i].lazer
            &&& g.sum[i] == s[i].stable + s[i].lazer
        }
}

/// A graph lists a sequence of daily entries when it has one row per entry
/// and row `i` holds entry `i`'s date, counts and sum.
pub open spec fn graph_lists_daily(g: PointLineView, s: Seq<DailyEntry>) -> bool {
    &&& g.timestamp.len() == s.len()
    &&& g.stable.len() == s.len()
    &&& g.lazer.len() == s.len()
    &&& g.sum.len() == s.len()
    &&& forall|i: int|
        0 <= i < s.len() ==> {
            &&& #[trigger] g.timestamp[i] == s[i].date
            &&& g.stable[i] == s[i].stable
            &&& g.lazer[i] == s[i].lazer
            &&& g.sum[i] == s[i].stable + s[i].lazer
        }
}

/// Row `i` of every column of a measurement graph is measurement `i`'s own
/// field: its timestamp, its stable count, its lazer count, and (where the
/// counts add up in `i64`) their sum.
pub proof fn lemma_measurements_graph_rows(s: Seq<MeasurementEntry>)
    ensures
        PointLineView::of_measurements(s).timestamp.len() == s.len(),
        PointLineView::of_measurements(s).stable.len() == s.len(),
        PointLineView::of_measurements(s).lazer.len() == s.len(),
        PointLineView::of_measurements(s).sum.len() == s.len(),
        forall|i: int|
            0 <= i < s.len() ==> {
                &&& #[trigger] PointLineView::of_measurements(s).timestamp[i] == s[i].timestamp
                &&& PointLineView::of_measurements(s).stable[i] == s[i].stable
                &&& PointLineView::of_measurements(s).lazer[i] == s[i].lazer
                &&& sum_fits(s[i].stable, s[i].lazer) ==> PointLineView::of_measurements(s).sum[i]
                    == s[i].stable + s[i].lazer
            },
{
}

/// Row `i` of every column of a daily graph is entry `i`'s own field: its
/// bucket date, its stable count, its lazer count, and (where the counts add
/// up in `i64`) their sum.
pub proof fn lemma_daily_graph_rows(s: Seq<DailyEntry>)
    ensures
        PointLineView::of_daily(s).timestamp.len() == s.len(),
        PointLineView::of_daily(s).stable.len() == s.len(),
        PointLineView::of_daily(s).lazer.len() == s.len(),
        PointLineView::of_daily(s).sum.len() == s.len(),
        forall|i: int|
            0 <= i < s.len() ==> {
                &&& #[trigger] PointLineView::of_daily(s).timestamp[i] == s[i].date
                &&& PointLineView::of_daily(s).stable[i] == s[i].stable
                &&& PointLineView::of_daily(s).lazer[i] == s[i].lazer
                &&& sum_fits(s[i].stable, s[i].lazer) ==> PointLineView::of_daily(s).sum[i] == s[i].stable
                    + s[i].lazer
            },
{
}

} // verus!
