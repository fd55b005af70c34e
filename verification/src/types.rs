//! The responses that the service serves and the cache that holds them.

use vstd::prelude::*;
use crate::models::{
    all_daily_convertible, all_measurements_convertible, graph_lists_daily, graph_lists_measurements,
    lemma_daily_graph_rows, lemma_measurements_graph_rows, point_describes, DailyEntry, MeasurementEntry,
};
use crate::time::UtcTime;

verus! {

/// How history rows are grouped.
#[derive(Clone, Copy, Debug, PartialEq, Eq, Structural)]
pub enum BucketSize {
    Day,
    Week,
    Month,
}

impl Default for BucketSize {
    fn default() -> (res: BucketSize)
        ensures
            res == BucketSize::Day,
    {
        BucketSize::Day
    }
}

/// One point of the user counts: when, how many on each client, and the total.
#[derive(Clone, Copy, Debug, PartialEq, Eq, Structural)]
pub struct SinglePointResponse {
    pub timestamp: i64,
    pub stable: i64,
    pub lazer: i64,
    pub sum: i64,
}

impl SinglePointResponse {
    /// The total is the sum of the two client counts.
    pub open spec fn wf(self) -> bool {
        self.sum == self.stable + self.lazer
    }
}

/// A series of points laid out column by column.
#[derive(Debug)]
pub struct PointLineResponse {
    pub timestamp: Vec<i64>,
    pub stable: Vec<i64>,
    pub lazer: Vec<i64>,
    pub sum: Vec<i64>,
}

/// The columns of a series as sequences.
#[verifier::ext_equal]
pub struct PointLineView {
    pub timestamp: Seq<i64>,
    pub stable: Seq<i64>,
    pub lazer: Seq<i64>,
    pub sum: Seq<i64>,
}

impl View for PointLineResponse {
    type V = PointLineView;

    open spec fn view(&self) -> PointLineView {
        PointLineView {
            timestamp: self.timestamp@,
            stable: self.stable@,
            lazer: self.lazer@,
            sum: self.sum@,
        }
    }
}

impl PointLineView {
    /// All columns have the same length and each total is the sum of its row.
    pub open spec fn wf(self) -> bool {
        &&& self.stable.len() == self.timestamp.len()
        &&& self.lazer.len() == self.timestamp.len()
        &&& self.sum.len() == self.timestamp.len()
        &&& forall|i: int| 0 <= i < self.sum.len() ==> #[trigger] self.sum[i] == self.stable[i] + self.lazer[i]
    }
}

impl PointLineResponse {
    pub open spec fn wf(&self) -> bool {
        self@.wf()
    }

    /// A copy of the series, column by column.
    pub fn duplicate(&self) -> (res: PointLineResponse)
        ensures
            res@ == self@,
    {
        PointLineResponse {
            timestamp: self.timestamp.clone(),
            stable: self.stable.clone(),
            lazer: self.lazer.clone(),
            sum: self.sum.clone(),
        }
    }
}

/// How long a cache stays fresh: five minutes, in nanoseconds.
pub const STALE_AFTER_NANOS: i128 = 300_000_000_000i128;

/// The latest point and the three peaks shown as bars.
#[derive(Clone, Copy, Debug)]
pub struct BarEntries {
    /// Latest fetched changelog entry
    pub latest: SinglePointResponse,
    /// Peak lazer user count
    pub peak_user_count: SinglePointResponse,
    /// Peak lazer:stable user ratio
    pub peak_user_percentage: SinglePointResponse,
    /// Peak lazer:stable ratio within 15% of highest user count
    pub peak_percentile_percentage: SinglePointResponse,
}

/// The two series shown as graphs.
#[derive(Debug)]
pub struct GraphEntries {
    /// 24h users
    pub day_users: PointLineResponse,
    /// Overall daily average history
    pub history_users: PointLineResponse,
}

/// What the service last loaded, and when.
#[derive(Debug)]
pub struct ApplicationCache {
    pub(crate) last_update: UtcTime,
    pub(crate) changelog_entries: BarEntries,
    pub(crate) graph_entries: GraphEntries,
}

/// The content of a cache.
#[verifier::ext_equal]
pub struct CacheView {
    pub last_update: UtcTime,
    pub latest: SinglePointResponse,
    pub peak_user_count: SinglePointResponse,
    pub peak_user_percentage: SinglePointResponse,
    pub peak_percentile_percentage: SinglePointResponse,
    pub day_users: PointLineView,
    pub history_users: PointLineView,
}

impl View for ApplicationCache {
    type V = CacheView;

    closed spec fn view(&self) -> CacheView {
        CacheView {
            last_update: self.last_update,
            latest: self.changelog_entries.latest,
            peak_user_count: self.changelog_entries.peak_user_count,
            peak_user_percentage: self.changelog_entries.peak_user_percentage,
            peak_percentile_percentage: self.changelog_entries.peak_percentile_percentage,
            day_users: self.graph_entries.day_users@,
            history_users: self.graph_entries.history_users@,
        }
    }
}

impl CacheView {
    /// The cache built at `last_update` from a fetched point, the three peak
    /// measurements and the two series of rows.
    pub open spec fn assembled(
        last_update: UtcTime,
        latest: SinglePointResponse,
        peak_user_count: MeasurementEntry,
        peak_user_percentage: MeasurementEntry,
        peak_percentile_percentage: MeasurementEntry,
        day_users: Seq<MeasurementEntry>,
        history_users: Seq<DailyEntry>,
    ) -> CacheView {
        CacheView {
            last_update,
            latest,
            peak_user_count: SinglePointResponse::of_measurement(peak_user_count),
            peak_user_percentage: SinglePointResponse::of_measurement(peak_user_percentage),
            peak_percentile_percentage: SinglePointResponse::of_measurement(peak_percentile_percentage),
            day_users: PointLineView::of_measurements(day_users),
            history_users: PointLineView::of_daily(history_users),
        }
    }

    /// Whether the cache counts as stale at `now`: its last update lies more
    /// than five minutes after `now`, the way `last_update.signed_duration_since(now)`
    /// compares with five minutes.
    pub open spec fn stale_at(self, now: UtcTime) -> bool {
        self.last_update.total_nanos() - now.total_nanos() > STALE_AFTER_NANOS
    }
}

impl ApplicationCache {
    /// Puts together what one refresh loaded: the instant of the refresh, the
    /// freshly fetched point, the three peak measurements and the two series.
    pub fn assemble(
        last_update: UtcTime,
        latest: SinglePointResponse,
        peak_user_count: MeasurementEntry,
        peak_user_percentage: MeasurementEntry,
        peak_percentile_percentage: MeasurementEntry,
        day_users: Vec<MeasurementEntry>,
        history_users: Vec<DailyEntry>,
    ) -> (res: ApplicationCache)
        requires
            peak_user_count.convertible(),
            peak_user_percentage.convertible(),
            peak_percentile_percentage.convertible(),
            all_measurements_convertible(day_users@),
            all_daily_convertible(history_users@),
        ensures
            res@ == CacheView::assembled(
                last_update,
                latest,
                peak_user_count,
                peak_user_percentage,
                peak_percentile_percentage,
                day_users@,
                history_users@,
            ),
            res@.last_update == last_update,
            res@.latest == latest,
            point_describes(res@.peak_user_count, peak_user_count),
            point_describes(res@.peak_user_percentage, peak_user_percentage),
            point_describes(res@.peak_percentile_percentage, peak_percentile_percentage),
            graph_lists_measurements(res@.day_users, day_users@),
            graph_lists_daily(res@.history_users, history_users@),
    {
        proof {
            lemma_assembled_cache_contents(
                last_update,
                latest,
                peak_user_count,
                peak_user_percentage,
                peak_percentile_percentage,
                day_users@,
                history_users@,
            );
        }
        ApplicationCache {
            last_update,
            changelog_entries: BarEntries {
                latest,
                peak_user_count: SinglePointResponse::from_measurement(peak_user_count),
                peak_user_percentage: SinglePointResponse::from_measurement(peak_user_percentage),
                peak_percentile_percentage: SinglePointResponse::from_measurement(
                    peak_percentile_percentage,
                ),
            },
            graph_entries: GraphEntries {
                day_users: PointLineResponse::from_measurements(day_users),
                history_users: PointLineResponse::from_daily(history_users),
            },
        }
    }

    /// Whether the cache is stale at `now` (the caller reads the clock).
    pub fn is_stale(&self, now: UtcTime) -> (res: bool)
        ensures
            res == self@.stale_at(now),
            res <==> self@.last_update.secs * 1_000_000_000 + self@.last_update.nanos > now.secs
                * 1_000_000_000 + now.nanos + 300_000_000_000,
    {
        self.last_update.nanos_since(now) > STALE_AFTER_NANOS
    }

    pub fn latest(&self) -> (res: SinglePointResponse)
        ensures
            res == self@.latest,
    {
        self.changelog_entries.latest
    }

    pub fn peak_user_count(&self) -> (res: SinglePointResponse)
        ensures
            res == self@.peak_user_count,
    {
        self.changelog_entries.peak_user_count
    }

    pub fn peak_user_percentage(&self) -> (res: SinglePointResponse)
        ensures
            res == self@.peak_user_percentage,
    {
        self.changelog_entries.peak_user_percentage
    }

    pub fn peak_percentile_percentage(&self) -> (res: SinglePointResponse)
        ensures
            res == self@.peak_percentile_percentage,
    {
        self.changelog_entries.peak_percentile_percentage
    }

    pub fn daily_user_graph(&self) -> (res: PointLineResponse)
        ensures
            res@ == self@.day_users,
    {
        self.graph_entries.day_users.duplicate()
    }

    pub fn historical_user_graph(&self) -> (res: PointLineResponse)
        ensures
            res@ == self@.history_users,
    {
        self.graph_entries.history_users.duplicate()
    }
}

/// A cache is never stale at or after the instant of its own update: the
/// staleness test compares the update with the present in that order.
pub proof fn lemma_not_stale_since_update(cache: CacheView, now: UtcTime)
    requires
        now.total_nanos() >= cache.last_update.total_nanos(),
    ensures
        !cache.stale_at(now),
{
}

/// Every point that a freshly assembled cache serves is well-formed: each
/// total is the sum of its two counts, in the bars and in every graph row.
pub proof fn lemma_assembled_cache_wf(
    last_update: UtcTime,
    latest: SinglePointResponse,
    peak_user_count: MeasurementEntry,
    peak_user_percentage: MeasurementEntry,
    peak_percentile_percentage: MeasurementEntry,
    day_users: Seq<MeasurementEntry>,
    history_users: Seq<DailyEntry>,
)
    requires
        latest.wf(),
        peak_user_count.convertible(),
        peak_user_percentage.convertible(),
        peak_percentile_percentage.convertible(),
        all_measurements_convertible(day_users),
        all_daily_convertible(history_users),
    ensures
        ({
            let c = CacheView::assembled(
                last_update,
                latest,
                peak_user_count,
                peak_user_percentage,
                peak_percentile_percentage,
                day_users,
                history_users,
            );
            &&& c.latest.wf()
            &&& c.peak_user_count.wf()
            &&& c.peak_user_percentage.wf()
            &&& c.peak_percentile_percentage.wf()
            &&& c.day_users.wf()
            &&& c.history_users.wf()
        }),
{
    let day = PointLineView::of_measurements(day_users);
    assert forall|i: int| 0 <= i < day.sum.len() implies #[trigger] day.sum[i] == day.stable[i] + day.lazer[i] by {
        assert(day_users[i].convertible());
    }
    let hist = PointLineView::of_daily(history_users);
    assert forall|i: int| 0 <= i < hist.sum.len() implies #[trigger] hist.sum[i] == hist.stable[i] + hist.lazer[i] by {
        assert(history_users[i].convertible());
    }
}

/// A cache assembled from one refresh serves exactly what the refresh loaded:
/// its instant and fetched point as given, each peak bar describing its
/// measurement, the day graph listing the day's measurements row by row and
/// the history graph listing the daily entries row by row.
pub proof fn lemma_assembled_cache_contents(
    last_update: UtcTime,
    latest: SinglePointResponse,
    peak_user_count: MeasurementEntry,
    peak_user_percentage: MeasurementEntry,
    peak_percentile_percentage: MeasurementEntry,
    day_users: Seq<MeasurementEntry>,
    history_users: Seq<DailyEntry>,
)
    requires
        peak_user_count.convertible(),
        peak_user_percentage.convertible(),
        peak_percentile_percentage.convertible(),
        all_measurements_convertible(day_users),
        all_daily_convertible(history_users),
    ensures
        ({
            let c = CacheView::assembled(
                last_update,
                latest,
                peak_user_count,
                peak_user_percentage,
                peak_percentile_percentage,
                day_users,
                history_users,
            );
            &&& c.last_update == last_update
            &&& c.latest == latest
            &&& point_describes(c.peak_user_count, peak_user_count)
            &&& point_describes(c.peak_user_percentage, peak_user_percentage)
            &&& point_describes(c.peak_percentile_percentage, peak_percentile_percentage)
            &&& graph_lists_measurements(c.day_users, day_users)
            &&& graph_lists_daily(c.history_users, history_users)
        }),
{
    lemma_measurements_graph_rows(day_users);
    lemma_daily_graph_rows(history_users);
    let c = CacheView::assembled(
        last_update,
        latest,
        peak_user_count,
        peak_user_percentage,
        peak_percentile_percentage,
        day_users,
        history_users,
    );
    assert forall|i: int| 0 <= i < day_users.len() implies #[trigger] c.day_users.timestamp[i]
        == day_users[i].timestamp && c.day_users.stable[i] == day_users[i].stable && c.day_users.lazer[i]
        == day_users[i].lazer && c.day_users.sum[i] == day_users[i].stable + day_users[i].lazer by {
        assert(day_users[i].convertible());
    }
    assert forall|i: int| 0 <= i < history_users.len() implies #[trigger] c.history_users.timestamp[i]
        == history_users[i].date && c.history_users.stable[i] == history_users[i].stable
        && c.history_users.lazer[i] == history_users[i].lazer && c.history_users.sum[i]
        == history_users[i].stable + history_users[i].lazer by {
        assert(history_users[i].convertible());
    }
}

} // verus!
