//! Where a request for the user history is answered from.

use vstd::prelude::*;
use crate::time::{
    datetime_from_timestamp_secs, representable_timestamp, MAX_UTC_TIMESTAMP, MIN_UTC_TIMESTAMP,
};
use crate::types::BucketSize;

verus! {

/// A request for the user history: an optional time range (Unix seconds) and
/// the bucket size of the rows.
#[derive(Clone, Copy, Debug, PartialEq, Eq, Structural)]
pub struct HistoryQuery {
    pub from: Option<i64>,
    pub to: Option<i64>,
    pub bucket_size: BucketSize,
}

impl Default for HistoryQuery {
    fn default() -> (res: HistoryQuery)
        ensures
            res == (HistoryQuery { from: None, to: None, bucket_size: BucketSize::Day }),
    {
        HistoryQuery { from: None, to: None, bucket_size: BucketSize::default() }
    }
}

/// Where the rows of a history answer come from.
#[derive(Clone, Copy, Debug, PartialEq, Eq, Structural)]
pub enum HistorySource {
    /// The daily history kept in the cache.
    CachedDaily,
    /// The whole history, aggregated by the store into buckets of this size.
    Buckets(BucketSize),
    /// The measurements taken from `from` (inclusive) to `to` (exclusive).
    Range { from: i64, to: i64 },
}

/// Why a history request is refused.
#[derive(Clone, Copy, Debug, PartialEq, Eq, Structural)]
pub enum HistoryRejection {
    /// Only one end of the range was given, or an end is not a UTC instant.
    BadRequest,
}

/// The answer's source: without a range, the cache for daily rows and the
/// store's buckets otherwise; with both ends, that range once both name UTC
/// instants; with one end only, a bad request.
pub open spec fn history_plan(q: HistoryQuery) -> Result<HistorySource, HistoryRejection> {
    match (q.from, q.to) {
        (None, None) => if q.bucket_size == BucketSize::Day {
            Ok(HistorySource::CachedDaily)
        } else {
            Ok(HistorySource::Buckets(q.bucket_size))
        },
        (Some(from), Some(to)) => if representable_timestamp(from as int) && representable_timestamp(
            to as int,
        ) {
            Ok(HistorySource::Range { from, to })
        } else {
            Err(HistoryRejection::BadRequest)
        },
        _ => Err(HistoryRejection::BadRequest),
    }
}

/// Decides where a history request is answered from, checking the ends of a
/// range with chrono.
pub fn history_source(query: &HistoryQuery) -> (res: Result<HistorySource, HistoryRejection>)
    ensures
        res == history_plan(*query),
        (query.from is Some) != (query.to is Some) ==> res == Err::<HistorySource, HistoryRejection>(
            HistoryRejection::BadRequest,
        ),
        query.from is None && query.to is None ==> res == Ok::<HistorySource, HistoryRejection>(
            if query.bucket_size == BucketSize::Day {
                HistorySource::CachedDaily
            } else {
                HistorySource::Buckets(query.bucket_size)
            },
        ),
        query.from is Some && query.to is Some ==> (res is Ok <==> (MIN_UTC_TIMESTAMP
            <= query.from.unwrap() <= MAX_UTC_TIMESTAMP && MIN_UTC_TIMESTAMP <= query.to.unwrap()
            <= MAX_UTC_TIMESTAMP)),
        res matches Ok(HistorySource::Range { from, to }) ==> query.from == Some(from) && query.to == Some(to),
{
    proof {
        lemma_history_plan_law(*query);
    }
    match (query.from, query.to) {
        (None, None) => {
            match query.bucket_size {
                BucketSize::Day => Ok(HistorySource::CachedDaily),
                bucket => Ok(HistorySource::Buckets(bucket)),
            }
        },
        (Some(from), Some(to)) => {
            let from = match datetime_from_timestamp_secs(from) {
                Some(t) => t,
                None => {
                    return Err(HistoryRejection::BadRequest);
                },
            };
            let to = match datetime_from_timestamp_secs(to) {
                Some(t) => t,
                None => {
                    return Err(HistoryRejection::BadRequest);
                },
            };
            Ok(HistorySource::Range { from, to })
        },
        _ => Err(HistoryRejection::BadRequest),
    }
}

/// How a history request is answered, for every request: with exactly one
/// end of a range it is a bad request whatever the bucket size; with no range
/// it is the cache for daily rows and the store's buckets of the asked size
/// otherwise; with both ends it is that very range exactly when both ends are
/// UTC instants chrono can represent, and a bad request otherwise.
pub proof fn lemma_history_plan_law(q: HistoryQuery)
    ensures
        (q.from is Some) != (q.to is Some) ==> history_plan(q) == Err::<HistorySource, HistoryRejection>(
            HistoryRejection::BadRequest,
        ),
        q.from is None && q.to is None ==> history_plan(q) == Ok::<HistorySource, HistoryRejection>(
            if q.bucket_size == BucketSize::Day {
                HistorySource::CachedDaily
            } else {
                HistorySource::Buckets(q.bucket_size)
            },
        ),
        q.from is Some && q.to is Some ==> (history_plan(q) is Ok <==> (MIN_UTC_TIMESTAMP
            <= q.from.unwrap() <= MAX_UTC_TIMESTAMP && MIN_UTC_TIMESTAMP <= q.to.unwrap()
            <= MAX_UTC_TIMESTAMP)),
        history_plan(q) matches Ok(HistorySource::Range { from, to }) ==> q.from == Some(from) && q.to == Some(
            to,
        ),
        history_plan(q) is Err ==> history_plan(q) == Err::<HistorySource, HistoryRejection>(
            HistoryRejection::BadRequest,
        ),
{
}

} // verus!
