//! Which tables answer a stats query, over which time windows, and which raw
//! events a rollup folds into the pre-aggregated tables.
use vstd::prelude::*;
use crate::bucket::{
    floor_to_bucket, lemma_floor_idempotent, lemma_floor_monotone, trunc_div, DAY_MS, HOUR_MS,
};

verus! {

/// A level of pre-aggregation.
#[derive(Clone, Copy, Debug, PartialEq, Eq)]
pub enum Granularity {
    Hourly,
    Daily,
}

/// Where a stats answer comes from.
#[derive(Clone, Copy, Debug, PartialEq, Eq)]
pub enum StatsSource {
    /// The raw `events` table alone.
    Raw,
    /// Pre-aggregated buckets, topped up with raw events after the last rollup.
    Rollup(Granularity),
}

/// Bucket width of a granularity, in milliseconds.
pub open spec fn bucket_width(g: Granularity) -> int {
    match g {
        Granularity::Hourly => HOUR_MS as int,
        Granularity::Daily => DAY_MS as int,
    }
}

/// Bucket width of a granularity, in milliseconds.
pub fn bucket_ms(g: Granularity) -> (w: i64)
    ensures
        w == bucket_width(g),
        w > 0,
{
    match g {
        Granularity::Hourly => HOUR_MS,
        Granularity::Daily => DAY_MS,
    }
}

/// Ranges longer than a week read daily buckets, longer than a day hourly
/// buckets, anything shorter reads raw events.
pub open spec fn route(from_ms: int, to_ms: int) -> StatsSource {
    if to_ms - from_ms > 7 * (DAY_MS as int) {
        StatsSource::Rollup(Granularity::Daily)
    } else if to_ms - from_ms > DAY_MS as int {
        StatsSource::Rollup(Granularity::Hourly)
    } else {
        StatsSource::Raw
    }
}

/// Picks the source of a stats answer from the length of the asked range.
pub fn stats_source(from_ms: i64, to_ms: i64) -> (s: StatsSource)
    requires
        i64::MIN <= to_ms - from_ms <= i64::MAX,
    ensures
        s == route(from_ms as int, to_ms as int),
{
    let range = to_ms - from_ms;
    if range > 7 * DAY_MS {
        StatsSource::Rollup(Granularity::Daily)
    } else if range > DAY_MS {
        StatsSource::Rollup(Granularity::Hourly)
    } else {
        StatsSource::Raw
    }
}

/// The two closed time windows of a combined stats query: aggregated buckets
/// in `[agg_from, agg_to_inc]`, raw events in `[raw_from, raw_to]`.
#[derive(Clone, Copy, Debug, PartialEq, Eq)]
pub struct Windows {
    pub agg_from: i64,
    pub agg_to_inc: i64,
    pub raw_from: i64,
    pub raw_to: i64,
}

/// Aggregates cover `[from, min(to, cutoff))`, raw events `[max(from, cutoff), to]`.
pub open spec fn windows_of(from_ms: int, to_ms: int, cutoff_ms: int) -> (int, int, int, int) {
    let agg_to = if cutoff_ms < to_ms { cutoff_ms } else { to_ms };
    let raw_from = if cutoff_ms > from_ms { cutoff_ms } else { from_ms };
    (from_ms, agg_to - 1, raw_from, to_ms)
}

/// Splits `[from_ms, to_ms]` at the rollup cutoff.
pub fn combined_windows(from_ms: i64, to_ms: i64, cutoff_ms: i64) -> (w: Windows)
    requires
        cutoff_ms > i64::MIN,
        to_ms > i64::MIN,
    ensures
        (w.agg_from as int, w.agg_to_inc as int, w.raw_from as int, w.raw_to as int)
            == windows_of(from_ms as int, to_ms as int, cutoff_ms as int),
{
    let agg_to = if cutoff_ms < to_ms { cutoff_ms } else { to_ms };
    let raw_from = if cutoff_ms > from_ms { cutoff_ms } else { from_ms };
    let agg_to_inc = agg_to - 1;
    Windows { agg_from: from_ms, agg_to_inc, raw_from, raw_to: to_ms }
}

/// Whether `t` lies in the aggregated window.
pub open spec fn in_agg(w: (int, int, int, int), t: int) -> bool {
    w.0 <= t <= w.1
}

/// Whether `t` lies in the raw window.
pub open spec fn in_raw(w: (int, int, int, int), t: int) -> bool {
    w.2 <= t <= w.3
}

/// No instant is read from both the aggregates and the raw events, so nothing
/// is counted twice; aggregates are read only before the cutoff and raw events
/// only from it on.
pub proof fn lemma_windows_disjoint(from_ms: int, to_ms: int, cutoff_ms: int, t: int)
    ensures
        !(in_agg(windows_of(from_ms, to_ms, cutoff_ms), t) && in_raw(
            windows_of(from_ms, to_ms, cutoff_ms),
            t,
        )),
        in_agg(windows_of(from_ms, to_ms, cutoff_ms), t) ==> t < cutoff_ms,
        in_raw(windows_of(from_ms, to_ms, cutoff_ms), t) ==> t >= cutoff_ms,
{
}

/// Every instant of `[from, to]` is read from one of the two windows, except
/// the instant `to` itself when it lies before the cutoff.
pub proof fn lemma_windows_cover(from_ms: int, to_ms: int, cutoff_ms: int, t: int)
    requires
        from_ms <= t <= to_ms,
        !(t == to_ms && to_ms < cutoff_ms),
    ensures
        in_agg(windows_of(from_ms, to_ms, cutoff_ms), t) || in_raw(
            windows_of(from_ms, to_ms, cutoff_ms),
            t,
        ),
{
}

/// The raw events `[from, to)` that a rollup folds into buckets.
pub open spec fn rollup_plan(last_ts: int, now_ms: int, bucket: int) -> Option<(int, int)> {
    let cur = trunc_div(now_ms, bucket) * bucket;
    if last_ts >= cur {
        None
    } else {
        Some((last_ts, cur))
    }
}

/// Which raw events a rollup at `now_ms` folds in, given the end of the
/// previous rollup; `None` when the current bucket is already covered.
pub fn rollup_window(last_ts: i64, now_ms: i64, bucket: i64) -> (r: Option<(i64, i64)>)
    requires
        bucket > 0,
    ensures
        match r {
            Some((a, b)) => rollup_plan(last_ts as int, now_ms as int, bucket as int) == Some(
                (a as int, b as int),
            ),
            None => rollup_plan(last_ts as int, now_ms as int, bucket as int) is None,
        },
{
    let cur = floor_to_bucket(now_ms, bucket);
    if last_ts >= cur {
        None
    } else {
        Some((last_ts, cur))
    }
}

/// Rollups chain: once a rollup has folded `[a, b)` and recorded `b`, a rollup
/// in the same bucket folds nothing, and a later one starts exactly at `b`,
/// so no raw event is folded twice or skipped.
pub proof fn lemma_rollups_chain(last_ts: int, now_ms: int, later_ms: int, bucket: int)
    requires
        bucket > 0,
        rollup_plan(last_ts, now_ms, bucket) is Some,
        now_ms <= later_ms,
    ensures
        rollup_plan(last_ts, now_ms, bucket) == Some((last_ts, trunc_div(now_ms, bucket) * bucket)),
        ({
            let b = trunc_div(now_ms, bucket) * bucket;
            &&& trunc_div(later_ms, bucket) * bucket == b ==> rollup_plan(b, later_ms, bucket) is None
            &&& b <= trunc_div(later_ms, bucket) * bucket
            &&& rollup_plan(b, later_ms, bucket) matches Some((c, d)) ==> c == b && b < d
        }),
{
    lemma_floor_idempotent(now_ms, bucket);
    lemma_floor_monotone(now_ms, later_ms, bucket);
}

/// Ranges of at most a day are answered from raw events, ranges of more
/// than a day up to a week from the hourly aggregates, longer ones from the
/// daily aggregates.
pub proof fn lemma_route_by_length(from_ms: int, to_ms: int)
    ensures
        to_ms - from_ms <= 86_400_000 ==> route(from_ms, to_ms) == StatsSource::Raw,
        86_400_000 < to_ms - from_ms <= 604_800_000 ==> route(from_ms, to_ms) == StatsSource::Rollup(
            Granularity::Hourly,
        ),
        604_800_000 < to_ms - from_ms ==> route(from_ms, to_ms) == StatsSource::Rollup(Granularity::Daily),
{
}

} // verus!
