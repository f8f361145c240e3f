//! Why combined stats are exact: the pre-aggregated tables hold the hits before
//! the rollup cutoff, summed per bucket; the raw table is read from the cutoff
//! on. Counted this way, every hit of the asked range is counted once.
use vstd::prelude::*;
use crate::bucket::{lemma_floor_brackets, trunc_div};
use crate::window::windows_of;

verus! {

/// A recorded hit as the statistics see it: its time and its visitor.
pub struct Hit {
    pub ts: int,
    pub visitor: Seq<char>,
}

/// Start of the bucket that holds `ts`.
pub open spec fn bucket_of(ts: int, bucket: int) -> int {
    trunc_div(ts, bucket) * bucket
}

/// Hits chosen by `sel` in the raw window `[lo, hi]`.
pub open spec fn raw_count(hits: Seq<Hit>, sel: spec_fn(Hit) -> bool, lo: int, hi: int) -> nat
    decreases hits.len(),
{
    if hits.len() == 0 {
        0
    } else {
        let h = hits.last();
        raw_count(hits.drop_last(), sel, lo, hi) + if sel(h) && lo <= h.ts <= hi { 1nat } else { 0nat }
    }
}

/// Hits chosen by `sel` that the rollups up to `cutoff` folded into buckets
/// whose start lies in `[lo, hi]`: what the bucket rows of that window sum to.
pub open spec fn rolled_count(
    hits: Seq<Hit>,
    sel: spec_fn(Hit) -> bool,
    bucket: int,
    cutoff: int,
    lo: int,
    hi: int,
) -> nat
    decreases hits.len(),
{
    if hits.len() == 0 {
        0
    } else {
        let h = hits.last();
        rolled_count(hits.drop_last(), sel, bucket, cutoff, lo, hi) + if sel(h) && h.ts < cutoff
            && lo <= bucket_of(h.ts, bucket) <= hi {
            1nat
        } else {
            0nat
        }
    }
}

/// Visitors with a hit in the raw window `[lo, hi]`.
pub open spec fn raw_visitors(hits: Seq<Hit>, lo: int, hi: int) -> Set<Seq<char>> {
    Set::new(|v: Seq<char>| exists|i: int| 0 <= i < hits.len() && #[trigger] hits[i].visitor == v && lo <= hits[i].ts <= hi)
}

/// Visitors that the rollups up to `cutoff` recorded in buckets whose start
/// lies in `[lo, hi]`.
pub open spec fn rolled_visitors(hits: Seq<Hit>, bucket: int, cutoff: int, lo: int, hi: int) -> Set<Seq<char>> {
    Set::new(
        |v: Seq<char>|
            exists|i: int|
                0 <= i < hits.len() && #[trigger] hits[i].visitor == v && hits[i].ts < cutoff && lo
                    <= bucket_of(hits[i].ts, bucket) <= hi,
    )
}

/// For a time at or after the epoch and a bucket-aligned bound `a`: `a` is at
/// most the time exactly when it is at most the time's bucket start, and the
/// bucket start lies before `a` exactly when the time does.
proof fn lemma_aligned_bounds(e: int, a: int, bucket: int)
    requires
        e >= 0,
        bucket > 0,
        a % bucket == 0,
    ensures
        (a <= e) == (a <= bucket_of(e, bucket)),
        (bucket_of(e, bucket) < a) == (e < a),
{
    lemma_floor_brackets(e, bucket);
    let q = e / bucket;
    let k = a / bucket;
    vstd::arithmetic::div_mod::lemma_fundamental_div_mod(a, bucket);
    assert(a == k * bucket) by (nonlinear_arith)
        requires
            a == bucket * k + a % bucket,
            a % bucket == 0,
    ;
    assert(bucket_of(e, bucket) == q * bucket);
    if a <= e {
        assert(k <= q) by (nonlinear_arith)
            requires
                a == k * bucket,
                a <= e,
                e < q * bucket + bucket,
                bucket > 0,
        ;
        assert(k * bucket <= q * bucket) by (nonlinear_arith)
            requires
                k <= q,
                bucket > 0,
        ;
    }
    if bucket_of(e, bucket) < a {
        assert(q < k) by (nonlinear_arith)
            requires
                q * bucket < k * bucket,
                bucket > 0,
        ;
        assert(q * bucket + bucket <= k * bucket) by (nonlinear_arith)
            requires
                q + 1 <= k,
                bucket > 0,
        ;
    }
}

/// One hit is counted once: in the buckets or in the raw window, never both,
/// exactly when it lies in `[from_b, to]`.
proof fn lemma_hit_counted_once(e: int, bucket: int, from_b: int, to: int, cutoff: int)
    requires
        e >= 0,
        bucket > 0,
        from_b % bucket == 0,
        cutoff % bucket == 0,
        cutoff <= to,
    ensures
        ({
            let w = windows_of(from_b, to, cutoff);
            let rolled = e < cutoff && w.0 <= bucket_of(e, bucket) <= w.1;
            let raw = w.2 <= e <= w.3;
            &&& !(rolled && raw)
            &&& (rolled || raw) == (from_b <= e <= to)
        }),
{
    lemma_aligned_bounds(e, from_b, bucket);
    lemma_aligned_bounds(e, cutoff, bucket);
}

/// Every hit chosen by `sel` in the asked range `[from_b, to]` is counted
/// exactly once by combined stats: the bucket rows of the aggregated window
/// plus the raw hits of the raw window sum to the raw count of the range,
/// when the range starts on a bucket boundary, the rollups ended on one at
/// `cutoff`, and `cutoff` is not after `to`.
pub proof fn lemma_combined_count_exact(
    hits: Seq<Hit>,
    sel: spec_fn(Hit) -> bool,
    bucket: int,
    from_b: int,
    to: int,
    cutoff: int,
)
    requires
        bucket > 0,
        from_b % bucket == 0,
        cutoff % bucket == 0,
        cutoff <= to,
        forall|i: int| 0 <= i < hits.len() ==> #[trigger] hits[i].ts >= 0,
    ensures
        ({
            let w = windows_of(from_b, to, cutoff);
            rolled_count(hits, sel, bucket, cutoff, w.0, w.1) + raw_count(hits, sel, w.2, w.3)
                == raw_count(hits, sel, from_b, to)
        }),
    decreases hits.len(),
{
    if hits.len() > 0 {
        let rest = hits.drop_last();
        assert forall|i: int| 0 <= i < rest.len() implies #[trigger] rest[i].ts >= 0 by {
            assert(rest[i] == hits[i]);
        }
        lemma_combined_count_exact(rest, sel, bucket, from_b, to, cutoff);
        lemma_hit_counted_once(hits.last().ts, bucket, from_b, to, cutoff);
    }
}

/// The distinct visitors of combined stats are exactly those with a hit in
/// `[from_b, to]`, under the same conditions.
pub proof fn lemma_combined_visitors_exact(
    hits: Seq<Hit>,
    bucket: int,
    from_b: int,
    to: int,
    cutoff: int,
)
    requires
        bucket > 0,
        from_b % bucket == 0,
        cutoff % bucket == 0,
        cutoff <= to,
        forall|i: int| 0 <= i < hits.len() ==> #[trigger] hits[i].ts >= 0,
    ensures
        ({
            let w = windows_of(from_b, to, cutoff);
            rolled_visitors(hits, bucket, cutoff, w.0, w.1).union(raw_visitors(hits, w.2, w.3))
                == raw_visitors(hits, from_b, to)
        }),
{
    let w = windows_of(from_b, to, cutoff);
    let lhs = rolled_visitors(hits, bucket, cutoff, w.0, w.1).union(raw_visitors(hits, w.2, w.3));
    let rhs = raw_visitors(hits, from_b, to);
    assert forall|v: Seq<char>| lhs.contains(v) implies rhs.contains(v) by {
        if rolled_visitors(hits, bucket, cutoff, w.0, w.1).contains(v) {
            let i = choose|i: int|
                0 <= i < hits.len() && #[trigger] hits[i].visitor == v && hits[i].ts < cutoff && w.0
                    <= bucket_of(hits[i].ts, bucket) <= w.1;
            lemma_hit_counted_once(hits[i].ts, bucket, from_b, to, cutoff);
        } else {
            let i = choose|i: int| 0 <= i < hits.len() && #[trigger] hits[i].visitor == v && w.2 <= hits[i].ts <= w.3;
            lemma_hit_counted_once(hits[i].ts, bucket, from_b, to, cutoff);
        }
    }
    assert forall|v: Seq<char>| rhs.contains(v) implies lhs.contains(v) by {
        let i = choose|i: int| 0 <= i < hits.len() && #[trigger] hits[i].visitor == v && from_b <= hits[i].ts <= to;
        lemma_hit_counted_once(hits[i].ts, bucket, from_b, to, cutoff);
        if hits[i].ts < cutoff && w.0 <= bucket_of(hits[i].ts, bucket) <= w.1 {
            assert(rolled_visitors(hits, bucket, cutoff, w.0, w.1).contains(v));
        } else {
            assert(raw_visitors(hits, w.2, w.3).contains(v));
        }
    }
    assert(lhs =~= rhs);
}

} // verus!
