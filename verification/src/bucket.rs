use vstd::prelude::*;

verus! {

/// Rust's `/` on integers: the quotient rounded toward zero.
pub open spec fn trunc_div(a: int, b: int) -> int {
    if a >= 0 {
        if b > 0 { a / b } else { -(a / (-b)) }
    } else {
        if b > 0 { -((-a) / b) } else { (-a) / (-b) }
    }
}

proof fn lemma_nonneg_div_mul(a: int, b: int)
    requires a >= 0, b > 0,
    ensures 0 <= (a / b) * b <= a, a - (a / b) * b < b,
{
    vstd::arithmetic::div_mod::lemma_fundamental_div_mod(a, b);
    vstd::arithmetic::div_mod::lemma_mod_bound(a, b);
    vstd::arithmetic::div_mod::lemma_div_pos_is_pos(a, b);
    vstd::arithmetic::mul::lemma_mul_nonnegative(a / b, b);
    vstd::arithmetic::mul::lemma_mul_is_commutative(a / b, b);
}

/// The magnitude of `trunc_div(a, b) * b` never exceeds that of `a`.
proof fn lemma_trunc_div_mul_bound(a: int, b: int)
    requires b != 0,
    ensures
        a >= 0 ==> 0 <= trunc_div(a, b) * b <= a,
        a < 0 ==> a <= trunc_div(a, b) * b <= 0,
{
    if a >= 0 {
        if b > 0 {
            lemma_nonneg_div_mul(a, b);
        } else {
            lemma_nonneg_div_mul(a, -b);
            assert(trunc_div(a, b) * b == (a / (-b)) * (-b)) by (nonlinear_arith)
                requires trunc_div(a, b) == -(a / (-b));
        }
    } else {
        if b > 0 {
            lemma_nonneg_div_mul(-a, b);
            assert(trunc_div(a, b) * b == -(((-a) / b) * b)) by (nonlinear_arith)
                requires trunc_div(a, b) == -((-a) / b);
        } else {
            lemma_nonneg_div_mul(-a, -b);
            assert(trunc_div(a, b) * b == -(((-a) / (-b)) * (-b))) by (nonlinear_arith)
                requires trunc_div(a, b) == (-a) / (-b);
        }
    }
}

/// Width of an hourly bucket, in milliseconds.
pub const HOUR_MS: i64 = 3_600_000;

/// Width of a daily bucket, in milliseconds.
pub const DAY_MS: i64 = 86_400_000;

/// The quotient rounded toward zero fits wherever the dividend does, but for
/// the one overflowing division `i64::MIN / -1`.
proof fn lemma_trunc_div_range(a: int, b: int)
    requires
        b != 0,
        i64::MIN <= a <= i64::MAX,
        !(a == i64::MIN && b == -1),
    ensures
        i64::MIN <= trunc_div(a, b) <= i64::MAX,
{
    if a >= 0 {
        if b > 0 {
            vstd::arithmetic::div_mod::lemma_div_pos_is_pos(a, b);
            vstd::arithmetic::div_mod::lemma_div_is_ordered_by_denominator(a, 1, b);
        } else {
            vstd::arithmetic::div_mod::lemma_div_pos_is_pos(a, -b);
            vstd::arithmetic::div_mod::lemma_div_is_ordered_by_denominator(a, 1, -b);
        }
    } else {
        if b > 0 {
            vstd::arithmetic::div_mod::lemma_div_pos_is_pos(-a, b);
            vstd::arithmetic::div_mod::lemma_div_is_ordered_by_denominator(-a, 1, b);
        } else {
            vstd::arithmetic::div_mod::lemma_div_pos_is_pos(-a, -b);
            if b == -1 {
                assert((-a) / 1 == -a);
            } else {
                vstd::arithmetic::div_mod::lemma_div_is_ordered_by_denominator(-a, 2, -b);
                vstd::arithmetic::div_mod::lemma_div_is_ordered(-a, -(i64::MIN as int), 2);
            }
        }
    }
}

/// Start of the bucket of width `bucket` that holds `ts_ms`, as integer
/// division computes it (rounding toward zero).
pub fn floor_to_bucket(ts_ms: i64, bucket: i64) -> (r: i64)
    requires
        bucket != 0,
        !(ts_ms == i64::MIN && bucket == -1),
    ensures
        r == trunc_div(ts_ms as int, bucket as int) * bucket,
{
    proof {
        lemma_trunc_div_mul_bound(ts_ms as int, bucket as int);
    }
    let d = ts_ms.checked_div(bucket);
    proof {
        let x = ts_ms as int;
        let b = bucket as int;
        lemma_trunc_div_range(x, b);
        assert(x * -1 == -x);
        assert(b * -1 == -b);
    }
    match d {
        Some(q) => q * bucket,
        // not reached: under the precondition the quotient always exists
        None => 0,
    }
}

/// For a time at or after the epoch, its bucket start is aligned to the bucket
/// width, at most the time itself, and less than one width before it.
pub proof fn lemma_floor_brackets(ts_ms: int, bucket: int)
    requires
        ts_ms >= 0,
        bucket > 0,
    ensures
        trunc_div(ts_ms, bucket) * bucket <= ts_ms < trunc_div(ts_ms, bucket) * bucket + bucket,
        (trunc_div(ts_ms, bucket) * bucket) % bucket == 0,
{
    lemma_nonneg_div_mul(ts_ms, bucket);
    vstd::arithmetic::div_mod::lemma_mod_multiples_basic(ts_ms / bucket, bucket);
}

/// A bucket start is a multiple of the bucket width, before the epoch too.
pub proof fn lemma_floor_aligned(ts_ms: int, bucket: int)
    requires
        bucket > 0,
    ensures
        (trunc_div(ts_ms, bucket) * bucket) % bucket == 0,
{
    vstd::arithmetic::div_mod::lemma_mod_multiples_basic(trunc_div(ts_ms, bucket), bucket);
}

/// Flooring a bucket start to the same width gives it back.
pub proof fn lemma_floor_idempotent(ts_ms: int, bucket: int)
    requires
        bucket > 0,
    ensures
        trunc_div(trunc_div(ts_ms, bucket) * bucket, bucket) * bucket == trunc_div(ts_ms, bucket)
            * bucket,
{
    let q = trunc_div(ts_ms, bucket);
    if ts_ms >= 0 {
        lemma_nonneg_div_mul(ts_ms, bucket);
        vstd::arithmetic::div_mod::lemma_div_by_multiple(q, bucket);
    } else {
        lemma_nonneg_div_mul(-ts_ms, bucket);
        let p = (-ts_ms) / bucket;
        assert(q * bucket == -(p * bucket)) by (nonlinear_arith)
            requires q == -p;
        vstd::arithmetic::div_mod::lemma_div_by_multiple(p, bucket);
        if q * bucket < 0 {
            assert(trunc_div(q * bucket, bucket) == -((p * bucket) / bucket));
        } else {
            assert(p * bucket == 0);
            assert(q * bucket == 0);
            assert(trunc_div(0, bucket) == 0);
        }
    }
}

/// Bucket starts never move backwards in time.
pub proof fn lemma_floor_monotone(a: int, b: int, bucket: int)
    requires
        a <= b,
        bucket > 0,
    ensures
        trunc_div(a, bucket) * bucket <= trunc_div(b, bucket) * bucket,
{
    if a >= 0 {
        vstd::arithmetic::div_mod::lemma_div_is_ordered(a, b, bucket);
        vstd::arithmetic::mul::lemma_mul_inequality(a / bucket, b / bucket, bucket);
    } else if b >= 0 {
        lemma_trunc_div_mul_bound(a, bucket);
        lemma_trunc_div_mul_bound(b, bucket);
    } else {
        vstd::arithmetic::div_mod::lemma_div_is_ordered(-b, -a, bucket);
        vstd::arithmetic::mul::lemma_mul_inequality((-b) / bucket, (-a) / bucket, bucket);
        assert(trunc_div(a, bucket) * bucket == -(((-a) / bucket) * bucket)) by (nonlinear_arith)
            requires trunc_div(a, bucket) == -((-a) / bucket);
        assert(trunc_div(b, bucket) * bucket == -(((-b) / bucket) * bucket)) by (nonlinear_arith)
            requires trunc_div(b, bucket) == -((-b) / bucket);
    }
}

} // verus!
