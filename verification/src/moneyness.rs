//! Moneyness kernel: the two standardized log-moneyness quantities `d1` and
//! `d2` that every pricing and sensitivity formula shares.
//!
//! The kernel works on fixed-point values (scale `SCALE`). The one input it
//! cannot derive in integer arithmetic is the log-moneyness `ln(S/K)`, which
//! the caller evaluates with its numerical backend and passes in; the square
//! root of time is computed here, exactly, as an integer square root.

use vstd::prelude::*;
use crate::fixed::{
    div_trunc, div_tz, is_sqrt_of, isqrt, lemma_div_tz_bound, lemma_mul_abs_bound,
    lemma_mul_range,
};
use crate::{MAX_LOG, MAX_RATE, MAX_ROOT_TIME, MAX_TIME, MAX_VOL, SCALE};

verus! {

/// Numerator of `d1`, at scale `SCALE^3`:
/// `ln(S/K) + (r + v^2/2) * T`, each term brought to the common scale.
pub open spec fn d1_num(ln_s_over_k: int, t: int, r: int, v: int) -> int {
    ln_s_over_k * SCALE * SCALE + r * t * SCALE + div_tz(v * v * t, 2)
}

/// `d1 = (ln(S/K) + (r + v^2/2) * T) / (v * sqrt(T))`, at scale `SCALE`.
pub open spec fn d1_exact(ln_s_over_k: int, t: int, r: int, v: int, sqrt_t: int) -> int {
    div_tz(d1_num(ln_s_over_k, t, r, v), v * sqrt_t)
}

/// `d2 = d1 - v * sqrt(T)`, at scale `SCALE`.
pub open spec fn d2_exact(ln_s_over_k: int, t: int, r: int, v: int, sqrt_t: int) -> int {
    d1_exact(ln_s_over_k, t, r, v, sqrt_t) - div_tz(v * sqrt_t, SCALE as int)
}

/// The `d1` numerator stays within `10^22` under the crate's input bounds.
pub proof fn lemma_d1_num_bound(ln_s_over_k: int, t: int, r: int, v: int)
    requires
        -MAX_LOG <= ln_s_over_k <= MAX_LOG,
        1 <= t <= MAX_TIME,
        -MAX_RATE <= r <= MAX_RATE,
        1 <= v <= MAX_VOL,
    ensures
        -10_000_000_000_000_000_000_000 <= d1_num(ln_s_over_k, t, r, v)
            <= 10_000_000_000_000_000_000_000,
{
    lemma_mul_abs_bound(ln_s_over_k, 100_000_000, SCALE as int, 1_000_000);
    lemma_mul_abs_bound(ln_s_over_k * SCALE, 100_000_000_000_000, SCALE as int, 1_000_000);
    lemma_mul_abs_bound(r, 10_000_000, t, 100_000_000);
    lemma_mul_abs_bound(r * t, 1_000_000_000_000_000, SCALE as int, 1_000_000);
    lemma_mul_range(v, 1, 10_000_000, v, 1, 10_000_000);
    lemma_mul_range(v * v, 1, 100_000_000_000_000, t, 1, 100_000_000);
    lemma_div_tz_bound(v * v * t, 2, 10_000_000_000_000_000_000_000);
}

/// Square root of a time to expiry, at scale `SCALE`: the exact integer
/// square root of `t * SCALE`.
pub fn sqrt_time(t: i64) -> (st: i64)
    requires
        1 <= t <= MAX_TIME,
    ensures
        is_sqrt_of(st as int, t * SCALE),
        1 <= st <= MAX_ROOT_TIME,
{
    let scaled: u64 = (t as u64) * (SCALE as u64);
    let root: u64 = isqrt(scaled);
    proof {
        assert(root >= 1) by (nonlinear_arith)
            requires
                (t * SCALE) < (root + 1) * (root + 1),
                t * SCALE >= 1_000_000,
                0 <= root,
        ;
        assert(root <= 10_000_000) by (nonlinear_arith)
            requires
                root * root <= t * SCALE,
                t * SCALE <= 100_000_000_000_000,
                0 <= root,
        ;
    }
    root as i64
}

/// First standardized moneyness quantity.
///
/// `ln_s_over_k` is the caller-evaluated `ln(S/K)` and `sqrt_t` the square
/// root of time from `sqrt_time`, both at scale `SCALE`; the result is `d1`
/// at scale `SCALE`.
pub fn d1(ln_s_over_k: i64, t: i64, r: i64, v: i64, sqrt_t: i64) -> (d: i128)
    requires
        -MAX_LOG <= ln_s_over_k <= MAX_LOG,
        1 <= t <= MAX_TIME,
        -MAX_RATE <= r <= MAX_RATE,
        1 <= v <= MAX_VOL,
        1 <= sqrt_t <= MAX_ROOT_TIME,
    ensures
        d == d1_exact(ln_s_over_k as int, t as int, r as int, v as int, sqrt_t as int),
        -10_000_000_000_000_000_000_000 <= d <= 10_000_000_000_000_000_000_000,
{
    proof {
        lemma_d1_num_bound(ln_s_over_k as int, t as int, r as int, v as int);
        lemma_mul_abs_bound(ln_s_over_k as int, 100_000_000, SCALE as int, 1_000_000);
        lemma_mul_abs_bound(
            (ln_s_over_k as int) * (SCALE as int),
            100_000_000_000_000,
            SCALE as int,
            1_000_000,
        );
        lemma_mul_abs_bound(r as int, 10_000_000, t as int, 100_000_000);
        lemma_mul_abs_bound((r as int) * (t as int), 1_000_000_000_000_000, SCALE as int, 1_000_000);
        lemma_mul_range(v as int, 1, 10_000_000, v as int, 1, 10_000_000);
        lemma_mul_range((v as int) * (v as int), 1, 100_000_000_000_000, t as int, 1, 100_000_000);
        lemma_mul_range(v as int, 1, 10_000_000, sqrt_t as int, 1, 10_000_000);
    }
    let ln2: i128 = (ln_s_over_k as i128) * (SCALE as i128) * (SCALE as i128);
    let rts: i128 = (r as i128) * (t as i128) * (SCALE as i128);
    let vvt: i128 = (v as i128) * (v as i128) * (t as i128);
    let num: i128 = ln2 + rts + div_trunc(vvt, 2);
    let den: i128 = (v as i128) * (sqrt_t as i128);
    proof {
        lemma_div_tz_bound(v as int * v as int * t as int, 2, 10_000_000_000_000_000_000_000);
        lemma_div_tz_bound(
            d1_num(ln_s_over_k as int, t as int, r as int, v as int),
            den as int,
            10_000_000_000_000_000_000_000,
        );
    }
    div_trunc(num, den)
}

/// Second standardized moneyness quantity: `d1 - v * sqrt(T)`.
pub fn d2(ln_s_over_k: i64, t: i64, r: i64, v: i64, sqrt_t: i64) -> (d: i128)
    requires
        -MAX_LOG <= ln_s_over_k <= MAX_LOG,
        1 <= t <= MAX_TIME,
        -MAX_RATE <= r <= MAX_RATE,
        1 <= v <= MAX_VOL,
        1 <= sqrt_t <= MAX_ROOT_TIME,
    ensures
        d == d2_exact(ln_s_over_k as int, t as int, r as int, v as int, sqrt_t as int),
        d == d1_exact(ln_s_over_k as int, t as int, r as int, v as int, sqrt_t as int)
            - div_tz((v as int) * (sqrt_t as int), SCALE as int),
{
    let a: i128 = d1(ln_s_over_k, t, r, v, sqrt_t);
    proof {
        lemma_mul_range(v as int, 1, 10_000_000, sqrt_t as int, 1, 10_000_000);
        lemma_div_tz_bound((v as int) * (sqrt_t as int), 1_000_000, 100_000_000_000_000);
    }
    let vst: i128 = (v as i128) * (sqrt_t as i128);
    a - div_trunc(vst, SCALE as i128)
}

} // verus!
