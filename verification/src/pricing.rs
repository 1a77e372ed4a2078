//! Valuation engine: closed-form Black-Scholes-Merton prices for European
//! calls and puts.
//!
//! The caller evaluates the transcendental quantities — the discount factor
//! `e^(-rT)` and the standard normal CDF at the moneyness points `d1`, `d2`
//! from the kernel — and passes them in as fixed-point values. The
//! combination into a price is exact integer arithmetic: each price is the
//! truncated quotient of an exact numerator, and put-call parity holds of
//! the numerators exactly.

use vstd::prelude::*;
use crate::fixed::{div_trunc, div_tz, lemma_div_tz_bound, lemma_div_tz_error, lemma_mul_range};
use crate::{MAX_DISC, MAX_MONEY, SCALE};

verus! {

/// Exact call-price numerator at scale `SCALE^3`:
/// `S * CDF(d1) - K * e^(-rT) * CDF(d2)`, each term brought to the common
/// scale.
pub open spec fn call_price_num(s: int, k: int, disc: int, n_d1: int, n_d2: int) -> int {
    s * n_d1 * SCALE - k * disc * n_d2
}

/// Exact put-price numerator at scale `SCALE^3`:
/// `K * e^(-rT) * CDF(-d2) - S * CDF(-d1)`, using `CDF(-x) = 1 - CDF(x)`.
pub open spec fn put_price_num(s: int, k: int, disc: int, n_d1: int, n_d2: int) -> int {
    k * disc * (SCALE - n_d2) - s * (SCALE - n_d1) * SCALE
}

/// Exact forward-value numerator at scale `SCALE^3`: `S - K * e^(-rT)`.
pub open spec fn forward_num(s: int, k: int, disc: int) -> int {
    s * SCALE * SCALE - k * disc * SCALE
}

/// Price of a European call: `S * CDF(d1) - K * e^(-rT) * CDF(d2)`.
///
/// `disc` is the caller-evaluated discount factor `e^(-rT)` and `n_d1`,
/// `n_d2` the standard normal CDF at `d1` and `d2`, all at scale `SCALE`.
pub fn black_scholes_call_price(s: i64, k: i64, disc: i64, n_d1: i64, n_d2: i64) -> (price: i64)
    requires
        1 <= s <= MAX_MONEY,
        1 <= k <= MAX_MONEY,
        1 <= disc <= MAX_DISC,
        0 <= n_d1 <= SCALE,
        0 <= n_d2 <= SCALE,
    ensures
        price == div_tz(
            call_price_num(s as int, k as int, disc as int, n_d1 as int, n_d2 as int),
            SCALE * SCALE,
        ),
{
    proof {
        lemma_price_term_bounds(s as int, k as int, disc as int, n_d1 as int, n_d2 as int);
        lemma_div_tz_bound(
            call_price_num(s as int, k as int, disc as int, n_d1 as int, n_d2 as int),
            1_000_000_000_000,
            2_000_000_000_000_000_000_000_000_000,
        );
    }
    let gain: i128 = (s as i128) * (n_d1 as i128) * (SCALE as i128);
    let cost: i128 = (k as i128) * (disc as i128) * (n_d2 as i128);
    let q: i128 = div_trunc(gain - cost, 1_000_000_000_000);
    q as i64
}

/// Price of a European put: `K * e^(-rT) * CDF(-d2) - S * CDF(-d1)`, with
/// `CDF(-x)` taken as the complement `1 - CDF(x)` of the supplied values.
pub fn black_scholes_put_price(s: i64, k: i64, disc: i64, n_d1: i64, n_d2: i64) -> (price: i64)
    requires
        1 <= s <= MAX_MONEY,
        1 <= k <= MAX_MONEY,
        1 <= disc <= MAX_DISC,
        0 <= n_d1 <= SCALE,
        0 <= n_d2 <= SCALE,
    ensures
        price == div_tz(
            put_price_num(s as int, k as int, disc as int, n_d1 as int, n_d2 as int),
            SCALE * SCALE,
        ),
{
    proof {
        lemma_price_term_bounds(s as int, k as int, disc as int, n_d1 as int, n_d2 as int);
        lemma_price_term_bounds(
            s as int,
            k as int,
            disc as int,
            (SCALE - n_d1) as int,
            (SCALE - n_d2) as int,
        );
        lemma_div_tz_bound(
            put_price_num(s as int, k as int, disc as int, n_d1 as int, n_d2 as int),
            1_000_000_000_000,
            2_000_000_000_000_000_000_000_000_000,
        );
    }
    let gain: i128 = (k as i128) * (disc as i128) * ((SCALE - n_d2) as i128);
    let cost: i128 = (s as i128) * ((SCALE - n_d1) as i128) * (SCALE as i128);
    let q: i128 = div_trunc(gain - cost, 1_000_000_000_000);
    q as i64
}

/// Both price numerators stay within `10^27` under the crate's input
/// bounds, so the prices themselves fit comfortably in `i64`.
proof fn lemma_price_term_bounds(s: int, k: int, disc: int, n_d1: int, n_d2: int)
    requires
        1 <= s <= MAX_MONEY,
        1 <= k <= MAX_MONEY,
        1 <= disc <= MAX_DISC,
        0 <= n_d1 <= SCALE,
        0 <= n_d2 <= SCALE,
    ensures
        0 <= s * n_d1 <= 1_000_000_000_000_000_000,
        0 <= k * disc <= 1_000_000_000_000_000_000_000,
        0 <= s * n_d1 * SCALE <= 1_000_000_000_000_000_000_000_000,
        0 <= k * disc * n_d2 <= 1_000_000_000_000_000_000_000_000_000,
{
    lemma_mul_range(s, 0, 1_000_000_000_000, n_d1, 0, 1_000_000);
    lemma_mul_range(s * n_d1, 0, 1_000_000_000_000_000_000, SCALE as int, 0, 1_000_000);
    lemma_mul_range(k, 0, 1_000_000_000_000, disc, 0, 1_000_000_000);
    lemma_mul_range(k * disc, 0, 1_000_000_000_000_000_000_000, n_d2, 0, 1_000_000);
}

/// Put-call parity, exact: for every input, the call numerator less the put
/// numerator is the forward-value numerator `S - K * e^(-rT)`.
///
/// The parity is emergent: both prices are computed from their own
/// formulas, and the identity falls out of `CDF(-x) = 1 - CDF(x)`.
pub proof fn lemma_put_call_parity(s: int, k: int, disc: int, n_d1: int, n_d2: int)
    ensures
        call_price_num(s, k, disc, n_d1, n_d2) - put_price_num(s, k, disc, n_d1, n_d2)
            == forward_num(s, k, disc),
{
    assert(s * n_d1 * SCALE - k * disc * n_d2 - (k * disc * (SCALE - n_d2) - s * (SCALE - n_d1)
        * SCALE) == s * SCALE * SCALE - k * disc * SCALE) by (nonlinear_arith);
}

/// Near-expiry boundary: once the CDF values saturate, prices are exactly
/// the (discounted) intrinsic values. With the CDF at both moneyness
/// points at 1 — spot far above strike, or expiry at hand — the call is
/// worth the forward value `S - K * e^(-rT)` and the put nothing; with
/// both at 0 the call is worth nothing and the put the negated forward
/// value `K * e^(-rT) - S`.
pub proof fn lemma_price_saturation(s: int, k: int, disc: int)
    ensures
        call_price_num(s, k, disc, SCALE as int, SCALE as int) == forward_num(s, k, disc),
        put_price_num(s, k, disc, SCALE as int, SCALE as int) == 0,
        call_price_num(s, k, disc, 0, 0) == 0,
        put_price_num(s, k, disc, 0, 0) == -forward_num(s, k, disc),
{
    assert(k * disc * ((SCALE - SCALE) as int) == 0) by (nonlinear_arith);
    assert(s * ((SCALE - SCALE) as int) * SCALE == 0) by (nonlinear_arith);
    assert(s * 0 * SCALE == 0 && k * disc * 0 == 0) by (nonlinear_arith);
    assert(k * disc * ((SCALE - 0) as int) == k * disc * SCALE) by (nonlinear_arith);
    assert(s * ((SCALE - 0) as int) * SCALE == s * SCALE * SCALE) by (nonlinear_arith);
}

/// Put-call parity of the rounded prices: the call price less the put price
/// differs from the rounded forward value by at most two units of `1/SCALE`.
pub proof fn lemma_put_call_parity_rounded(s: int, k: int, disc: int, n_d1: int, n_d2: int)
    ensures
        -2 <= div_tz(call_price_num(s, k, disc, n_d1, n_d2), SCALE * SCALE) - div_tz(
            put_price_num(s, k, disc, n_d1, n_d2),
            SCALE * SCALE,
        ) - div_tz(forward_num(s, k, disc), SCALE * SCALE) <= 2,
{
    lemma_put_call_parity(s, k, disc, n_d1, n_d2);
    lemma_div_tz_error(call_price_num(s, k, disc, n_d1, n_d2), SCALE * SCALE);
    lemma_div_tz_error(put_price_num(s, k, disc, n_d1, n_d2), SCALE * SCALE);
    lemma_div_tz_error(forward_num(s, k, disc), SCALE * SCALE);
}

} // verus!
