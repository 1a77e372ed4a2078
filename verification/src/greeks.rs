//! Sensitivity engine: the five Greeks of a European vanilla option, in
//! their call and put variants where the sign or formula differs.
//!
//! As in `pricing`, the caller evaluates the transcendental quantities —
//! the standard normal CDF and PDF at the kernel's moneyness points and
//! the discount factor `e^(-rT)` — and passes them in at scale `SCALE`;
//! the combination into each Greek is exact integer arithmetic. Vega and
//! rho are scaled per one-percentage-point move (divide by 100), theta per
//! calendar day (divide by 365).

use vstd::prelude::*;
use vstd::arithmetic::div_mod::lemma_div_is_ordered_by_denominator;
use crate::fixed::{
    div_trunc, div_tz, lemma_div_tz_bound, lemma_mul_abs_bound, lemma_mul_range,
};
use crate::options::OptionType;
use crate::{MAX_DISC, MAX_MONEY, MAX_RATE, MAX_ROOT_TIME, MAX_TIME, MAX_VOL, SCALE};

verus! {

/// Call delta is the standard normal CDF at `d1`.
pub open spec fn delta_call_exact(n_d1: int) -> int {
    n_d1
}

/// Put delta is `CDF(d1) - 1`.
pub open spec fn delta_put_exact(n_d1: int) -> int {
    n_d1 - SCALE
}

/// `gamma = PDF(d1) / (S * v * sqrt(T))`, at scale `SCALE`.
pub open spec fn gamma_exact(s: int, v: int, sqrt_t: int, p_d1: int) -> int {
    div_tz(p_d1 * SCALE * SCALE * SCALE, s * v * sqrt_t)
}

/// `vega = S * PDF(d1) * sqrt(T) / 100`, at scale `SCALE`.
pub open spec fn vega_exact(s: int, sqrt_t: int, p_d1: int) -> int {
    div_tz(s * p_d1 * sqrt_t, 100 * SCALE * SCALE)
}

/// The time-decay term shared by both thetas:
/// `-S * PDF(d1) * v / (2 * sqrt(T))`, at scale `SCALE`.
pub open spec fn theta_decay_exact(s: int, v: int, sqrt_t: int, p_d1: int) -> int {
    div_tz(-(s * p_d1 * v), 2 * sqrt_t * SCALE)
}

/// `theta_call = (decay - r * K * e^(-rT) * CDF(d2)) / 365`, at scale
/// `SCALE`, per calendar day.
pub open spec fn theta_call_exact(
    s: int,
    k: int,
    r: int,
    v: int,
    sqrt_t: int,
    disc: int,
    n_d2: int,
    p_d1: int,
) -> int {
    div_tz(
        theta_decay_exact(s, v, sqrt_t, p_d1) - div_tz(
            r * k * disc * n_d2,
            SCALE * SCALE * SCALE,
        ),
        365,
    )
}

/// `theta_put = (decay + r * K * e^(-rT) * CDF(-d2)) / 365`, at scale
/// `SCALE`, per calendar day, with `CDF(-d2)` the complement `1 - CDF(d2)`.
pub open spec fn theta_put_exact(
    s: int,
    k: int,
    r: int,
    v: int,
    sqrt_t: int,
    disc: int,
    n_d2: int,
    p_d1: int,
) -> int {
    div_tz(
        theta_decay_exact(s, v, sqrt_t, p_d1) + div_tz(
            r * k * disc * (SCALE - n_d2),
            SCALE * SCALE * SCALE,
        ),
        365,
    )
}

/// `rho_call = K * T * e^(-rT) * CDF(d2) / 100`, at scale `SCALE`, per
/// one-percentage-point rate move.
pub open spec fn rho_call_exact(k: int, t: int, disc: int, n_d2: int) -> int {
    div_tz(k * t * disc * n_d2, 100 * SCALE * SCALE * SCALE)
}

/// `rho_put = -K * T * e^(-rT) * CDF(-d2) / 100`, at scale `SCALE`, with
/// `CDF(-d2)` the complement `1 - CDF(d2)`.
pub open spec fn rho_put_exact(k: int, t: int, disc: int, n_d2: int) -> int {
    div_tz(-(k * t * disc * (SCALE - n_d2)), 100 * SCALE * SCALE * SCALE)
}

/// Delta of a call: the standard normal CDF at `d1`, which the caller
/// evaluates at the kernel's `d1` and passes in at scale `SCALE`.
pub fn delta_call(n_d1: i64) -> (delta: i64)
    requires
        0 <= n_d1 <= SCALE,
    ensures
        delta == delta_call_exact(n_d1 as int),
{
    n_d1
}

/// Delta of a put: `CDF(d1) - 1`.
pub fn delta_put(n_d1: i64) -> (delta: i64)
    requires
        0 <= n_d1 <= SCALE,
    ensures
        delta == delta_put_exact(n_d1 as int),
{
    n_d1 - SCALE
}

/// Gamma, identical for call and put: `PDF(d1) / (S * v * sqrt(T))`.
///
/// `p_d1` is the caller-evaluated standard normal PDF at the kernel's
/// `d1`; `sqrt_t` comes from `sqrt_time`. Near expiry the quotient grows
/// without bound, so the result is returned as `i128`.
pub fn gamma(s: i64, v: i64, sqrt_t: i64, p_d1: i64) -> (g: i128)
    requires
        1 <= s <= MAX_MONEY,
        1 <= v <= MAX_VOL,
        1 <= sqrt_t <= MAX_ROOT_TIME,
        0 <= p_d1 <= SCALE,
    ensures
        g == gamma_exact(s as int, v as int, sqrt_t as int, p_d1 as int),
{
    proof {
        lemma_mul_range(p_d1 as int, 0, 1_000_000, SCALE as int, 0, 1_000_000);
        lemma_mul_range(p_d1 as int * SCALE, 0, 1_000_000_000_000, SCALE as int, 0, 1_000_000);
        lemma_mul_range(
            p_d1 as int * SCALE * SCALE,
            0,
            1_000_000_000_000_000_000,
            SCALE as int,
            0,
            1_000_000,
        );
        lemma_mul_range(s as int, 1, 1_000_000_000_000, v as int, 1, 10_000_000);
        lemma_mul_range(
            s as int * v as int,
            1,
            10_000_000_000_000_000_000,
            sqrt_t as int,
            1,
            10_000_000,
        );
    }
    let num: i128 = (p_d1 as i128) * (SCALE as i128) * (SCALE as i128) * (SCALE as i128);
    let den: i128 = (s as i128) * (v as i128) * (sqrt_t as i128);
    div_trunc(num, den)
}

/// Vega, identical for call and put: `S * PDF(d1) * sqrt(T) / 100`, per
/// one-percentage-point move in volatility.
pub fn vega(s: i64, sqrt_t: i64, p_d1: i64) -> (ve: i64)
    requires
        1 <= s <= MAX_MONEY,
        1 <= sqrt_t <= MAX_ROOT_TIME,
        0 <= p_d1 <= SCALE,
    ensures
        ve == vega_exact(s as int, sqrt_t as int, p_d1 as int),
{
    proof {
        lemma_mul_range(s as int, 0, 1_000_000_000_000, p_d1 as int, 0, 1_000_000);
        lemma_mul_range(
            s as int * p_d1 as int,
            0,
            1_000_000_000_000_000_000,
            sqrt_t as int,
            0,
            10_000_000,
        );
        lemma_div_tz_bound(
            s as int * p_d1 as int * sqrt_t as int,
            100_000_000_000_000,
            10_000_000_000_000_000_000_000_000,
        );
    }
    let num: i128 = (s as i128) * (p_d1 as i128) * (sqrt_t as i128);
    let q: i128 = div_trunc(num, 100_000_000_000_000);
    q as i64
}

/// The intermediate products of both thetas stay inside `i128` under the
/// crate's input bounds.
proof fn lemma_theta_term_bounds(s: int, k: int, r: int, v: int, disc: int, cdf: int, p_d1: int)
    requires
        1 <= s <= MAX_MONEY,
        1 <= k <= MAX_MONEY,
        -MAX_RATE <= r <= MAX_RATE,
        1 <= v <= MAX_VOL,
        1 <= disc <= MAX_DISC,
        0 <= cdf <= SCALE,
        0 <= p_d1 <= SCALE,
    ensures
        0 <= s * p_d1 <= 1_000_000_000_000_000_000,
        0 <= s * p_d1 * v <= 10_000_000_000_000_000_000_000_000,
        -10_000_000_000_000_000_000 <= r * k <= 10_000_000_000_000_000_000,
        -10_000_000_000_000_000_000_000_000_000 <= r * k * disc
            <= 10_000_000_000_000_000_000_000_000_000,
        -10_000_000_000_000_000_000_000_000_000_000_000 <= r * k * disc * cdf
            <= 10_000_000_000_000_000_000_000_000_000_000_000,
{
    lemma_mul_range(s, 0, 1_000_000_000_000, p_d1, 0, 1_000_000);
    lemma_mul_range(s * p_d1, 0, 1_000_000_000_000_000_000, v, 0, 10_000_000);
    lemma_mul_abs_bound(r, 10_000_000, k, 1_000_000_000_000);
    lemma_mul_abs_bound(r * k, 10_000_000_000_000_000_000, disc, 1_000_000_000);
    lemma_mul_abs_bound(
        r * k * disc,
        10_000_000_000_000_000_000_000_000_000,
        cdf,
        1_000_000,
    );
}

/// Theta of a call: `(-S * PDF(d1) * v / (2 * sqrt(T)) - r * K * e^(-rT)
/// * CDF(d2)) / 365`, per calendar day.
pub fn theta_call(
    s: i64,
    k: i64,
    r: i64,
    v: i64,
    sqrt_t: i64,
    disc: i64,
    n_d2: i64,
    p_d1: i64,
) -> (th: i64)
    requires
        1 <= s <= MAX_MONEY,
        1 <= k <= MAX_MONEY,
        -MAX_RATE <= r <= MAX_RATE,
        1 <= v <= MAX_VOL,
        1 <= sqrt_t <= MAX_ROOT_TIME,
        1 <= disc <= MAX_DISC,
        0 <= n_d2 <= SCALE,
        0 <= p_d1 <= SCALE,
    ensures
        th == theta_call_exact(
            s as int,
            k as int,
            r as int,
            v as int,
            sqrt_t as int,
            disc as int,
            n_d2 as int,
            p_d1 as int,
        ),
{
    proof {
        lemma_theta_term_bounds(
            s as int,
            k as int,
            r as int,
            v as int,
            disc as int,
            n_d2 as int,
            p_d1 as int,
        );
        lemma_mul_range(2 * (sqrt_t as int), 2, 20_000_000, SCALE as int, 1, 1_000_000);
        lemma_div_tz_bound(
            -(s as int * p_d1 as int * v as int),
            2 * (sqrt_t as int) * SCALE,
            10_000_000_000_000_000_000_000_000,
        );
        lemma_div_is_ordered_by_denominator(
            10_000_000_000_000_000_000_000_000,
            2_000_000,
            2 * (sqrt_t as int) * SCALE,
        );
        lemma_div_tz_bound(
            r as int * k as int * disc as int * n_d2 as int,
            1_000_000_000_000_000_000,
            10_000_000_000_000_000_000_000_000_000_000_000,
        );
        lemma_div_tz_bound(
            theta_decay_exact(s as int, v as int, sqrt_t as int, p_d1 as int) - div_tz(
                r as int * k as int * disc as int * n_d2 as int,
                SCALE * SCALE * SCALE,
            ),
            365,
            6_000_000_000_000_000_000,
        );
    }
    let num1: i128 = (s as i128) * (p_d1 as i128) * (v as i128);
    let den1: i128 = 2 * (sqrt_t as i128) * (SCALE as i128);
    let decay: i128 = div_trunc(-num1, den1);
    let num2: i128 = (r as i128) * (k as i128) * (disc as i128) * (n_d2 as i128);
    let carry: i128 = div_trunc(num2, 1_000_000_000_000_000_000);
    let q: i128 = div_trunc(decay - carry, 365);
    q as i64
}

/// Theta of a put: `(-S * PDF(d1) * v / (2 * sqrt(T)) + r * K * e^(-rT)
/// * CDF(-d2)) / 365`, per calendar day, with `CDF(-d2)` the complement
/// `1 - CDF(d2)` of the supplied value.
pub fn theta_put(
    s: i64,
    k: i64,
    r: i64,
    v: i64,
    sqrt_t: i64,
    disc: i64,
    n_d2: i64,
    p_d1: i64,
) -> (th: i64)
    requires
        1 <= s <= MAX_MONEY,
        1 <= k <= MAX_MONEY,
        -MAX_RATE <= r <= MAX_RATE,
        1 <= v <= MAX_VOL,
        1 <= sqrt_t <= MAX_ROOT_TIME,
        1 <= disc <= MAX_DISC,
        0 <= n_d2 <= SCALE,
        0 <= p_d1 <= SCALE,
    ensures
        th == theta_put_exact(
            s as int,
            k as int,
            r as int,
            v as int,
            sqrt_t as int,
            disc as int,
            n_d2 as int,
            p_d1 as int,
        ),
{
    proof {
        lemma_theta_term_bounds(
            s as int,
            k as int,
            r as int,
            v as int,
            disc as int,
            (SCALE - n_d2) as int,
            p_d1 as int,
        );
        lemma_mul_range(2 * (sqrt_t as int), 2, 20_000_000, SCALE as int, 1, 1_000_000);
        lemma_div_tz_bound(
            -(s as int * p_d1 as int * v as int),
            2 * (sqrt_t as int) * SCALE,
            10_000_000_000_000_000_000_000_000,
        );
        lemma_div_is_ordered_by_denominator(
            10_000_000_000_000_000_000_000_000,
            2_000_000,
            2 * (sqrt_t as int) * SCALE,
        );
        lemma_div_tz_bound(
            r as int * k as int * disc as int * (SCALE - n_d2),
            1_000_000_000_000_000_000,
            10_000_000_000_000_000_000_000_000_000_000_000,
        );
        lemma_div_tz_bound(
            theta_decay_exact(s as int, v as int, sqrt_t as int, p_d1 as int) + div_tz(
                r as int * k as int * disc as int * (SCALE - n_d2),
                SCALE * SCALE * SCALE,
            ),
            365,
            6_000_000_000_000_000_000,
        );
    }
    let num1: i128 = (s as i128) * (p_d1 as i128) * (v as i128);
    let den1: i128 = 2 * (sqrt_t as i128) * (SCALE as i128);
    let decay: i128 = div_trunc(-num1, den1);
    let num2: i128 = (r as i128) * (k as i128) * (disc as i128) * ((SCALE - n_d2) as i128);
    let carry: i128 = div_trunc(num2, 1_000_000_000_000_000_000);
    let q: i128 = div_trunc(decay + carry, 365);
    q as i64
}

/// The intermediate products of both rhos stay inside `i128` under the
/// crate's input bounds.
proof fn lemma_rho_term_bounds(k: int, t: int, disc: int, cdf: int)
    requires
        1 <= k <= MAX_MONEY,
        1 <= t <= MAX_TIME,
        1 <= disc <= MAX_DISC,
        0 <= cdf <= SCALE,
    ensures
        0 <= k * t <= 100_000_000_000_000_000_000,
        0 <= k * t * disc <= 100_000_000_000_000_000_000_000_000_000,
        0 <= k * t * disc * cdf <= 100_000_000_000_000_000_000_000_000_000_000_000,
{
    lemma_mul_range(k, 0, 1_000_000_000_000, t, 0, 100_000_000);
    lemma_mul_range(k * t, 0, 100_000_000_000_000_000_000, disc, 0, 1_000_000_000);
    lemma_mul_range(
        k * t * disc,
        0,
        100_000_000_000_000_000_000_000_000_000,
        cdf,
        0,
        1_000_000,
    );
}

/// Rho of a call: `K * T * e^(-rT) * CDF(d2) / 100`, per
/// one-percentage-point rate move.
pub fn rho_call(k: i64, t: i64, disc: i64, n_d2: i64) -> (rho: i64)
    requires
        1 <= k <= MAX_MONEY,
        1 <= t <= MAX_TIME,
        1 <= disc <= MAX_DISC,
        0 <= n_d2 <= SCALE,
    ensures
        rho == rho_call_exact(k as int, t as int, disc as int, n_d2 as int),
{
    proof {
        lemma_rho_term_bounds(k as int, t as int, disc as int, n_d2 as int);
        lemma_div_tz_bound(
            k as int * t as int * disc as int * n_d2 as int,
            100_000_000_000_000_000_000,
            100_000_000_000_000_000_000_000_000_000_000_000,
        );
    }
    let num: i128 = (k as i128) * (t as i128) * (disc as i128) * (n_d2 as i128);
    let q: i128 = div_trunc(num, 100_000_000_000_000_000_000);
    q as i64
}

/// Rho of a put: `-K * T * e^(-rT) * CDF(-d2) / 100`, per
/// one-percentage-point rate move, with `CDF(-d2)` the complement
/// `1 - CDF(d2)` of the supplied value.
pub fn rho_put(k: i64, t: i64, disc: i64, n_d2: i64) -> (rho: i64)
    requires
        1 <= k <= MAX_MONEY,
        1 <= t <= MAX_TIME,
        1 <= disc <= MAX_DISC,
        0 <= n_d2 <= SCALE,
    ensures
        rho == rho_put_exact(k as int, t as int, disc as int, n_d2 as int),
{
    proof {
        lemma_rho_term_bounds(k as int, t as int, disc as int, (SCALE - n_d2) as int);
        lemma_div_tz_bound(
            -(k as int * t as int * disc as int * (SCALE - n_d2)),
            100_000_000_000_000_000_000,
            100_000_000_000_000_000_000_000_000_000_000_000,
        );
    }
    let num: i128 = (k as i128) * (t as i128) * (disc as i128) * ((SCALE - n_d2) as i128);
    let q: i128 = div_trunc(-num, 100_000_000_000_000_000_000);
    q as i64
}

/// Delta-put identity: for every CDF value, the delta of a put is the delta
/// of the call less one.
pub proof fn lemma_delta_put_identity(n_d1: int)
    ensures
        delta_put_exact(n_d1) == delta_call_exact(n_d1) - SCALE,
{
}

/// Deltas saturate at extreme moneyness: where the CDF at `d1` reaches 1
/// the call delta is 1 and the put delta 0; where it reaches 0 the call
/// delta is 0 and the put delta -1.
pub proof fn lemma_delta_saturation(n_d1: int)
    ensures
        n_d1 == SCALE ==> delta_call_exact(n_d1) == SCALE && delta_put_exact(n_d1) == 0,
        n_d1 == 0 ==> delta_call_exact(n_d1) == 0 && delta_put_exact(n_d1) == -SCALE,
{
}

/// Gamma written with the branch the option type selects. Both branches
/// carry the same formula, as the model prescribes.
pub open spec fn gamma_branch_exact(
    option_type: OptionType,
    s: int,
    v: int,
    sqrt_t: int,
    p_d1: int,
) -> int {
    match option_type {
        OptionType::Call => div_tz(p_d1 * SCALE * SCALE * SCALE, s * v * sqrt_t),
        OptionType::Put => div_tz(p_d1 * SCALE * SCALE * SCALE, s * v * sqrt_t),
    }
}

/// Gamma symmetry: whichever branch the option type selects, gamma is the
/// shared formula `PDF(d1) / (S * v * sqrt(T))`.
pub proof fn lemma_gamma_branch_independent(
    option_type: OptionType,
    s: int,
    v: int,
    sqrt_t: int,
    p_d1: int,
)
    ensures
        gamma_branch_exact(option_type, s, v, sqrt_t, p_d1) == gamma_exact(s, v, sqrt_t, p_d1),
{
}

} // verus!
