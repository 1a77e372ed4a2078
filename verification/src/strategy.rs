//! Payoff evaluation at expiry for single legs and common multi-leg option
//! strategies: piecewise-linear arithmetic on the terminal spot price.
//!
//! Prices and premiums are fixed-point currency values at scale `SCALE`.
//! The bound `PRICE_LIMIT` keeps every sum of two legs inside `i64`.

use vstd::prelude::*;

verus! {

/// Largest magnitude of a terminal spot, strike or premium a payoff
/// accepts; keeps every two-leg combination free of `i64` overflow.
pub const PRICE_LIMIT: i64 = 0x1000_0000_0000_0000;

/// `max(s - k, 0) - premium`.
pub open spec fn long_call_payoff_exact(s: int, k: int, premium: int) -> int {
    (if s >= k {
        s - k
    } else {
        0
    }) - premium
}

/// `premium - max(s - k, 0)`.
pub open spec fn short_call_payoff_exact(s: int, k: int, premium: int) -> int {
    premium - (if s >= k {
        s - k
    } else {
        0
    })
}

/// `max(k - s, 0) - premium`.
pub open spec fn long_put_payoff_exact(s: int, k: int, premium: int) -> int {
    (if k >= s {
        k - s
    } else {
        0
    }) - premium
}

/// `premium - max(k - s, 0)`.
pub open spec fn short_put_payoff_exact(s: int, k: int, premium: int) -> int {
    premium - (if k >= s {
        k - s
    } else {
        0
    })
}

/// Returns the payoff for a long call option.
pub fn long_call_payoff(s: i64, k: i64, premium: i64) -> (p: i64)
    requires
        -PRICE_LIMIT <= s <= PRICE_LIMIT,
        -PRICE_LIMIT <= k <= PRICE_LIMIT,
        -PRICE_LIMIT <= premium <= PRICE_LIMIT,
    ensures
        p == long_call_payoff_exact(s as int, k as int, premium as int),
{
    (if s >= k {
        s - k
    } else {
        0
    }) - premium
}

/// Returns the payoff for a short call option.
pub fn short_call_payoff(s: i64, k: i64, premium: i64) -> (p: i64)
    requires
        -PRICE_LIMIT <= s <= PRICE_LIMIT,
        -PRICE_LIMIT <= k <= PRICE_LIMIT,
        -PRICE_LIMIT <= premium <= PRICE_LIMIT,
    ensures
        p == short_call_payoff_exact(s as int, k as int, premium as int),
{
    premium - (if s >= k {
        s - k
    } else {
        0
    })
}

/// Returns the payoff for a long put option.
pub fn long_put_payoff(s: i64, k: i64, premium: i64) -> (p: i64)
    requires
        -PRICE_LIMIT <= s <= PRICE_LIMIT,
        -PRICE_LIMIT <= k <= PRICE_LIMIT,
        -PRICE_LIMIT <= premium <= PRICE_LIMIT,
    ensures
        p == long_put_payoff_exact(s as int, k as int, premium as int),
{
    (if k >= s {
        k - s
    } else {
        0
    }) - premium
}

/// Returns the payoff for a short put option.
pub fn short_put_payoff(s: i64, k: i64, premium: i64) -> (p: i64)
    requires
        -PRICE_LIMIT <= s <= PRICE_LIMIT,
        -PRICE_LIMIT <= k <= PRICE_LIMIT,
        -PRICE_LIMIT <= premium <= PRICE_LIMIT,
    ensures
        p == short_put_payoff_exact(s as int, k as int, premium as int),
{
    premium - (if k >= s {
        k - s
    } else {
        0
    })
}

/// Payoff for a long call spread (buy call at `k1`, sell call at `k2`).
pub fn long_call_spread(s: i64, k1: i64, c1: i64, k2: i64, c2: i64) -> (p: i64)
    requires
        -PRICE_LIMIT <= s <= PRICE_LIMIT,
        -PRICE_LIMIT <= k1 <= PRICE_LIMIT,
        -PRICE_LIMIT <= c1 <= PRICE_LIMIT,
        -PRICE_LIMIT <= k2 <= PRICE_LIMIT,
        -PRICE_LIMIT <= c2 <= PRICE_LIMIT,
    ensures
        p == long_call_payoff_exact(s as int, k1 as int, c1 as int) + short_call_payoff_exact(
            s as int,
            k2 as int,
            c2 as int,
        ),
{
    long_call_payoff(s, k1, c1) + short_call_payoff(s, k2, c2)
}

/// Payoff for a short call spread (sell call at `k1`, buy call at `k2`).
pub fn short_call_spread(s: i64, k1: i64, c1: i64, k2: i64, c2: i64) -> (p: i64)
    requires
        -PRICE_LIMIT <= s <= PRICE_LIMIT,
        -PRICE_LIMIT <= k1 <= PRICE_LIMIT,
        -PRICE_LIMIT <= c1 <= PRICE_LIMIT,
        -PRICE_LIMIT <= k2 <= PRICE_LIMIT,
        -PRICE_LIMIT <= c2 <= PRICE_LIMIT,
    ensures
        p == short_call_payoff_exact(s as int, k1 as int, c1 as int) + long_call_payoff_exact(
            s as int,
            k2 as int,
            c2 as int,
        ),
{
    short_call_payoff(s, k1, c1) + long_call_payoff(s, k2, c2)
}

/// Payoff for a long put spread (buy put at `k1`, sell put at `k2`).
pub fn long_put_spread(s: i64, k1: i64, p1: i64, k2: i64, p2: i64) -> (p: i64)
    requires
        -PRICE_LIMIT <= s <= PRICE_LIMIT,
        -PRICE_LIMIT <= k1 <= PRICE_LIMIT,
        -PRICE_LIMIT <= p1 <= PRICE_LIMIT,
        -PRICE_LIMIT <= k2 <= PRICE_LIMIT,
        -PRICE_LIMIT <= p2 <= PRICE_LIMIT,
    ensures
        p == long_put_payoff_exact(s as int, k1 as int, p1 as int) + short_put_payoff_exact(
            s as int,
            k2 as int,
            p2 as int,
        ),
{
    long_put_payoff(s, k1, p1) + short_put_payoff(s, k2, p2)
}

/// Payoff for a short put spread (sell put at `k1`, buy put at `k2`).
pub fn short_put_spread(s: i64, k1: i64, p1: i64, k2: i64, p2: i64) -> (p: i64)
    requires
        -PRICE_LIMIT <= s <= PRICE_LIMIT,
        -PRICE_LIMIT <= k1 <= PRICE_LIMIT,
        -PRICE_LIMIT <= p1 <= PRICE_LIMIT,
        -PRICE_LIMIT <= k2 <= PRICE_LIMIT,
        -PRICE_LIMIT <= p2 <= PRICE_LIMIT,
    ensures
        p == short_put_payoff_exact(s as int, k1 as int, p1 as int) + long_put_payoff_exact(
            s as int,
            k2 as int,
            p2 as int,
        ),
{
    short_put_payoff(s, k1, p1) + long_put_payoff(s, k2, p2)
}

/// Payoff for a long straddle (buy call and put at the same strike).
pub fn long_straddle(s: i64, k: i64, c: i64, p: i64) -> (payoff: i64)
    requires
        -PRICE_LIMIT <= s <= PRICE_LIMIT,
        -PRICE_LIMIT <= k <= PRICE_LIMIT,
        -PRICE_LIMIT <= c <= PRICE_LIMIT,
        -PRICE_LIMIT <= p <= PRICE_LIMIT,
    ensures
        payoff == long_call_payoff_exact(s as int, k as int, c as int) + long_put_payoff_exact(
            s as int,
            k as int,
            p as int,
        ),
{
    long_call_payoff(s, k, c) + long_put_payoff(s, k, p)
}

/// Payoff for a short straddle (sell call and put at the same strike).
pub fn short_straddle(s: i64, k: i64, c: i64, p: i64) -> (payoff: i64)
    requires
        -PRICE_LIMIT <= s <= PRICE_LIMIT,
        -PRICE_LIMIT <= k <= PRICE_LIMIT,
        -PRICE_LIMIT <= c <= PRICE_LIMIT,
        -PRICE_LIMIT <= p <= PRICE_LIMIT,
    ensures
        payoff == short_call_payoff_exact(s as int, k as int, c as int) + short_put_payoff_exact(
            s as int,
            k as int,
            p as int,
        ),
{
    short_call_payoff(s, k, c) + short_put_payoff(s, k, p)
}

/// Payoff for a long strangle (buy an out-of-the-money call and put).
pub fn long_strangle(s: i64, kc: i64, c: i64, kp: i64, p: i64) -> (payoff: i64)
    requires
        -PRICE_LIMIT <= s <= PRICE_LIMIT,
        -PRICE_LIMIT <= kc <= PRICE_LIMIT,
        -PRICE_LIMIT <= c <= PRICE_LIMIT,
        -PRICE_LIMIT <= kp <= PRICE_LIMIT,
        -PRICE_LIMIT <= p <= PRICE_LIMIT,
    ensures
        payoff == long_call_payoff_exact(s as int, kc as int, c as int) + long_put_payoff_exact(
            s as int,
            kp as int,
            p as int,
        ),
{
    long_call_payoff(s, kc, c) + long_put_payoff(s, kp, p)
}

/// Payoff for a short strangle (sell an out-of-the-money call and put).
pub fn short_strangle(s: i64, kc: i64, c: i64, kp: i64, p: i64) -> (payoff: i64)
    requires
        -PRICE_LIMIT <= s <= PRICE_LIMIT,
        -PRICE_LIMIT <= kc <= PRICE_LIMIT,
        -PRICE_LIMIT <= c <= PRICE_LIMIT,
        -PRICE_LIMIT <= kp <= PRICE_LIMIT,
        -PRICE_LIMIT <= p <= PRICE_LIMIT,
    ensures
        payoff == short_call_payoff_exact(s as int, kc as int, c as int) + short_put_payoff_exact(
            s as int,
            kp as int,
            p as int,
        ),
{
    short_call_payoff(s, kc, c) + short_put_payoff(s, kp, p)
}

/// Payoff round-trip: a long and a short position in the identical leg
/// always net to zero, for calls and for puts alike.
pub proof fn lemma_payoff_round_trip(s: int, k: int, premium: int)
    ensures
        long_call_payoff_exact(s, k, premium) + short_call_payoff_exact(s, k, premium) == 0,
        long_put_payoff_exact(s, k, premium) + short_put_payoff_exact(s, k, premium) == 0,
{
}

} // verus!
