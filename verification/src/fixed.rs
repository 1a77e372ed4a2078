//! Fixed-point arithmetic substrate: truncating division, integer square
//! root, and the product/quotient bound lemmas the formula modules rely on.

use vstd::prelude::*;
use vstd::arithmetic::div_mod::{
    lemma_div_is_ordered, lemma_div_nonincreasing, lemma_div_pos_is_pos,
    lemma_fundamental_div_mod, lemma_mod_division_less_than_divisor,
};

verus! {

/// Quotient of `n` by `d`, rounded toward zero. Every fixed-point division
/// in this crate rounds this way.
pub open spec fn div_tz(n: int, d: int) -> int {
    if n >= 0 {
        n / d
    } else {
        -((-n) / d)
    }
}

/// `st` is the integer square root of `x`: the greatest integer whose
/// square does not exceed `x`.
pub open spec fn is_sqrt_of(st: int, x: int) -> bool {
    0 <= st && st * st <= x && x < (st + 1) * (st + 1)
}

/// Exec counterpart of `div_tz`.
pub fn div_trunc(n: i128, d: i128) -> (q: i128)
    requires
        1 <= d,
        -0x7fff_ffff_ffff_ffff_ffff_ffff_ffff_ffff <= n,
    ensures
        q == div_tz(n as int, d as int),
{
    if n >= 0 {
        proof {
            lemma_div_pos_is_pos(n as int, d as int);
            lemma_div_nonincreasing(n as int, d as int);
        }
        ((n as u128) / (d as u128)) as i128
    } else {
        let m: i128 = -n;
        proof {
            lemma_div_pos_is_pos(m as int, d as int);
            lemma_div_nonincreasing(m as int, d as int);
        }
        -(((m as u128) / (d as u128)) as i128)
    }
}

/// Integer square root by bisection.
pub fn isqrt(x: u64) -> (r: u64)
    ensures
        is_sqrt_of(r as int, x as int),
{
    let mut lo: u64 = 0;
    let mut hi: u64 = 4_294_967_296;
    proof {
        assert((x as int) < 4_294_967_296int * 4_294_967_296int);
    }
    while hi - lo > 1
        invariant
            lo < hi <= 4_294_967_296,
            lo * lo <= x,
            x < hi * hi,
        decreases hi - lo,
    {
        let mid: u64 = lo + (hi - lo) / 2;
        proof {
            assert(mid * mid <= 0x1_0000_0000_0000_0000int) by (nonlinear_arith)
                requires
                    mid <= 0x1_0000_0000u64,
            ;
        }
        if (mid as u128) * (mid as u128) <= (x as u128) {
            lo = mid;
        } else {
            hi = mid;
        }
    }
    lo
}

/// Truncating division never increases magnitude, and dividing a value
/// bounded by `a` gives a quotient bounded by `a / d`.
pub proof fn lemma_div_tz_bound(n: int, d: int, a: int)
    requires
        1 <= d,
        -a <= n <= a,
    ensures
        -(a / d) <= div_tz(n, d) <= a / d,
        -a <= div_tz(n, d) <= a,
{
    lemma_div_nonincreasing(a, d);
    if n >= 0 {
        lemma_div_pos_is_pos(n, d);
        lemma_div_is_ordered(n, a, d);
        lemma_div_nonincreasing(n, d);
    } else {
        lemma_div_pos_is_pos(-n, d);
        lemma_div_is_ordered(-n, a, d);
        lemma_div_nonincreasing(-n, d);
    }
}

/// Scaling a truncated quotient back up loses less than one divisor unit.
pub proof fn lemma_div_tz_error(n: int, d: int)
    requires
        1 <= d,
    ensures
        n - d < d * div_tz(n, d) < n + d,
{
    if n >= 0 {
        lemma_fundamental_div_mod(n, d);
        lemma_mod_division_less_than_divisor(n, d);
    } else {
        lemma_fundamental_div_mod(-n, d);
        lemma_mod_division_less_than_divisor(-n, d);
        assert(d * (-((-n) / d)) == -(d * ((-n) / d))) by (nonlinear_arith);
    }
}

/// Product range for nonnegative factors.
pub proof fn lemma_mul_range(x: int, xlo: int, xhi: int, y: int, ylo: int, yhi: int)
    by (nonlinear_arith)
    requires
        0 <= xlo <= x <= xhi,
        0 <= ylo <= y <= yhi,
    ensures
        xlo * ylo <= x * y <= xhi * yhi,
{
}

/// Product magnitude bound for factors of either sign.
pub proof fn lemma_mul_abs_bound(x: int, xb: int, y: int, yb: int)
    by (nonlinear_arith)
    requires
        -xb <= x <= xb,
        -yb <= y <= yb,
    ensures
        -(xb * yb) <= x * y <= xb * yb,
{
}

} // verus!
