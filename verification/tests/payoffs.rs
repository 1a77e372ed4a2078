use black_scholes::strategy::{
    long_call_payoff, long_call_spread, long_put_payoff, long_put_spread, long_straddle,
    long_strangle, short_call_payoff, short_call_spread, short_put_payoff, short_put_spread,
    short_straddle, short_strangle,
};

const SCALE: i64 = 1_000_000;

#[test]
fn single_leg_payoffs() {
    // Spot 110, strike 100, premium 3 (in currency units at scale SCALE).
    assert_eq!(long_call_payoff(110 * SCALE, 100 * SCALE, 3 * SCALE), 7 * SCALE);
    assert_eq!(long_call_payoff(90 * SCALE, 100 * SCALE, 3 * SCALE), -3 * SCALE);
    assert_eq!(short_call_payoff(110 * SCALE, 100 * SCALE, 3 * SCALE), -7 * SCALE);
    assert_eq!(long_put_payoff(90 * SCALE, 100 * SCALE, 4 * SCALE), 6 * SCALE);
    assert_eq!(long_put_payoff(120 * SCALE, 100 * SCALE, 4 * SCALE), -4 * SCALE);
    assert_eq!(short_put_payoff(90 * SCALE, 100 * SCALE, 4 * SCALE), -6 * SCALE);
}

#[test]
fn long_and_short_leg_net_to_zero() {
    let spots: [i64; 5] = [0, 50 * SCALE, 100 * SCALE, 150 * SCALE, 1_000_000 * SCALE];
    for s in spots {
        let k = 100 * SCALE;
        let prem = 3_500_000;
        assert_eq!(long_call_payoff(s, k, prem) + short_call_payoff(s, k, prem), 0);
        assert_eq!(long_put_payoff(s, k, prem) + short_put_payoff(s, k, prem), 0);
    }
}

#[test]
fn call_spread_payoffs() {
    // Buy the 100 call for 5, sell the 110 call for 2.
    let (k1, c1, k2, c2) = (100 * SCALE, 5 * SCALE, 110 * SCALE, 2 * SCALE);
    assert_eq!(long_call_spread(95 * SCALE, k1, c1, k2, c2), -3 * SCALE);
    assert_eq!(long_call_spread(105 * SCALE, k1, c1, k2, c2), 2 * SCALE);
    assert_eq!(long_call_spread(120 * SCALE, k1, c1, k2, c2), 7 * SCALE);
    assert_eq!(short_call_spread(120 * SCALE, k1, c1, k2, c2), -7 * SCALE);
}

#[test]
fn put_spread_payoffs() {
    // Buy the 110 put for 6, sell the 100 put for 3.
    let (k1, p1, k2, p2) = (110 * SCALE, 6 * SCALE, 100 * SCALE, 3 * SCALE);
    assert_eq!(long_put_spread(95 * SCALE, k1, p1, k2, p2), 7 * SCALE);
    assert_eq!(long_put_spread(105 * SCALE, k1, p1, k2, p2), 2 * SCALE);
    assert_eq!(long_put_spread(120 * SCALE, k1, p1, k2, p2), -3 * SCALE);
    assert_eq!(short_put_spread(95 * SCALE, k1, p1, k2, p2), -7 * SCALE);
}

#[test]
fn straddle_payoffs() {
    let (k, c, p) = (100 * SCALE, 4 * SCALE, 3 * SCALE);
    assert_eq!(long_straddle(100 * SCALE, k, c, p), -7 * SCALE);
    assert_eq!(long_straddle(120 * SCALE, k, c, p), 13 * SCALE);
    assert_eq!(long_straddle(80 * SCALE, k, c, p), 13 * SCALE);
    assert_eq!(short_straddle(120 * SCALE, k, c, p), -13 * SCALE);
    assert_eq!(
        long_straddle(120 * SCALE, k, c, p) + short_straddle(120 * SCALE, k, c, p),
        0
    );
}

#[test]
fn strangle_payoffs() {
    // Call struck at 110, put struck at 90.
    let (kc, c, kp, p) = (110 * SCALE, 2 * SCALE, 90 * SCALE, 2 * SCALE);
    assert_eq!(long_strangle(100 * SCALE, kc, c, kp, p), -4 * SCALE);
    assert_eq!(long_strangle(125 * SCALE, kc, c, kp, p), 11 * SCALE);
    assert_eq!(long_strangle(80 * SCALE, kc, c, kp, p), 6 * SCALE);
    assert_eq!(short_strangle(80 * SCALE, kc, c, kp, p), -6 * SCALE);
}

#[test]
fn fractional_payoffs_are_exact() {
    // 0.25 currency in the money less a 0.1 premium.
    assert_eq!(long_call_payoff(100_250_000, 100_000_000, 100_000), 150_000);
    assert_eq!(long_put_payoff(99_750_000, 100_000_000, 100_000), 150_000);
}
