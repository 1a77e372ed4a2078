use black_scholes::greeks::{
    delta_call, delta_put, gamma, rho_call, rho_put, theta_call, theta_put, vega,
};
use black_scholes::moneyness::{d1, d2, sqrt_time};
use black_scholes::pricing::{black_scholes_call_price, black_scholes_put_price};
use statrs::distribution::{Continuous, ContinuousCDF, Normal};

const SCALE: i64 = 1_000_000;
const SCALE_F: f64 = 1_000_000.0;

fn scaled(x: f64) -> i64 {
    (x * SCALE_F).round() as i64
}

/// Everything the engine needs for one parameter set: the fixed-point
/// market inputs plus the transcendental evaluations from statrs.
struct Prepared {
    s: i64,
    k: i64,
    t: i64,
    r: i64,
    v: i64,
    sqrt_t: i64,
    disc: i64,
    n_d1: i64,
    n_d2: i64,
    p_d1: i64,
}

fn prepare(s: f64, k: f64, t: f64, r: f64, v: f64) -> Prepared {
    let s_i = scaled(s);
    let k_i = scaled(k);
    let t_i = scaled(t).max(1);
    let r_i = scaled(r);
    let v_i = scaled(v);
    let ln_i = scaled((s / k).ln());
    let st = sqrt_time(t_i);
    let disc = scaled((-r * t).exp()).max(1);
    let d1_i = d1(ln_i, t_i, r_i, v_i, st);
    let d2_i = d2(ln_i, t_i, r_i, v_i, st);
    let norm = Normal::new(0.0, 1.0).unwrap();
    let d1_f = d1_i as f64 / SCALE_F;
    let d2_f = d2_i as f64 / SCALE_F;
    let n_d1 = scaled(norm.cdf(d1_f)).clamp(0, SCALE);
    let n_d2 = scaled(norm.cdf(d2_f)).clamp(0, SCALE);
    let p_d1 = scaled(norm.pdf(d1_f)).clamp(0, SCALE);
    Prepared { s: s_i, k: k_i, t: t_i, r: r_i, v: v_i, sqrt_t: st, disc, n_d1, n_d2, p_d1 }
}

#[test]
fn sqrt_time_exact_roots() {
    assert_eq!(sqrt_time(1_000_000), 1_000_000);
    assert_eq!(sqrt_time(250_000), 500_000);
    assert_eq!(sqrt_time(4_000_000), 2_000_000);
    assert_eq!(sqrt_time(1), 1_000);
}

#[test]
fn sqrt_time_floor_root() {
    // sqrt(2) years: the root is the floor of the irrational value.
    let st = sqrt_time(2_000_000);
    assert_eq!(st, 1_414_213);
}

#[test]
fn d2_is_d1_minus_vol_root_time() {
    let p = prepare(105.0, 100.0, 1.0 / 12.0, 0.05, 0.30);
    let ln_i = scaled((105.0f64 / 100.0).ln());
    let a = d1(ln_i, p.t, p.r, p.v, p.sqrt_t);
    let b = d2(ln_i, p.t, p.r, p.v, p.sqrt_t);
    let vst = (p.v as i128) * (p.sqrt_t as i128) / 1_000_000;
    assert_eq!(b, a - vst);
}

#[test]
fn put_call_parity_across_inputs() {
    let cases: [(f64, f64, f64, f64, f64); 4] = [
        (105.0, 100.0, 1.0 / 12.0, 0.05, 0.30),
        (100.0, 100.0, 1.0, 0.0, 0.20),
        (80.0, 120.0, 2.0, 0.03, 0.45),
        (150.0, 90.0, 0.25, -0.01, 0.15),
    ];
    for (s, k, t, r, v) in cases {
        let p = prepare(s, k, t, r, v);
        let call = black_scholes_call_price(p.s, p.k, p.disc, p.n_d1, p.n_d2);
        let put = black_scholes_put_price(p.s, p.k, p.disc, p.n_d1, p.n_d2);
        let fw_num = (p.s as i128) * 1_000_000_000_000 - (p.k as i128) * (p.disc as i128) * 1_000_000;
        let fw = (fw_num / 1_000_000_000_000) as i64;
        assert!((call - put - fw).abs() <= 2, "parity broke: {} {} {}", call, put, fw);
    }
}

#[test]
fn delta_put_is_delta_call_less_one() {
    for n in [0, 1, 250_000, 500_000, 999_999, SCALE] {
        assert_eq!(delta_put(n), delta_call(n) - SCALE);
    }
}

#[test]
fn delta_saturates_deep_in_the_money() {
    // S/K huge: CDF(d1) reaches 1 in fixed point.
    let p = prepare(1_000_000.0, 1.0, 0.5, 0.02, 0.20);
    assert_eq!(delta_call(p.n_d1), SCALE);
    assert_eq!(delta_put(p.n_d1), 0);
}

#[test]
fn delta_saturates_deep_out_of_the_money() {
    let p = prepare(1.0, 1_000_000.0, 0.5, 0.02, 0.20);
    assert_eq!(delta_call(p.n_d1), 0);
    assert_eq!(delta_put(p.n_d1), -SCALE);
}

#[test]
fn near_expiry_prices_reach_intrinsic_value() {
    // One micro-year to expiry, spot away from strike: the call is worth
    // its intrinsic value S - K, the put nothing.
    let p = prepare(105.0, 100.0, 1e-6, 0.05, 0.30);
    let call = black_scholes_call_price(p.s, p.k, p.disc, p.n_d1, p.n_d2);
    let put = black_scholes_put_price(p.s, p.k, p.disc, p.n_d1, p.n_d2);
    assert!((call - 5_000_000).abs() <= 10_000, "call {}", call);
    assert!(put.abs() <= 10_000, "put {}", put);
}

#[test]
fn near_expiry_gamma_blows_up_at_the_money() {
    let near = prepare(100.0, 100.0, 1e-4, 0.0, 0.20);
    let far = prepare(100.0, 100.0, 1.0, 0.0, 0.20);
    let g_near = gamma(near.s, near.v, near.sqrt_t, near.p_d1);
    let g_far = gamma(far.s, far.v, far.sqrt_t, far.p_d1);
    assert!(g_near > 50 * g_far, "gamma near {} far {}", g_near, g_far);
}

#[test]
fn concrete_scenario_one_month() {
    // S=105, K=100, T=1/12, r=0.05, v=0.30. Expected values follow the
    // closed-form formulas evaluated in double precision.
    let p = prepare(105.0, 100.0, 1.0 / 12.0, 0.05, 0.30);
    let call = black_scholes_call_price(p.s, p.k, p.disc, p.n_d1, p.n_d2);
    assert!((call - 6_880_890).abs() <= 10_000, "call {}", call);
    let delta = delta_call(p.n_d1);
    assert!((delta - 743_699).abs() <= 2_000, "delta {}", delta);
    let ve = vega(p.s, p.sqrt_t, p.p_d1);
    assert!((ve - 97_590).abs() <= 1_000, "vega {}", ve);
    let th = theta_call(p.s, p.k, p.r, p.v, p.sqrt_t, p.disc, p.n_d2, p.p_d1);
    assert!(th < 0, "theta {}", th);
    let rc = rho_call(p.k, p.t, p.disc, p.n_d2);
    assert!((rc - 59_339).abs() <= 1_000, "rho {}", rc);
}

#[test]
fn concrete_scenario_at_the_money_one_year() {
    // S=K=100, T=1, r=0: parity is trivial, call and put agree at 7.97.
    let p = prepare(100.0, 100.0, 1.0, 0.0, 0.20);
    let call = black_scholes_call_price(p.s, p.k, p.disc, p.n_d1, p.n_d2);
    let put = black_scholes_put_price(p.s, p.k, p.disc, p.n_d1, p.n_d2);
    assert!((call - 7_965_600).abs() <= 50_000, "call {}", call);
    assert!((call - put).abs() <= 2, "call {} put {}", call, put);
}

#[test]
fn greeks_match_double_precision_reference() {
    let (s, k, t, r, v) = (105.0f64, 100.0f64, 1.0 / 12.0, 0.05, 0.30);
    let p = prepare(s, k, t, r, v);
    let norm = Normal::new(0.0, 1.0).unwrap();
    let d1_f = ((s / k).ln() + (r + 0.5 * v * v) * t) / (v * t.sqrt());
    let d2_f = d1_f - v * t.sqrt();
    let g_ref = norm.pdf(d1_f) / (s * v * t.sqrt());
    let g = gamma(p.s, p.v, p.sqrt_t, p.p_d1);
    assert!((g as f64 / SCALE_F - g_ref).abs() < 1e-3, "gamma {} vs {}", g, g_ref);
    let th_ref = (-s * norm.pdf(d1_f) * v / (2.0 * t.sqrt())
        - r * k * (-r * t).exp() * norm.cdf(d2_f))
        / 365.0;
    let th = theta_call(p.s, p.k, p.r, p.v, p.sqrt_t, p.disc, p.n_d2, p.p_d1);
    assert!((th as f64 / SCALE_F - th_ref).abs() < 1e-3, "theta {} vs {}", th, th_ref);
    let tp_ref = (-s * norm.pdf(d1_f) * v / (2.0 * t.sqrt())
        + r * k * (-r * t).exp() * norm.cdf(-d2_f))
        / 365.0;
    let tp = theta_put(p.s, p.k, p.r, p.v, p.sqrt_t, p.disc, p.n_d2, p.p_d1);
    assert!((tp as f64 / SCALE_F - tp_ref).abs() < 1e-3, "theta put {} vs {}", tp, tp_ref);
    let rp_ref = -k * t * (-r * t).exp() * norm.cdf(-d2_f) / 100.0;
    let rp = rho_put(p.k, p.t, p.disc, p.n_d2);
    assert!((rp as f64 / SCALE_F - rp_ref).abs() < 1e-3, "rho put {} vs {}", rp, rp_ref);
}
