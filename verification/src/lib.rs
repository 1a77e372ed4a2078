//! Closed-form valuation of European vanilla options under the
//! Black-Scholes-Merton model, together with payoff evaluation for common
//! multi-leg option strategies.
//!
//! Every quantity is carried as a fixed-point integer: a value `x` stands for
//! the real number `x / SCALE`. Spot, strike and premiums are currency in
//! units of `1/SCALE`; rates, volatilities, times and probabilities are
//! dimensionless or annualized, also in units of `1/SCALE`.
//!
//! The transcendental evaluations that the model needs — `ln(S/K)`, the
//! discount factor `e^(-rT)`, and the standard normal CDF and PDF at the
//! moneyness points — cannot be carried out in exact integer arithmetic.
//! Callers evaluate them with whatever numerical backend they trust and pass
//! the results in as fixed-point values; everything downstream of those
//! inputs (the moneyness kernel, every price and Greek formula, and the
//! strategy payoffs) is exact integer arithmetic, verified here.

pub mod fixed;
pub mod greeks;
pub mod moneyness;
pub mod options;
pub mod pricing;
pub mod strategy;

use vstd::prelude::*;

verus! {

/// Fixed-point scale: a stored value `x` denotes the real number `x / SCALE`.
pub const SCALE: i64 = 1_000_000;

/// Largest spot, strike or premium the formulas accept: one million
/// currency units, in `1/SCALE` steps. Keeps every intermediate product
/// inside `i128`.
pub const MAX_MONEY: i64 = 1_000_000_000_000;

/// Largest time to expiry: one hundred years, annualized.
pub const MAX_TIME: i64 = 100_000_000;

/// Largest magnitude of the continuously compounded risk-free rate:
/// 1000 percent per year, of either sign.
pub const MAX_RATE: i64 = 10_000_000;

/// Largest annualized volatility: 1000 percent.
pub const MAX_VOL: i64 = 10_000_000;

/// Largest discount factor `e^(-rT)` the engine accepts: 1000.
pub const MAX_DISC: i64 = 1_000_000_000;

/// Largest magnitude of the log-moneyness `ln(S/K)`: 100.
pub const MAX_LOG: i64 = 100_000_000;

/// Largest square root of time: `sqrt(MAX_TIME / SCALE)` years, scaled.
pub const MAX_ROOT_TIME: i64 = 10_000_000;

} // verus!
