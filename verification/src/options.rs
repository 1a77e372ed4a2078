//! The option-type tag and a simple record bundling one option's contract
//! terms with the market state it is valued against.

use vstd::prelude::*;
use crate::{MAX_MONEY, MAX_RATE, MAX_VOL};

verus! {

/// Closed tag with exactly two variants; it selects the sign/branch used in
/// every formula and carries no other data.
#[derive(Clone, Copy, Debug, PartialEq, Eq, Structural)]
pub enum OptionType {
    Call,
    Put,
}

/// A European vanilla option quote, at scale `SCALE`.
#[derive(Clone, Copy, Debug, PartialEq, Eq, Structural)]
pub struct OptionContract {
    pub option_type: OptionType,
    /// Annualized, continuously compounded risk-free rate.
    pub rfr: i64,
    /// Strike price.
    pub strike: i64,
    /// Spot price of the underlying.
    pub spot: i64,
    /// Annualized implied volatility.
    pub iv: i64,
}

impl OptionContract {
    /// What the pricing formulas assume of a quote: strictly positive
    /// prices and volatility, everything within the crate's fixed-point
    /// bounds.
    pub open spec fn wf(self) -> bool {
        &&& 1 <= self.strike <= MAX_MONEY
        &&& 1 <= self.spot <= MAX_MONEY
        &&& 1 <= self.iv <= MAX_VOL
        &&& -MAX_RATE <= self.rfr <= MAX_RATE
    }
}

} // verus!
