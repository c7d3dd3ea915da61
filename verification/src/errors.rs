//! The ways in which the engine refuses to go on.

use vstd::prelude::*;

verus! {

/// A configuration that no ladder can be built from.
#[derive(Clone, Copy, Debug, PartialEq, Eq)]
pub enum ConfigError {
    /// The slippage setting is 1000 or more.
    SlippageTooLow,
    /// The price tolerance setting is 1000 or more.
    PriceToleranceTooLow,
    /// The upper grid limit is not above the lower one.
    GridLimits,
}

impl ConfigError {
    /// The message shown to the operator.
    pub fn message(&self) -> (r: String)
        ensures
            r@ == match *self {
                ConfigError::SlippageTooLow =>
                    "The slippage tolerance is too low. Please adjust your settings!"@,
                ConfigError::PriceToleranceTooLow =>
                    "The price tolerance slippage is too low. Please adjust your settings!"@,
                ConfigError::GridLimits =>
                    "grid_upper_limmit must be greater than grid_lower_limmit"@,
            },
    {
        match self {
            ConfigError::SlippageTooLow =>
                "The slippage tolerance is too low. Please adjust your settings!".to_owned(),
            ConfigError::PriceToleranceTooLow =>
                "The price tolerance slippage is too low. Please adjust your settings!".to_owned(),
            ConfigError::GridLimits =>
                "grid_upper_limmit must be greater than grid_lower_limmit".to_owned(),
        }
    }
}

/// A trade that the ladder's shape rules out.
#[derive(Clone, Copy, Debug, PartialEq, Eq)]
pub enum InvariantViolation {
    /// A buy fired on the last level, which has no level above it to sell on.
    BuyAtLastLevel,
    /// A sell fired on the first level, which has no level below it to buy on.
    SellAtFirstLevel,
    /// The level named does not exist or holds no order.
    NoPendingOrder,
}

impl InvariantViolation {
    /// The message shown to the operator.
    pub fn message(&self) -> (r: String)
        ensures
            r@ == match *self {
                InvariantViolation::BuyAtLastLevel =>
                    "A buy order occurred at the last price level, which shouldn't happen!!"@,
                InvariantViolation::SellAtFirstLevel =>
                    "A sell trade occurred at the first price level, which shouldn't happen!!"@,
                InvariantViolation::NoPendingOrder =>
                    "A trade was reported for a price level that holds no order!"@,
            },
    {
        match self {
            InvariantViolation::BuyAtLastLevel =>
                "A buy order occurred at the last price level, which shouldn't happen!!".to_owned(),
            InvariantViolation::SellAtFirstLevel =>
                "A sell trade occurred at the first price level, which shouldn't happen!!".to_owned(),
            InvariantViolation::NoPendingOrder =>
                "A trade was reported for a price level that holds no order!".to_owned(),
        }
    }
}

} // verus!
