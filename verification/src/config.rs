//! The settings that the operator supplies.
//!
//! Prices and deposits are whole numbers of the smallest unit of their
//! asset; slippage and price tolerance are thousandths.

use crate::errors::ConfigError;
use crate::grid::{grid_prices, grid_segment, initial_ladder};
use crate::trade_core::{config_error, CoreModel, Web3TradeCore};
use crate::uint::U256;
use crate::utils::band_range;
use vstd::prelude::*;

verus! {

/// The settings of the program.
#[derive(Debug, Clone)]
pub struct AppConfig {
    pub web3_conf: Web3,
}

/// The settings of the chain connection and of the grid.
#[derive(Debug, Clone)]
pub struct Web3 {
    pub mnemonic: String,
    pub bsc_endpoint: String,
    pub slippage: u64,
    pub grids_num: u128,
    pub grid_upper_limmit: u128,
    pub grid_lower_limmit: u128,
    pub deposit_usdt: u128,
    pub deposit_cess: u128,
    pub price_tolerance_slippage: u64,
    pub trade_record_path: String,
}

impl Web3 {
    /// The fault in these settings, if they have one.
    pub open spec fn fault(&self) -> Option<ConfigError> {
        config_error(
            self.slippage,
            self.price_tolerance_slippage,
            self.grid_lower_limmit as nat,
            self.grid_upper_limmit as nat,
        )
    }

    /// Builds the trading core that these settings describe, seeded for a
    /// market that stands at `cess_latest_price`.
    pub fn trade_core(&self, cess_latest_price: U256) -> (r: Result<Web3TradeCore, ConfigError>)
        requires
            self.fault().is_none() ==> 1 <= self.grids_num <= usize::MAX,
        ensures
            match r {
                Ok(core) => {
                    &&& self.fault().is_none()
                    &&& core.wf()
                    &&& core@ == (CoreModel {
                        levels: initial_ladder(
                            grid_prices(
                                self.grid_lower_limmit as nat,
                                self.grid_upper_limmit as nat,
                                self.grids_num as nat,
                            ),
                            cess_latest_price@,
                            self.price_tolerance_slippage as nat,
                        ),
                        price_seg: grid_segment(
                            self.grid_lower_limmit as nat,
                            self.grid_upper_limmit as nat,
                            self.grids_num as nat,
                        ),
                        slippage: self.slippage as nat,
                        deposited_usdt: self.deposit_usdt as nat,
                        deposited_cess: self.deposit_cess as nat,
                        use_usdt_per_seg: self.deposit_usdt as nat / self.grids_num as nat,
                        trade_record_path: self.trade_record_path@,
                    })
                },
                Err(e) => self.fault() == Some(e),
            },
    {
        assert(band_range(self.grid_upper_limmit as nat));
        Web3TradeCore::new(
            cess_latest_price,
            U256::from_u128(self.grids_num),
            U256::from_u128(self.grid_upper_limmit),
            U256::from_u128(self.grid_lower_limmit),
            self.slippage,
            U256::from_u128(self.deposit_usdt),
            U256::from_u128(self.deposit_cess),
            self.price_tolerance_slippage,
            self.trade_record_path.clone(),
        )
    }
}

} // verus!
