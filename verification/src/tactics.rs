//! The trade parameters of a grid: its ladder and the settings that its
//! trades are sized and re-armed by, without a place to record them.

use crate::engine::{planned_action, settled, tick_in_range, TickAction};
use crate::errors::{ConfigError, InvariantViolation};
use crate::grid::{
    build_price_queue,
    grid_prices,
    grid_segment,
    initial_ladder,
    prices_in_band_range,
};
use crate::price_list::{LevelModel, PriceList};
use crate::trade_core::{check_config, config_error};
use crate::uint::U256;
use crate::utils::band_range;
use vstd::prelude::*;

verus! {

/// What trade parameters hold, in numbers.
pub struct ParamsModel {
    pub levels: Seq<LevelModel>,
    pub price_seg: nat,
    pub slippage: nat,
    pub deposited_usdt: nat,
    pub deposited_cess: nat,
    pub use_usdt_per_seg: nat,
}

/// A seeded ladder and the settings of its trades.
#[derive(Clone, Debug)]
pub struct TradeParams {
    price_queue: PriceList,
    price_seg: U256,
    slippage: u64,
    deposited_usdt: U256,
    deposited_cess: U256,
    use_usdt_per_seg: U256,
}

impl View for TradeParams {
    type V = ParamsModel;

    closed spec fn view(&self) -> ParamsModel {
        ParamsModel {
            levels: self.price_queue@,
            price_seg: self.price_seg@,
            slippage: self.slippage as nat,
            deposited_usdt: self.deposited_usdt@,
            deposited_cess: self.deposited_cess@,
            use_usdt_per_seg: self.use_usdt_per_seg@,
        }
    }
}

/// Builds the parameters of a grid of `grids_num` levels between
/// `grid_lower_limmit` and `grid_upper_limmit`, seeded for a market that
/// stands at `cess_latest_price`.
///
/// A slippage or price tolerance of 1000 or more, or an upper limit that is
/// not above the lower one, is refused before anything is built.
pub fn new_trade_params(
    cess_latest_price: U256,
    grids_num: U256,
    grid_upper_limmit: U256,
    grid_lower_limmit: U256,
    slippage: u64,
    deposit_usdt: U256,
    deposit_cess: U256,
    price_tolerance_slippage: u64,
) -> (r: Result<TradeParams, ConfigError>)
    requires
        config_error(
            slippage,
            price_tolerance_slippage,
            grid_lower_limmit@,
            grid_upper_limmit@,
        ).is_none() ==> 1 <= grids_num@ <= usize::MAX && band_range(grid_upper_limmit@),
    ensures
        match r {
            Ok(params) => {
                &&& config_error(
                    slippage,
                    price_tolerance_slippage,
                    grid_lower_limmit@,
                    grid_upper_limmit@,
                ).is_none()
                &&& params.wf()
                &&& params@ == (ParamsModel {
                    levels: initial_ladder(
                        grid_prices(grid_lower_limmit@, grid_upper_limmit@, grids_num@),
                        cess_latest_price@,
                        price_tolerance_slippage as nat,
                    ),
                    price_seg: grid_segment(grid_lower_limmit@, grid_upper_limmit@, grids_num@),
                    slippage: slippage as nat,
                    deposited_usdt: deposit_usdt@,
                    deposited_cess: deposit_cess@,
                    use_usdt_per_seg: deposit_usdt@ / grids_num@,
                })
            },
            Err(e) => config_error(
                slippage,
                price_tolerance_slippage,
                grid_lower_limmit@,
                grid_upper_limmit@,
            ) == Some(e),
        },
{
    match check_config(slippage, price_tolerance_slippage, &grid_lower_limmit, &grid_upper_limmit) {
        Ok(()) => {},
        Err(e) => {
            return Err(e);
        },
    }
    let (price_queue, price_seg) = build_price_queue(
        &cess_latest_price,
        &grids_num,
        &grid_upper_limmit,
        &grid_lower_limmit,
        price_tolerance_slippage,
    );
    let use_usdt_per_seg = deposit_usdt.checked_div(&grids_num).unwrap();
    Ok(
        TradeParams {
            price_queue,
            price_seg,
            slippage,
            deposited_usdt: deposit_usdt,
            deposited_cess: deposit_cess,
            use_usdt_per_seg,
        },
    )
}

impl TradeParams {
    /// The links of the ladder's levels say where each level stands.
    pub closed spec fn ladder_wf(&self) -> bool {
        self.price_queue.wf()
    }

    /// The ladder is well formed, the slippage is below 1000, and the bands
    /// of every level's price can be computed.
    pub open spec fn wf(&self) -> bool {
        &&& self.ladder_wf()
        &&& self@.slippage < 1000
        &&& prices_in_band_range(self@.levels)
    }

    /// The ladder.
    pub fn price_queue(&self) -> (r: &PriceList)
        requires
            self.wf(),
        ensures
            r.wf(),
            r@ == self@.levels,
    {
        &self.price_queue
    }

    /// What the observation of `price` calls for, or `None` where it cannot
    /// be worked out: where the quantity has to be derived from a price of
    /// zero, or a product on the way takes more than 256 bits.
    pub fn try_next_action(&self, price: &U256) -> (r: Option<TickAction>)
        requires
            self.wf(),
        ensures
            r.is_some() <==> tick_in_range(
                self@.levels,
                self@.use_usdt_per_seg,
                self@.slippage,
                price@,
            ),
            r.is_some() ==> r.unwrap()@ == planned_action(
                self@.levels,
                self@.use_usdt_per_seg,
                self@.slippage,
                price@,
            ),
    {
        crate::engine::try_next_action(
            &self.price_queue,
            &self.use_usdt_per_seg,
            self.slippage,
            price,
        )
    }

    /// Records that the trade of the level at `level` is done, for the
    /// quantity `amount`: the level is cleared and its neighbour armed with
    /// the opposite order. A trade that the ladder's shape rules out is
    /// refused, and nothing changes.
    pub fn settle(&mut self, level: usize, amount: &U256) -> (r: Result<(), InvariantViolation>)
        requires
            old(self).wf(),
        ensures
            final(self).wf(),
            match r {
                Ok(()) => settled(
                    old(self)@.levels,
                    old(self)@.slippage,
                    level as int,
                    amount@,
                ) == Ok::<Seq<LevelModel>, InvariantViolation>(final(self)@.levels),
                Err(e) => settled(
                    old(self)@.levels,
                    old(self)@.slippage,
                    level as int,
                    amount@,
                ) == Err::<Seq<LevelModel>, InvariantViolation>(e),
            },
            r.is_ok() ==> final(self)@ == (ParamsModel {
                levels: final(self)@.levels,
                ..old(self)@
            }),
            r.is_err() ==> final(self)@ == old(self)@,
    {
        crate::engine::settle(&mut self.price_queue, self.slippage, level, amount)
    }
}

} // verus!
