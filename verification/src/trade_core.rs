//! The trading core: a seeded ladder with the settings that its trades are
//! sized and re-armed by.

use crate::engine::{planned_action, settled, tick_in_range, TickAction};
use crate::errors::{ConfigError, InvariantViolation};
use crate::grid::{
    build_price_queue,
    grid_prices,
    grid_segment,
    initial_ladder,
    prices_in_band_range,
};
use crate::price_list::{LevelModel, PriceList};
use crate::uint::U256;
use crate::utils::band_range;
use vstd::prelude::*;

verus! {

/// The fault in a configuration, if it has one. The slippage is looked at
/// first, then the price tolerance, then the grid limits.
pub open spec fn config_error(
    slippage: u64,
    price_tolerance_slippage: u64,
    lower: nat,
    upper: nat,
) -> Option<ConfigError> {
    if slippage >= 1000 {
        Some(ConfigError::SlippageTooLow)
    } else if price_tolerance_slippage >= 1000 {
        Some(ConfigError::PriceToleranceTooLow)
    } else if lower >= upper {
        Some(ConfigError::GridLimits)
    } else {
        None
    }
}

/// Checks a configuration: both settings below 1000, and the upper grid
/// limit above the lower one.
pub fn check_config(
    slippage: u64,
    price_tolerance_slippage: u64,
    grid_lower_limmit: &U256,
    grid_upper_limmit: &U256,
) -> (r: Result<(), ConfigError>)
    ensures
        match r {
            Ok(()) => config_error(
                slippage,
                price_tolerance_slippage,
                grid_lower_limmit@,
                grid_upper_limmit@,
            ).is_none(),
            Err(e) => config_error(
                slippage,
                price_tolerance_slippage,
                grid_lower_limmit@,
                grid_upper_limmit@,
            ) == Some(e),
        },
{
    if slippage >= 1000 {
        return Err(ConfigError::SlippageTooLow);
    }
    if price_tolerance_slippage >= 1000 {
        return Err(ConfigError::PriceToleranceTooLow);
    }
    if !grid_lower_limmit.less_than(grid_upper_limmit) {
        return Err(ConfigError::GridLimits);
    }
    Ok(())
}

/// What a trading core holds, in numbers.
pub struct CoreModel {
    pub levels: Seq<LevelModel>,
    pub price_seg: nat,
    pub slippage: nat,
    pub deposited_usdt: nat,
    pub deposited_cess: nat,
    pub use_usdt_per_seg: nat,
    pub trade_record_path: Seq<char>,
}

/// A seeded ladder and the settings of its trades.
#[derive(Clone, Debug)]
pub struct Web3TradeCore {
    price_queue: PriceList,
    price_seg: U256,
    slippage: u64,
    deposited_usdt: U256,
    deposited_cess: U256,
    use_usdt_per_seg: U256,
    trade_record_path: String,
}

impl View for Web3TradeCore {
    type V = CoreModel;

    closed spec fn view(&self) -> CoreModel {
        CoreModel {
            levels: self.price_queue@,
            price_seg: self.price_seg@,
            slippage: self.slippage as nat,
            deposited_usdt: self.deposited_usdt@,
            deposited_cess: self.deposited_cess@,
            use_usdt_per_seg: self.use_usdt_per_seg@,
            trade_record_path: self.trade_record_path@,
        }
    }
}

impl Web3TradeCore {
    /// The links of the ladder's levels say where each level stands.
    pub closed spec fn ladder_wf(&self) -> bool {
        self.price_queue.wf()
    }

    /// The ladder is well formed, the slippage is below 1000, and the bands
    /// of every level's price can be computed.
    pub open spec fn wf(&self) -> bool {
        &&& self.ladder_wf()
        &&& self@.slippage < 1000
        &&& prices_in_band_range(self@.levels)
    }

    /// Builds the core of a grid of `grids_num` levels between
    /// `grid_lower_limmit` and `grid_upper_limmit`, seeded for a market that
    /// stands at `cess_latest_price`.
    ///
    /// A slippage or price tolerance of 1000 or more, or an upper limit that
    /// is not above the lower one, is refused before anything is built.
    pub fn new(
        cess_latest_price: U256,
        grids_num: U256,
        grid_upper_limmit: U256,
        grid_lower_limmit: U256,
        slippage: u64,
        deposit_usdt: U256,
        deposit_cess: U256,
        price_tolerance_slippage: u64,
        trade_record_path: String,
    ) -> (r: Result<Web3TradeCore, ConfigError>)
        requires
            config_error(
                slippage,
                price_tolerance_slippage,
                grid_lower_limmit@,
                grid_upper_limmit@,
            ).is_none() ==> 1 <= grids_num@ <= usize::MAX && band_range(grid_upper_limmit@),
        ensures
            match r {
                Ok(core) => {
                    &&& config_error(
                        slippage,
                        price_tolerance_slippage,
                        grid_lower_limmit@,
                        grid_upper_limmit@,
                    ).is_none()
                    &&& core.wf()
                    &&& core@ == (CoreModel {
                        levels: initial_ladder(
                            grid_prices(grid_lower_limmit@, grid_upper_limmit@, grids_num@),
                            cess_latest_price@,
                            price_tolerance_slippage as nat,
                        ),
                        price_seg: grid_segment(
                            grid_lower_limmit@,
                            grid_upper_limmit@,
                            grids_num@,
                        ),
                        slippage: slippage as nat,
                        deposited_usdt: deposit_usdt@,
                        deposited_cess: deposit_cess@,
                        use_usdt_per_seg: deposit_usdt@ / grids_num@,
                        trade_record_path: trade_record_path@,
                    })
                },
                Err(e) => config_error(
                    slippage,
                    price_tolerance_slippage,
                    grid_lower_limmit@,
                    grid_upper_limmit@,
                ) == Some(e),
            },
    {
        match check_config(
            slippage,
            price_tolerance_slippage,
            &grid_lower_limmit,
            &grid_upper_limmit,
        ) {
            Ok(()) => {},
            Err(e) => {
                return Err(e);
            },
        }
        let (price_queue, price_seg) = build_price_queue(
            &cess_latest_price,
            &grids_num,
            &grid_upper_limmit,
            &grid_lower_limmit,
            price_tolerance_slippage,
        );
        let use_usdt_per_seg = deposit_usdt.checked_div(&grids_num).unwrap();
        Ok(
            Web3TradeCore {
                price_queue,
                price_seg,
                slippage,
                deposited_usdt: deposit_usdt,
                deposited_cess: deposit_cess,
                use_usdt_per_seg,
                trade_record_path,
            },
        )
    }

    /// The ladder.
    pub fn price_queue(&self) -> (r: &PriceList)
        requires
            self.wf(),
        ensures
            r.wf(),
            r@ == self@.levels,
    {
        &self.price_queue
    }

    /// The step between neighbouring grid prices.
    pub fn price_seg(&self) -> (r: U256)
        ensures
            r@ == self@.price_seg,
    {
        self.price_seg
    }

    /// The slippage setting, in thousandths.
    pub fn slippage(&self) -> (r: u64)
        ensures
            r == self@.slippage,
    {
        self.slippage
    }

    /// The deposit in the asset that buys.
    pub fn deposited_usdt(&self) -> (r: U256)
        ensures
            r@ == self@.deposited_usdt,
    {
        self.deposited_usdt
    }

    /// The deposit in the asset that is traded.
    pub fn deposited_cess(&self) -> (r: U256)
        ensures
            r@ == self@.deposited_cess,
    {
        self.deposited_cess
    }

    /// The share of the deposit that one level trades with.
    pub fn use_usdt_per_seg(&self) -> (r: U256)
        ensures
            r@ == self@.use_usdt_per_seg,
    {
        self.use_usdt_per_seg
    }

    /// Where the trades are recorded.
    pub fn trade_record_path(&self) -> (r: &String)
        ensures
            r@ == self@.trade_record_path,
    {
        &self.trade_record_path
    }

    /// What the observation of `price` calls for, or `None` where it cannot
    /// be worked out: where the quantity has to be derived from a price of
    /// zero, or a product on the way takes more than 256 bits.
    pub fn try_next_action(&self, price: &U256) -> (r: Option<TickAction>)
        requires
            self.wf(),
        ensures
            r.is_some() <==> tick_in_range(
                self@.levels,
                self@.use_usdt_per_seg,
                self@.slippage,
                price@,
            ),
            r.is_some() ==> r.unwrap()@ == planned_action(
                self@.levels,
                self@.use_usdt_per_seg,
                self@.slippage,
                price@,
            ),
    {
        crate::engine::try_next_action(
            &self.price_queue,
            &self.use_usdt_per_seg,
            self.slippage,
            price,
        )
    }

    /// What the observation of `price` calls for: the trade of the lowest
    /// level whose band contains `price`, or nothing where there is none.
    pub fn next_action(&self, price: &U256) -> (r: TickAction)
        requires
            self.wf(),
            tick_in_range(self@.levels, self@.use_usdt_per_seg, self@.slippage, price@),
        ensures
            r@ == planned_action(self@.levels, self@.use_usdt_per_seg, self@.slippage, price@),
    {
        crate::engine::next_action(&self.price_queue, &self.use_usdt_per_seg, self.slippage, price)
    }

    /// Records that the trade of the level at `level` is done, for the
    /// quantity `amount`: the level is cleared and its neighbour armed with
    /// the opposite order. A trade that the ladder's shape rules out is
    /// refused, and nothing changes.
    pub fn settle(&mut self, level: usize, amount: &U256) -> (r: Result<(), InvariantViolation>)
        requires
            old(self).wf(),
        ensures
            final(self).wf(),
            match r {
                Ok(()) => settled(
                    old(self)@.levels,
                    old(self)@.slippage,
                    level as int,
                    amount@,
                ) == Ok::<Seq<LevelModel>, InvariantViolation>(final(self)@.levels),
                Err(e) => settled(
                    old(self)@.levels,
                    old(self)@.slippage,
                    level as int,
                    amount@,
                ) == Err::<Seq<LevelModel>, InvariantViolation>(e),
            },
            r.is_ok() ==> final(self)@ == (CoreModel {
                levels: final(self)@.levels,
                ..old(self)@
            }),
            r.is_err() ==> final(self)@ == old(self)@,
    {
        crate::engine::settle(&mut self.price_queue, self.slippage, level, amount)
    }
}

impl Default for Web3TradeCore {
    /// A core with an empty ladder and every setting at zero.
    fn default() -> (r: Self)
        ensures
            r.wf(),
            r@ == (CoreModel {
                levels: Seq::empty(),
                price_seg: 0,
                slippage: 0,
                deposited_usdt: 0,
                deposited_cess: 0,
                use_usdt_per_seg: 0,
                trade_record_path: Seq::empty(),
            }),
    {
        Web3TradeCore {
            price_queue: PriceList::new(),
            price_seg: U256::zero(),
            slippage: 0,
            deposited_usdt: U256::zero(),
            deposited_cess: U256::zero(),
            use_usdt_per_seg: U256::zero(),
            trade_record_path: String::new(),
        }
    }
}

} // verus!
