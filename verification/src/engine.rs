//! The trigger rules: which level a price observation sets off, what trade
//! that calls for, and how the ladder is re-armed once the trade is done.
//!
//! The rules take one step at a time. A driver asks for the action that a
//! price calls for, carries the trade out, and reports it done; between the
//! two calls the ladder does not change.

use crate::errors::InvariantViolation;
use crate::grid::prices_in_band_range;
use crate::price_list::{LevelModel, Order, OrderModel, PriceList, TradeDestination};
use crate::uint::U256;
use crate::utils::{
    band_max,
    band_min,
    band_range,
    get_u256_token,
    lemma_band_contains_price,
    lemma_pow10_18,
    scale_by_thousandths,
    slippage_compute_max,
    slippage_compute_min,
};
use vstd::prelude::*;

verus! {

/// One whole token of eighteen decimals, in its smallest units.
pub open spec fn token_unit() -> nat {
    1_000_000_000_000_000_000
}

/// The level holds an order whose band contains `price`.
pub open spec fn fires(level: LevelModel, price: nat) -> bool {
    match level.order {
        Some(o) => o.min_acceptable_price <= price <= o.max_acceptable_price,
        None => false,
    }
}

/// Position `i` is the lowest position whose level fires at `price`.
pub open spec fn is_first_firing(levels: Seq<LevelModel>, price: nat, i: int) -> bool {
    &&& 0 <= i < levels.len()
    &&& fires(levels[i], price)
    &&& forall|j: int| 0 <= j < i ==> !fires(#[trigger] levels[j], price)
}

/// No level fires at `price`.
pub open spec fn none_fires(levels: Seq<LevelModel>, price: nat) -> bool {
    forall|i: int| 0 <= i < levels.len() ==> !fires(#[trigger] levels[i], price)
}

/// The lowest position whose level fires at `price`, if any level does.
pub open spec fn first_firing(levels: Seq<LevelModel>, price: nat) -> Option<int> {
    if exists|i: int| is_first_firing(levels, price, i) {
        Some(choose|i: int| is_first_firing(levels, price, i))
    } else {
        None
    }
}

/// The quantity that an order without one trades: as many whole tokens as
/// the deposit of one segment buys at `price`.
pub open spec fn initial_amount(use_usdt_per_seg: nat, price: nat) -> nat
    recommends
        price > 0,
{
    use_usdt_per_seg / price * token_unit()
}

/// The quantity that an order trades when it fires at `price`.
pub open spec fn order_amount(order: OrderModel, use_usdt_per_seg: nat, price: nat) -> nat {
    match order.mount {
        Some(q) => q,
        None => initial_amount(use_usdt_per_seg, price),
    }
}

/// What a price observation calls for, in numbers.
pub enum ActionModel {
    Idle,
    Buy { level: int, amount: nat, usdt_use: nat, cess_min_received: nat },
    Sell { level: int, amount: nat, cess_max_willing_pay: nat, usdt_amount_received: nat },
}

/// What a price observation calls for.
#[derive(Clone, Copy, Debug, PartialEq, Eq)]
pub enum TickAction {
    /// No level fires: nothing to do until the next observation.
    Idle,
    /// The level at `level` fires a buy of `amount`: spend `usdt_use` and
    /// take no less than `cess_min_received` for it.
    Buy { level: usize, amount: U256, usdt_use: U256, cess_min_received: U256 },
    /// The level at `level` fires a sell of `amount`: receive
    /// `usdt_amount_received` and give no more than `cess_max_willing_pay`
    /// for it.
    Sell { level: usize, amount: U256, cess_max_willing_pay: U256, usdt_amount_received: U256 },
}

impl View for TickAction {
    type V = ActionModel;

    open spec fn view(&self) -> ActionModel {
        match *self {
            TickAction::Idle => ActionModel::Idle,
            TickAction::Buy { level, amount, usdt_use, cess_min_received } => ActionModel::Buy {
                level: level as int,
                amount: amount@,
                usdt_use: usdt_use@,
                cess_min_received: cess_min_received@,
            },
            TickAction::Sell {
                level,
                amount,
                cess_max_willing_pay,
                usdt_amount_received,
            } => ActionModel::Sell {
                level: level as int,
                amount: amount@,
                cess_max_willing_pay: cess_max_willing_pay@,
                usdt_amount_received: usdt_amount_received@,
            },
        }
    }
}

/// The trade that `order`, on the level at `level`, calls for when it fires
/// at `price`.
pub open spec fn order_action(
    order: OrderModel,
    level: int,
    use_usdt_per_seg: nat,
    slippage: nat,
    price: nat,
) -> ActionModel {
    let amount = order_amount(order, use_usdt_per_seg, price);
    match order.destination {
        TradeDestination::BUY => ActionModel::Buy {
            level,
            amount,
            usdt_use: use_usdt_per_seg,
            cess_min_received: band_min(amount, slippage),
        },
        TradeDestination::SELL => ActionModel::Sell {
            level,
            amount,
            cess_max_willing_pay: band_max(amount, slippage),
            usdt_amount_received: amount * price / token_unit(),
        },
    }
}

/// What the observation of `price` calls for: the trade of the lowest level
/// that fires, or nothing where none fires.
pub open spec fn planned_action(
    levels: Seq<LevelModel>,
    use_usdt_per_seg: nat,
    slippage: nat,
    price: nat,
) -> ActionModel {
    match first_firing(levels, price) {
        Some(i) => order_action(levels[i].order.unwrap(), i, use_usdt_per_seg, slippage, price),
        None => ActionModel::Idle,
    }
}

/// The trade of `order` at `price` can be worked out: the price is not zero
/// where the quantity has to be derived from it, and no product on the way
/// takes more than 256 bits.
pub open spec fn order_in_range(
    order: OrderModel,
    use_usdt_per_seg: nat,
    slippage: nat,
    price: nat,
) -> bool {
    let amount = order_amount(order, use_usdt_per_seg, price);
    &&& order.mount.is_none() ==> price > 0 && initial_amount(use_usdt_per_seg, price)
        <= U256::max_value()
    &&& match order.destination {
        TradeDestination::BUY => amount * slippage <= U256::max_value(),
        TradeDestination::SELL => amount * (2000 - slippage) <= U256::max_value() && amount
            * price <= U256::max_value(),
    }
}

/// What the observation of `price` calls for can be worked out.
pub open spec fn tick_in_range(
    levels: Seq<LevelModel>,
    use_usdt_per_seg: nat,
    slippage: nat,
    price: nat,
) -> bool {
    match first_firing(levels, price) {
        Some(i) => order_in_range(levels[i].order.unwrap(), use_usdt_per_seg, slippage, price),
        None => true,
    }
}

/// The order that a finished trade arms on a neighbouring level: the
/// opposite side, the same quantity, the band around the neighbour's price.
pub open spec fn armed_order(
    price: nat,
    destination: TradeDestination,
    amount: nat,
    slippage: nat,
) -> OrderModel {
    OrderModel {
        mount: Some(amount),
        destination,
        min_acceptable_price: band_min(price, slippage),
        max_acceptable_price: band_max(price, slippage),
    }
}

/// The ladder after the trade of the level at `level` is done, or the rule
/// that the trade broke.
///
/// A buy clears its level and arms a sell of `amount` on the level above; a
/// sell clears its level and arms a buy of `amount` on the level below.
pub open spec fn settled(levels: Seq<LevelModel>, slippage: nat, level: int, amount: nat) -> Result<
    Seq<LevelModel>,
    InvariantViolation,
> {
    if !(0 <= level < levels.len()) || levels[level].order.is_none() {
        Err(InvariantViolation::NoPendingOrder)
    } else {
        let cleared = LevelModel { price: levels[level].price, order: None };
        match levels[level].order.unwrap().destination {
            TradeDestination::BUY => if level + 1 < levels.len() {
                let above = levels[level + 1].price;
                Ok(
                    levels.update(
                        level + 1,
                        LevelModel {
                            price: above,
                            order: Some(
                                armed_order(above, TradeDestination::SELL, amount, slippage),
                            ),
                        },
                    ).update(level, cleared),
                )
            } else {
                Err(InvariantViolation::BuyAtLastLevel)
            },
            TradeDestination::SELL => if level > 0 {
                let below = levels[level - 1].price;
                Ok(
                    levels.update(
                        level - 1,
                        LevelModel {
                            price: below,
                            order: Some(
                                armed_order(below, TradeDestination::BUY, amount, slippage),
                            ),
                        },
                    ).update(level, cleared),
                )
            } else {
                Err(InvariantViolation::SellAtFirstLevel)
            },
        }
    }
}

/// A buy that is done on a level below the last clears that level and arms
/// a sell of the same quantity on the level above it. Every price and every
/// other order stays as it was.
pub proof fn lemma_buy_arms_sell_above(
    levels: Seq<LevelModel>,
    slippage: nat,
    level: int,
    amount: nat,
)
    requires
        0 <= level < levels.len() - 1,
        levels[level].order.is_some(),
        levels[level].order.unwrap().destination == TradeDestination::BUY,
    ensures
        settled(levels, slippage, level, amount).is_ok(),
        ({
            let after = settled(levels, slippage, level, amount).unwrap();
            &&& after.len() == levels.len()
            &&& after[level].order.is_none()
            &&& after[level + 1].order == Some(
                armed_order(levels[level + 1].price, TradeDestination::SELL, amount, slippage),
            )
            &&& after[level + 1].order.unwrap().mount == Some(amount)
            &&& forall|i: int| 0 <= i < levels.len() ==> (#[trigger] after[i]).price == levels[i].price
            &&& forall|i: int|
                0 <= i < levels.len() && i != level && i != level + 1 ==> #[trigger] after[i]
                    == levels[i]
        }),
{
}

/// A sell that is done on a level above the first clears that level and
/// arms a buy of the same quantity on the level below it. Every price and
/// every other order stays as it was.
pub proof fn lemma_sell_arms_buy_below(
    levels: Seq<LevelModel>,
    slippage: nat,
    level: int,
    amount: nat,
)
    requires
        0 < level < levels.len(),
        levels[level].order.is_some(),
        levels[level].order.unwrap().destination == TradeDestination::SELL,
    ensures
        settled(levels, slippage, level, amount).is_ok(),
        ({
            let after = settled(levels, slippage, level, amount).unwrap();
            &&& after.len() == levels.len()
            &&& after[level].order.is_none()
            &&& after[level - 1].order == Some(
                armed_order(levels[level - 1].price, TradeDestination::BUY, amount, slippage),
            )
            &&& after[level - 1].order.unwrap().mount == Some(amount)
            &&& forall|i: int| 0 <= i < levels.len() ==> (#[trigger] after[i]).price == levels[i].price
            &&& forall|i: int|
                0 <= i < levels.len() && i != level && i != level - 1 ==> #[trigger] after[i]
                    == levels[i]
        }),
{
}

/// An order that a finished trade armed fires with the quantity of that
/// trade, whatever the price and the deposit are.
pub proof fn lemma_armed_order_keeps_quantity(
    neighbour_price: nat,
    destination: TradeDestination,
    amount: nat,
    slippage: nat,
    use_usdt_per_seg: nat,
    price: nat,
)
    ensures
        order_amount(
            armed_order(neighbour_price, destination, amount, slippage),
            use_usdt_per_seg,
            price,
        ) == amount,
{
}

/// A buy on the last level and a sell on the first one are refused.
pub proof fn lemma_boundary_trades_refused(
    levels: Seq<LevelModel>,
    slippage: nat,
    level: int,
    amount: nat,
)
    requires
        0 <= level < levels.len(),
        levels[level].order.is_some(),
    ensures
        levels[level].order.unwrap().destination == TradeDestination::BUY && level
            == levels.len() - 1 ==> settled(levels, slippage, level, amount) == Err::<
            Seq<LevelModel>,
            InvariantViolation,
        >(InvariantViolation::BuyAtLastLevel),
        levels[level].order.unwrap().destination == TradeDestination::SELL && level == 0
            ==> settled(levels, slippage, level, amount) == Err::<
            Seq<LevelModel>,
            InvariantViolation,
        >(InvariantViolation::SellAtFirstLevel),
{
}

/// A level whose order carries the band around the level's own price, at a
/// tolerance below 1000, fires when the market stands at that price.
pub proof fn lemma_level_fires_at_its_price(level: LevelModel, tolerance: nat)
    requires
        tolerance < 1000,
        level.order.is_some(),
        level.order.unwrap().min_acceptable_price == band_min(level.price, tolerance),
        level.order.unwrap().max_acceptable_price == band_max(level.price, tolerance),
    ensures
        fires(level, level.price),
{
    lemma_band_contains_price(level.price, tolerance);
}

/// A level without an order does not fire, whatever the price.
pub proof fn lemma_neutral_level_is_inert(levels: Seq<LevelModel>, price: nat, i: int)
    requires
        0 <= i < levels.len(),
        levels[i].order.is_none(),
    ensures
        !fires(levels[i], price),
        first_firing(levels, price) != Some(i),
{
}

/// Two positions that are both the first to fire are the same position.
pub proof fn lemma_first_firing_unique(levels: Seq<LevelModel>, price: nat, i: int, j: int)
    requires
        is_first_firing(levels, price, i),
        is_first_firing(levels, price, j),
    ensures
        i == j,
{
}

/// The lowest level that fires at `price`, if any does.
pub fn find_trigger(queue: &PriceList, price: &U256) -> (r: Option<usize>)
    requires
        queue.wf(),
    ensures
        match r {
            Some(i) => first_firing(queue@, price@) == Some(i as int) && is_first_firing(
                queue@,
                price@,
                i as int,
            ),
            None => first_firing(queue@, price@).is_none() && none_fires(queue@, price@),
        },
{
    let n = queue.len();
    let mut i: usize = 0;
    while i < n
        invariant
            i <= n,
            n == queue@.len(),
            queue.wf(),
            forall|j: int| 0 <= j < i ==> !fires(#[trigger] queue@[j], price@),
        decreases n - i,
    {
        let node = queue.get(i).unwrap();
        match node.order_task {
            Some(order) => {
                if price.at_most(&order.max_acceptable_price) && order.min_acceptable_price.at_most(
                    price,
                ) {
                    proof {
                        assert(is_first_firing(queue@, price@, i as int));
                        let c = choose|k: int| is_first_firing(queue@, price@, k);
                        lemma_first_firing_unique(queue@, price@, i as int, c);
                    }
                    return Some(i);
                }
            },
            None => {},
        }
        i += 1;
    }
    proof {
        assert forall|k: int| !is_first_firing(queue@, price@, k) by {
            if 0 <= k < queue@.len() {
                assert(!fires(queue@[k], price@));
            }
        }
    }
    None
}

/// The trade that `order`, on the level at `level`, calls for when it fires
/// at `price`, or `None` where it cannot be worked out.
fn order_trade(order: &Order, level: usize, use_usdt_per_seg: &U256, slippage: u64, price: &U256) -> (r:
    Option<TickAction>)
    requires
        slippage < 1000,
    ensures
        r.is_some() <==> order_in_range(
            order@,
            use_usdt_per_seg@,
            slippage as nat,
            price@,
        ),
        r.is_some() ==> r.unwrap()@ == order_action(
            order@,
            level as int,
            use_usdt_per_seg@,
            slippage as nat,
            price@,
        ),
{
    let unit = get_u256_token(18);
    proof {
        lemma_pow10_18();
        assert(unit@ == token_unit());
    }
    let amount = match order.mount {
        Some(mount) => mount,
        None => {
            let per_price = match use_usdt_per_seg.checked_div(price) {
                Some(q) => q,
                None => {
                    return None;
                },
            };
            match per_price.checked_mul(&unit) {
                Some(a) => {
                    proof {
                        a.lemma_bounded();
                    }
                    a
                },
                None => {
                    return None;
                },
            }
        },
    };
    match order.destination {
        TradeDestination::BUY => {
            match scale_by_thousandths(&amount, slippage) {
                Some(cess_min_received) => Some(
                    TickAction::Buy {
                        level,
                        amount,
                        usdt_use: *use_usdt_per_seg,
                        cess_min_received,
                    },
                ),
                None => None,
            }
        },
        TradeDestination::SELL => {
            let cess_max_willing_pay = match scale_by_thousandths(&amount, 2000 - slippage) {
                Some(m) => m,
                None => {
                    return None;
                },
            };
            match amount.checked_mul(price) {
                Some(product) => {
                    proof {
                        product.lemma_bounded();
                    }
                    let usdt_amount_received = product.checked_div(&unit).unwrap();
                    Some(
                        TickAction::Sell {
                            level,
                            amount,
                            cess_max_willing_pay,
                            usdt_amount_received,
                        },
                    )
                },
                None => None,
            }
        },
    }
}

/// What the observation of `price` calls for, or `None` where it cannot be
/// worked out.
pub fn try_next_action(queue: &PriceList, use_usdt_per_seg: &U256, slippage: u64, price: &U256) -> (r:
    Option<TickAction>)
    requires
        queue.wf(),
        slippage < 1000,
    ensures
        r.is_some() <==> tick_in_range(queue@, use_usdt_per_seg@, slippage as nat, price@),
        r.is_some() ==> r.unwrap()@ == planned_action(
            queue@,
            use_usdt_per_seg@,
            slippage as nat,
            price@,
        ),
{
    match find_trigger(queue, price) {
        Some(level) => {
            let node = queue.get(level).unwrap();
            let order = node.order_task.unwrap();
            order_trade(&order, level, use_usdt_per_seg, slippage, price)
        },
        None => Some(TickAction::Idle),
    }
}

/// What the observation of `price` calls for: the trade of the lowest level
/// whose band contains `price`, or nothing where there is none.
pub fn next_action(queue: &PriceList, use_usdt_per_seg: &U256, slippage: u64, price: &U256) -> (r:
    TickAction)
    requires
        queue.wf(),
        slippage < 1000,
        tick_in_range(queue@, use_usdt_per_seg@, slippage as nat, price@),
    ensures
        r@ == planned_action(queue@, use_usdt_per_seg@, slippage as nat, price@),
{
    try_next_action(queue, use_usdt_per_seg, slippage, price).unwrap()
}

/// The order that a finished trade arms on the level whose price is `price`.
fn arm(price: &U256, destination: TradeDestination, amount: &U256, slippage: u64) -> (r: Order)
    requires
        slippage < 1000,
        band_range(price@),
    ensures
        r@ == armed_order(price@, destination, amount@, slippage as nat),
{
    assert(price@ * slippage <= price@ * 2000 && price@ * (2000 - slippage) <= price@ * 2000)
        by (nonlinear_arith)
        requires
            slippage < 1000,
    ;
    Order {
        mount: Some(*amount),
        destination,
        min_acceptable_price: slippage_compute_min(price, slippage),
        max_acceptable_price: slippage_compute_max(price, slippage),
    }
}

/// Records that the trade of the level at `level` is done, for the quantity
/// `amount`.
///
/// After a buy the level above is armed to sell `amount`, after a sell the
/// level below is armed to buy it, and the level itself is cleared. A buy on
/// the last level, a sell on the first, or a level without an order is
/// refused, and the ladder stays as it was.
pub fn settle(queue: &mut PriceList, slippage: u64, level: usize, amount: &U256) -> (r: Result<
    (),
    InvariantViolation,
>)
    requires
        old(queue).wf(),
        slippage < 1000,
        prices_in_band_range(old(queue)@),
    ensures
        final(queue).wf(),
        prices_in_band_range(final(queue)@),
        match r {
            Ok(()) => settled(old(queue)@, slippage as nat, level as int, amount@) == Ok::<
                Seq<LevelModel>,
                InvariantViolation,
            >(final(queue)@),
            Err(e) => settled(old(queue)@, slippage as nat, level as int, amount@) == Err::<
                Seq<LevelModel>,
                InvariantViolation,
            >(e) && final(queue)@ == old(queue)@,
        },
{
    let node = match queue.get(level) {
        Some(node) => node,
        None => {
            return Err(InvariantViolation::NoPendingOrder);
        },
    };
    let order = match node.order_task {
        Some(order) => order,
        None => {
            return Err(InvariantViolation::NoPendingOrder);
        },
    };
    let ghost before = queue@;
    match order.destination {
        TradeDestination::BUY => {
            match node.next_price {
                Some(next) => {
                    let next_node = queue.get(next).unwrap();
                    assert(band_range(before[next as int].price));
                    let sell_task = arm(
                        &next_node.this_price,
                        TradeDestination::SELL,
                        amount,
                        slippage,
                    );
                    queue.set_order(next, Some(sell_task));
                },
                None => {
                    return Err(InvariantViolation::BuyAtLastLevel);
                },
            }
        },
        TradeDestination::SELL => {
            match node.previous_price {
                Some(previous) => {
                    let previous_node = queue.get(previous).unwrap();
                    assert(band_range(before[previous as int].price));
                    let buy_task = arm(
                        &previous_node.this_price,
                        TradeDestination::BUY,
                        amount,
                        slippage,
                    );
                    queue.set_order(previous, Some(buy_task));
                },
                None => {
                    return Err(InvariantViolation::SellAtFirstLevel);
                },
            }
        },
    }
    queue.set_order(level, None);
    proof {
        assert forall|i: int| 0 <= i < queue@.len() implies band_range(
            (#[trigger] queue@[i]).price,
        ) by {
            assert(band_range(before[i].price));
        }
        let expected = settled(before, slippage as nat, level as int, amount@);
        assert(expected.is_ok());
        assert(queue@ =~= expected.unwrap());
    }
    Ok(())
}

} // verus!
