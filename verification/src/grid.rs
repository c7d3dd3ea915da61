//! How a ladder is seeded: evenly spaced prices between two limits, the one
//! closest to the market left without an order, buys armed below it and
//! sells above it.

use crate::price_list::{LevelModel, Order, OrderModel, PriceList, TradeDestination};
use crate::uint::U256;
use crate::utils::{band_max, band_min, band_range, slippage_compute_max, slippage_compute_min};
use vstd::prelude::*;

verus! {

/// The distance between two numbers.
pub open spec fn distance(a: nat, b: nat) -> nat {
    if a >= b {
        (a - b) as nat
    } else {
        (b - a) as nat
    }
}

/// The step between neighbouring grid prices: the range divided by the
/// number of levels, rounded down.
pub open spec fn grid_segment(lower: nat, upper: nat, count: nat) -> nat
    recommends
        lower < upper,
        count > 0,
{
    ((upper - lower) / (count as int)) as nat
}

/// The price of the level at position `i`.
pub open spec fn grid_price(lower: nat, segment: nat, i: int) -> nat {
    (lower + segment * i) as nat
}

/// `count` prices that start at `lower` and rise by `segment`.
pub open spec fn stepped_prices(lower: nat, segment: nat, count: nat) -> Seq<nat> {
    Seq::new(count, |i: int| grid_price(lower, segment, i))
}

/// The prices of a grid of `count` levels between `lower` and `upper`.
pub open spec fn grid_prices(lower: nat, upper: nat, count: nat) -> Seq<nat>
    recommends
        lower < upper,
        count > 0,
{
    stepped_prices(lower, grid_segment(lower, upper, count), count)
}

/// Position `c` holds a price at the least distance from `market`, and no
/// position before it holds one as close.
pub open spec fn is_closest(prices: Seq<nat>, market: nat, c: int) -> bool {
    &&& 0 <= c < prices.len()
    &&& forall|j: int|
        0 <= j < prices.len() ==> distance(prices[c], market) <= distance(
            #[trigger] prices[j],
            market,
        )
    &&& forall|j: int|
        0 <= j < c ==> distance(prices[c], market) < distance(#[trigger] prices[j], market)
}

/// The first position whose price is at the least distance from `market`.
pub open spec fn closest_index(prices: Seq<nat>, market: nat) -> int
    recommends
        prices.len() > 0,
{
    choose|c: int| is_closest(prices, market, c)
}

/// The order that a level starts with: a sell above the closest price, a
/// buy below it, none on it. Neither has a quantity yet.
pub open spec fn initial_order(price: nat, closest_price: nat, tolerance: nat) -> Option<
    OrderModel,
> {
    if price > closest_price {
        Some(
            OrderModel {
                mount: None,
                destination: TradeDestination::SELL,
                min_acceptable_price: band_min(price, tolerance),
                max_acceptable_price: band_max(price, tolerance),
            },
        )
    } else if price < closest_price {
        Some(
            OrderModel {
                mount: None,
                destination: TradeDestination::BUY,
                min_acceptable_price: band_min(price, tolerance),
                max_acceptable_price: band_max(price, tolerance),
            },
        )
    } else {
        None
    }
}

/// The ladder that is seeded from `prices` when the market stands at
/// `market`.
pub open spec fn initial_ladder(prices: Seq<nat>, market: nat, tolerance: nat) -> Seq<LevelModel>
    recommends
        prices.len() > 0,
{
    Seq::new(
        prices.len(),
        |i: int|
            LevelModel {
                price: prices[i],
                order: initial_order(prices[i], prices[closest_index(prices, market)], tolerance),
            },
    )
}

/// The numbers that a sequence of values holds.
pub open spec fn values(prices: Seq<U256>) -> Seq<nat> {
    Seq::new(prices.len(), |i: int| prices[i]@)
}

/// Every level's price is one whose bands can be computed.
pub open spec fn prices_in_band_range(levels: Seq<LevelModel>) -> bool {
    forall|i: int| 0 <= i < levels.len() ==> band_range((#[trigger] levels[i]).price)
}

/// Two positions that are both closest are the same position.
pub proof fn lemma_closest_unique(prices: Seq<nat>, market: nat, c1: int, c2: int)
    requires
        is_closest(prices, market, c1),
        is_closest(prices, market, c2),
    ensures
        c1 == c2,
{
    if c1 < c2 {
        assert(distance(prices[c2], market) < distance(prices[c1], market));
        assert(distance(prices[c1], market) <= distance(prices[c2], market));
    } else if c2 < c1 {
        assert(distance(prices[c1], market) < distance(prices[c2], market));
        assert(distance(prices[c2], market) <= distance(prices[c1], market));
    }
}

/// The closest position among the first `k` prices.
proof fn closest_of_prefix(prices: Seq<nat>, market: nat, k: int) -> (c: int)
    requires
        0 < k <= prices.len(),
    ensures
        is_closest(prices.take(k), market, c),
    decreases k,
{
    if k == 1 {
        0
    } else {
        let b = closest_of_prefix(prices, market, k - 1);
        let shorter = prices.take(k - 1);
        let longer = prices.take(k);
        let c = if distance(prices[k - 1], market) < distance(prices[b], market) {
            k - 1
        } else {
            b
        };
        assert forall|j: int| 0 <= j < longer.len() implies distance(longer[c], market)
            <= distance(#[trigger] longer[j], market) by {
            if j < k - 1 {
                assert(shorter[j] == longer[j]);
            }
        }
        assert forall|j: int| 0 <= j < c implies distance(longer[c], market) < distance(
            #[trigger] longer[j],
            market,
        ) by {
            assert(shorter[j] == longer[j]);
        }
        c
    }
}

/// A ladder with at least one price has a closest position, and
/// `closest_index` names it.
pub proof fn lemma_closest_index(prices: Seq<nat>, market: nat)
    requires
        prices.len() > 0,
    ensures
        is_closest(prices, market, closest_index(prices, market)),
{
    let c = closest_of_prefix(prices, market, prices.len() as int);
    assert(prices.take(prices.len() as int) =~= prices);
}

/// The distance between two values.
pub fn abs_diff(a: &U256, b: &U256) -> (r: U256)
    ensures
        r@ == distance(a@, b@),
{
    if a.less_than(b) {
        b.checked_sub(a).unwrap()
    } else {
        a.checked_sub(b).unwrap()
    }
}

/// The position of the price closest to `market`; among equally close
/// prices, the first.
pub fn closest_price_index(prices: &Vec<U256>, market: &U256) -> (c: usize)
    requires
        prices@.len() > 0,
    ensures
        c as int == closest_index(values(prices@), market@),
        is_closest(values(prices@), market@, c as int),
{
    let ghost vals = values(prices@);
    let n = prices.len();
    let mut best: usize = 0;
    let mut best_distance = abs_diff(&prices[0], market);
    let mut i: usize = 1;
    while i < n
        invariant
            1 <= i <= n,
            n == prices@.len(),
            vals == values(prices@),
            best < i,
            best_distance@ == distance(vals[best as int], market@),
            forall|j: int|
                0 <= j < i ==> distance(vals[best as int], market@) <= distance(
                    #[trigger] vals[j],
                    market@,
                ),
            forall|j: int|
                0 <= j < best ==> distance(vals[best as int], market@) < distance(
                    #[trigger] vals[j],
                    market@,
                ),
        decreases n - i,
    {
        let d = abs_diff(&prices[i], market);
        if d.less_than(&best_distance) {
            best = i;
            best_distance = d;
        }
        i += 1;
    }
    proof {
        lemma_closest_index(vals, market@);
        lemma_closest_unique(vals, market@, best as int, closest_index(vals, market@));
    }
    best
}

/// `count` prices that start at `lower` and rise by `segment`, or `None`
/// where the last of them takes more than 256 bits.
pub fn grid_price_list(lower: &U256, segment: &U256, count: usize) -> (r: Option<Vec<U256>>)
    ensures
        r.is_some() <==> (count > 0 ==> lower@ + segment@ * (count - 1) <= U256::max_value()),
        r.is_some() ==> values(r.unwrap()@) == stepped_prices(lower@, segment@, count as nat),
{
    let mut prices: Vec<U256> = Vec::new();
    let mut i: usize = 0;
    while i < count
        invariant
            i <= count,
            prices@.len() == i,
            forall|j: int| 0 <= j < i ==> (#[trigger] prices@[j])@ == grid_price(lower@, segment@, j),
        decreases count - i,
    {
        assert(segment@ * i <= segment@ * (count - 1)) by (nonlinear_arith)
            requires
                i <= count - 1,
        ;
        // usize is at most 64 bits wide
        let step = U256::from_u64(i as u64);
        let offset = match segment.checked_mul(&step) {
            Some(offset) => offset,
            None => {
                return None;
            },
        };
        let price = match lower.checked_add(&offset) {
            Some(price) => price,
            None => {
                return None;
            },
        };
        prices.push(price);
        i += 1;
    }
    proof {
        if count > 0 {
            prices@[count - 1].lemma_bounded();
        }
        assert(values(prices@) =~= stepped_prices(lower@, segment@, count as nat));
    }
    Some(prices)
}

/// Seeds a ladder from `prices`: the price closest to `latest_price` gets no
/// order, each price above it a sell and each price below it a buy, with the
/// band that `price_tolerance_slippage` gives around the level's own price.
pub fn seed_price_queue(prices: &Vec<U256>, latest_price: &U256, price_tolerance_slippage: u64) -> (queue:
    PriceList)
    requires
        prices@.len() > 0,
        price_tolerance_slippage < 1000,
        forall|i: int| 0 <= i < prices@.len() ==> band_range(#[trigger] values(prices@)[i]),
    ensures
        queue.wf(),
        queue@ == initial_ladder(values(prices@), latest_price@, price_tolerance_slippage as nat),
{
    let ghost vals = values(prices@);
    let ghost target = initial_ladder(vals, latest_price@, price_tolerance_slippage as nat);
    let closest = closest_price_index(prices, latest_price);
    let closest_price = prices[closest];
    let mut queue = PriceList::new();
    let n = prices.len();
    let mut i: usize = 0;
    while i < n
        invariant
            i <= n,
            n == prices@.len(),
            vals == values(prices@),
            price_tolerance_slippage < 1000,
            forall|j: int| 0 <= j < prices@.len() ==> band_range(#[trigger] vals[j]),
            closest as int == closest_index(vals, latest_price@),
            closest < n,
            closest_price == prices@[closest as int],
            target == initial_ladder(vals, latest_price@, price_tolerance_slippage as nat),
            queue.wf(),
            queue@ == target.take(i as int),
        decreases n - i,
    {
        let price = prices[i];
        assert(band_range(vals[i as int]));
        assert(price@ * price_tolerance_slippage <= price@ * 2000 && price@ * (2000
            - price_tolerance_slippage) <= price@ * 2000) by (nonlinear_arith)
            requires
                price_tolerance_slippage < 1000,
        ;
        let min_acceptable_price = slippage_compute_min(&price, price_tolerance_slippage);
        let max_acceptable_price = slippage_compute_max(&price, price_tolerance_slippage);
        let order = if closest_price.less_than(&price) {
            Some(
                Order {
                    mount: None,
                    destination: TradeDestination::SELL,
                    min_acceptable_price,
                    max_acceptable_price,
                },
            )
        } else if price.less_than(&closest_price) {
            Some(
                Order {
                    mount: None,
                    destination: TradeDestination::BUY,
                    min_acceptable_price,
                    max_acceptable_price,
                },
            )
        } else {
            None
        };
        queue.push_back(price, order);
        assert(queue@ =~= target.take(i + 1));
        i += 1;
    }
    assert(target.take(n as int) =~= target);
    queue
}

/// The ladder of a grid of `grids_num` levels between `lower` and `upper`,
/// seeded for a market that stands at `latest_price`, and the grid's segment.
pub fn build_price_queue(
    latest_price: &U256,
    grids_num: &U256,
    upper: &U256,
    lower: &U256,
    price_tolerance_slippage: u64,
) -> (r: (PriceList, U256))
    requires
        lower@ < upper@,
        1 <= grids_num@ <= usize::MAX,
        price_tolerance_slippage < 1000,
        band_range(upper@),
    ensures
        r.0.wf(),
        r.0@ == initial_ladder(
            grid_prices(lower@, upper@, grids_num@),
            latest_price@,
            price_tolerance_slippage as nat,
        ),
        prices_in_band_range(r.0@),
        r.1@ == grid_segment(lower@, upper@, grids_num@),
{
    let count = grids_num.to_u128().unwrap() as usize;
    let span = upper.checked_sub(lower).unwrap();
    let segment = span.checked_div(grids_num).unwrap();
    proof {
        upper.lemma_bounded();
        lemma_steps_within_span(span@, grids_num@, (count - 1) as nat);
    }
    let prices = grid_price_list(lower, &segment, count).unwrap();
    proof {
        let vals = values(prices@);
        assert(vals.len() == prices@.len());
        assert(vals.len() == count);
        assert forall|i: int| 0 <= i < prices@.len() implies band_range(#[trigger] vals[i]) by {
            lemma_steps_within_span(span@, grids_num@, i as nat);
            assert(vals[i] == grid_price(lower@, segment@, i));
        }
    }
    let queue = seed_price_queue(&prices, latest_price, price_tolerance_slippage);
    (queue, segment)
}

/// Fewer steps than the span was divided into stay within the span.
proof fn lemma_steps_within_span(span: nat, count: nat, i: nat)
    requires
        count > 0,
        i < count,
    ensures
        (span / count) * i <= span,
{
    let segment = span / count;
    assert(segment * count <= span) by (nonlinear_arith)
        requires
            count > 0,
            segment == span / count,
    ;
    assert(segment * i <= segment * count) by (nonlinear_arith)
        requires
            i < count,
    ;
}

/// A seeded ladder has one level for each price of the grid, and each level's
/// price lies exactly one segment above that of the level before it.
pub proof fn lemma_ladder_prices(
    lower: nat,
    upper: nat,
    count: nat,
    market: nat,
    tolerance: nat,
    i: int,
)
    requires
        lower < upper,
        count > 0,
        0 <= i < count - 1,
    ensures
        initial_ladder(grid_prices(lower, upper, count), market, tolerance).len() == count,
        initial_ladder(grid_prices(lower, upper, count), market, tolerance)[i + 1].price
            - initial_ladder(grid_prices(lower, upper, count), market, tolerance)[i].price
            == grid_segment(lower, upper, count),
{
    let segment = grid_segment(lower, upper, count);
    assert(segment * (i + 1) == segment * i + segment) by (nonlinear_arith);
    assert(segment * i >= 0) by (nonlinear_arith)
        requires
            i >= 0,
            segment >= 0,
    ;
}

/// Prices that rise by a positive segment are strictly increasing.
pub proof fn lemma_stepped_prices_increase(lower: nat, segment: nat, count: nat, i: int, j: int)
    requires
        segment > 0,
        0 <= i < j < count,
    ensures
        stepped_prices(lower, segment, count)[i] < stepped_prices(lower, segment, count)[j],
{
    assert(segment * i < segment * j) by (nonlinear_arith)
        requires
            segment > 0,
            0 <= i < j,
    ;
    assert(segment * i >= 0) by (nonlinear_arith)
        requires
            i >= 0,
            segment >= 0,
    ;
}

/// Where no two prices are the same, a seeded ladder has exactly one level
/// without an order: the one at the closest position, which is the first
/// among the positions at the least distance from the market.
pub proof fn lemma_one_neutral_level(prices: Seq<nat>, market: nat, tolerance: nat)
    requires
        prices.len() > 0,
        forall|i: int, j: int| 0 <= i < j < prices.len() ==> prices[i] != prices[j],
    ensures
        is_closest(prices, market, closest_index(prices, market)),
        forall|i: int|
            0 <= i < prices.len() ==> ((#[trigger] initial_ladder(
                prices,
                market,
                tolerance,
            )[i]).order.is_none() <==> i == closest_index(prices, market)),
{
    lemma_closest_index(prices, market);
}

/// On a ladder of strictly increasing prices, every level below the one
/// without an order starts with a buy, and every level above it with a sell;
/// neither has a quantity yet.
pub proof fn lemma_buys_below_sells_above(prices: Seq<nat>, market: nat, tolerance: nat)
    requires
        prices.len() > 0,
        forall|i: int, j: int| 0 <= i < j < prices.len() ==> prices[i] < prices[j],
    ensures
        forall|i: int|
            0 <= i < closest_index(prices, market) ==> {
                let order = (#[trigger] initial_ladder(prices, market, tolerance)[i]).order;
                order.is_some() && order.unwrap().destination == TradeDestination::BUY
                    && order.unwrap().mount.is_none()
            },
        forall|i: int|
            closest_index(prices, market) < i < prices.len() ==> {
                let order = (#[trigger] initial_ladder(prices, market, tolerance)[i]).order;
                order.is_some() && order.unwrap().destination == TradeDestination::SELL
                    && order.unwrap().mount.is_none()
            },
{
    lemma_closest_index(prices, market);
}

/// The prices of a grid of one level, or of a grid whose segment is above
/// zero, are strictly increasing.
pub proof fn lemma_grid_prices_increase(lower: nat, upper: nat, count: nat)
    requires
        lower < upper,
        count > 0,
        count == 1 || grid_segment(lower, upper, count) > 0,
    ensures
        forall|i: int, j: int|
            0 <= i < j < count ==> #[trigger] grid_prices(lower, upper, count)[i]
                < #[trigger] grid_prices(lower, upper, count)[j],
{
    let segment = grid_segment(lower, upper, count);
    assert forall|i: int, j: int| 0 <= i < j < count implies #[trigger] grid_prices(
        lower,
        upper,
        count,
    )[i] < #[trigger] grid_prices(lower, upper, count)[j] by {
        lemma_stepped_prices_increase(lower, segment, count, i, j);
    }
}

/// Every price of a grid lies at or above the lower limit and strictly
/// below the upper one.
pub proof fn lemma_grid_prices_within_limits(lower: nat, upper: nat, count: nat, i: int)
    requires
        lower < upper,
        count > 0,
        0 <= i < count,
    ensures
        lower <= grid_prices(lower, upper, count)[i] < upper,
{
    let span = (upper - lower) as nat;
    let segment = grid_segment(lower, upper, count);
    assert(segment * count <= span) by (nonlinear_arith)
        requires
            count > 0,
            segment == span / count,
    ;
    assert(segment * i <= segment * (count - 1) && segment * i >= 0) by (nonlinear_arith)
        requires
            0 <= i <= count - 1,
            segment >= 0,
    ;
    assert(segment * (count - 1) == segment * count - segment) by (nonlinear_arith);
    assert(segment == 0 ==> segment * i == 0) by (nonlinear_arith);
}

/// The ladder of a grid of one level, or of a grid whose segment is above
/// zero, has exactly one level without an order. It is the level whose
/// price is closest to the market, the lower one of two that are equally
/// close.
pub proof fn lemma_grid_one_neutral_level(
    lower: nat,
    upper: nat,
    count: nat,
    market: nat,
    tolerance: nat,
)
    requires
        lower < upper,
        count > 0,
        count == 1 || grid_segment(lower, upper, count) > 0,
    ensures
        is_closest(
            grid_prices(lower, upper, count),
            market,
            closest_index(grid_prices(lower, upper, count), market),
        ),
        forall|i: int|
            0 <= i < count ==> ((#[trigger] initial_ladder(
                grid_prices(lower, upper, count),
                market,
                tolerance,
            )[i]).order.is_none() <==> i == closest_index(
                grid_prices(lower, upper, count),
                market,
            )),
{
    lemma_grid_prices_increase(lower, upper, count);
    lemma_one_neutral_level(grid_prices(lower, upper, count), market, tolerance);
}

/// On the ladder of a grid of one level, or of a grid whose segment is above
/// zero, every level below the one without an order starts with a buy, and
/// every level above it with a sell.
pub proof fn lemma_grid_buys_below_sells_above(
    lower: nat,
    upper: nat,
    count: nat,
    market: nat,
    tolerance: nat,
)
    requires
        lower < upper,
        count > 0,
        count == 1 || grid_segment(lower, upper, count) > 0,
    ensures
        forall|i: int|
            0 <= i < closest_index(grid_prices(lower, upper, count), market) ==> {
                let order = (#[trigger] initial_ladder(
                    grid_prices(lower, upper, count),
                    market,
                    tolerance,
                )[i]).order;
                order.is_some() && order.unwrap().destination == TradeDestination::BUY
            },
        forall|i: int|
            closest_index(grid_prices(lower, upper, count), market) < i < count ==> {
                let order = (#[trigger] initial_ladder(
                    grid_prices(lower, upper, count),
                    market,
                    tolerance,
                )[i]).order;
                order.is_some() && order.unwrap().destination == TradeDestination::SELL
            },
{
    lemma_grid_prices_increase(lower, upper, count);
    lemma_buys_below_sells_above(grid_prices(lower, upper, count), market, tolerance);
}

} // verus!
