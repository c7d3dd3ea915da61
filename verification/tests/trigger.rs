use jin::engine::{find_trigger, next_action, settle, try_next_action, TickAction};
use jin::errors::InvariantViolation;
use jin::price_list::{Order, PriceList, TradeDestination};
use jin::tactics::new_trade_params;
use jin::trade_core::Web3TradeCore;
use jin::uint::U256;

const UNIT: u64 = 1_000_000_000_000_000_000;

fn u(x: u64) -> U256 {
    U256::from_u64(x)
}

fn build() -> Web3TradeCore {
    Web3TradeCore::new(u(99), u(4), u(110), u(90), 990, u(400), u(7), 995, String::new()).unwrap()
}

fn order(destination: TradeDestination, mount: Option<u64>, min: u64, max: u64) -> Order {
    Order {
        mount: mount.map(u),
        destination,
        min_acceptable_price: u(min),
        max_acceptable_price: u(max),
    }
}

fn orders(list: &PriceList) -> Vec<Option<Order>> {
    list.iter().iter().map(|node| node.order_task).collect()
}

#[test]
fn the_neutral_level_never_fires() {
    let core = build();
    assert_eq!(core.try_next_action(&u(100)), Some(TickAction::Idle));
    assert_eq!(core.next_action(&u(100)), TickAction::Idle);
    assert_eq!(core.try_next_action(&u(99)), Some(TickAction::Idle));
    assert_eq!(core.try_next_action(&u(101)), Some(TickAction::Idle));
}

#[test]
fn a_price_outside_every_band_fires_nothing() {
    let core = build();
    for price in [1u64, 88, 91, 93, 96, 103, 106, 1_000_000] {
        assert_eq!(core.try_next_action(&u(price)), Some(TickAction::Idle));
    }
}

#[test]
fn a_first_buy_is_sized_from_the_segment_deposit() {
    let core = build();
    let expected = TickAction::Buy {
        level: 1,
        amount: u(UNIT),
        usdt_use: u(100),
        cess_min_received: u(UNIT / 1000 * 990),
    };
    assert_eq!(core.try_next_action(&u(95)), Some(expected));
    assert_eq!(core.next_action(&u(95)), expected);
    let at_lower_edge = TickAction::Buy {
        level: 1,
        amount: u(UNIT),
        usdt_use: u(100),
        cess_min_received: u(UNIT / 1000 * 990),
    };
    assert_eq!(core.try_next_action(&u(94)), Some(at_lower_edge));
}

#[test]
fn a_first_sell_is_sized_from_the_segment_deposit() {
    let core = Web3TradeCore::new(u(5), u(4), u(50), u(10), 990, u(400), u(7), 995, String::new()).unwrap();
    let expected = TickAction::Sell {
        level: 1,
        amount: u(5 * UNIT),
        cess_max_willing_pay: u(5 * (UNIT / 1000 * 1010)),
        usdt_amount_received: u(100),
    };
    assert_eq!(core.try_next_action(&u(20)), Some(expected));
}

#[test]
fn a_buy_clears_its_level_and_arms_a_sell_above() {
    let mut core = build();
    let before = orders(core.price_queue());
    assert_eq!(core.settle(1, &u(UNIT)), Ok(()));
    let after = orders(core.price_queue());
    assert_eq!(after[0], before[0]);
    assert_eq!(after[1], None);
    assert_eq!(
        after[2],
        Some(Order {
            mount: Some(u(UNIT)),
            destination: TradeDestination::SELL,
            min_acceptable_price: u(99),
            max_acceptable_price: u(101),
        })
    );
    assert_eq!(after[3], before[3]);
}

#[test]
fn an_armed_sell_fires_with_the_quantity_it_was_armed_with() {
    let mut core = build();
    core.settle(1, &u(UNIT)).unwrap();
    let expected = TickAction::Sell {
        level: 2,
        amount: u(UNIT),
        cess_max_willing_pay: u(UNIT / 1000 * 1010),
        usdt_amount_received: u(100),
    };
    assert_eq!(core.try_next_action(&u(100)), Some(expected));
    assert_eq!(core.try_next_action(&u(99)).map(|a| matches!(a, TickAction::Sell { .. })), Some(true));
    assert_eq!(core.try_next_action(&u(98)), Some(TickAction::Idle));
}

#[test]
fn a_sell_clears_its_level_and_arms_a_buy_below() {
    let mut core = build();
    core.settle(1, &u(UNIT)).unwrap();
    assert_eq!(core.settle(2, &u(UNIT)), Ok(()));
    let after = orders(core.price_queue());
    assert_eq!(after[2], None);
    assert_eq!(
        after[1],
        Some(Order {
            mount: Some(u(UNIT)),
            destination: TradeDestination::BUY,
            min_acceptable_price: u(94),
            max_acceptable_price: u(95),
        })
    );
    let expected = TickAction::Buy {
        level: 1,
        amount: u(UNIT),
        usdt_use: u(100),
        cess_min_received: u(UNIT / 1000 * 990),
    };
    assert_eq!(core.try_next_action(&u(95)), Some(expected));
}

#[test]
fn a_round_trip_keeps_the_quantity() {
    let mut core = build();
    let mut price = 95;
    for _ in 0..6 {
        match core.try_next_action(&u(price)).unwrap() {
            TickAction::Buy { level, amount, .. } => {
                assert_eq!(level, 1);
                assert_eq!(amount, u(UNIT));
                core.settle(level, &amount).unwrap();
                price = 100;
            }
            TickAction::Sell { level, amount, .. } => {
                assert_eq!(level, 2);
                assert_eq!(amount, u(UNIT));
                core.settle(level, &amount).unwrap();
                price = 95;
            }
            TickAction::Idle => panic!("a level should fire at {}", price),
        }
    }
}

#[test]
fn the_lowest_firing_level_wins() {
    let mut list = PriceList::new();
    list.push_back(u(10), None);
    list.push_back(u(20), Some(order(TradeDestination::SELL, Some(3), 5, 50)));
    list.push_back(u(30), Some(order(TradeDestination::BUY, Some(4), 5, 50)));
    assert_eq!(find_trigger(&list, &u(25)), Some(1));
    assert_eq!(find_trigger(&list, &u(5)), Some(1));
    assert_eq!(find_trigger(&list, &u(50)), Some(1));
    assert_eq!(find_trigger(&list, &u(4)), None);
    assert_eq!(find_trigger(&list, &u(51)), None);
    list.set_order(1, None);
    assert_eq!(find_trigger(&list, &u(25)), Some(2));
    assert_eq!(find_trigger(&PriceList::new(), &u(25)), None);
}

#[test]
fn a_sized_order_ignores_the_segment_deposit() {
    let mut list = PriceList::new();
    list.push_back(u(10), Some(order(TradeDestination::BUY, Some(3000), 5, 50)));
    list.push_back(u(20), None);
    let expected = TickAction::Buy {
        level: 0,
        amount: u(3000),
        usdt_use: u(77),
        cess_min_received: u(2970),
    };
    assert_eq!(try_next_action(&list, &u(77), 990, &u(7)), Some(expected));
    assert_eq!(next_action(&list, &u(77), 990, &u(7)), expected);
    list.set_order(0, Some(order(TradeDestination::SELL, Some(3 * UNIT), 5, 50)));
    let expected = TickAction::Sell {
        level: 0,
        amount: u(3 * UNIT),
        cess_max_willing_pay: u(3 * (UNIT / 1000 * 1010)),
        usdt_amount_received: u(21),
    };
    assert_eq!(try_next_action(&list, &u(77), 990, &u(7)), Some(expected));
}

#[test]
fn a_sized_order_fires_at_a_price_of_zero() {
    let mut list = PriceList::new();
    list.push_back(u(0), Some(order(TradeDestination::SELL, Some(5), 0, 0)));
    let expected = TickAction::Sell {
        level: 0,
        amount: u(5),
        cess_max_willing_pay: u(5),
        usdt_amount_received: u(0),
    };
    assert_eq!(try_next_action(&list, &u(77), 990, &u(0)), Some(expected));
}

#[test]
fn an_unsized_order_cannot_fire_at_a_price_of_zero() {
    let mut list = PriceList::new();
    list.push_back(u(0), Some(order(TradeDestination::BUY, None, 0, 0)));
    assert_eq!(try_next_action(&list, &u(77), 990, &u(0)), None);
    assert_eq!(try_next_action(&list, &u(77), 990, &u(1)), Some(TickAction::Idle));
}

#[test]
fn a_trade_too_large_for_256_bits_is_not_planned() {
    let mut list = PriceList::new();
    list.push_back(u(10), Some(order(TradeDestination::BUY, None, 1, 50)));
    assert_eq!(try_next_action(&list, &U256::max(), 990, &u(1)), None);
    let mut list = PriceList::new();
    list.push_back(u(10), Some(Order {
        mount: Some(U256::max()),
        destination: TradeDestination::SELL,
        min_acceptable_price: u(1),
        max_acceptable_price: u(50),
    }));
    assert_eq!(try_next_action(&list, &u(1), 990, &u(1)), None);
    let half = U256::from_limbs([0, 0, 0, 1 << 40]);
    let mut list = PriceList::new();
    list.push_back(u(10), Some(Order {
        mount: Some(half),
        destination: TradeDestination::SELL,
        min_acceptable_price: u(1),
        max_acceptable_price: U256::max(),
    }));
    assert!(try_next_action(&list, &u(1), 990, &u(1)).is_some());
    assert_eq!(try_next_action(&list, &u(1), 990, &half), None);
}

#[test]
fn a_buy_on_the_last_level_is_refused() {
    let mut list = PriceList::new();
    list.push_back(u(10), None);
    list.push_back(u(20), Some(order(TradeDestination::BUY, None, 19, 21)));
    let before = list.iter();
    assert_eq!(settle(&mut list, 990, 1, &u(5)), Err(InvariantViolation::BuyAtLastLevel));
    assert_eq!(list.iter(), before);
}

#[test]
fn a_sell_on_the_first_level_is_refused() {
    let mut list = PriceList::new();
    list.push_back(u(10), Some(order(TradeDestination::SELL, Some(4), 9, 11)));
    list.push_back(u(20), None);
    let before = list.iter();
    assert_eq!(settle(&mut list, 990, 0, &u(4)), Err(InvariantViolation::SellAtFirstLevel));
    assert_eq!(list.iter(), before);
}

#[test]
fn a_level_without_an_order_cannot_be_settled() {
    let mut core = build();
    let before = core.price_queue().iter();
    assert_eq!(core.settle(2, &u(5)), Err(InvariantViolation::NoPendingOrder));
    assert_eq!(core.settle(4, &u(5)), Err(InvariantViolation::NoPendingOrder));
    assert_eq!(core.settle(usize::MAX, &u(5)), Err(InvariantViolation::NoPendingOrder));
    assert_eq!(core.price_queue().iter(), before);
}

#[test]
fn a_sell_on_the_top_level_arms_the_level_below() {
    let mut core = build();
    assert_eq!(core.settle(3, &u(9)), Ok(()));
    let after = orders(core.price_queue());
    assert_eq!(after[3], None);
    assert_eq!(
        after[2],
        Some(Order {
            mount: Some(u(9)),
            destination: TradeDestination::BUY,
            min_acceptable_price: u(99),
            max_acceptable_price: u(101),
        })
    );
}

#[test]
fn a_buy_on_the_bottom_level_replaces_the_order_above() {
    let mut core = build();
    assert_eq!(core.settle(0, &u(9)), Ok(()));
    let after = orders(core.price_queue());
    assert_eq!(after[0], None);
    assert_eq!(
        after[1],
        Some(Order {
            mount: Some(u(9)),
            destination: TradeDestination::SELL,
            min_acceptable_price: u(94),
            max_acceptable_price: u(95),
        })
    );
}

#[test]
fn invariant_violation_messages() {
    assert_eq!(
        InvariantViolation::BuyAtLastLevel.message(),
        "A buy order occurred at the last price level, which shouldn't happen!!"
    );
    assert_eq!(
        InvariantViolation::SellAtFirstLevel.message(),
        "A sell trade occurred at the first price level, which shouldn't happen!!"
    );
    assert_eq!(
        InvariantViolation::NoPendingOrder.message(),
        "A trade was reported for a price level that holds no order!"
    );
}

#[test]
fn trade_params_step_like_the_core() {
    let mut params = new_trade_params(u(99), u(4), u(110), u(90), 990, u(400), u(7), 995).ok().unwrap();
    let mut core = build();
    assert_eq!(params.try_next_action(&u(95)), core.try_next_action(&u(95)));
    assert_eq!(params.settle(1, &u(UNIT)), Ok(()));
    assert_eq!(core.settle(1, &u(UNIT)), Ok(()));
    assert_eq!(params.price_queue().iter(), core.price_queue().iter());
    assert_eq!(params.try_next_action(&u(100)), core.try_next_action(&u(100)));
    assert_eq!(params.settle(2, &u(UNIT)), Ok(()));
    assert_eq!(params.settle(2, &u(UNIT)), Err(InvariantViolation::NoPendingOrder));
}
