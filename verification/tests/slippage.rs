use jin::uint::U256;
use jin::utils::{slippage_compute_max, slippage_compute_min};

fn u(x: u64) -> U256 {
    U256::from_u64(x)
}

fn width(p: u64, t: u64) -> u128 {
    let max = slippage_compute_max(&u(p), t).to_u128().unwrap();
    let min = slippage_compute_min(&u(p), t).to_u128().unwrap();
    max - min
}

#[test]
fn band_edges_at_990_are_exact_integers() {
    assert_eq!(slippage_compute_min(&u(100), 990), u(99));
    assert_eq!(slippage_compute_max(&u(100), 990), u(101));
}

#[test]
fn band_is_widest_at_zero_tolerance() {
    assert_eq!(slippage_compute_min(&u(100), 0), u(0));
    assert_eq!(slippage_compute_max(&u(100), 0), u(200));
}

#[test]
fn band_collapses_towards_the_price() {
    assert_eq!(slippage_compute_min(&u(1_000_000), 999), u(999_000));
    assert_eq!(slippage_compute_max(&u(1_000_000), 999), u(1_001_000));
}

#[test]
fn band_edges_round_down() {
    assert_eq!(slippage_compute_min(&u(95), 995), u(94));
    assert_eq!(slippage_compute_max(&u(95), 995), u(95));
    assert_eq!(slippage_compute_min(&u(1), 999), u(0));
    assert_eq!(slippage_compute_max(&u(1), 999), u(1));
    assert_eq!(slippage_compute_max(&u(1), 0), u(2));
}

#[test]
fn band_contains_its_price() {
    for p in [0u64, 1, 7, 999, 1000, 1001, 123_456_789] {
        for t in [0u64, 1, 500, 990, 995, 999] {
            let price = u(p);
            let min = slippage_compute_min(&price, t);
            let max = slippage_compute_max(&price, t);
            assert!(min.at_most(&price));
            assert!(price.at_most(&max));
        }
    }
}

#[test]
fn band_narrows_as_the_tolerance_grows() {
    for p in [1000u64, 1001, 54_321, 1_000_000] {
        let mut t = 0;
        while t + 1 < 1000 {
            assert!(width(p, t + 1) < width(p, t));
            t += 1;
        }
    }
}

#[test]
fn band_of_a_small_price_never_widens() {
    for p in [0u64, 1, 2, 501, 999] {
        let mut t = 0;
        while t + 1 < 1000 {
            assert!(width(p, t + 1) <= width(p, t));
            t += 1;
        }
    }
    assert_eq!(width(1, 1), width(1, 2));
    assert_eq!(width(501, 2), width(501, 3));
}

#[test]
fn band_of_a_large_price() {
    let price = U256::from_u128(1u128 << 100);
    let min = slippage_compute_min(&price, 500);
    let max = slippage_compute_max(&price, 500);
    assert_eq!(min.to_u128(), Some(1u128 << 99));
    assert_eq!(max.to_u128(), Some((1u128 << 100) + (1u128 << 99)));
}
