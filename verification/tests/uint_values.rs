use jin::grid::{abs_diff, grid_price_list};
use jin::uint::U256;
use jin::utils::{get_u256_token, in_band_range, scale_by_thousandths};

fn u(x: u64) -> U256 {
    U256::from_u64(x)
}

#[test]
fn limbs_round_trip() {
    let limbs = [1u64, 2, 3, 4];
    assert_eq!(U256::from_limbs(limbs).into_limbs(), limbs);
    assert_eq!(u(7).into_limbs(), [7, 0, 0, 0]);
    assert_eq!(U256::zero().into_limbs(), [0, 0, 0, 0]);
    assert_eq!(U256::max().into_limbs(), [u64::MAX; 4]);
}

#[test]
fn limbs_match_the_arithmetic_crate() {
    let limbs = [0x0123_4567_89ab_cdefu64, 0xfedc_ba98_7654_3210, 17, 0x8000_0000_0000_0001];
    let ours = U256::from_limbs(limbs);
    let theirs = ruint::aliases::U256::from_limbs(limbs);
    assert_eq!(ours.into_limbs(), theirs.into_limbs());
    assert_eq!(U256::from_u128(u128::MAX).into_limbs(), ruint::aliases::U256::from(u128::MAX).into_limbs());
    assert_eq!(U256::max().into_limbs(), ruint::aliases::U256::MAX.into_limbs());
}

#[test]
fn u128_conversions() {
    let x: u128 = (5u128 << 64) + 9;
    assert_eq!(U256::from_u128(x).into_limbs(), [9, 5, 0, 0]);
    assert_eq!(U256::from_u128(x).to_u128(), Some(x));
    assert_eq!(U256::from_u128(u128::MAX).to_u128(), Some(u128::MAX));
    assert_eq!(U256::from_limbs([0, 0, 1, 0]).to_u128(), None);
    assert_eq!(U256::max().to_u128(), None);
}

#[test]
fn comparisons_go_by_the_most_significant_limb() {
    let small = U256::from_limbs([u64::MAX, 0, 0, 0]);
    let large = U256::from_limbs([0, 1, 0, 0]);
    assert!(small.less_than(&large));
    assert!(!large.less_than(&small));
    assert!(!small.less_than(&small));
    assert!(small.at_most(&small));
    assert!(small.at_most(&large));
    assert!(!large.at_most(&small));
    assert!(small.equals(&small));
    assert!(!small.equals(&large));
    assert!(U256::zero().is_zero());
    assert!(!large.is_zero());
    let top = U256::from_limbs([0, 0, 0, 1]);
    let below_top = U256::from_limbs([u64::MAX, u64::MAX, u64::MAX, 0]);
    assert!(below_top.less_than(&top));
}

#[test]
fn distance_is_symmetric_and_exact() {
    assert_eq!(abs_diff(&u(10), &u(3)), u(7));
    assert_eq!(abs_diff(&u(3), &u(10)), u(7));
    assert_eq!(abs_diff(&u(5), &u(5)), u(0));
    let big = U256::from_limbs([0, 1, 0, 0]);
    assert_eq!(abs_diff(&big, &u(1)), U256::from_limbs([u64::MAX, 0, 0, 0]));
}

#[test]
fn stepped_prices_multiply_and_add() {
    assert_eq!(grid_price_list(&u(90), &u(5), 4), Some(vec![u(90), u(95), u(100), u(105)]));
    assert_eq!(grid_price_list(&u(7), &u(0), 3), Some(vec![u(7), u(7), u(7)]));
    assert_eq!(grid_price_list(&u(7), &u(3), 0), Some(Vec::<U256>::new()));
    let carry = grid_price_list(&U256::from_limbs([u64::MAX, 0, 0, 0]), &u(1), 2).unwrap();
    assert_eq!(carry[1], U256::from_limbs([0, 1, 0, 0]));
}

#[test]
fn stepped_prices_end_at_the_largest_value() {
    let below = U256::from_limbs([u64::MAX - 2, u64::MAX, u64::MAX, u64::MAX]);
    let prices = grid_price_list(&below, &u(1), 3).unwrap();
    assert_eq!(prices[2], U256::max());
    assert_eq!(grid_price_list(&below, &u(1), 4), None);
    assert_eq!(grid_price_list(&U256::max(), &U256::max(), 1), Some(vec![U256::max()]));
    assert_eq!(grid_price_list(&u(0), &U256::max(), 2), Some(vec![u(0), U256::max()]));
    assert_eq!(grid_price_list(&u(0), &U256::max(), 3), None);
    assert_eq!(grid_price_list(&u(1), &U256::max(), 2), None);
}

#[test]
fn scaling_divides_the_product_by_a_thousand() {
    assert_eq!(scale_by_thousandths(&u(100), 990), Some(u(99)));
    assert_eq!(scale_by_thousandths(&u(100), 1010), Some(u(101)));
    assert_eq!(scale_by_thousandths(&u(1), 999), Some(u(0)));
    assert_eq!(scale_by_thousandths(&u(0), 5), Some(u(0)));
    assert_eq!(scale_by_thousandths(&U256::max(), 2), None);
    let expected = ruint::aliases::U256::MAX / ruint::aliases::U256::from(1000u64);
    assert_eq!(scale_by_thousandths(&U256::max(), 1), Some(U256::from_limbs(expected.into_limbs())));
}

#[test]
fn band_range_ends_at_the_largest_value_over_2000() {
    let limit = ruint::aliases::U256::MAX / ruint::aliases::U256::from(2000u64);
    let at_limit = U256::from_limbs(limit.into_limbs());
    let past_limit = U256::from_limbs((limit + ruint::aliases::U256::from(1u64)).into_limbs());
    assert!(in_band_range(&at_limit));
    assert!(!in_band_range(&past_limit));
    assert!(in_band_range(&U256::zero()));
    assert!(!in_band_range(&U256::max()));
}

#[test]
fn one_token_of_eighteen_decimals() {
    assert_eq!(get_u256_token(18), u(1_000_000_000_000_000_000));
    assert_eq!(get_u256_token(0), u(1));
    assert_eq!(get_u256_token(1), u(10));
    assert_eq!(get_u256_token(19).to_u128(), Some(10_000_000_000_000_000_000u128));
}

#[test]
fn token_units_wrap_past_256_bits() {
    let expected = ruint::aliases::U256::from(10u64).pow(ruint::aliases::U256::from(78u64));
    assert_eq!(get_u256_token(78).into_limbs(), expected.into_limbs());
    assert!(ruint::aliases::U256::from(10u64).checked_pow(ruint::aliases::U256::from(78u64)).is_none());
    assert!(ruint::aliases::U256::from(10u64).checked_pow(ruint::aliases::U256::from(77u64)).is_some());
}

fn samples() -> Vec<[u64; 4]> {
    let mut state: u64 = 0x9e37_79b9_7f4a_7c15;
    let mut next = move || {
        state = state.wrapping_mul(6364136223846793005).wrapping_add(1442695040888963407);
        state ^ (state >> 29)
    };
    let mut out = vec![
        [0, 0, 0, 0],
        [1, 0, 0, 0],
        [u64::MAX, 0, 0, 0],
        [0, 1, 0, 0],
        [u64::MAX, u64::MAX, 0, 0],
        [0, 0, 1, 0],
        [0, 0, 0, 1],
        [u64::MAX; 4],
    ];
    for _ in 0..40 {
        let width = next() % 4;
        let mut limbs = [0u64; 4];
        for (i, limb) in limbs.iter_mut().enumerate() {
            if i as u64 <= width {
                *limb = next();
            }
        }
        out.push(limbs);
    }
    out
}

#[test]
fn comparisons_agree_with_the_arithmetic_crate() {
    let all = samples();
    for a in &all {
        for b in &all {
            let (x, y) = (U256::from_limbs(*a), U256::from_limbs(*b));
            let (p, q) = (ruint::aliases::U256::from_limbs(*a), ruint::aliases::U256::from_limbs(*b));
            assert_eq!(x.less_than(&y), p < q);
            assert_eq!(x.at_most(&y), p <= q);
            assert_eq!(x.equals(&y), p == q);
            assert_eq!(x == y, p == q);
        }
        assert_eq!(U256::from_limbs(*a).is_zero(), ruint::aliases::U256::from_limbs(*a).is_zero());
    }
}

#[test]
fn distances_agree_with_the_arithmetic_crate() {
    let all = samples();
    for a in &all {
        for b in &all {
            let (x, y) = (U256::from_limbs(*a), U256::from_limbs(*b));
            let (p, q) = (ruint::aliases::U256::from_limbs(*a), ruint::aliases::U256::from_limbs(*b));
            assert_eq!(abs_diff(&x, &y).into_limbs(), p.abs_diff(q).into_limbs());
        }
    }
}

#[test]
fn scaling_agrees_with_the_arithmetic_crate() {
    let thousand = ruint::aliases::U256::from(1000u64);
    for a in &samples() {
        for factor in [0u64, 1, 990, 995, 1000, 1005, 1010, 2000, u64::MAX] {
            let x = U256::from_limbs(*a);
            let p = ruint::aliases::U256::from_limbs(*a);
            let expected = p.checked_mul(ruint::aliases::U256::from(factor)).map(|product| product / thousand);
            assert_eq!(scale_by_thousandths(&x, factor).map(|v| v.into_limbs()), expected.map(|v| v.into_limbs()));
        }
    }
}
