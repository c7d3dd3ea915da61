//! Price bands and token units.
//!
//! A tolerance `t`, in thousandths below 1000, turns a price `p` into the
//! band `[p * t / 1000, p * (2000 - t) / 1000]`: the closer `t` is to 1000,
//! the narrower the band around `p`.

use crate::uint::U256;
use vstd::arithmetic::div_mod::lemma_small_mod;
use vstd::arithmetic::power::{lemma_pow_positive, pow};
use vstd::prelude::*;

verus! {

/// The lower edge of the band around `p` at tolerance `t`.
pub open spec fn band_min(p: nat, t: nat) -> nat {
    p * t / 1000
}

/// The upper edge of the band around `p` at tolerance `t`, for `t <= 2000`.
pub open spec fn band_max(p: nat, t: nat) -> nat
    recommends
        t <= 2000,
{
    (p * (2000 - t) / 1000) as nat
}

/// The width of the band around `p` at tolerance `t`.
pub open spec fn band_width(p: nat, t: nat) -> int
    recommends
        t <= 2000,
{
    band_max(p, t) - band_min(p, t)
}

/// Whether every band around `p` can be computed in 256 bits: `p * 2000`
/// does not exceed the largest value.
pub open spec fn band_range(p: nat) -> bool {
    p * 2000 <= U256::max_value()
}

/// Whether every band around `p` can be computed in 256 bits.
pub fn in_band_range(p: &U256) -> (r: bool)
    ensures
        r == band_range(p@),
{
    let k = U256::from_u64(2000);
    match p.checked_mul(&k) {
        Some(v) => {
            proof {
                v.lemma_bounded();
            }
            true
        },
        None => false,
    }
}

/// `value * factor / 1000`, rounded down, or `None` where the product takes
/// more than 256 bits.
pub fn scale_by_thousandths(value: &U256, factor: u64) -> (r: Option<U256>)
    ensures
        r.is_some() <==> value@ * factor <= U256::max_value(),
        r.is_some() ==> r.unwrap()@ == value@ * factor / 1000,
{
    let f = U256::from_u64(factor);
    let k = U256::from_u64(1000);
    match value.checked_mul(&f) {
        Some(product) => {
            proof {
                product.lemma_bounded();
            }
            product.checked_div(&k)
        },
        None => None,
    }
}

/// The lower edge of the band around `price`: `price * slippage / 1000`,
/// rounded down.
pub fn slippage_compute_min(price: &U256, slippage: u64) -> (r: U256)
    requires
        slippage < 1000,
        price@ * slippage <= U256::max_value(),
    ensures
        r@ == band_min(price@, slippage as nat),
{
    scale_by_thousandths(price, slippage).unwrap()
}

/// The upper edge of the band around `price`:
/// `price * (2000 - slippage) / 1000`, rounded down.
pub fn slippage_compute_max(price: &U256, slippage: u64) -> (r: U256)
    requires
        slippage < 1000,
        price@ * (2000 - slippage) <= U256::max_value(),
    ensures
        r@ == band_max(price@, slippage as nat),
{
    scale_by_thousandths(price, 2000 - slippage).unwrap()
}

/// One whole token in its smallest units: 10 to the power `decimals`,
/// reduced modulo 2^256.
pub fn get_u256_token(decimals: u32) -> (r: U256)
    ensures
        r@ == pow(10, decimals as nat) % U256::modulus(),
        pow(10, decimals as nat) <= U256::max_value() ==> r@ == pow(10, decimals as nat),
{
    let ten = U256::from_u64(10);
    let exp = U256::from_u64(decimals as u64);
    proof {
        lemma_pow_positive(10, decimals as nat);
        if pow(10, decimals as nat) <= U256::max_value() {
            lemma_small_mod(pow(10, decimals as nat) as nat, U256::modulus() as nat);
        }
    }
    ten.wrapping_pow(&exp)
}

/// Ten to the power 18 is a one followed by eighteen zeros.
pub proof fn lemma_pow10_18()
    ensures
        pow(10, 18) == 1_000_000_000_000_000_000int,
{
    reveal_with_fuel(pow, 19);
}

/// A price lies inside its own band at every tolerance below 1000.
pub proof fn lemma_band_contains_price(p: nat, t: nat)
    requires
        t < 1000,
    ensures
        band_min(p, t) <= p <= band_max(p, t),
{
    assert(p * t <= p * 1000) by (nonlinear_arith)
        requires
            t < 1000,
    ;
    assert(p * (2000 - t) >= p * 1000) by (nonlinear_arith)
        requires
            t < 1000,
    ;
}

/// The band never widens as the tolerance grows.
pub proof fn lemma_band_width_decreases(p: nat, t1: nat, t2: nat)
    requires
        t1 <= t2 < 1000,
    ensures
        band_width(p, t2) <= band_width(p, t1),
{
    assert(p * t1 <= p * t2) by (nonlinear_arith)
        requires
            t1 <= t2,
    ;
    assert(p * (2000 - t2) <= p * (2000 - t1)) by (nonlinear_arith)
        requires
            t1 <= t2,
    ;
}

/// The band narrows strictly from `t1` to a larger `t2` exactly when a whole
/// number lies between `p * t1 / 1000` and `p * t2 / 1000`, both taken
/// unrounded: when `p * t1` is a multiple of 1000, or the two roundings
/// differ.
pub proof fn lemma_band_width_strictly_decreases(p: nat, t1: nat, t2: nat)
    requires
        t1 < t2 < 1000,
        p > 0,
    ensures
        band_width(p, t2) < band_width(p, t1) <==> ((p * t1) % 1000 == 0 || band_min(p, t1)
            < band_min(p, t2)),
{
    let a = p * t1;
    let b = p * t2;
    assert(a < b) by (nonlinear_arith)
        requires
            a == p * t1,
            b == p * t2,
            t1 < t2,
            p > 0,
    ;
    assert(p * (2000 - t1) == 2000 * p - a) by (nonlinear_arith)
        requires
            a == p * t1,
    ;
    assert(p * (2000 - t2) == 2000 * p - b) by (nonlinear_arith)
        requires
            b == p * t2,
    ;
    assert(b <= 1000 * p) by (nonlinear_arith)
        requires
            b == p * t2,
            t2 < 1000,
    ;
}

/// From a price of 1000 units on, the band narrows strictly whenever the
/// tolerance grows.
pub proof fn lemma_band_width_strictly_decreases_from_1000(p: nat, t1: nat, t2: nat)
    requires
        t1 < t2 < 1000,
        p >= 1000,
    ensures
        band_width(p, t2) < band_width(p, t1),
{
    lemma_band_width_strictly_decreases(p, t1, t2);
    assert(p * t2 >= p * t1 + 1000) by (nonlinear_arith)
        requires
            t1 < t2,
            p >= 1000,
    ;
}

} // verus!
