//! Unsigned 256-bit integers.
//!
//! A value is held as four 64-bit limbs, least significant first, and is
//! viewed as the natural number those limbs spell in base 2^64. Comparison
//! and conversion are carried out on the limbs; sums, differences, products
//! and quotients are computed by `ruint`.

use vstd::arithmetic::power::pow;
use vstd::prelude::*;

verus! {

/// An unsigned 256-bit integer.
#[derive(Clone, Copy, Debug, PartialEq, Eq, Hash)]
pub struct U256 {
    l0: u64,
    l1: u64,
    l2: u64,
    l3: u64,
}

/// The weight of one limb position: 2^64.
pub open spec fn limb_base() -> nat {
    0x1_0000_0000_0000_0000
}

/// The number that four limbs spell, least significant first.
pub open spec fn limbs_value(l0: u64, l1: u64, l2: u64, l3: u64) -> nat {
    (l0 as nat) + limb_base() * ((l1 as nat) + limb_base() * ((l2 as nat) + limb_base() * (l3
        as nat)))
}

impl View for U256 {
    type V = nat;

    closed spec fn view(&self) -> nat {
        limbs_value(self.l0, self.l1, self.l2, self.l3)
    }
}

impl U256 {
    /// The largest value: 2^256 - 1.
    pub open spec fn max_value() -> nat {
        0xffff_ffff_ffff_ffff_ffff_ffff_ffff_ffff_ffff_ffff_ffff_ffff_ffff_ffff_ffff_ffffnat
    }

    /// The number of values: 2^256.
    pub open spec fn modulus() -> int {
        Self::max_value() as int + 1
    }

    /// Every value lies in `0 ..= max_value()`.
    pub proof fn lemma_bounded(self)
        ensures
            self@ <= Self::max_value(),
    {
    }

    /// Builds a value from its limbs, least significant first.
    pub fn from_limbs(limbs: [u64; 4]) -> (r: U256)
        ensures
            r@ == limbs_value(limbs[0], limbs[1], limbs[2], limbs[3]),
    {
        U256 { l0: limbs[0], l1: limbs[1], l2: limbs[2], l3: limbs[3] }
    }

    /// The limbs of the value, least significant first.
    pub fn into_limbs(self) -> (limbs: [u64; 4])
        ensures
            limbs_value(limbs[0], limbs[1], limbs[2], limbs[3]) == self@,
    {
        [self.l0, self.l1, self.l2, self.l3]
    }

    /// The value of a 64-bit integer.
    pub fn from_u64(x: u64) -> (r: U256)
        ensures
            r@ == x,
    {
        U256 { l0: x, l1: 0, l2: 0, l3: 0 }
    }

    /// The value of a 128-bit integer.
    pub fn from_u128(x: u128) -> (r: U256)
        ensures
            r@ == x,
    {
        let low: u64 = (x & 0xffff_ffff_ffff_ffff) as u64;
        let high: u64 = (x >> 64) as u64;
        assert(x == (x & 0xffff_ffff_ffff_ffff) + 0x1_0000_0000_0000_0000 * (x >> 64)) by (bit_vector);
        assert((x & 0xffff_ffff_ffff_ffff) <= 0xffff_ffff_ffff_ffff) by (bit_vector);
        assert((x >> 64) <= 0xffff_ffff_ffff_ffff) by (bit_vector);
        U256 { l0: low, l1: high, l2: 0, l3: 0 }
    }

    /// The value as a 128-bit integer, where it fits in one.
    pub fn to_u128(&self) -> (r: Option<u128>)
        ensures
            r.is_some() <==> self@ <= u128::MAX,
            r.is_some() ==> r.unwrap() == self@,
    {
        if self.l2 == 0 && self.l3 == 0 {
            let low: u128 = self.l0 as u128;
            let high: u128 = self.l1 as u128;
            Some(low + high * 0x1_0000_0000_0000_0000)
        } else {
            None
        }
    }

    /// Zero.
    pub fn zero() -> (r: U256)
        ensures
            r@ == 0,
    {
        U256 { l0: 0, l1: 0, l2: 0, l3: 0 }
    }

    /// The largest value.
    pub fn max() -> (r: U256)
        ensures
            r@ == Self::max_value(),
    {
        U256 {
            l0: 0xffff_ffff_ffff_ffff,
            l1: 0xffff_ffff_ffff_ffff,
            l2: 0xffff_ffff_ffff_ffff,
            l3: 0xffff_ffff_ffff_ffff,
        }
    }

    /// Whether the value is zero.
    pub fn is_zero(&self) -> (r: bool)
        ensures
            r == (self@ == 0),
    {
        self.l0 == 0 && self.l1 == 0 && self.l2 == 0 && self.l3 == 0
    }

    /// Whether two values are the same number.
    pub fn equals(&self, other: &U256) -> (r: bool)
        ensures
            r == (self@ == other@),
    {
        self.l0 == other.l0 && self.l1 == other.l1 && self.l2 == other.l2 && self.l3 == other.l3
    }

    /// Whether `self` is strictly below `other`.
    pub fn less_than(&self, other: &U256) -> (r: bool)
        ensures
            r == (self@ < other@),
    {
        if self.l3 != other.l3 {
            self.l3 < other.l3
        } else if self.l2 != other.l2 {
            self.l2 < other.l2
        } else if self.l1 != other.l1 {
            self.l1 < other.l1
        } else {
            self.l0 < other.l0
        }
    }

    /// Whether `self` is at most `other`.
    pub fn at_most(&self, other: &U256) -> (r: bool)
        ensures
            r == (self@ <= other@),
    {
        !other.less_than(self)
    }

    /// The sum, or `None` where it exceeds the largest value.
    ///
    /// Calls `ruint::Uint::checked_add` on the two numbers and trusts it to
    /// add exactly and to report overflow by `None`.
    #[verifier::external_body]
    pub(crate) fn checked_add(&self, rhs: &U256) -> (r: Option<U256>)
        ensures
            match r {
                Some(v) => v@ == self@ + rhs@,
                None => self@ + rhs@ > Self::max_value(),
            },
    {
        let a = ruint::aliases::U256::from_limbs([self.l0, self.l1, self.l2, self.l3]);
        let b = ruint::aliases::U256::from_limbs([rhs.l0, rhs.l1, rhs.l2, rhs.l3]);
        match a.checked_add(b) {
            Some(v) => {
                let l = v.into_limbs();
                Some(U256 { l0: l[0], l1: l[1], l2: l[2], l3: l[3] })
            },
            None => None,
        }
    }

    /// The difference, or `None` where `rhs` is the larger.
    ///
    /// Calls `ruint::Uint::checked_sub` on the two numbers and trusts it to
    /// subtract exactly and to report a negative difference by `None`.
    #[verifier::external_body]
    pub(crate) fn checked_sub(&self, rhs: &U256) -> (r: Option<U256>)
        ensures
            match r {
                Some(v) => v@ == self@ - rhs@,
                None => self@ < rhs@,
            },
    {
        let a = ruint::aliases::U256::from_limbs([self.l0, self.l1, self.l2, self.l3]);
        let b = ruint::aliases::U256::from_limbs([rhs.l0, rhs.l1, rhs.l2, rhs.l3]);
        match a.checked_sub(b) {
            Some(v) => {
                let l = v.into_limbs();
                Some(U256 { l0: l[0], l1: l[1], l2: l[2], l3: l[3] })
            },
            None => None,
        }
    }

    /// The product, or `None` where it exceeds the largest value.
    ///
    /// Calls `ruint::Uint::checked_mul` on the two numbers and trusts it to
    /// multiply exactly and to report overflow by `None`.
    #[verifier::external_body]
    pub(crate) fn checked_mul(&self, rhs: &U256) -> (r: Option<U256>)
        ensures
            match r {
                Some(v) => v@ == self@ * rhs@,
                None => self@ * rhs@ > Self::max_value(),
            },
    {
        let a = ruint::aliases::U256::from_limbs([self.l0, self.l1, self.l2, self.l3]);
        let b = ruint::aliases::U256::from_limbs([rhs.l0, rhs.l1, rhs.l2, rhs.l3]);
        match a.checked_mul(b) {
            Some(v) => {
                let l = v.into_limbs();
                Some(U256 { l0: l[0], l1: l[1], l2: l[2], l3: l[3] })
            },
            None => None,
        }
    }

    /// The quotient rounded down, or `None` where `rhs` is zero.
    ///
    /// Calls `ruint::Uint::checked_div` on the two numbers and trusts it to
    /// divide with truncation and to report a zero divisor by `None`.
    #[verifier::external_body]
    pub(crate) fn checked_div(&self, rhs: &U256) -> (r: Option<U256>)
        ensures
            match r {
                Some(v) => rhs@ != 0 && v@ == self@ / rhs@,
                None => rhs@ == 0,
            },
    {
        let a = ruint::aliases::U256::from_limbs([self.l0, self.l1, self.l2, self.l3]);
        let b = ruint::aliases::U256::from_limbs([rhs.l0, rhs.l1, rhs.l2, rhs.l3]);
        match a.checked_div(b) {
            Some(v) => {
                let l = v.into_limbs();
                Some(U256 { l0: l[0], l1: l[1], l2: l[2], l3: l[3] })
            },
            None => None,
        }
    }

    /// `self` raised to the power `exp`, reduced modulo 2^256.
    ///
    /// Calls `ruint::Uint::pow` and trusts it to raise to the power exactly
    /// and to keep the low 256 bits of the result.
    #[verifier::external_body]
    pub(crate) fn wrapping_pow(&self, exp: &U256) -> (r: U256)
        ensures
            r@ == pow(self@ as int, exp@) % Self::modulus(),
    {
        let a = ruint::aliases::U256::from_limbs([self.l0, self.l1, self.l2, self.l3]);
        let e = ruint::aliases::U256::from_limbs([exp.l0, exp.l1, exp.l2, exp.l3]);
        let l = a.pow(e).into_limbs();
        U256 { l0: l[0], l1: l[1], l2: l[2], l3: l[3] }
    }
}

} // verus!
