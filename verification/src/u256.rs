//! Unsigned 256-bit amounts: token balances, prices, stakes and gas costs.

use vstd::prelude::*;

verus! {

/// The largest value of a [`U256`], `2^256 - 1`.
pub open spec fn u256_max() -> nat {
    0xffff_ffff_ffff_ffff_ffff_ffff_ffff_ffff_ffff_ffff_ffff_ffff_ffff_ffff_ffff_ffffnat
}

/// Subtraction that stops at zero.
pub open spec fn sat_sub(a: nat, b: nat) -> nat {
    if a >= b {
        (a - b) as nat
    } else {
        0
    }
}

/// Multiplication that stops at [`u256_max`].
pub open spec fn sat_mul(a: nat, b: nat) -> nat {
    if a * b <= u256_max() {
        a * b
    } else {
        u256_max()
    }
}

/// An unsigned 256-bit integer, kept as four 64-bit words, the least
/// significant first. Its view is the number that the words spell.
#[derive(Clone, Copy, Debug, PartialEq, Eq, Structural)]
pub struct U256 {
    pub(crate) w0: u64,
    pub(crate) w1: u64,
    pub(crate) w2: u64,
    pub(crate) w3: u64,
}

impl View for U256 {
    type V = nat;

    closed spec fn view(&self) -> nat {
        (self.w0 + self.w1 * 0x1_0000_0000_0000_0000 + self.w2
            * 0x1_0000_0000_0000_0000_0000_0000_0000_0000 + self.w3
            * 0x1_0000_0000_0000_0000_0000_0000_0000_0000_0000_0000_0000_0000) as nat
    }
}

impl U256 {
    /// Builds a value from its words, the least significant first.
    pub fn from_words(w0: u64, w1: u64, w2: u64, w3: u64) -> (r: U256)
        ensures
            r@ == w0 + w1 * 0x1_0000_0000_0000_0000 + w2
                * 0x1_0000_0000_0000_0000_0000_0000_0000_0000 + w3
                * 0x1_0000_0000_0000_0000_0000_0000_0000_0000_0000_0000_0000_0000,
    {
        U256 { w0, w1, w2, w3 }
    }

    /// The value of a 64-bit integer.
    pub fn from_u64(x: u64) -> (r: U256)
        ensures
            r@ == x,
    {
        U256 { w0: x, w1: 0, w2: 0, w3: 0 }
    }

    /// The value of a 128-bit integer.
    pub fn from_u128(x: u128) -> (r: U256)
        ensures
            r@ == x,
    {
        let low: u64 = (x % 0x1_0000_0000_0000_0000) as u64;
        let high: u64 = (x / 0x1_0000_0000_0000_0000) as u64;
        U256 { w0: low, w1: high, w2: 0, w3: 0 }
    }

    /// The value as a 64-bit integer, if it is no larger than `u64::MAX`.
    pub fn to_u64(self) -> (r: Option<u64>)
        ensures
            r == (if self@ <= u64::MAX {
                Some(self@ as u64)
            } else {
                None
            }),
    {
        if self.w1 == 0 && self.w2 == 0 && self.w3 == 0 {
            Some(self.w0)
        } else {
            None
        }
    }

    /// Whether this value is smaller than `other`.
    pub fn lt(self, other: U256) -> (r: bool)
        ensures
            r == (self@ < other@),
    {
        if self.w3 != other.w3 {
            self.w3 < other.w3
        } else if self.w2 != other.w2 {
            self.w2 < other.w2
        } else if self.w1 != other.w1 {
            self.w1 < other.w1
        } else {
            self.w0 < other.w0
        }
    }

    /// `self - rhs`, or zero where that is negative.
    ///
    /// Trusted: calls `saturating_sub` of alloy's `U256` (`ruint::Uint`), which
    /// computes the difference and saturates at the numeric bounds.
    #[verifier::external_body]
    pub(crate) fn saturating_sub(self, rhs: U256) -> (r: U256)
        ensures
            r@ == sat_sub(self@, rhs@),
    {
        let a = alloy::primitives::U256::from_limbs([self.w0, self.w1, self.w2, self.w3]);
        let b = alloy::primitives::U256::from_limbs([rhs.w0, rhs.w1, rhs.w2, rhs.w3]);
        let [w0, w1, w2, w3] = a.saturating_sub(b).into_limbs();
        U256 { w0, w1, w2, w3 }
    }

    /// `self * rhs`, or [`u256_max`] where that is larger.
    ///
    /// Trusted: calls `saturating_mul` of alloy's `U256` (`ruint::Uint`), which
    /// computes the product and saturates at the numeric bounds.
    #[verifier::external_body]
    pub(crate) fn saturating_mul(self, rhs: U256) -> (r: U256)
        ensures
            r@ == sat_mul(self@, rhs@),
    {
        let a = alloy::primitives::U256::from_limbs([self.w0, self.w1, self.w2, self.w3]);
        let b = alloy::primitives::U256::from_limbs([rhs.w0, rhs.w1, rhs.w2, rhs.w3]);
        let [w0, w1, w2, w3] = a.saturating_mul(b).into_limbs();
        U256 { w0, w1, w2, w3 }
    }

    /// The low 256 bits of `self * rhs`.
    ///
    /// Trusted: calls `wrapping_mul` of alloy's `U256` (`ruint::Uint`), to which
    /// that type's `*` operator resolves and which wraps at the boundary of the
    /// type.
    #[verifier::external_body]
    pub(crate) fn wrapping_mul(self, rhs: U256) -> (r: U256)
        ensures
            r@ == (self@ * rhs@) % (u256_max() + 1),
    {
        let a = alloy::primitives::U256::from_limbs([self.w0, self.w1, self.w2, self.w3]);
        let b = alloy::primitives::U256::from_limbs([rhs.w0, rhs.w1, rhs.w2, rhs.w3]);
        let [w0, w1, w2, w3] = a.wrapping_mul(b).into_limbs();
        U256 { w0, w1, w2, w3 }
    }

    /// `self / rhs`, rounded down.
    ///
    /// Trusted: calls `wrapping_div` of alloy's `U256` (`ruint::Uint`), to which
    /// that type's `/` operator resolves. It panics on a zero divisor, so
    /// `requires` leaves that out.
    #[verifier::external_body]
    pub(crate) fn divide(self, rhs: U256) -> (r: U256)
        requires
            rhs@ != 0,
        ensures
            r@ == self@ / rhs@,
    {
        let a = alloy::primitives::U256::from_limbs([self.w0, self.w1, self.w2, self.w3]);
        let b = alloy::primitives::U256::from_limbs([rhs.w0, rhs.w1, rhs.w2, rhs.w3]);
        let [w0, w1, w2, w3] = a.wrapping_div(b).into_limbs();
        U256 { w0, w1, w2, w3 }
    }
}

} // verus!
