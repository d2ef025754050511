//! 256-bit unsigned integers, computed by the `U256` of `ethers`.

use ethers::types::U256;
use vstd::arithmetic::power::pow;
use vstd::prelude::*;

verus! {

/// The number of values of a 256-bit word, 2^256.
pub open spec fn word_range() -> nat {
    0x1_0000000000000000_0000000000000000_0000000000000000_0000000000000000nat
}

/// The number that big-endian bytes stand for.
pub open spec fn big_endian(bytes: Seq<u8>) -> nat
    decreases bytes.len(),
{
    if bytes.len() == 0 {
        0
    } else {
        256 * big_endian(bytes.drop_last()) + bytes.last() as nat
    }
}

/// A 256-bit unsigned integer: four 64-bit limbs, the least significant first.
#[derive(Debug, Clone, Copy, PartialEq, Eq)]
pub struct Uint256 {
    pub limbs: [u64; 4],
}

impl View for Uint256 {
    type V = nat;

    open spec fn view(&self) -> nat {
        self.limbs@[0] as nat + 0x1_0000000000000000nat * self.limbs@[1] as nat
            + 0x1_0000000000000000_0000000000000000nat * self.limbs@[2] as nat
            + 0x1_0000000000000000_0000000000000000_0000000000000000nat * self.limbs@[3] as nat
    }
}

impl Uint256 {
    /// The number zero.
    pub fn zero() -> (r: Uint256)
        ensures
            r@ == 0,
    {
        Uint256 { limbs: [0, 0, 0, 0] }
    }

    /// `U256::from_big_endian`: reads at most 32 bytes, the most significant
    /// first. It asserts that there are no more.
    #[verifier::external_body]
    pub(crate) fn from_big_endian(bytes: &[u8]) -> (r: Uint256)
        requires
            bytes@.len() <= 32,
        ensures
            r@ == big_endian(bytes@),
    {
        Uint256 { limbs: U256::from_big_endian(bytes).0 }
    }

    /// `U256::from` on a `u64`: the same number.
    #[verifier::external_body]
    pub(crate) fn from_u64(value: u64) -> (r: Uint256)
        ensures
            r@ == value,
    {
        Uint256 { limbs: U256::from(value).0 }
    }

    /// `U256::pow`: the exact power. It panics where the power does not fit in
    /// 256 bits.
    #[verifier::external_body]
    pub(crate) fn power(self, exponent: Uint256) -> (r: Uint256)
        requires
            pow(self@ as int, exponent@) < word_range(),
        ensures
            r@ == pow(self@ as int, exponent@),
    {
        Uint256 { limbs: U256(self.limbs).pow(U256(exponent.limbs)).0 }
    }

    /// `U256` `*`: the exact product. It panics where the product does not fit
    /// in 256 bits.
    #[verifier::external_body]
    pub(crate) fn times(self, other: Uint256) -> (r: Uint256)
        requires
            self@ * other@ < word_range(),
        ensures
            r@ == self@ * other@,
    {
        Uint256 { limbs: (U256(self.limbs) * U256(other.limbs)).0 }
    }

    /// `U256` `/`: the quotient, rounded down. It panics on division by zero.
    #[verifier::external_body]
    pub(crate) fn divided_by(self, other: Uint256) -> (r: Uint256)
        requires
            other@ != 0,
        ensures
            r@ == self@ / other@,
    {
        Uint256 { limbs: (U256(self.limbs) / U256(other.limbs)).0 }
    }

    /// `U256` `>`: the order of the numbers.
    #[verifier::external_body]
    pub(crate) fn exceeds(self, other: Uint256) -> (r: bool)
        ensures
            r == (self@ > other@),
    {
        U256(self.limbs) > U256(other.limbs)
    }

    /// `U256::as_u64`: the same number. It panics where the number does not fit
    /// in 64 bits.
    #[verifier::external_body]
    pub(crate) fn as_u64(self) -> (r: u64)
        requires
            self@ <= u64::MAX,
        ensures
            r == self@,
    {
        U256(self.limbs).as_u64()
    }
}

} // verus!
