//! The unsigned 256-bit integers that the staking contract returns.

use vstd::prelude::*;
use crate::decimal::decimal;

verus! {

/// Two to the power 64: the weight of one word over the word below it.
pub open spec fn word_base() -> nat {
    0x1_0000_0000_0000_0000
}

/// The number that four 64-bit words denote, least significant word first.
pub open spec fn limbs_value(limbs: Seq<u64>) -> nat
    recommends
        limbs.len() == 4,
{
    (limbs[0] as nat) + (limbs[1] as nat) * word_base()
        + (limbs[2] as nat) * word_base() * word_base()
        + (limbs[3] as nat) * word_base() * word_base() * word_base()
}

/// An unsigned integer of 256 bits, held as `ethers::types::U256` holds it:
/// four words of 64 bits, least significant first. Every value of the four
/// words is a number, so the type has no invariant.
#[derive(Clone, Copy, Debug, PartialEq, Eq)]
pub struct Uint256 {
    pub limbs: [u64; 4],
}

impl View for Uint256 {
    type V = nat;

    open spec fn view(&self) -> nat {
        limbs_value(self.limbs@)
    }
}

/// Calls `U256::from` of `ethers::types` on the literal `0` and hands out the
/// words of the result. Trusted: the conversion from a non-negative integer
/// stores the integer in the least significant word and zero in the other
/// three, so all four words are zero.
#[verifier::external_body]
fn u256_zero() -> (value: Uint256)
    ensures
        value.limbs@ == seq![0u64, 0u64, 0u64, 0u64],
{
    Uint256 { limbs: ethers::types::U256::from(0).0 }
}

/// Calls `to_string` of `ethers::types::U256`, that is its `Display`, on the
/// integer with the given words. Trusted: the result is the decimal notation
/// of the integer, `"0"` for zero and otherwise its digits from the most
/// significant down, without sign, padding or leading zero.
#[verifier::external_body]
fn u256_to_string(value: &Uint256) -> (text: String)
    ensures
        text@ == decimal(value@),
{
    ethers::types::U256(value.limbs).to_string()
}

impl Uint256 {
    /// The integer zero.
    pub fn zero() -> (value: Uint256)
        ensures
            value@ == 0,
            forall|i: int| 0 <= i < 4 ==> value.limbs@[i] == 0,
    {
        u256_zero()
    }

    /// The decimal notation of the integer.
    pub fn to_decimal(&self) -> (text: String)
        ensures
            text@ == decimal(self@),
    {
        u256_to_string(self)
    }

    /// A 256-bit integer is below two to the power 256.
    pub proof fn lemma_view_bound(self)
        ensures
            self@ < word_base() * word_base() * word_base() * word_base(),
    {
    }

    /// Two 256-bit integers that denote the same number have the same words.
    pub proof fn lemma_view_injective(self, other: Uint256)
        requires
            self@ == other@,
        ensures
            self.limbs@ == other.limbs@,
            self == other,
    {
        assert(self.limbs@[0] == other.limbs@[0]);
        assert(self.limbs@[1] == other.limbs@[1]);
        assert(self.limbs@[2] == other.limbs@[2]);
        assert(self.limbs@[3] == other.limbs@[3]);
        assert(self.limbs =~= other.limbs);
    }
}

} // verus!
