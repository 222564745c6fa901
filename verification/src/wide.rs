use vstd::prelude::*;
use vstd::arithmetic::div_mod::{lemma_mod_multiples_vanish, lemma_small_mod};
use crate::ids::{from_u64_result, id_of};
use crate::{Chain, ParseChainError};

verus! {

/// A 256-bit unsigned integer, as four 64-bit limbs, least significant first.
///
/// Chain ids are specified as unbounded integers, but every assigned id fits
/// in 64 bits; the registry fixes 64 bits as its native width and treats any
/// wider value as out of range rather than wrapping it silently.
#[derive(Clone, Copy, Debug, PartialEq, Eq)]
pub struct U256 {
    pub limbs: [u64; 4],
}

/// A 512-bit unsigned integer, as eight 64-bit limbs, least significant first.
#[derive(Clone, Copy, Debug, PartialEq, Eq)]
pub struct U512 {
    pub limbs: [u64; 8],
}

impl U256 {
    /// The numeric value of the four limbs.
    pub open spec fn as_nat(self) -> nat {
        (((self.limbs[3] * 0x10000000000000000 + self.limbs[2]) * 0x10000000000000000
            + self.limbs[1]) * 0x10000000000000000 + self.limbs[0]) as nat
    }

    /// The low 64 bits of the value.
    pub open spec fn low_u64(self) -> u64 {
        self.limbs[0]
    }

    /// The value as a whole fits in 64 bits exactly when the upper limbs are
    /// all zero, and the lowest limb is the value modulo 2^64.
    proof fn lemma_limbs(self)
        ensures
            self.as_nat() % 0x10000000000000000 == self.low_u64(),
            (self.as_nat() < 0x10000000000000000) <==> (self.limbs[1] == 0 && self.limbs[2]
                == 0 && self.limbs[3] == 0),
    {
        let hi = (self.limbs[3] * 0x10000000000000000 + self.limbs[2]) * 0x10000000000000000
            + self.limbs[1];
        assert(self.as_nat() == 0x10000000000000000 * hi + self.limbs[0]);
        lemma_mod_multiples_vanish(hi, self.limbs[0] as int, 0x10000000000000000);
        lemma_small_mod(self.limbs[0] as nat, 0x10000000000000000);
    }
}

impl U512 {
    /// The numeric value of the eight limbs.
    pub open spec fn as_nat(self) -> nat {
        (((((((self.limbs[7] * 0x10000000000000000 + self.limbs[6]) * 0x10000000000000000
            + self.limbs[5]) * 0x10000000000000000 + self.limbs[4]) * 0x10000000000000000
            + self.limbs[3]) * 0x10000000000000000 + self.limbs[2]) * 0x10000000000000000
            + self.limbs[1]) * 0x10000000000000000 + self.limbs[0]) as nat
    }

    /// The low 64 bits of the value.
    pub open spec fn low_u64(self) -> u64 {
        self.limbs[0]
    }

    /// The value as a whole fits in 64 bits exactly when the upper limbs are
    /// all zero, and the lowest limb is the value modulo 2^64.
    proof fn lemma_limbs(self)
        ensures
            self.as_nat() % 0x10000000000000000 == self.low_u64(),
            (self.as_nat() < 0x10000000000000000) <==> (self.limbs[1] == 0 && self.limbs[2]
                == 0 && self.limbs[3] == 0 && self.limbs[4] == 0 && self.limbs[5] == 0
                && self.limbs[6] == 0 && self.limbs[7] == 0),
    {
        let hi = ((((((self.limbs[7] * 0x10000000000000000 + self.limbs[6])
            * 0x10000000000000000 + self.limbs[5]) * 0x10000000000000000 + self.limbs[4])
            * 0x10000000000000000 + self.limbs[3]) * 0x10000000000000000 + self.limbs[2])
            * 0x10000000000000000 + self.limbs[1]);
        assert(self.as_nat() == 0x10000000000000000 * hi + self.limbs[0]);
        lemma_mod_multiples_vanish(hi, self.limbs[0] as int, 0x10000000000000000);
        lemma_small_mod(self.limbs[0] as nat, 0x10000000000000000);
    }
}

/// The low 64 bits of a 128-bit value.
pub open spec fn low_u64_of_u128(v: u128) -> u64 {
    (v % 0x10000000000000000) as u64
}

impl Chain {
    /// The chain's numeric id widened to 128 bits.
    pub fn to_u128(&self) -> (r: u128)
        ensures
            r == id_of(*self),
    {
        self.to_u64() as u128
    }

    /// The chain's numeric id widened to 256 bits.
    pub fn to_u256(&self) -> (r: U256)
        ensures
            r.as_nat() == id_of(*self),
    {
        U256 { limbs: [self.to_u64(), 0, 0, 0] }
    }

    /// The chain's numeric id widened to 512 bits.
    pub fn to_u512(&self) -> (r: U512)
        ensures
            r.as_nat() == id_of(*self),
    {
        U512 { limbs: [self.to_u64(), 0, 0, 0, 0, 0, 0, 0] }
    }

    /// Looks a chain up by a 128-bit id. A value wider than 64 bits is out of
    /// range and fails at once, reporting its low 64 bits: the error can only
    /// carry a 64-bit number, so the overflow case picks that deterministic
    /// truncation rather than wrapping silently.
    pub fn from_u128(value: u128) -> (r: Result<Chain, ParseChainError>)
        ensures
            value < 0x10000000000000000 ==> r == from_u64_result(value as u64),
            value >= 0x10000000000000000 ==> r == Err::<Chain, ParseChainError>(
                ParseChainError::UnknownChainId(low_u64_of_u128(value)),
            ),
    {
        if value > u64::MAX as u128 {
            let low: u64 = (value % 0x10000000000000000u128) as u64;
            Err(ParseChainError::UnknownChainId(low))
        } else {
            Self::from_u64(value as u64)
        }
    }

    /// Looks a chain up by a 256-bit id; values wider than 64 bits fail at
    /// once, reporting their low 64 bits.
    pub fn from_u256(value: U256) -> (r: Result<Chain, ParseChainError>)
        ensures
            value.low_u64() == value.as_nat() % 0x10000000000000000,
            value.as_nat() < 0x10000000000000000 ==> r == from_u64_result(value.low_u64()),
            value.as_nat() >= 0x10000000000000000 ==> r == Err::<Chain, ParseChainError>(
                ParseChainError::UnknownChainId(value.low_u64()),
            ),
    {
        proof {
            value.lemma_limbs();
        }
        if value.limbs[1] != 0 || value.limbs[2] != 0 || value.limbs[3] != 0 {
            Err(ParseChainError::UnknownChainId(value.limbs[0]))
        } else {
            Self::from_u64(value.limbs[0])
        }
    }

    /// Looks a chain up by a 512-bit id; values wider than 64 bits fail at
    /// once, reporting their low 64 bits.
    pub fn from_u512(value: U512) -> (r: Result<Chain, ParseChainError>)
        ensures
            value.low_u64() == value.as_nat() % 0x10000000000000000,
            value.as_nat() < 0x10000000000000000 ==> r == from_u64_result(value.low_u64()),
            value.as_nat() >= 0x10000000000000000 ==> r == Err::<Chain, ParseChainError>(
                ParseChainError::UnknownChainId(value.low_u64()),
            ),
    {
        proof {
            value.lemma_limbs();
        }
        if value.limbs[1] != 0 || value.limbs[2] != 0 || value.limbs[3] != 0 || value.limbs[4]
            != 0 || value.limbs[5] != 0 || value.limbs[6] != 0 || value.limbs[7] != 0 {
            Err(ParseChainError::UnknownChainId(value.limbs[0]))
        } else {
            Self::from_u64(value.limbs[0])
        }
    }
}

} // verus!
