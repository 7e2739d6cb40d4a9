//! Identifiers, hashes and weights.

use crate::codec::{le_bytes, put_le};
use crate::table::TableKey;
use vstd::prelude::*;

verus! {

/// Identifier of a domain.
pub type DomainId = u32;

/// Identifier of an operator.
pub type OperatorId = u64;

/// Identifier of a domain runtime.
pub type RuntimeId = u32;

/// Index of a staking epoch of a domain.
pub type EpochIndex = u32;

/// Number of a block of the consensus chain.
pub type BlockNumber = u32;

/// Number of a block of a domain.
pub type DomainBlockNumber = u32;

/// An amount of the currency.
pub type Balance = u128;

/// A number of shares of an operator's pool.
pub type Share = u128;

/// Number of a slot of the consensus chain.
pub type SlotNumber = u64;

/// The 64-bit word that eight bytes of `bytes` stand for, from place `at` on, least
/// significant byte first.
pub open spec fn word_at(bytes: Seq<u8>, at: int) -> u64 {
    ((bytes[at] as nat) + (bytes[at + 1] as nat) * 0x100 + (bytes[at + 2] as nat) * 0x1_0000 + (
    bytes[at + 3] as nat) * 0x100_0000 + (bytes[at + 4] as nat) * 0x1_0000_0000 + (bytes[at
        + 5] as nat) * 0x100_0000_0000 + (bytes[at + 6] as nat) * 0x1_0000_0000_0000 + (bytes[at
        + 7] as nat) * 0x100_0000_0000_0000) as u64
}

/// A 256-bit hash, held as four 64-bit words. The first eight bytes of the hash
/// are `w0`, least significant byte first.
#[derive(Clone, Copy, Debug, PartialEq, Eq, Structural, Hash)]
pub struct H256 {
    pub w0: u64,
    pub w1: u64,
    pub w2: u64,
    pub w3: u64,
}

/// Identifier of an account.
pub type AccountId = H256;

/// The public key that an operator signs with.
pub type OperatorPublicKey = H256;

impl TableKey for H256 {
    fn same(&self, other: &Self) -> (r: bool) {
        self.w0 == other.w0 && self.w1 == other.w1 && self.w2 == other.w2 && self.w3 == other.w3
    }
}

impl H256 {
    /// The hash whose 32 bytes are `bytes`.
    pub open spec fn of_bytes(bytes: Seq<u8>) -> H256 {
        H256 {
            w0: word_at(bytes, 0),
            w1: word_at(bytes, 8),
            w2: word_at(bytes, 16),
            w3: word_at(bytes, 24),
        }
    }

    /// The 32 bytes of the hash.
    pub open spec fn bytes(self) -> Seq<u8> {
        le_bytes(self.w0 as nat, 8) + le_bytes(self.w1 as nat, 8) + le_bytes(self.w2 as nat, 8)
            + le_bytes(self.w3 as nat, 8)
    }

    /// The hash of all zero bytes.
    pub fn zero() -> (hash: H256)
        ensures
            hash == (H256 { w0: 0, w1: 0, w2: 0, w3: 0 }),
    {
        H256 { w0: 0, w1: 0, w2: 0, w3: 0 }
    }

    /// The hash whose first eight bytes hold `value` and whose other bytes are zero.
    pub fn from_low_u64(value: u64) -> (hash: H256)
        ensures
            hash == (H256 { w0: value, w1: 0, w2: 0, w3: 0 }),
    {
        H256 { w0: value, w1: 0, w2: 0, w3: 0 }
    }

    /// Whether the two hashes are the same.
    pub fn same_hash(&self, other: &H256) -> (r: bool)
        ensures
            r == (*self == *other),
    {
        self.w0 == other.w0 && self.w1 == other.w1 && self.w2 == other.w2 && self.w3 == other.w3
    }

    /// Whether every byte of the hash is zero.
    pub fn is_zero(&self) -> (r: bool)
        ensures
            r == (*self == (H256 { w0: 0, w1: 0, w2: 0, w3: 0 })),
    {
        self.w0 == 0 && self.w1 == 0 && self.w2 == 0 && self.w3 == 0
    }

    /// The hash whose 32 bytes are `bytes`.
    pub fn from_bytes(bytes: &[u8; 32]) -> (hash: H256)
        ensures
            hash == H256::of_bytes(bytes@),
    {
        H256 {
            w0: read_word(bytes, 0),
            w1: read_word(bytes, 8),
            w2: read_word(bytes, 16),
            w3: read_word(bytes, 24),
        }
    }

    /// Appends the 32 bytes of the hash.
    pub fn put(&self, out: &mut Vec<u8>)
        ensures
            final(out)@ == old(out)@ + self.bytes(),
    {
        put_le(out, self.w0 as u128, 8);
        put_le(out, self.w1 as u128, 8);
        put_le(out, self.w2 as u128, 8);
        put_le(out, self.w3 as u128, 8);
    }

    /// The 32 bytes of the hash.
    pub fn to_bytes(&self) -> (bytes: Vec<u8>)
        ensures
            bytes@ == self.bytes(),
    {
        let mut bytes: Vec<u8> = Vec::new();
        self.put(&mut bytes);
        bytes
    }
}

/// Reads the 64-bit word at place `at`, least significant byte first.
fn read_word(bytes: &[u8; 32], at: usize) -> (word: u64)
    requires
        at + 8 <= 32,
    ensures
        word == word_at(bytes@, at as int),
{
    (bytes[at] as u64) + (bytes[at + 1] as u64) * 0x100 + (bytes[at + 2] as u64) * 0x1_0000 + (
    bytes[at + 3] as u64) * 0x100_0000 + (bytes[at + 4] as u64) * 0x1_0000_0000 + (bytes[at
        + 5] as u64) * 0x100_0000_0000 + (bytes[at + 6] as u64) * 0x1_0000_0000_0000 + (bytes[at
        + 7] as u64) * 0x100_0000_0000_0000
}

/// Computation time and proof size that an operation consumes.
#[derive(Clone, Copy, Debug, PartialEq, Eq, Structural)]
pub struct Weight {
    /// Computation time on reference hardware.
    pub ref_time: u64,
    /// Storage space used by a proof of validity.
    pub proof_size: u64,
}

/// The sum of two 64-bit numbers, held at the largest 64-bit number.
pub open spec fn saturating_sum(a: u64, b: u64) -> u64 {
    if a + b > u64::MAX {
        u64::MAX
    } else {
        (a + b) as u64
    }
}

impl Weight {
    /// The sum of each part, held at the largest value.
    pub open spec fn spec_saturating_add(self, other: Weight) -> Weight {
        Weight {
            ref_time: saturating_sum(self.ref_time, other.ref_time),
            proof_size: saturating_sum(self.proof_size, other.proof_size),
        }
    }

    /// The smaller of each part.
    pub open spec fn spec_min(self, other: Weight) -> Weight {
        Weight {
            ref_time: if self.ref_time <= other.ref_time {
                self.ref_time
            } else {
                other.ref_time
            },
            proof_size: if self.proof_size <= other.proof_size {
                self.proof_size
            } else {
                other.proof_size
            },
        }
    }

    /// The larger of each part.
    pub open spec fn spec_max(self, other: Weight) -> Weight {
        Weight {
            ref_time: if self.ref_time >= other.ref_time {
                self.ref_time
            } else {
                other.ref_time
            },
            proof_size: if self.proof_size >= other.proof_size {
                self.proof_size
            } else {
                other.proof_size
            },
        }
    }

    /// Whether each part of `self` is at most that part of `other`.
    pub open spec fn spec_all_lte(self, other: Weight) -> bool {
        self.ref_time <= other.ref_time && self.proof_size <= other.proof_size
    }

    /// A weight of the two parts.
    pub fn from_parts(ref_time: u64, proof_size: u64) -> (weight: Weight)
        ensures
            weight == (Weight { ref_time, proof_size }),
    {
        Weight { ref_time, proof_size }
    }

    /// The weight of nothing.
    pub fn zero() -> (weight: Weight)
        ensures
            weight == (Weight { ref_time: 0, proof_size: 0 }),
    {
        Weight { ref_time: 0, proof_size: 0 }
    }

    /// Adds each part, holding it at the largest value.
    pub fn saturating_add(self, other: Weight) -> (sum: Weight)
        ensures
            sum == self.spec_saturating_add(other),
    {
        Weight {
            ref_time: add_saturating(self.ref_time, other.ref_time),
            proof_size: add_saturating(self.proof_size, other.proof_size),
        }
    }

    /// The smaller of each part.
    pub fn min(self, other: Weight) -> (least: Weight)
        ensures
            least == self.spec_min(other),
    {
        Weight {
            ref_time: if self.ref_time <= other.ref_time {
                self.ref_time
            } else {
                other.ref_time
            },
            proof_size: if self.proof_size <= other.proof_size {
                self.proof_size
            } else {
                other.proof_size
            },
        }
    }

    /// The larger of each part.
    pub fn max(self, other: Weight) -> (most: Weight)
        ensures
            most == self.spec_max(other),
    {
        Weight {
            ref_time: if self.ref_time >= other.ref_time {
                self.ref_time
            } else {
                other.ref_time
            },
            proof_size: if self.proof_size >= other.proof_size {
                self.proof_size
            } else {
                other.proof_size
            },
        }
    }

    /// Whether each part of `self` is at most that part of `other`.
    pub fn all_lte(self, other: Weight) -> (r: bool)
        ensures
            r == self.spec_all_lte(other),
    {
        self.ref_time <= other.ref_time && self.proof_size <= other.proof_size
    }
}

/// The sum of two 64-bit numbers, held at the largest 64-bit number.
pub fn add_saturating(a: u64, b: u64) -> (sum: u64)
    ensures
        sum == saturating_sum(a, b),
{
    if a > u64::MAX - b {
        u64::MAX
    } else {
        a + b
    }
}

} // verus!
