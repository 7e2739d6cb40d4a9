//! Bundles: a batch of domain extrinsics under a sealed header that carries a proof
//! of election and an execution receipt.

use crate::codec::{
    byte_string, byte_strings, compact_len, concat, le_bytes, lemma_le_bytes_len,
    put_byte_string, put_compact_len, put_le,
};
use crate::hashing::{hash_bytes, hash_of};
use crate::primitives::{DomainId, OperatorId, SlotNumber, Weight, H256};
use crate::receipt::ExecutionReceipt;
use crate::u256::U256;
use vstd::prelude::*;

verus! {

/// The signature of a verifiable random function.
#[derive(Clone, Debug, PartialEq, Eq)]
pub struct VrfSignature {
    /// The output of the function.
    pub output: H256,
    /// The proof that the output belongs to the input and the key.
    pub proof: Vec<u8>,
}

/// The proof that an operator was elected to produce a bundle at a slot.
#[derive(Clone, Debug, PartialEq, Eq)]
pub struct ProofOfElection {
    pub domain_id: DomainId,
    pub slot_number: SlotNumber,
    /// The proof-of-time output at the slot.
    pub proof_of_time: u128,
    pub vrf_signature: VrfSignature,
    pub operator_id: OperatorId,
    /// The consensus block that the bundle was produced on.
    pub consensus_block_hash: H256,
}

/// The header of a bundle.
#[derive(Clone, Debug, PartialEq, Eq)]
pub struct BundleHeader {
    pub proof_of_election: ProofOfElection,
    pub receipt: ExecutionReceipt,
    /// The weight that the bundle is estimated to take.
    pub estimated_bundle_weight: Weight,
    /// The root over the extrinsics of the bundle.
    pub bundle_extrinsics_root: H256,
}

/// A bundle header with the signature of its author.
#[derive(Clone, Debug, PartialEq, Eq)]
pub struct SealedBundleHeader {
    pub header: BundleHeader,
    pub signature: Vec<u8>,
}

/// A bundle whose extrinsics are byte strings.
#[derive(Clone, Debug, PartialEq, Eq)]
pub struct OpaqueBundle {
    pub sealed_header: SealedBundleHeader,
    pub extrinsics: Vec<Vec<u8>>,
}

/// The number of bytes of the compact form of the length `n`.
pub open spec fn compact_len_size(n: nat) -> nat {
    if n < 0x40 {
        1
    } else if n < 0x4000 {
        2
    } else if n < 0x4000_0000 {
        4
    } else {
        5
    }
}

/// The compact form of a length has the number of bytes that `compact_len_size`
/// gives.
pub proof fn lemma_compact_len_size(n: nat)
    ensures
        compact_len(n).len() == compact_len_size(n),
{
    lemma_le_bytes_len(4 * n, 1);
    lemma_le_bytes_len(4 * n + 1, 2);
    lemma_le_bytes_len(4 * n + 2, 4);
    lemma_le_bytes_len(n, 4);
}

/// The sum of the encoded sizes of the first `k` of `extrinsics`: each extrinsic
/// counts with its bytes and with the bytes of its length in compact form.
pub open spec fn encoded_size(extrinsics: Seq<Seq<u8>>, k: int) -> nat
    decreases k,
{
    if k <= 0 {
        0
    } else {
        encoded_size(extrinsics, k - 1) + compact_len_size(extrinsics[k - 1].len())
            + extrinsics[k - 1].len()
    }
}

impl ProofOfElection {
    /// The bytes that stand for the proof: its fields in the order in which they are
    /// declared.
    pub open spec fn encoding(self) -> Seq<u8> {
        le_bytes(self.domain_id as nat, 4) + le_bytes(self.slot_number as nat, 8) + le_bytes(
            self.proof_of_time as nat,
            16,
        ) + self.vrf_signature.output.bytes() + byte_string(self.vrf_signature.proof@) + le_bytes(
            self.operator_id as nat,
            8,
        ) + self.consensus_block_hash.bytes()
    }

    /// Appends the bytes that stand for the proof.
    pub fn encode_to(&self, out: &mut Vec<u8>)
        requires
            self.vrf_signature.proof@.len() <= u32::MAX,
        ensures
            final(out)@ == old(out)@ + self.encoding(),
    {
        put_le(out, self.domain_id as u128, 4);
        put_le(out, self.slot_number as u128, 8);
        put_le(out, self.proof_of_time, 16);
        self.vrf_signature.output.put(out);
        put_byte_string(out, &self.vrf_signature.proof);
        put_le(out, self.operator_id as u128, 8);
        self.consensus_block_hash.put(out);
        assert(out@ =~= old(out)@ + self.encoding());
    }

    /// The output of the random function as a number: its first 16 bytes, least
    /// significant first.
    pub open spec fn spec_vrf_output(self) -> u128 {
        (self.vrf_signature.output.w0 + self.vrf_signature.output.w1 * 0x1_0000_0000_0000_0000) as u128
    }

    /// The output of the random function as a number.
    pub fn vrf_output(&self) -> (output: u128)
        ensures
            output == self.spec_vrf_output(),
    {
        (self.vrf_signature.output.w0 as u128) + (self.vrf_signature.output.w1 as u128)
            * 0x1_0000_0000_0000_0000
    }
}

impl BundleHeader {
    /// The bytes that stand for the header: the proof of election, the receipt, the
    /// two parts of the estimated weight, and the root over the extrinsics.
    pub open spec fn encoding(self) -> Seq<u8> {
        self.proof_of_election.encoding() + self.receipt.encoding() + le_bytes(
            self.estimated_bundle_weight.ref_time as nat,
            8,
        ) + le_bytes(self.estimated_bundle_weight.proof_size as nat, 8)
            + self.bundle_extrinsics_root.bytes()
    }

    /// Whether the lists of the header are short enough for their lengths to be
    /// encoded.
    pub open spec fn encodable(self) -> bool {
        self.proof_of_election.vrf_signature.proof@.len() <= u32::MAX && self.receipt.encodable()
    }

    /// Appends the bytes that stand for the header.
    pub fn encode_to(&self, out: &mut Vec<u8>)
        requires
            self.encodable(),
        ensures
            final(out)@ == old(out)@ + self.encoding(),
    {
        self.proof_of_election.encode_to(out);
        self.receipt.encode_to(out);
        put_le(out, self.estimated_bundle_weight.ref_time as u128, 8);
        put_le(out, self.estimated_bundle_weight.proof_size as u128, 8);
        self.bundle_extrinsics_root.put(out);
        assert(out@ =~= old(out)@ + self.encoding());
    }

    /// The hash of the header.
    pub open spec fn spec_hash(self) -> H256 {
        hash_of(self.encoding())
    }

    /// The hash of the header.
    pub fn hash(&self) -> (hash: H256)
        requires
            self.encodable(),
        ensures
            hash == self.spec_hash(),
    {
        let mut bytes: Vec<u8> = Vec::new();
        self.encode_to(&mut bytes);
        assert(bytes@ =~= self.encoding());
        hash_bytes(&bytes)
    }
}

impl SealedBundleHeader {
    /// The hash that the author signs and that identifies the bundle: the hash of
    /// the header, which does not cover the signature.
    pub open spec fn spec_pre_hash(self) -> H256 {
        self.header.spec_hash()
    }

    /// The hash that the author signs and that identifies the bundle.
    pub fn pre_hash(&self) -> (hash: H256)
        requires
            self.header.encodable(),
        ensures
            hash == self.spec_pre_hash(),
    {
        self.header.hash()
    }

    /// The slot that the bundle was produced at.
    pub fn slot_number(&self) -> (slot: SlotNumber)
        ensures
            slot == self.header.proof_of_election.slot_number,
    {
        self.header.proof_of_election.slot_number
    }

    /// The bytes that stand for the sealed header: the header, then the signature
    /// behind its length.
    pub open spec fn encoding(self) -> Seq<u8> {
        self.header.encoding() + byte_string(self.signature@)
    }

    /// Whether the sealed header can be encoded.
    pub open spec fn encodable(self) -> bool {
        self.header.encodable() && self.signature@.len() <= u32::MAX
    }

    /// Appends the bytes that stand for the sealed header.
    pub fn encode_to(&self, out: &mut Vec<u8>)
        requires
            self.encodable(),
        ensures
            final(out)@ == old(out)@ + self.encoding(),
    {
        self.header.encode_to(out);
        put_byte_string(out, &self.signature);
        assert(out@ =~= old(out)@ + self.encoding());
    }
}

impl OpaqueBundle {
    /// Whether the bundle can be encoded: its lists are short enough for their
    /// lengths to be encoded, and the encoded size of its extrinsics fits in 32 bits.
    pub open spec fn encodable(self) -> bool {
        &&& self.sealed_header.header.encodable()
        &&& self.sealed_header.signature@.len() <= u32::MAX
        &&& self.extrinsics@.len() <= u32::MAX
        &&& forall|i: int|
            0 <= i < self.extrinsics@.len() ==> (#[trigger] self.extrinsics@[i])@.len() <= u32::MAX
        &&& encoded_size(self.extrinsics.deep_view(), self.extrinsics@.len() as int) <= u32::MAX
    }

    /// The bytes that stand for the bundle: the sealed header, then the extrinsics.
    pub open spec fn encoding(self) -> Seq<u8> {
        self.sealed_header.encoding() + byte_strings(self.extrinsics.deep_view())
    }

    /// The hash of the whole bundle, signature and extrinsics included.
    pub open spec fn spec_hash(self) -> H256 {
        hash_of(self.encoding())
    }

    /// The domain that the bundle is for.
    pub fn domain_id(&self) -> (domain_id: DomainId)
        ensures
            domain_id == self.sealed_header.header.proof_of_election.domain_id,
    {
        self.sealed_header.header.proof_of_election.domain_id
    }

    /// The operator that produced the bundle.
    pub fn operator_id(&self) -> (operator_id: OperatorId)
        ensures
            operator_id == self.sealed_header.header.proof_of_election.operator_id,
    {
        self.sealed_header.header.proof_of_election.operator_id
    }

    /// The root over the extrinsics that the header names.
    pub fn extrinsics_root(&self) -> (root: H256)
        ensures
            root == self.sealed_header.header.bundle_extrinsics_root,
    {
        self.sealed_header.header.bundle_extrinsics_root
    }

    /// The weight that the bundle is estimated to take.
    pub fn estimated_weight(&self) -> (weight: Weight)
        ensures
            weight == self.sealed_header.header.estimated_bundle_weight,
    {
        self.sealed_header.header.estimated_bundle_weight
    }

    /// The receipt of the bundle.
    pub fn receipt(&self) -> (receipt: &ExecutionReceipt)
        ensures
            *receipt == self.sealed_header.header.receipt,
    {
        &self.sealed_header.header.receipt
    }

    /// Hands the receipt of the bundle out.
    pub fn into_receipt(self) -> (receipt: ExecutionReceipt)
        ensures
            receipt == self.sealed_header.header.receipt,
    {
        self.sealed_header.header.receipt
    }

    /// The encoded size of the extrinsics in bytes: the measure that the limit on
    /// the size of a bundle is held against.
    pub open spec fn spec_body_size(self) -> nat {
        encoded_size(self.extrinsics.deep_view(), self.extrinsics@.len() as int)
    }

    /// The encoded size of the whole bundle in bytes, held at the largest 32-bit
    /// number: the measure that the inbox keeps and that the storage fee is charged
    /// for.
    pub open spec fn spec_size(self) -> u32 {
        if self.encoding().len() > u32::MAX {
            u32::MAX
        } else {
            self.encoding().len() as u32
        }
    }

    /// The encoded size of the extrinsics in bytes.
    pub fn body_size(&self) -> (size: u32)
        requires
            self.encodable(),
        ensures
            size == self.spec_body_size(),
    {
        let mut total: u32 = 0;
        let mut i: usize = 0;
        let ghost all = self.extrinsics.deep_view();
        while i < self.extrinsics.len()
            invariant
                i <= self.extrinsics@.len(),
                all == self.extrinsics.deep_view(),
                total == encoded_size(all, i as int),
                encoded_size(all, self.extrinsics@.len() as int) <= u32::MAX,
                forall|j: int|
                    0 <= j < self.extrinsics@.len() ==> (#[trigger] self.extrinsics@[j])@.len()
                        <= u32::MAX,
            decreases self.extrinsics@.len() - i,
        {
            let len = self.extrinsics[i].len();
            let prefix: u32 = if len < 0x40 {
                1
            } else if len < 0x4000 {
                2
            } else if len < 0x4000_0000 {
                4
            } else {
                5
            };
            proof {
                assert(all[i as int] =~= self.extrinsics@[i as int]@);
                lemma_encoded_size_monotonic(all, i + 1, self.extrinsics@.len() as int);
            }
            total = total + prefix + (len as u32);
            i = i + 1;
        }
        total
    }

    /// The bytes that stand for the bundle.
    pub fn encode(&self) -> (bytes: Vec<u8>)
        requires
            self.encodable(),
        ensures
            bytes@ == self.encoding(),
    {
        let mut bytes: Vec<u8> = Vec::new();
        self.sealed_header.header.encode_to(&mut bytes);
        put_byte_string(&mut bytes, &self.sealed_header.signature);
        assert(bytes@ =~= self.sealed_header.encoding());
        put_compact_len(&mut bytes, self.extrinsics.len() as u32);
        let ghost before = bytes@;
        let ghost all = self.extrinsics.deep_view();
        let ghost items = all.map_values(|item: Seq<u8>| byte_string(item));
        let mut i: usize = 0;
        assert(before + concat(items.take(0)) =~= before);
        while i < self.extrinsics.len()
            invariant
                i <= self.extrinsics@.len(),
                all == self.extrinsics.deep_view(),
                items == all.map_values(|item: Seq<u8>| byte_string(item)),
                bytes@ == before + concat(items.take(i as int)),
                forall|j: int|
                    0 <= j < self.extrinsics@.len() ==> (#[trigger] self.extrinsics@[j])@.len()
                        <= u32::MAX,
            decreases self.extrinsics@.len() - i,
        {
            put_byte_string(&mut bytes, &self.extrinsics[i]);
            proof {
                assert(all[i as int] =~= self.extrinsics@[i as int]@);
                assert(items.take(i + 1).drop_last() =~= items.take(i as int));
                assert(items.take(i + 1).last() == byte_string(all[i as int]));
                assert(concat(items.take(i + 1)) =~= concat(items.take(i as int)) + byte_string(
                    all[i as int],
                ));
            }
            i = i + 1;
        }
        proof {
            assert(items.take(self.extrinsics@.len() as int) =~= items);
            assert(bytes@ =~= self.encoding());
        }
        bytes
    }

    /// The encoded size of the whole bundle in bytes, held at the largest 32-bit
    /// number.
    pub fn size(&self) -> (size: u32)
        requires
            self.encodable(),
        ensures
            size == self.spec_size(),
    {
        let bytes = self.encode();
        if bytes.len() > u32::MAX as usize {
            u32::MAX
        } else {
            bytes.len() as u32
        }
    }

    /// The hash of the whole bundle, signature and extrinsics included.
    pub fn hash(&self) -> (hash: H256)
        requires
            self.encodable(),
        ensures
            hash == self.spec_hash(),
    {
        let bytes = self.encode();
        hash_bytes(&bytes)
    }
}

/// The encoded size of more extrinsics is not smaller.
pub proof fn lemma_encoded_size_monotonic(extrinsics: Seq<Seq<u8>>, k: int, n: int)
    requires
        k <= n,
    ensures
        encoded_size(extrinsics, k) <= encoded_size(extrinsics, n),
    decreases n - k,
{
    if k < n {
        lemma_encoded_size_monotonic(extrinsics, k, n - 1);
    }
}

/// The largest size and weight that a bundle of a domain may have.
#[derive(Clone, Copy, Debug, PartialEq, Eq, Structural)]
pub struct DomainBundleLimit {
    /// The largest encoded size of the extrinsics of a bundle.
    pub max_bundle_size: u32,
    /// The largest estimated weight of a bundle.
    pub max_bundle_weight: Weight,
}

/// The largest size and weight of a block of a domain.
#[derive(Clone, Copy, Debug, PartialEq, Eq, Structural)]
pub struct DomainBlockLimit {
    pub max_block_size: u32,
    pub max_block_weight: Weight,
}

/// The number of bundles that a domain block is expected to hold: the ratio of the
/// probability of a bundle slot to that of a consensus slot, rounded down. There is
/// none where a product does not fit in 64 bits or the divisor is zero.
pub open spec fn expected_bundles_per_block(
    consensus_slot_probability: (u64, u64),
    bundle_slot_probability: (u64, u64),
) -> Option<u64> {
    let numerator = bundle_slot_probability.0 * consensus_slot_probability.1;
    let denominator = bundle_slot_probability.1 * consensus_slot_probability.0;
    if numerator > u64::MAX || denominator > u64::MAX || denominator == 0 {
        None
    } else {
        Some((numerator / denominator) as u64)
    }
}

/// The limit of a bundle of a domain: the limits of a block shared out among the
/// bundles that a block is expected to hold. The proof size of a bundle may be
/// that of a whole block. There is no limit where no bundle is expected.
pub open spec fn bundle_limit(
    max_block_size: u32,
    max_block_weight: Weight,
    consensus_slot_probability: (u64, u64),
    bundle_slot_probability: (u64, u64),
) -> Option<DomainBundleLimit> {
    match expected_bundles_per_block(consensus_slot_probability, bundle_slot_probability) {
        Some(expected) => if expected == 0 {
            None
        } else {
            Some(
                DomainBundleLimit {
                    max_bundle_size: (max_block_size as int / expected as int) as u32,
                    max_bundle_weight: Weight {
                        ref_time: max_block_weight.ref_time / expected,
                        proof_size: max_block_weight.proof_size,
                    },
                },
            )
        },
        None => None,
    }
}

/// Calculates the limit of a bundle of a domain.
pub fn calculate_max_bundle_weight_and_size(
    max_block_size: u32,
    max_block_weight: Weight,
    consensus_slot_probability: (u64, u64),
    bundle_slot_probability: (u64, u64),
) -> (limit: Option<DomainBundleLimit>)
    ensures
        limit == bundle_limit(
            max_block_size,
            max_block_weight,
            consensus_slot_probability,
            bundle_slot_probability,
        ),
{
    let numerator = match bundle_slot_probability.0.checked_mul(consensus_slot_probability.1) {
        Some(n) => n,
        None => {
            return None;
        },
    };
    let denominator = match bundle_slot_probability.1.checked_mul(consensus_slot_probability.0) {
        Some(d) => d,
        None => {
            return None;
        },
    };
    if denominator == 0 {
        return None;
    }
    let expected: u64 = numerator / denominator;
    if expected == 0 {
        return None;
    }
    let max_bundle_size: u64 = (max_block_size as u64) / expected;
    assert(max_bundle_size == max_block_size as u64 / expected);
    assert(max_block_size as u64 / expected <= max_block_size) by (nonlinear_arith)
        requires
            expected > 0,
    ;
    Some(
        DomainBundleLimit {
            max_bundle_size: max_bundle_size as u32,
            max_bundle_weight: Weight {
                ref_time: max_block_weight.ref_time / expected,
                proof_size: max_block_weight.proof_size,
            },
        },
    )
}

/// The numerator of the election threshold: the largest 128-bit number, divided by
/// the second part of the bundle slot probability and multiplied by the first.
/// There is none where the second part is zero or the product does not fit in 128
/// bits.
pub open spec fn threshold_numerator(bundle_slot_probability: (u64, u64)) -> Option<u128> {
    if bundle_slot_probability.1 == 0 {
        None
    } else {
        let scaled = (u128::MAX / (bundle_slot_probability.1 as u128)) * bundle_slot_probability.0;
        if scaled > u128::MAX {
            None
        } else {
            Some(scaled as u128)
        }
    }
}

/// Whether an operator with `operator_stake` of the `total_domain_stake` is elected
/// by the output `vrf_output`: the output times the stake of the domain is below
/// the stake of the operator times the numerator of the threshold.
pub open spec fn is_elected(
    vrf_output: u128,
    operator_stake: u128,
    total_domain_stake: u128,
    bundle_slot_probability: (u64, u64),
) -> bool {
    match threshold_numerator(bundle_slot_probability) {
        Some(numerator) => vrf_output * total_domain_stake < operator_stake * numerator,
        None => false,
    }
}

/// Checks the election threshold.
pub fn check_threshold(
    vrf_output: u128,
    operator_stake: u128,
    total_domain_stake: u128,
    bundle_slot_probability: (u64, u64),
) -> (elected: bool)
    ensures
        elected == is_elected(
            vrf_output,
            operator_stake,
            total_domain_stake,
            bundle_slot_probability,
        ),
{
    if bundle_slot_probability.1 == 0 {
        return false;
    }
    let per_part: u128 = u128::MAX / (bundle_slot_probability.1 as u128);
    let numerator = match per_part.checked_mul(bundle_slot_probability.0 as u128) {
        Some(n) => n,
        None => {
            return false;
        },
    };
    assert(vrf_output * total_domain_stake <= crate::u256::u256_max()) by (nonlinear_arith)
        requires
            vrf_output <= u128::MAX,
            total_domain_stake <= u128::MAX,
    ;
    assert(operator_stake * numerator <= crate::u256::u256_max()) by (nonlinear_arith)
        requires
            operator_stake <= u128::MAX,
            numerator <= u128::MAX,
    ;
    let left = U256::from_u128(vrf_output).checked_mul(U256::from_u128(total_domain_stake));
    let right = U256::from_u128(operator_stake).checked_mul(U256::from_u128(numerator));
    match (left, right) {
        (Some(l), Some(r)) => l.lt(&r),
        _ => false,
    }
}

} // verus!
