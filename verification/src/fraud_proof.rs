//! Fraud proofs: challenges against receipts in the block tree, and against
//! operators that signed two bundles at one slot.

use crate::bundle::SealedBundleHeader;
use crate::codec::{byte_string, le_bytes, put_byte_string, put_le};
use crate::hashing::{hash_bytes, hash_of, signature_verifies, sr25519_verifies};
use crate::primitives::{DomainId, OperatorId, OperatorPublicKey, SlotNumber, H256};
use vstd::prelude::*;

verus! {

/// A proof against a receipt in the block tree.
#[derive(Clone, Debug, PartialEq, Eq)]
pub struct BadReceiptProof {
    pub domain_id: DomainId,
    /// The hash of the receipt that the proof is against.
    pub bad_receipt_hash: H256,
    /// What proves the receipt wrong.
    pub proof: Vec<u8>,
}

/// Two bundle headers that an operator signed at one slot.
#[derive(Clone, Debug, PartialEq, Eq)]
pub struct BundleEquivocationProof {
    pub domain_id: DomainId,
    pub slot: SlotNumber,
    pub first_header: SealedBundleHeader,
    pub second_header: SealedBundleHeader,
}

/// A fraud proof.
#[derive(Clone, Debug, PartialEq, Eq)]
pub enum FraudProof {
    /// The block fees of the receipt are wrong.
    InvalidBlockFees(BadReceiptProof),
    /// The transfers of the receipt are wrong.
    InvalidTransfers(BadReceiptProof),
    /// The domain block hash of the receipt is wrong.
    InvalidDomainBlockHash(BadReceiptProof),
    /// The extrinsics root of the receipt is wrong.
    InvalidExtrinsicsRoot(BadReceiptProof),
    /// A state root in the execution trace of the receipt is wrong.
    InvalidStateTransition(BadReceiptProof),
    /// What the receipt holds of one of its bundles is wrong.
    InvalidBundles(BadReceiptProof),
    /// A bundle that the receipt holds invalid is valid.
    ValidBundle(BadReceiptProof),
    /// An operator signed two bundle headers at one slot.
    BundleEquivocation(BundleEquivocationProof),
    /// A proof of a kind that is not taken, against a receipt or against nothing.
    Other { domain_id: DomainId, bad_receipt_hash: Option<H256>, proof: Vec<u8> },
}

/// What a fraud proof provides to the transaction pool: the pool takes one proof
/// for each tag at a time.
#[derive(Clone, Copy, Debug, PartialEq, Eq, Structural)]
pub enum FraudProofTag {
    /// A proof against a receipt of the domain.
    BadER(DomainId),
    /// A proof of an equivocation of the operator.
    BundleEquivocation(OperatorId),
}

impl FraudProofTag {
    /// The bytes that stand for the tag: one byte for its kind, then the identifier
    /// in little-endian form.
    pub open spec fn encoding(self) -> Seq<u8> {
        match self {
            FraudProofTag::BadER(domain_id) => seq![0u8] + le_bytes(domain_id as nat, 4),
            FraudProofTag::BundleEquivocation(operator_id) => seq![1u8] + le_bytes(
                operator_id as nat,
                8,
            ),
        }
    }

    /// Appends the bytes that stand for the tag.
    pub fn encode_to(&self, out: &mut Vec<u8>)
        ensures
            final(out)@ == old(out)@ + self.encoding(),
    {
        match self {
            FraudProofTag::BadER(domain_id) => {
                out.push(0u8);
                put_le(out, *domain_id as u128, 4);
            },
            FraudProofTag::BundleEquivocation(operator_id) => {
                out.push(1u8);
                put_le(out, *operator_id as u128, 8);
            },
        }
        assert(out@ =~= old(out)@ + self.encoding());
    }
}

impl BadReceiptProof {
    /// The bytes that stand for the proof.
    pub open spec fn encoding(self) -> Seq<u8> {
        le_bytes(self.domain_id as nat, 4) + self.bad_receipt_hash.bytes() + byte_string(
            self.proof@,
        )
    }

    fn encode_to(&self, out: &mut Vec<u8>)
        requires
            self.proof@.len() <= u32::MAX,
        ensures
            final(out)@ == old(out)@ + self.encoding(),
    {
        put_le(out, self.domain_id as u128, 4);
        self.bad_receipt_hash.put(out);
        put_byte_string(out, &self.proof);
        assert(out@ =~= old(out)@ + self.encoding());
    }
}

impl BundleEquivocationProof {
    /// The bytes that stand for the proof.
    pub open spec fn encoding(self) -> Seq<u8> {
        le_bytes(self.domain_id as nat, 4) + le_bytes(self.slot as nat, 8)
            + self.first_header.encoding() + self.second_header.encoding()
    }

    /// Whether the proof can be encoded.
    pub open spec fn encodable(self) -> bool {
        &&& self.first_header.header.encodable()
        &&& self.second_header.header.encodable()
        &&& self.first_header.signature@.len() <= u32::MAX
        &&& self.second_header.signature@.len() <= u32::MAX
    }

    fn encode_to(&self, out: &mut Vec<u8>)
        requires
            self.encodable(),
        ensures
            final(out)@ == old(out)@ + self.encoding(),
    {
        put_le(out, self.domain_id as u128, 4);
        put_le(out, self.slot as u128, 8);
        let ghost numbers = le_bytes(self.domain_id as nat, 4) + le_bytes(self.slot as nat, 8);
        assert(out@ =~= old(out)@ + numbers);
        self.first_header.encode_to(out);
        let ghost first = self.first_header.encoding();
        assert(out@ =~= old(out)@ + (numbers + first));
        self.second_header.encode_to(out);
        assert(out@ =~= old(out)@ + (numbers + first + self.second_header.encoding()));
    }

    /// The operator that the proof is against: the one that the first header names.
    pub fn operator_id(&self) -> (operator_id: OperatorId)
        ensures
            operator_id == self.first_header.header.proof_of_election.operator_id,
    {
        self.first_header.header.proof_of_election.operator_id
    }

    /// Whether the two headers prove an equivocation of the operator with the key
    /// `signing_key`: both name the same operator and domain, both are for the slot
    /// of the proof, they are not the same header, and the operator signed both.
    pub open spec fn proves_equivocation(self, signing_key: OperatorPublicKey) -> bool {
        let first = self.first_header.header.proof_of_election;
        let second = self.second_header.header.proof_of_election;
        &&& first.operator_id == second.operator_id
        &&& first.domain_id == second.domain_id
        &&& first.slot_number == self.slot
        &&& second.slot_number == self.slot
        &&& self.first_header.spec_pre_hash() != self.second_header.spec_pre_hash()
        &&& sr25519_verifies(
            self.first_header.signature@,
            self.first_header.spec_pre_hash().bytes(),
            signing_key.bytes(),
        )
        &&& sr25519_verifies(
            self.second_header.signature@,
            self.second_header.spec_pre_hash().bytes(),
            signing_key.bytes(),
        )
    }

    /// Whether the two headers prove an equivocation of the operator with the key
    /// `signing_key`.
    pub fn verify_bundle_equivocation_fraud_proof(&self, signing_key: &OperatorPublicKey) -> (r:
        bool)
        requires
            self.encodable(),
        ensures
            r == self.proves_equivocation(*signing_key),
    {
        let first = &self.first_header.header.proof_of_election;
        let second = &self.second_header.header.proof_of_election;
        if first.operator_id != second.operator_id || first.domain_id != second.domain_id {
            return false;
        }
        if first.slot_number != self.slot || second.slot_number != self.slot {
            return false;
        }
        let first_hash = self.first_header.pre_hash();
        let second_hash = self.second_header.pre_hash();
        if first_hash.same_hash(&second_hash) {
            return false;
        }
        signature_verifies(&self.first_header.signature, &first_hash, signing_key)
            && signature_verifies(&self.second_header.signature, &second_hash, signing_key)
    }
}

impl FraudProof {
    /// The domain that the proof is for.
    pub open spec fn spec_domain_id(self) -> DomainId {
        match self {
            FraudProof::InvalidBlockFees(p) => p.domain_id,
            FraudProof::InvalidTransfers(p) => p.domain_id,
            FraudProof::InvalidDomainBlockHash(p) => p.domain_id,
            FraudProof::InvalidExtrinsicsRoot(p) => p.domain_id,
            FraudProof::InvalidStateTransition(p) => p.domain_id,
            FraudProof::InvalidBundles(p) => p.domain_id,
            FraudProof::ValidBundle(p) => p.domain_id,
            FraudProof::BundleEquivocation(p) => p.domain_id,
            FraudProof::Other { domain_id, .. } => domain_id,
        }
    }

    /// The hash of the receipt that the proof is against, if it is against one.
    pub open spec fn spec_targeted_bad_receipt_hash(self) -> Option<H256> {
        match self {
            FraudProof::InvalidBlockFees(p) => Some(p.bad_receipt_hash),
            FraudProof::InvalidTransfers(p) => Some(p.bad_receipt_hash),
            FraudProof::InvalidDomainBlockHash(p) => Some(p.bad_receipt_hash),
            FraudProof::InvalidExtrinsicsRoot(p) => Some(p.bad_receipt_hash),
            FraudProof::InvalidStateTransition(p) => Some(p.bad_receipt_hash),
            FraudProof::InvalidBundles(p) => Some(p.bad_receipt_hash),
            FraudProof::ValidBundle(p) => Some(p.bad_receipt_hash),
            FraudProof::BundleEquivocation(_) => None,
            FraudProof::Other { bad_receipt_hash, .. } => bad_receipt_hash,
        }
    }

    /// The operator and the slot that the proof is against, if it is a proof of an
    /// equivocation.
    pub open spec fn spec_targeted_bad_operator_and_slot(self) -> Option<(OperatorId, SlotNumber)> {
        match self {
            FraudProof::BundleEquivocation(p) => Some(
                (p.first_header.header.proof_of_election.operator_id, p.slot),
            ),
            _ => None,
        }
    }

    /// Whether checking the proof needs the receipt of the parent block.
    pub open spec fn spec_needs_parent_receipt(self) -> bool {
        self is InvalidDomainBlockHash || self is InvalidStateTransition || self is InvalidBundles
    }

    /// The domain that the proof is for.
    pub fn domain_id(&self) -> (domain_id: DomainId)
        ensures
            domain_id == self.spec_domain_id(),
    {
        match self {
            FraudProof::InvalidBlockFees(p) => p.domain_id,
            FraudProof::InvalidTransfers(p) => p.domain_id,
            FraudProof::InvalidDomainBlockHash(p) => p.domain_id,
            FraudProof::InvalidExtrinsicsRoot(p) => p.domain_id,
            FraudProof::InvalidStateTransition(p) => p.domain_id,
            FraudProof::InvalidBundles(p) => p.domain_id,
            FraudProof::ValidBundle(p) => p.domain_id,
            FraudProof::BundleEquivocation(p) => p.domain_id,
            FraudProof::Other { domain_id, .. } => *domain_id,
        }
    }

    /// The hash of the receipt that the proof is against, if it is against one.
    pub fn targeted_bad_receipt_hash(&self) -> (hash: Option<H256>)
        ensures
            hash == self.spec_targeted_bad_receipt_hash(),
    {
        match self {
            FraudProof::InvalidBlockFees(p) => Some(p.bad_receipt_hash),
            FraudProof::InvalidTransfers(p) => Some(p.bad_receipt_hash),
            FraudProof::InvalidDomainBlockHash(p) => Some(p.bad_receipt_hash),
            FraudProof::InvalidExtrinsicsRoot(p) => Some(p.bad_receipt_hash),
            FraudProof::InvalidStateTransition(p) => Some(p.bad_receipt_hash),
            FraudProof::InvalidBundles(p) => Some(p.bad_receipt_hash),
            FraudProof::ValidBundle(p) => Some(p.bad_receipt_hash),
            FraudProof::BundleEquivocation(_) => None,
            FraudProof::Other { bad_receipt_hash, .. } => *bad_receipt_hash,
        }
    }

    /// The operator and the slot that the proof is against, if it is a proof of an
    /// equivocation.
    pub fn targeted_bad_operator_and_slot_for_bundle_equivocation(&self) -> (target: Option<
        (OperatorId, SlotNumber),
    >)
        ensures
            target == self.spec_targeted_bad_operator_and_slot(),
    {
        match self {
            FraudProof::BundleEquivocation(p) => Some((p.operator_id(), p.slot)),
            _ => None,
        }
    }

    /// Whether checking the proof needs the receipt of the parent block.
    pub fn needs_parent_receipt(&self) -> (r: bool)
        ensures
            r == self.spec_needs_parent_receipt(),
    {
        match self {
            FraudProof::InvalidDomainBlockHash(_) => true,
            FraudProof::InvalidStateTransition(_) => true,
            FraudProof::InvalidBundles(_) => true,
            _ => false,
        }
    }

    /// The number of the kind of the proof.
    pub open spec fn kind_index(self) -> u8 {
        match self {
            FraudProof::InvalidBlockFees(_) => 0,
            FraudProof::InvalidTransfers(_) => 1,
            FraudProof::InvalidDomainBlockHash(_) => 2,
            FraudProof::InvalidExtrinsicsRoot(_) => 3,
            FraudProof::InvalidStateTransition(_) => 4,
            FraudProof::InvalidBundles(_) => 5,
            FraudProof::ValidBundle(_) => 6,
            FraudProof::BundleEquivocation(_) => 7,
            FraudProof::Other { .. } => 8,
        }
    }

    /// The bytes that stand for what the proof holds, without its kind.
    pub open spec fn body_encoding(self) -> Seq<u8> {
        match self {
            FraudProof::InvalidBlockFees(p) => p.encoding(),
            FraudProof::InvalidTransfers(p) => p.encoding(),
            FraudProof::InvalidDomainBlockHash(p) => p.encoding(),
            FraudProof::InvalidExtrinsicsRoot(p) => p.encoding(),
            FraudProof::InvalidStateTransition(p) => p.encoding(),
            FraudProof::InvalidBundles(p) => p.encoding(),
            FraudProof::ValidBundle(p) => p.encoding(),
            FraudProof::BundleEquivocation(p) => p.encoding(),
            FraudProof::Other { domain_id, bad_receipt_hash, proof } => le_bytes(
                domain_id as nat,
                4,
            ) + (match bad_receipt_hash {
                Some(hash) => seq![1u8] + hash.bytes(),
                None => seq![0u8],
            }) + byte_string(proof@),
        }
    }

    /// The bytes that stand for the proof: one byte for its kind, then what it holds.
    pub open spec fn encoding(self) -> Seq<u8> {
        seq![self.kind_index()] + self.body_encoding()
    }

    /// Whether the proof can be encoded.
    pub open spec fn encodable(self) -> bool {
        match self {
            FraudProof::InvalidBlockFees(p) => p.proof@.len() <= u32::MAX,
            FraudProof::InvalidTransfers(p) => p.proof@.len() <= u32::MAX,
            FraudProof::InvalidDomainBlockHash(p) => p.proof@.len() <= u32::MAX,
            FraudProof::InvalidExtrinsicsRoot(p) => p.proof@.len() <= u32::MAX,
            FraudProof::InvalidStateTransition(p) => p.proof@.len() <= u32::MAX,
            FraudProof::InvalidBundles(p) => p.proof@.len() <= u32::MAX,
            FraudProof::ValidBundle(p) => p.proof@.len() <= u32::MAX,
            FraudProof::BundleEquivocation(p) => p.encodable(),
            FraudProof::Other { proof, .. } => proof@.len() <= u32::MAX,
        }
    }

    /// The hash of the proof.
    pub open spec fn spec_hash(self) -> H256 {
        hash_of(self.encoding())
    }

    /// The hash of the proof.
    pub fn hash(&self) -> (hash: H256)
        requires
            self.encodable(),
        ensures
            hash == self.spec_hash(),
    {
        let mut bytes: Vec<u8> = Vec::new();
        match self {
            FraudProof::InvalidBlockFees(p) => {
                bytes.push(0u8);
                p.encode_to(&mut bytes);
            },
            FraudProof::InvalidTransfers(p) => {
                bytes.push(1u8);
                p.encode_to(&mut bytes);
            },
            FraudProof::InvalidDomainBlockHash(p) => {
                bytes.push(2u8);
                p.encode_to(&mut bytes);
            },
            FraudProof::InvalidExtrinsicsRoot(p) => {
                bytes.push(3u8);
                p.encode_to(&mut bytes);
            },
            FraudProof::InvalidStateTransition(p) => {
                bytes.push(4u8);
                p.encode_to(&mut bytes);
            },
            FraudProof::InvalidBundles(p) => {
                bytes.push(5u8);
                p.encode_to(&mut bytes);
            },
            FraudProof::ValidBundle(p) => {
                bytes.push(6u8);
                p.encode_to(&mut bytes);
            },
            FraudProof::BundleEquivocation(p) => {
                bytes.push(7u8);
                p.encode_to(&mut bytes);
            },
            FraudProof::Other { domain_id, bad_receipt_hash, proof } => {
                bytes.push(8u8);
                put_le(&mut bytes, *domain_id as u128, 4);
                match bad_receipt_hash {
                    Some(hash) => {
                        bytes.push(1u8);
                        hash.put(&mut bytes);
                    },
                    None => {
                        bytes.push(0u8);
                    },
                }
                put_byte_string(&mut bytes, proof);
            },
        }
        assert(bytes@ =~= self.encoding());
        hash_bytes(&bytes)
    }
}

} // verus!
