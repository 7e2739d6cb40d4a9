//! The checks that a bundle or a fraud proof passes before it is taken.

use crate::block_tree::ReceiptType;
use crate::bundle::{
    bundle_limit, calculate_max_bundle_weight_and_size, check_threshold, is_elected, OpaqueBundle,
};
use crate::error::{BundleError, FraudProofError};
use crate::fraud_proof::{FraudProof, FraudProofTag};
use crate::hashing::{extrinsics_root, extrinsics_root_of, signature_verifies, sr25519_verifies};
use crate::pallet::{Pallet, PalletView};
use crate::primitives::{Balance, BlockNumber, DomainId, OperatorId, SlotNumber, H256};
use crate::receipt::ExecutionReceipt;
use crate::staking::OperatorStatus;
use vstd::prelude::*;

verus! {

/// The slots of the consensus chain.
pub trait BlockSlot {
    /// The future slot of the block, if one is known.
    fn future_slot(&self, block_number: BlockNumber) -> Option<SlotNumber>;

    /// The latest block whose slot is below `to_check`, if there is one.
    fn slot_produced_after(&self, to_check: SlotNumber) -> Option<BlockNumber>;
}

/// What the consensus chain knows about the slot of a bundle.
#[derive(Clone, Copy, Debug, PartialEq, Eq)]
pub struct SlotInfo {
    /// The future slot of the block that is built, if one is known.
    pub future_slot: Option<SlotNumber>,
    /// The latest block whose slot is below the slot of the bundle, if there is
    /// one.
    pub slot_produced_after: Option<BlockNumber>,
}

/// What was found out about a bundle with the cryptography that lives outside.
#[derive(Clone, Copy, Debug, PartialEq, Eq)]
pub struct ProofChecks {
    /// Whether the proof of time of the bundle is valid for its slot and for the
    /// block that `proof_of_time_block_hash` gives.
    pub proof_of_time_valid: bool,
    /// Whether the signature of the random function in the proof of election is
    /// valid for the key of the operator.
    pub vrf_signature_valid: bool,
}

/// The block that the slot of a bundle was produced after: the one that the chain
/// names, or block zero where it names none and the chain is no longer than a
/// bundle lives.
pub open spec fn produced_after(
    current_block_number: BlockNumber,
    bundle_longevity: u32,
    slots: SlotInfo,
) -> Option<BlockNumber> {
    match slots.slot_produced_after {
        Some(number) => Some(number),
        None => if current_block_number > bundle_longevity {
            None
        } else {
            Some(0u32)
        },
    }
}

/// Why the slot of a bundle is refused, if it is.
///
/// Before dispatch the slot must not be beyond the future slot of the block, where
/// one is known. The block that the slot was produced after must be known and must
/// not be more than `bundle_longevity` blocks behind the block that is built.
pub open spec fn slot_error(
    current_block_number: BlockNumber,
    bundle_longevity: u32,
    slot_number: SlotNumber,
    pre_dispatch: bool,
    slots: SlotInfo,
) -> Option<BundleError> {
    if pre_dispatch && slots.future_slot is Some && slot_number > slots.future_slot.unwrap() {
        Some(BundleError::SlotInTheFuture)
    } else {
        match produced_after(current_block_number, bundle_longevity, slots) {
            None => Some(BundleError::SlotInThePast),
            Some(number) => if current_block_number >= bundle_longevity && number
                < current_block_number - bundle_longevity {
                Some(BundleError::SlotInThePast)
            } else {
                None
            },
        }
    }
}

/// Checks the slot of a bundle and hands back the block that the slot was produced
/// after.
pub fn check_slot_freshness(
    current_block_number: BlockNumber,
    bundle_longevity: u32,
    slot_number: SlotNumber,
    pre_dispatch: bool,
    slots: &SlotInfo,
) -> (result: Result<BlockNumber, BundleError>)
    ensures
        match result {
            Ok(number) => slot_error(
                current_block_number,
                bundle_longevity,
                slot_number,
                pre_dispatch,
                *slots,
            ) is None && Some(number) == produced_after(
                current_block_number,
                bundle_longevity,
                *slots,
            ),
            Err(e) => Some(e) == slot_error(
                current_block_number,
                bundle_longevity,
                slot_number,
                pre_dispatch,
                *slots,
            ),
        },
{
    if pre_dispatch {
        match slots.future_slot {
            Some(future_slot) => {
                if slot_number > future_slot {
                    return Err(BundleError::SlotInTheFuture);
                }
            },
            None => {},
        }
    }
    let produced_after_block_number = match slots.slot_produced_after {
        Some(number) => number,
        None => {
            if current_block_number > bundle_longevity {
                return Err(BundleError::SlotInThePast);
            } else {
                0
            }
        },
    };
    if current_block_number >= bundle_longevity {
        let last_eligible_block = current_block_number - bundle_longevity;
        if produced_after_block_number < last_eligible_block {
            return Err(BundleError::SlotInThePast);
        }
    }
    Ok(produced_after_block_number)
}

impl PalletView {
    /// The hash that the proof of time of a bundle is verified against: that of the
    /// block that the slot of the bundle was produced after, which for the block that
    /// is built is the hash of its parent.
    pub open spec fn proof_of_time_block_hash(self, produced_after: BlockNumber) -> H256 {
        if produced_after == self.system.block_number {
            self.system.parent_hash
        } else {
            self.system.hash_of_block(produced_after)
        }
    }

    /// Why the slot and the proof of time of a bundle are refused, if they are.
    pub open spec fn slot_and_proof_of_time_error(
        self,
        slot_number: SlotNumber,
        pre_dispatch: bool,
        slots: SlotInfo,
        proof_of_time_valid: bool,
    ) -> Option<BundleError> {
        match slot_error(
            self.system.block_number,
            self.config.bundle_longevity,
            slot_number,
            pre_dispatch,
            slots,
        ) {
            Some(e) => Some(e),
            None => if proof_of_time_valid {
                None
            } else {
                Some(BundleError::InvalidProofOfTime)
            },
        }
    }

    /// Why no stake is found for the election of the operator in the domain, if none
    /// is.
    pub open spec fn stake_info_error(self, domain_id: DomainId, operator_id: OperatorId) -> Option<
        BundleError,
    > {
        if self.staking.operator_stake_info(domain_id, operator_id) is Some {
            None
        } else if !self.staking.domain_staking_summary.contains_key(domain_id) {
            Some(BundleError::InvalidDomainId)
        } else {
            Some(BundleError::BadOperator)
        }
    }

    /// Why the bundle is refused, if it is. The checks are made in this order: the
    /// operator is on record and neither slashed nor waiting to be slashed; it signed
    /// the header; no bundle with the same header is in the inbox; the domain is
    /// registered and the bundle is within its limits; the root over the extrinsics is
    /// the one that the header names; the slot is fresh and the proof of time is
    /// valid; the operator is elected; the tree takes the receipt.
    pub open spec fn bundle_error(
        self,
        bundle: OpaqueBundle,
        pre_dispatch: bool,
        slots: SlotInfo,
        checks: ProofChecks,
    ) -> Option<BundleError> {
        let header = bundle.sealed_header.header;
        let election = header.proof_of_election;
        let domain_id = election.domain_id;
        let operator_id = election.operator_id;
        if !self.staking.operators.contains_key(operator_id) {
            Some(BundleError::InvalidOperatorId)
        } else {
            let operator = self.staking.operators[operator_id];
            if operator.status == OperatorStatus::Slashed || operator.status
                == OperatorStatus::PendingSlash {
                Some(BundleError::BadOperator)
            } else if !sr25519_verifies(
                bundle.sealed_header.signature@,
                bundle.sealed_header.spec_pre_hash().bytes(),
                operator.signing_key.bytes(),
            ) {
                Some(BundleError::BadBundleSignature)
            } else if self.block_tree.inboxed_bundle_author.contains_key(
                bundle.sealed_header.spec_pre_hash(),
            ) {
                Some(BundleError::DuplicatedBundle)
            } else if !self.registry.domain_registry@.contains_key(domain_id) {
                Some(BundleError::InvalidDomainId)
            } else {
                let domain_config = self.registry.domain_registry@[domain_id].domain_config;
                let limit = bundle_limit(
                    domain_config.max_block_size,
                    domain_config.max_block_weight,
                    self.config.consensus_slot_probability,
                    domain_config.bundle_slot_probability,
                );
                if limit is None {
                    Some(BundleError::UnableToCalculateBundleLimit)
                } else if bundle.spec_body_size() > limit.unwrap().max_bundle_size {
                    Some(BundleError::BundleTooLarge)
                } else if !header.estimated_bundle_weight.spec_all_lte(
                    limit.unwrap().max_bundle_weight,
                ) {
                    Some(BundleError::BundleTooHeavy)
                } else if extrinsics_root_of(bundle.extrinsics.deep_view())
                    != header.bundle_extrinsics_root {
                    Some(BundleError::InvalidExtrinsicRoot)
                } else if self.slot_and_proof_of_time_error(
                    election.slot_number,
                    pre_dispatch,
                    slots,
                    checks.proof_of_time_valid,
                ) is Some {
                    self.slot_and_proof_of_time_error(
                        election.slot_number,
                        pre_dispatch,
                        slots,
                        checks.proof_of_time_valid,
                    )
                } else if self.stake_info_error(domain_id, operator_id) is Some {
                    self.stake_info_error(domain_id, operator_id)
                } else if !checks.vrf_signature_valid {
                    Some(BundleError::BadVrfSignature)
                } else if !is_elected(
                    election.spec_vrf_output(),
                    self.staking.operator_stake_info(domain_id, operator_id).unwrap().0,
                    self.staking.operator_stake_info(domain_id, operator_id).unwrap().1,
                    domain_config.bundle_slot_probability,
                ) {
                    Some(BundleError::ThresholdUnsatisfied)
                } else {
                    match self.block_tree.receipt_type(domain_id, header.receipt) {
                        ReceiptType::Accepted(_) => None,
                        ReceiptType::Rejected(rejected) => Some(
                            BundleError::Receipt(rejected.spec_error()),
                        ),
                    }
                }
            }
        }
    }

    /// The receipt that the fraud proof is against, if it is against one that the
    /// tree holds.
    pub open spec fn receipt_to_verify(self, fraud_proof: FraudProof) -> Option<ExecutionReceipt> {
        match fraud_proof.spec_targeted_bad_receipt_hash() {
            Some(hash) => if self.block_tree.block_tree_nodes.contains_key(hash) {
                Some(self.block_tree.block_tree_nodes[hash].execution_receipt)
            } else {
                None
            },
            None => None,
        }
    }

    /// The receipt of the parent block of the receipt that the fraud proof is
    /// against, if the kind of the proof needs it and the tree holds both.
    pub open spec fn parent_receipt_to_verify(self, fraud_proof: FraudProof) -> Option<
        ExecutionReceipt,
    > {
        match self.receipt_to_verify(fraud_proof) {
            Some(receipt) => if fraud_proof.spec_needs_parent_receipt()
                && self.block_tree.block_tree_nodes.contains_key(
                receipt.parent_domain_block_receipt_hash,
            ) {
                Some(
                    self.block_tree.block_tree_nodes[receipt.parent_domain_block_receipt_hash].execution_receipt,
                )
            } else {
                None
            },
            None => None,
        }
    }

    /// Whether the receipt under `hash` is a receipt of the domain that a fraud proof
    /// can be against: the tree holds it under the hash, at the height that it names
    /// in the tree of the domain, above the latest confirmed block.
    pub open spec fn challengeable(self, domain_id: DomainId, hash: H256) -> bool {
        &&& self.block_tree.block_tree_nodes.contains_key(hash)
        &&& self.block_tree.block_tree.contains_key(
            (
                domain_id,
                self.block_tree.block_tree_nodes[hash].execution_receipt.domain_block_number,
            ),
        )
        &&& self.block_tree.block_tree[(
            domain_id,
            self.block_tree.block_tree_nodes[hash].execution_receipt.domain_block_number,
        )] == hash
        &&& (self.block_tree.block_tree_nodes[hash].execution_receipt.domain_block_number == 0
            || self.block_tree.block_tree_nodes[hash].execution_receipt.domain_block_number
            > self.block_tree.latest_confirmed(domain_id))
    }

    /// The error of a fraud proof of the kind that does not prove its receipt wrong.
    pub open spec fn unproven(fraud_proof: FraudProof) -> FraudProofError {
        match fraud_proof {
            FraudProof::InvalidBlockFees(_) => FraudProofError::InvalidBlockFeesFraudProof,
            FraudProof::InvalidTransfers(_) => FraudProofError::InvalidTransfersFraudProof,
            FraudProof::InvalidDomainBlockHash(_) => {
                FraudProofError::InvalidDomainBlockHashFraudProof
            },
            FraudProof::InvalidExtrinsicsRoot(_) => FraudProofError::InvalidExtrinsicRootFraudProof,
            FraudProof::InvalidStateTransition(_) => {
                FraudProofError::InvalidStateTransitionFraudProof
            },
            FraudProof::InvalidBundles(_) => FraudProofError::InvalidBundleFraudProof,
            FraudProof::ValidBundle(_) => FraudProofError::BadValidBundleFraudProof,
            FraudProof::BundleEquivocation(_) => FraudProofError::BadBundleEquivocationFraudProof,
            FraudProof::Other { .. } => FraudProofError::UnexpectedFraudProof,
        }
    }

    /// Why the fraud proof is refused, if it is. `proof_verified` says whether what
    /// the proof holds proves its receipt wrong.
    ///
    /// For a proof against a receipt the checks are made in this order: the tree
    /// holds a receipt under the hash; it is not a receipt of block zero; it is not
    /// above the head of the domain, where it would wait to be pruned already; the
    /// proof is of a kind that is taken; it proves the receipt wrong; the receipt of
    /// the parent block is in the tree, where the kind of the proof needs it; and
    /// last, the receipt is the receipt of the domain at its height, above the latest
    /// confirmed block. For a proof of an equivocation: the operator is on record, and
    /// the two headers prove the equivocation.
    pub open spec fn fraud_proof_error(self, fraud_proof: FraudProof, proof_verified: bool) -> Option<
        FraudProofError,
    > {
        let domain_id = fraud_proof.spec_domain_id();
        match fraud_proof.spec_targeted_bad_receipt_hash() {
            Some(hash) => {
                if !self.block_tree.block_tree_nodes.contains_key(hash) {
                    Some(FraudProofError::BadReceiptNotFound)
                } else {
                    let receipt = self.block_tree.block_tree_nodes[hash].execution_receipt;
                    if receipt.domain_block_number == 0 {
                        Some(FraudProofError::ChallengingGenesisReceipt)
                    } else if self.block_tree.bad_er_pending_to_prune(
                        domain_id,
                        receipt.domain_block_number,
                    ) {
                        Some(FraudProofError::BadReceiptAlreadyReported)
                    } else if fraud_proof is Other {
                        Some(FraudProofError::UnexpectedFraudProof)
                    } else if !proof_verified {
                        Some(Self::unproven(fraud_proof))
                    } else if fraud_proof.spec_needs_parent_receipt()
                        && !self.block_tree.block_tree_nodes.contains_key(
                        receipt.parent_domain_block_receipt_hash,
                    ) {
                        Some(FraudProofError::ParentReceiptNotFound)
                    } else if !self.challengeable(domain_id, hash) {
                        Some(FraudProofError::BadReceiptNotFound)
                    } else {
                        None
                    }
                }
            },
            None => match fraud_proof {
                FraudProof::BundleEquivocation(proof) => {
                    let operator_id = proof.first_header.header.proof_of_election.operator_id;
                    if !self.staking.operators.contains_key(operator_id) {
                        Some(FraudProofError::MissingOperator)
                    } else if !proof.proves_equivocation(
                        self.staking.operators[operator_id].signing_key,
                    ) {
                        Some(FraudProofError::BadBundleEquivocationFraudProof)
                    } else {
                        None
                    }
                },
                _ => Some(FraudProofError::UnexpectedFraudProof),
            },
        }
    }

    /// The tag that a valid fraud proof provides: its domain where it is against a
    /// receipt, the operator where it proves an equivocation.
    pub open spec fn fraud_proof_tag(fraud_proof: FraudProof) -> FraudProofTag {
        match fraud_proof {
            FraudProof::BundleEquivocation(proof) => FraudProofTag::BundleEquivocation(
                proof.first_header.header.proof_of_election.operator_id,
            ),
            _ => FraudProofTag::BadER(fraud_proof.spec_domain_id()),
        }
    }

    /// The priority of a valid fraud proof. A proof against a receipt has the
    /// largest priority less the number of blocks between the latest confirmed block
    /// and the receipt: the sooner the receipt would be confirmed, the higher. A
    /// proof of an equivocation has the largest priority less the pruning depth and
    /// one.
    pub open spec fn fraud_proof_priority(self, fraud_proof: FraudProof) -> u64 {
        match fraud_proof.spec_targeted_bad_receipt_hash() {
            Some(hash) => {
                let number =
                    self.block_tree.block_tree_nodes[hash].execution_receipt.domain_block_number;
                let confirmed = self.block_tree.latest_confirmed(fraud_proof.spec_domain_id());
                (u64::MAX - (if number >= confirmed {
                    number - confirmed
                } else {
                    0
                })) as u64
            },
            None => (u64::MAX - self.config.block_tree_pruning_depth - 1) as u64,
        }
    }
}

impl Pallet {
    /// The hash that the proof of time of a bundle is verified against.
    pub fn proof_of_time_block_hash(&self, produced_after: BlockNumber) -> (hash: H256)
        ensures
            hash == self@.proof_of_time_block_hash(produced_after),
    {
        if produced_after == self.system.block_number {
            self.system.parent_hash
        } else {
            self.system.hash_of_block(produced_after)
        }
    }

    /// Checks that no bundle with the header of `opaque_bundle` is in the inbox. The
    /// header is told by the hash that does not cover the signature.
    pub fn check_bundle_duplication(&self, opaque_bundle: &OpaqueBundle) -> (result: Result<
        (),
        BundleError,
    >)
        requires
            opaque_bundle.encodable(),
        ensures
            result == (if self@.block_tree.inboxed_bundle_author.contains_key(
                opaque_bundle.sealed_header.spec_pre_hash(),
            ) {
                Err::<(), BundleError>(BundleError::DuplicatedBundle)
            } else {
                Ok::<(), BundleError>(())
            }),
    {
        let bundle_header_hash = opaque_bundle.sealed_header.pre_hash();
        if self.block_tree.inboxed_bundle_author.contains_key(&bundle_header_hash) {
            return Err(BundleError::DuplicatedBundle);
        }
        Ok(())
    }

    /// Checks that the root over the extrinsics of `opaque_bundle` is the one that
    /// its header names.
    pub fn check_extrinsics_root(opaque_bundle: &OpaqueBundle) -> (result: Result<(), BundleError>)
        requires
            opaque_bundle.encodable(),
        ensures
            result == (if extrinsics_root_of(opaque_bundle.extrinsics.deep_view())
                == opaque_bundle.sealed_header.header.bundle_extrinsics_root {
                Ok::<(), BundleError>(())
            } else {
                Err::<(), BundleError>(BundleError::InvalidExtrinsicRoot)
            }),
    {
        let expected_extrinsics_root = extrinsics_root(&opaque_bundle.extrinsics);
        if !expected_extrinsics_root.same_hash(&opaque_bundle.extrinsics_root()) {
            return Err(BundleError::InvalidExtrinsicRoot);
        }
        Ok(())
    }

    /// Checks the slot of a bundle, and that its proof of time was found valid.
    pub fn check_slot_and_proof_of_time(
        &self,
        slot_number: SlotNumber,
        pre_dispatch: bool,
        slots: &SlotInfo,
        proof_of_time_valid: bool,
    ) -> (result: Result<(), BundleError>)
        ensures
            result == (match self@.slot_and_proof_of_time_error(
                slot_number,
                pre_dispatch,
                *slots,
                proof_of_time_valid,
            ) {
                Some(e) => Err::<(), BundleError>(e),
                None => Ok::<(), BundleError>(()),
            }),
    {
        match check_slot_freshness(
            self.system.block_number,
            self.config.bundle_longevity,
            slot_number,
            pre_dispatch,
            slots,
        ) {
            Ok(_) => {},
            Err(e) => {
                return Err(e);
            },
        }
        if !proof_of_time_valid {
            return Err(BundleError::InvalidProofOfTime);
        }
        Ok(())
    }

    /// The stake of the operator and of the whole domain that an election in the
    /// domain is verified against.
    pub fn fetch_operator_stake_info(&self, domain_id: DomainId, operator_id: &OperatorId) -> (result:
        Result<(Balance, Balance), BundleError>)
        ensures
            match result {
                Ok(info) => Some(info) == self@.staking.operator_stake_info(
                    domain_id,
                    *operator_id,
                ),
                Err(e) => Some(e) == self@.stake_info_error(domain_id, *operator_id),
            },
    {
        match self.staking.operator_stake_info(domain_id, *operator_id) {
            Some(info) => Ok(info),
            None => {
                if !self.staking.domain_staking_summary.contains_key(&domain_id) {
                    Err(BundleError::InvalidDomainId)
                } else {
                    Err(BundleError::BadOperator)
                }
            },
        }
    }

    /// Checks a bundle. `slots` is what the consensus chain knows about the slot of
    /// the bundle, and `checks` what was found out about its proofs.
    pub fn validate_bundle(
        &self,
        opaque_bundle: &OpaqueBundle,
        pre_dispatch: bool,
        slots: &SlotInfo,
        checks: &ProofChecks,
    ) -> (result: Result<(), BundleError>)
        requires
            opaque_bundle.encodable(),
        ensures
            result == (match self@.bundle_error(*opaque_bundle, pre_dispatch, *slots, *checks) {
                Some(e) => Err::<(), BundleError>(e),
                None => Ok::<(), BundleError>(()),
            }),
    {
        let domain_id = opaque_bundle.domain_id();
        let operator_id = opaque_bundle.operator_id();
        let sealed_header = &opaque_bundle.sealed_header;
        let operator = match self.staking.operators.get(&operator_id) {
            Some(operator) => *operator,
            None => {
                return Err(BundleError::InvalidOperatorId);
            },
        };
        match operator.status {
            OperatorStatus::Slashed => {
                return Err(BundleError::BadOperator);
            },
            OperatorStatus::PendingSlash => {
                return Err(BundleError::BadOperator);
            },
            _ => {},
        }
        let pre_hash = sealed_header.pre_hash();
        if !signature_verifies(&sealed_header.signature, &pre_hash, &operator.signing_key) {
            return Err(BundleError::BadBundleSignature);
        }
        match self.check_bundle_duplication(opaque_bundle) {
            Ok(()) => {},
            Err(e) => {
                return Err(e);
            },
        }
        let domain = match self.registry.domain_registry.get(&domain_id) {
            Some(domain) => domain,
            None => {
                return Err(BundleError::InvalidDomainId);
            },
        };
        let domain_bundle_limit = match calculate_max_bundle_weight_and_size(
            domain.domain_config.max_block_size,
            domain.domain_config.max_block_weight,
            self.config.consensus_slot_probability,
            domain.domain_config.bundle_slot_probability,
        ) {
            Some(limit) => limit,
            None => {
                return Err(BundleError::UnableToCalculateBundleLimit);
            },
        };
        if opaque_bundle.body_size() > domain_bundle_limit.max_bundle_size {
            return Err(BundleError::BundleTooLarge);
        }
        if !opaque_bundle.estimated_weight().all_lte(domain_bundle_limit.max_bundle_weight) {
            return Err(BundleError::BundleTooHeavy);
        }
        match Self::check_extrinsics_root(opaque_bundle) {
            Ok(()) => {},
            Err(e) => {
                return Err(e);
            },
        }
        let proof_of_election = &sealed_header.header.proof_of_election;
        match self.check_slot_and_proof_of_time(
            proof_of_election.slot_number,
            pre_dispatch,
            slots,
            checks.proof_of_time_valid,
        ) {
            Ok(()) => {},
            Err(e) => {
                return Err(e);
            },
        }
        let (operator_stake, total_domain_stake) = match self.fetch_operator_stake_info(
            domain_id,
            &operator_id,
        ) {
            Ok(info) => info,
            Err(e) => {
                return Err(e);
            },
        };
        if !checks.vrf_signature_valid {
            return Err(BundleError::BadVrfSignature);
        }
        if !check_threshold(
            proof_of_election.vrf_output(),
            operator_stake,
            total_domain_stake,
            domain.domain_config.bundle_slot_probability,
        ) {
            return Err(BundleError::ThresholdUnsatisfied);
        }
        match self.block_tree.verify_execution_receipt(domain_id, &sealed_header.header.receipt) {
            Ok(()) => Ok(()),
            Err(e) => Err(BundleError::Receipt(e)),
        }
    }

    /// Checks a bundle against the slots that `block_slot` knows.
    pub fn validate_bundle_at<S: BlockSlot>(
        &self,
        opaque_bundle: &OpaqueBundle,
        pre_dispatch: bool,
        block_slot: &S,
        checks: &ProofChecks,
    ) -> (result: Result<(), BundleError>)
        requires
            opaque_bundle.encodable(),
        ensures
            exists|slots: SlotInfo|
                result == (match #[trigger] self@.bundle_error(
                    *opaque_bundle,
                    pre_dispatch,
                    slots,
                    *checks,
                ) {
                    Some(e) => Err::<(), BundleError>(e),
                    None => Ok::<(), BundleError>(()),
                }),
    {
        let slots = SlotInfo {
            future_slot: block_slot.future_slot(self.system.block_number),
            slot_produced_after: block_slot.slot_produced_after(
                opaque_bundle.sealed_header.slot_number(),
            ),
        };
        self.validate_bundle(opaque_bundle, pre_dispatch, &slots, checks)
    }

    /// What a fraud proof is verified against: the receipt that it is against, and
    /// the receipt of the parent block where the kind of the proof needs it, each as
    /// far as the tree holds it.
    pub fn receipts_to_verify(&self, fraud_proof: &FraudProof) -> (receipts: (
        Option<&ExecutionReceipt>,
        Option<&ExecutionReceipt>,
    ))
        ensures
            match receipts.0 {
                Some(receipt) => Some(*receipt) == self@.receipt_to_verify(*fraud_proof),
                None => self@.receipt_to_verify(*fraud_proof) is None,
            },
            match receipts.1 {
                Some(receipt) => Some(*receipt) == self@.parent_receipt_to_verify(*fraud_proof),
                None => self@.parent_receipt_to_verify(*fraud_proof) is None,
            },
    {
        let bad_receipt = match fraud_proof.targeted_bad_receipt_hash() {
            Some(hash) => match self.block_tree.block_tree_nodes.get(&hash) {
                Some(node) => &node.execution_receipt,
                None => {
                    return (None, None);
                },
            },
            None => {
                return (None, None);
            },
        };
        if !fraud_proof.needs_parent_receipt() {
            return (Some(bad_receipt), None);
        }
        match self.block_tree.block_tree_nodes.get(&bad_receipt.parent_domain_block_receipt_hash) {
            Some(node) => (Some(bad_receipt), Some(&node.execution_receipt)),
            None => (Some(bad_receipt), None),
        }
    }

    /// Checks a fraud proof. `proof_verified` says whether what the proof holds
    /// proves its receipt wrong. Hands back the tag and the priority of the proof
    /// for the transaction pool.
    pub fn validate_fraud_proof(&self, fraud_proof: &FraudProof, proof_verified: bool) -> (result:
        Result<(FraudProofTag, u64), FraudProofError>)
        requires
            fraud_proof.encodable(),
        ensures
            match result {
                Ok((tag, priority)) => {
                    &&& self@.fraud_proof_error(*fraud_proof, proof_verified) is None
                    &&& tag == PalletView::fraud_proof_tag(*fraud_proof)
                    &&& priority == self@.fraud_proof_priority(*fraud_proof)
                },
                Err(e) => Some(e) == self@.fraud_proof_error(*fraud_proof, proof_verified),
            },
    {
        let domain_id = fraud_proof.domain_id();
        match fraud_proof.targeted_bad_receipt_hash() {
            Some(bad_receipt_hash) => {
                let bad_receipt = match self.block_tree.block_tree_nodes.get(&bad_receipt_hash) {
                    Some(node) => &node.execution_receipt,
                    None => {
                        return Err(FraudProofError::BadReceiptNotFound);
                    },
                };
                let domain_block_number = bad_receipt.domain_block_number;
                if domain_block_number == 0 {
                    return Err(FraudProofError::ChallengingGenesisReceipt);
                }
                if self.block_tree.is_bad_er_pending_to_prune(domain_id, domain_block_number) {
                    return Err(FraudProofError::BadReceiptAlreadyReported);
                }
                let error = match fraud_proof {
                    FraudProof::InvalidBlockFees(_) => FraudProofError::InvalidBlockFeesFraudProof,
                    FraudProof::InvalidTransfers(_) => FraudProofError::InvalidTransfersFraudProof,
                    FraudProof::InvalidDomainBlockHash(_) => {
                        FraudProofError::InvalidDomainBlockHashFraudProof
                    },
                    FraudProof::InvalidExtrinsicsRoot(_) => {
                        FraudProofError::InvalidExtrinsicRootFraudProof
                    },
                    FraudProof::InvalidStateTransition(_) => {
                        FraudProofError::InvalidStateTransitionFraudProof
                    },
                    FraudProof::InvalidBundles(_) => FraudProofError::InvalidBundleFraudProof,
                    FraudProof::ValidBundle(_) => FraudProofError::BadValidBundleFraudProof,
                    _ => {
                        return Err(FraudProofError::UnexpectedFraudProof);
                    },
                };
                if !proof_verified {
                    return Err(error);
                }
                if fraud_proof.needs_parent_receipt() && !self.block_tree.block_tree_nodes.contains_key(
                    &bad_receipt.parent_domain_block_receipt_hash,
                ) {
                    return Err(FraudProofError::ParentReceiptNotFound);
                }
                let in_tree = match self.block_tree.block_tree.get(
                    &(domain_id, domain_block_number),
                ) {
                    Some(hash) => hash.same_hash(&bad_receipt_hash),
                    None => false,
                };
                let confirmed = self.block_tree.latest_confirmed_domain_block_number(domain_id);
                if !in_tree || domain_block_number <= confirmed {
                    return Err(FraudProofError::BadReceiptNotFound);
                }
                let block_before_bad_er_confirm: u32 = domain_block_number - confirmed;
                let priority: u64 = u64::MAX - (block_before_bad_er_confirm as u64);
                Ok((FraudProofTag::BadER(domain_id), priority))
            },
            None => match fraud_proof {
                FraudProof::BundleEquivocation(proof) => {
                    let bad_operator_id = proof.operator_id();
                    let operator = match self.staking.operators.get(&bad_operator_id) {
                        Some(operator) => *operator,
                        None => {
                            return Err(FraudProofError::MissingOperator);
                        },
                    };
                    if !proof.verify_bundle_equivocation_fraud_proof(&operator.signing_key) {
                        return Err(FraudProofError::BadBundleEquivocationFraudProof);
                    }
                    let priority: u64 = u64::MAX - (self.config.block_tree_pruning_depth as u64) - 1;
                    Ok((FraudProofTag::BundleEquivocation(bad_operator_id), priority))
                },
                _ => Err(FraudProofError::UnexpectedFraudProof),
            },
        }
    }
}

} // verus!
