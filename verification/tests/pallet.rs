use pallet_domains::admission::{BlockSlot, ProofChecks, SlotInfo};
use pallet_domains::block_tree::{
    AcceptedReceiptType, BlockTreeNode, BundleDigest, Error as BlockTreeError, ReceiptType,
    RejectedReceiptType,
};
use pallet_domains::bundle::{
    BundleHeader, OpaqueBundle, ProofOfElection, SealedBundleHeader, VrfSignature,
};
use pallet_domains::calls::genesis_receipt;
use pallet_domains::config::{Config, ConfirmWeight, LinearWeight, WeightInfo};
use pallet_domains::error::{BundleError, DispatchError, Error, FraudProofError, Origin};
use pallet_domains::event::Event;
use pallet_domains::fraud_proof::{
    BadReceiptProof, BundleEquivocationProof, FraudProof, FraudProofTag,
};
use pallet_domains::hashing::extrinsics_root;
use pallet_domains::pallet::Pallet;
use pallet_domains::primitives::{Weight, H256};
use pallet_domains::receipt::{BlockFees, ExecutionReceipt, InboxedBundle, Transfers};
use pallet_domains::registry::{
    DomainConfig, OperatorAllowList, PermissionedActionAllowedBy, RawGenesis, RuntimeType,
};
use pallet_domains::staking::{OperatorConfig, OperatorStatus, SlashedReason};
use pallet_domains::unsigned::{Call, Evidence};
use pallet_domains::validity::{InvalidTransaction, TransactionSource};
use sp_core::Pair;

const DOMAIN: u32 = 0;

fn weight(n: u64) -> Weight {
    Weight { ref_time: n, proof_size: n }
}

fn linear(base: u64, per_item: u64) -> LinearWeight {
    LinearWeight { base: weight(base), per_item: weight(per_item) }
}

fn config(pruning_depth: u32) -> Config {
    Config {
        confirmation_depth_k: 100,
        domain_runtime_upgrade_delay: 10,
        block_tree_pruning_depth: pruning_depth,
        consensus_slot_probability: (1, 6),
        max_domain_block_size: 6_000_000,
        max_domain_block_weight: Weight { ref_time: 6_000_000, proof_size: 6_000_000 },
        max_bundles_per_block: 10,
        max_domain_name_length: 32,
        domain_instantiation_deposit: 100,
        initial_domain_tx_range: 3,
        domain_tx_range_adjustment_interval: 100,
        min_operator_stake: 100,
        min_nominator_stake: 1,
        stake_withdrawal_locking_period: 5,
        stake_epoch_duration: 10,
        treasury_account: H256::from_low_u64(999),
        max_pending_staking_operation: 100,
        max_nominators: 5,
        max_initial_domain_accounts: 5,
        min_initial_domain_account_balance: 1,
        bundle_longevity: 5,
        storage_fee_reserve: 20,
        weights: WeightInfo {
            submit_bundle: weight(1000),
            submit_fraud_proof: weight(2000),
            handle_bad_receipt: linear(100, 10),
            confirm_domain_block: ConfirmWeight {
                base: weight(200),
                per_operator: weight(20),
                per_invalid_bundle_author: weight(30),
            },
            operator_reward_tax_and_restake: linear(300, 3),
            finalize_slashed_operators: linear(400, 4),
            finalize_domain_epoch_staking: linear(500, 5),
            unlock_operator: linear(600, 6),
        },
    }
}

fn owner() -> H256 {
    H256::from_low_u64(1)
}

fn key_pair(seed: u8) -> sp_core::sr25519::Pair {
    sp_core::sr25519::Pair::from_seed(&[seed; 32])
}

fn public_key(pair: &sp_core::sr25519::Pair) -> H256 {
    H256::from_bytes(&pair.public().0)
}

fn block_hash(number: u32) -> H256 {
    H256 { w0: number as u64, w1: 0xb10c, w2: 0, w3: 1 }
}

/// A chain with one domain and one operator, at the consensus block `block`.
struct Chain {
    pallet: Pallet,
    pair: sp_core::sr25519::Pair,
    operator_id: u64,
    /// The receipt of each domain block, by its number.
    receipts: Vec<ExecutionReceipt>,
    block: u32,
    slot: u64,
}

fn good_slots() -> SlotInfo {
    SlotInfo { future_slot: Some(u64::MAX), slot_produced_after: Some(u32::MAX) }
}

fn good_checks() -> ProofChecks {
    ProofChecks { proof_of_time_valid: true, vrf_signature_valid: true }
}

fn good_evidence() -> Evidence {
    Evidence { slots: good_slots(), checks: good_checks(), fraud_proof_verified: true }
}

fn domain_config() -> DomainConfig {
    DomainConfig {
        domain_name: b"evm-domain".to_vec(),
        runtime_id: 0,
        max_block_size: 6_000_000,
        max_block_weight: Weight { ref_time: 6_000_000, proof_size: 6_000_000 },
        bundle_slot_probability: (1, 1),
        target_bundles_per_block: 6,
        operator_allow_list: OperatorAllowList::Anyone,
        initial_balances: vec![(H256::from_low_u64(50), 7), (H256::from_low_u64(51), 8)],
    }
}

impl Chain {
    fn new(pruning_depth: u32) -> Chain {
        let mut pallet = Pallet::new(config(pruning_depth), 1);
        pallet
            .set_permissioned_action_allowed_by(Origin::Root, PermissionedActionAllowedBy::Anyone)
            .unwrap();
        pallet
            .register_domain_runtime(
                Origin::Root,
                String::from("evm"),
                RuntimeType::Evm,
                RawGenesis { runtime_code: vec![1, 2, 3], storage: vec![] },
            )
            .unwrap();
        pallet.currency.mint_into(&owner(), 1_000_000);
        pallet
            .instantiate_domain(
                Origin::Signed(owner()),
                domain_config(),
                H256::from_low_u64(77),
                H256::from_low_u64(78),
            )
            .unwrap();
        let pair = key_pair(7);
        pallet
            .register_operator(
                Origin::Signed(owner()),
                DOMAIN,
                1000,
                OperatorConfig {
                    signing_key: public_key(&pair),
                    minimum_nominator_stake: 10,
                    nomination_tax: 5,
                },
            )
            .unwrap();
        // Bundles are paid for by the byte, headers and receipts included.
        pallet.storage_fund.deposit(0, 1_000_000);
        let genesis = genesis_receipt(H256::from_low_u64(77), H256::from_low_u64(78));
        Chain { pallet, pair, operator_id: 0, receipts: vec![genesis], block: 0, slot: 0 }
    }

    /// Begins the next consensus block.
    fn begin_block(&mut self) {
        if self.block > 0 {
            self.pallet.on_finalize();
        }
        self.pallet.system.block_hash.insert(self.block, block_hash(self.block));
        self.pallet.system.parent_hash = block_hash(self.block);
        self.block += 1;
        self.pallet.system.block_number = self.block;
        self.pallet.on_initialize(self.block);
    }

    /// The receipt of the domain block `number`, which was built from the consensus
    /// block of the same number.
    fn receipt(&self, number: u32, state_root: u64) -> ExecutionReceipt {
        ExecutionReceipt {
            domain_block_number: number,
            domain_block_hash: H256::from_low_u64(1000 + number as u64),
            extrinsics_root: H256::from_low_u64(2000 + number as u64),
            inherent_extrinsics_root: H256::from_low_u64(3000 + number as u64),
            parent_domain_block_receipt_hash: self.receipts[(number - 1) as usize].hash(),
            consensus_block_number: number,
            consensus_block_hash: block_hash(number),
            bundle_digests: vec![InboxedBundle {
                extrinsics_root: extrinsics_root(&vec![vec![number as u8]]),
                is_invalid: false,
            }],
            final_state_root: H256::from_low_u64(state_root),
            execution_trace: vec![H256::from_low_u64(1), H256::from_low_u64(2)],
            block_fees: BlockFees { consensus_storage_fee: 6, domain_execution_fee: 40 },
            transfers: Transfers {
                transfers_in: 0,
                transfers_out: 0,
                rejected_transfers_claimed: 0,
                transfers_rejected: 0,
            },
        }
    }

    /// A bundle of the operator with the receipt and the extrinsics, signed with
    /// `pair`.
    fn bundle_signed_by(
        &mut self,
        receipt: ExecutionReceipt,
        extrinsics: Vec<Vec<u8>>,
        pair: &sp_core::sr25519::Pair,
    ) -> OpaqueBundle {
        self.slot += 1;
        let header = BundleHeader {
            proof_of_election: ProofOfElection {
                domain_id: DOMAIN,
                slot_number: self.slot,
                proof_of_time: 5,
                vrf_signature: VrfSignature { output: H256::zero(), proof: vec![9; 64] },
                operator_id: self.operator_id,
                consensus_block_hash: block_hash(self.block),
            },
            receipt,
            estimated_bundle_weight: weight(10),
            bundle_extrinsics_root: extrinsics_root(&extrinsics),
        };
        let signature = pair.sign(&header.hash().to_bytes()).0.to_vec();
        OpaqueBundle { sealed_header: SealedBundleHeader { header, signature }, extrinsics }
    }

    fn bundle(&mut self, receipt: ExecutionReceipt, extrinsics: Vec<Vec<u8>>) -> OpaqueBundle {
        let pair = self.pair.clone();
        self.bundle_signed_by(receipt, extrinsics, &pair)
    }

    /// Produces the next consensus block with one bundle in it, and hands the bundle
    /// back.
    fn produce_block(&mut self) -> OpaqueBundle {
        self.begin_block();
        let receipt = if self.block == 1 {
            self.receipts[0].clone()
        } else {
            let receipt = self.receipt(self.block - 1, 4000 + self.block as u64);
            self.receipts.push(receipt.clone());
            receipt
        };
        let bundle = self.bundle(receipt, vec![vec![self.block as u8]]);
        assert_eq!(
            self.pallet.validate_bundle(&bundle, true, &good_slots(), &good_checks()),
            Ok(())
        );
        self.pallet
            .pre_dispatch(&Call::SubmitBundle { opaque_bundle: bundle.clone() }, &good_evidence())
            .unwrap();
        self.pallet.submit_bundle(Origin::Unsigned, bundle.clone()).unwrap();
        bundle
    }

    fn produce_blocks(&mut self, up_to_block: u32) {
        while self.block < up_to_block {
            self.produce_block();
        }
    }
}

#[test]
fn first_bundle_carries_the_genesis_receipt() {
    let mut chain = Chain::new(8);
    let bundle = chain.produce_block();
    assert_eq!(chain.pallet.domain_best_number(DOMAIN), Some(1));
    assert_eq!(chain.pallet.head_receipt_number(DOMAIN), 0);
    assert_eq!(chain.pallet.successful_bundles(DOMAIN), vec![bundle.hash()]);
    let genesis_hash = chain.receipts[0].hash();
    assert_eq!(chain.pallet.receipt_hash(DOMAIN, 0), Some(genesis_hash));
    assert_eq!(chain.pallet.genesis_state_root(DOMAIN), Some(H256::from_low_u64(77)));
    let node = chain.pallet.block_tree.block_tree_nodes.get(&genesis_hash).unwrap();
    assert_eq!(node.operator_ids, vec![0]);
}

#[test]
fn first_bundle_elevates_head() {
    let mut chain = Chain::new(100);
    chain.produce_blocks(10);
    assert_eq!(chain.pallet.domain_best_number(DOMAIN), Some(10));
    assert_eq!(chain.pallet.head_receipt_number(DOMAIN), 9);
    let b1 = chain.produce_block();
    assert_eq!(chain.pallet.domain_best_number(DOMAIN), Some(11));
    assert_eq!(chain.pallet.head_receipt_number(DOMAIN), 10);
    assert!(chain.pallet.successful_bundles(DOMAIN).contains(&b1.hash()));
    let row = chain.pallet.block_tree.execution_inbox.get(&(DOMAIN, 11, chain.block)).unwrap();
    assert_eq!(row.len(), 1);
    assert_eq!(row[0].extrinsics_root, b1.extrinsics_root());
    assert_eq!(row[0].header_hash, b1.sealed_header.pre_hash());
    assert_eq!(row[0].size, b1.size());
    assert_eq!(
        chain.pallet.events.last(),
        Some(&Event::BundleStored { domain_id: DOMAIN, bundle_hash: b1.hash(), bundle_author: 0 })
    );
}

#[test]
fn first_bundle_elevates_head_from_ten_to_eleven() {
    let mut chain = Chain::new(100);
    chain.produce_blocks(11);
    // A consensus block without a bundle of the domain: the best block of the domain
    // stays at 10 while the head receipt is at 10 as well.
    chain.pallet.block_tree.head_domain_number.insert(DOMAIN, 10);
    assert_eq!(chain.pallet.head_receipt_number(DOMAIN), 10);
    let b1 = chain.produce_block();
    assert_eq!(chain.pallet.head_receipt_number(DOMAIN), 11);
    assert_eq!(chain.pallet.domain_best_number(DOMAIN), Some(11));
    assert!(chain.pallet.successful_bundles(DOMAIN).contains(&b1.hash()));
    let row = chain.pallet.block_tree.execution_inbox.get(&(DOMAIN, 11, chain.block)).unwrap();
    assert_eq!(row.len(), 1);
    assert_eq!(row[0].extrinsics_root, b1.extrinsics_root());
}

#[test]
fn head_domain_number_rises_once_per_consensus_block() {
    let mut chain = Chain::new(100);
    chain.produce_blocks(3);
    assert_eq!(chain.pallet.domain_best_number(DOMAIN), Some(3));
    // A second bundle in the same consensus block votes for the current head.
    let head = chain.receipts[2].clone();
    let second = chain.bundle(head, vec![vec![42]]);
    assert_eq!(chain.pallet.validate_bundle(&second, true, &good_slots(), &good_checks()), Ok(()));
    chain.pallet.submit_bundle(Origin::Unsigned, second.clone()).unwrap();
    assert_eq!(chain.pallet.domain_best_number(DOMAIN), Some(3));
    assert_eq!(chain.pallet.successful_bundles(DOMAIN).len(), 2);
    let row = chain.pallet.block_tree.execution_inbox.get(&(DOMAIN, 3, 3)).unwrap();
    assert_eq!(row.len(), 2);
}

#[test]
fn duplicate_bundle_rejected() {
    let mut chain = Chain::new(100);
    chain.produce_blocks(10);
    let b1 = chain.produce_block();
    let events_before = chain.pallet.events.len();
    let bundles_before = chain.pallet.successful_bundles(DOMAIN);
    assert_eq!(
        chain.pallet.validate_bundle(&b1, true, &good_slots(), &good_checks()),
        Err(BundleError::DuplicatedBundle)
    );
    assert_eq!(
        chain.pallet.validate_bundle(&b1, false, &good_slots(), &good_checks()),
        Err(BundleError::DuplicatedBundle)
    );
    assert_eq!(
        chain.pallet.pre_dispatch(&Call::SubmitBundle { opaque_bundle: b1.clone() }, &good_evidence()),
        Err(InvalidTransaction::Call)
    );
    assert_eq!(chain.pallet.events.len(), events_before);
    assert_eq!(chain.pallet.successful_bundles(DOMAIN), bundles_before);
    assert_eq!(chain.pallet.domain_best_number(DOMAIN), Some(11));
}

#[test]
fn same_header_with_other_extrinsics_is_a_duplicate() {
    let mut chain = Chain::new(100);
    chain.produce_blocks(4);
    let b1 = chain.produce_block();
    let mut again = b1.clone();
    again.extrinsics = vec![vec![1, 2, 3], vec![4]];
    assert_ne!(again.hash(), b1.hash());
    assert_eq!(again.sealed_header.pre_hash(), b1.sealed_header.pre_hash());
    assert_eq!(
        chain.pallet.validate_bundle(&again, true, &good_slots(), &good_checks()),
        Err(BundleError::DuplicatedBundle)
    );
}

#[test]
fn same_header_with_a_bad_signature_is_refused_for_the_signature() {
    let mut chain = Chain::new(100);
    chain.produce_blocks(4);
    let b1 = chain.produce_block();
    let mut again = b1.clone();
    again.sealed_header.signature = key_pair(8).sign(&b1.sealed_header.pre_hash().to_bytes()).0.to_vec();
    assert_eq!(
        chain.pallet.validate_bundle(&again, true, &good_slots(), &good_checks()),
        Err(BundleError::BadBundleSignature)
    );
}

fn bad_receipt_proof(hash: H256) -> BadReceiptProof {
    BadReceiptProof { domain_id: DOMAIN, bad_receipt_hash: hash, proof: vec![1, 2, 3] }
}

#[test]
fn fraud_proof_reverses_head() {
    let mut chain = Chain::new(8);
    chain.produce_blocks(14);
    assert_eq!(chain.pallet.head_receipt_number(DOMAIN), 13);
    assert_eq!(chain.pallet.latest_confirmed_domain_block_number(DOMAIN), 5);
    let receipt_12 = chain.receipts[12].hash();
    let receipt_13 = chain.receipts[13].hash();
    let fraud_proof = FraudProof::InvalidStateTransition(bad_receipt_proof(receipt_12));
    assert_eq!(
        chain.pallet.validate_fraud_proof(&fraud_proof, true),
        Ok((FraudProofTag::BadER(DOMAIN), u64::MAX - 7))
    );
    let events_before = chain.pallet.events.len();
    let weight = chain.pallet.submit_fraud_proof(Origin::Unsigned, fraud_proof.clone()).unwrap();
    assert_eq!(weight, Weight { ref_time: 2000 + 100 + 10, proof_size: 2000 + 100 + 10 });
    assert_eq!(chain.pallet.head_receipt_number(DOMAIN), 11);
    let pending = chain.pallet.staking.pending_slashes.get(&DOMAIN).unwrap();
    assert!(pending.contains(0));
    assert_eq!(
        chain.pallet.staking.operators.get(&0).unwrap().status,
        OperatorStatus::PendingSlash
    );
    assert!(chain.pallet.execution_receipt(&receipt_12).is_none());
    assert_eq!(chain.pallet.receipt_hash(DOMAIN, 12), None);
    assert!(chain.pallet.execution_receipt(&receipt_13).is_some());
    assert!(chain.pallet.is_bad_er_pending_to_prune(DOMAIN, 13));
    assert!(chain.pallet.is_bad_er_pending_to_prune(DOMAIN, 12));
    assert!(!chain.pallet.is_bad_er_pending_to_prune(DOMAIN, 11));
    assert_eq!(
        chain.pallet.events[events_before..].to_vec(),
        vec![
            Event::OperatorSlashed {
                operator_id: 0,
                reason: SlashedReason::BadExecutionReceipt(receipt_12),
            },
            Event::FraudProofProcessed { domain_id: DOMAIN, new_head_receipt_number: Some(11) },
        ]
    );
    assert_eq!(chain.pallet.successful_fraud_proofs(DOMAIN), vec![fraud_proof.hash()]);
    assert!(chain.pallet.is_operator_pending_to_slash(DOMAIN, 0));
    // The receipt above the new head is reported already.
    assert_eq!(
        chain.pallet.validate_fraud_proof(
            &FraudProof::InvalidBlockFees(bad_receipt_proof(receipt_13)),
            true
        ),
        Err(FraudProofError::BadReceiptAlreadyReported)
    );
    assert_eq!(
        chain.pallet.submit_fraud_proof(
            Origin::Unsigned,
            FraudProof::InvalidBlockFees(bad_receipt_proof(receipt_13))
        ),
        Err(DispatchError::Module(Error::FraudProof(FraudProofError::BadReceiptNotFound)))
    );
    // The operator waits to be slashed and cannot produce bundles any more.
    let head = chain.receipts[11].clone();
    let bundle = chain.bundle(head, vec![]);
    assert_eq!(
        chain.pallet.validate_bundle(&bundle, true, &good_slots(), &good_checks()),
        Err(BundleError::BadOperator)
    );
}

#[test]
fn new_head_replaces_bad_receipt_above_the_head() {
    let mut chain = Chain::new(8);
    chain.produce_blocks(14);
    let receipt_12 = chain.receipts[12].hash();
    let receipt_13 = chain.receipts[13].hash();
    chain
        .pallet
        .submit_fraud_proof(
            Origin::Unsigned,
            FraudProof::InvalidTransfers(bad_receipt_proof(receipt_12)),
        )
        .unwrap();
    // Another operator takes over.
    let other = key_pair(21);
    chain.pallet.currency.mint_into(&H256::from_low_u64(2), 10_000);
    chain
        .pallet
        .register_operator(
            Origin::Signed(H256::from_low_u64(2)),
            DOMAIN,
            5000,
            OperatorConfig {
                signing_key: public_key(&other),
                minimum_nominator_stake: 10,
                nomination_tax: 0,
            },
        )
        .unwrap();
    chain.pallet.force_staking_epoch_transition(Origin::Root, DOMAIN).unwrap();
    chain.pair = other;
    chain.operator_id = 1;
    // A new receipt for block 12, then one for block 13, which replaces the bad one.
    chain.receipts.truncate(12);
    let new_12 = chain.receipt(12, 9012);
    chain.receipts.push(new_12.clone());
    let bundle = chain.bundle(new_12, vec![vec![1]]);
    assert_eq!(chain.pallet.validate_bundle(&bundle, true, &good_slots(), &good_checks()), Ok(()));
    chain.pallet.submit_bundle(Origin::Unsigned, bundle).unwrap();
    assert_eq!(chain.pallet.head_receipt_number(DOMAIN), 12);
    assert!(chain.pallet.execution_receipt(&receipt_13).is_some());
    let new_13 = chain.receipt(13, 9013);
    chain.receipts.push(new_13.clone());
    let bundle = chain.bundle(new_13.clone(), vec![vec![2]]);
    let weight = chain.pallet.submit_bundle(Origin::Unsigned, bundle).unwrap();
    assert_eq!(chain.pallet.head_receipt_number(DOMAIN), 13);
    assert!(chain.pallet.execution_receipt(&receipt_13).is_none());
    assert_eq!(chain.pallet.receipt_hash(DOMAIN, 13), Some(new_13.hash()));
    assert!(!chain.pallet.is_bad_er_pending_to_prune(DOMAIN, 13));
    // The call, handling the bad receipt with one submitter, and no confirmation:
    // block 5 was confirmed before and is out of the tree.
    assert_eq!(weight, weight_sum(&[1000, 100 + 10]));
}

fn weight_sum(parts: &[u64]) -> Weight {
    let total: u64 = parts.iter().sum();
    Weight { ref_time: total, proof_size: total }
}

fn equivocation(chain: &mut Chain) -> BundleEquivocationProof {
    let receipt = chain.receipts[0].clone();
    let first = chain.bundle(receipt.clone(), vec![vec![1]]);
    chain.slot -= 1;
    let second = chain.bundle(receipt, vec![vec![2]]);
    BundleEquivocationProof {
        domain_id: DOMAIN,
        slot: chain.slot,
        first_header: first.sealed_header,
        second_header: second.sealed_header,
    }
}

#[test]
fn equivocation_slashing() {
    let mut chain = Chain::new(8);
    chain.produce_blocks(3);
    let proof = equivocation(&mut chain);
    let slot = proof.slot;
    let fraud_proof = FraudProof::BundleEquivocation(proof);
    assert_eq!(
        chain.pallet.validate_fraud_proof(&fraud_proof, false),
        Ok((FraudProofTag::BundleEquivocation(0), u64::MAX - 8 - 1))
    );
    let head_before = chain.pallet.head_receipt_number(DOMAIN);
    let events_before = chain.pallet.events.len();
    let weight = chain.pallet.submit_fraud_proof(Origin::Unsigned, fraud_proof).unwrap();
    assert_eq!(weight, weight_sum(&[2000, 100 + 10]));
    assert_eq!(chain.pallet.head_receipt_number(DOMAIN), head_before);
    assert!(chain.pallet.staking.pending_slashes.get(&DOMAIN).unwrap().contains(0));
    assert_eq!(
        chain.pallet.events[events_before..].to_vec(),
        vec![
            Event::FraudProofProcessed { domain_id: DOMAIN, new_head_receipt_number: None },
            Event::OperatorSlashed { operator_id: 0, reason: SlashedReason::BundleEquivocation(slot) },
        ]
    );
}

#[test]
fn equivocation_needs_two_headers_of_one_slot() {
    let mut chain = Chain::new(8);
    chain.produce_blocks(3);
    let mut proof = equivocation(&mut chain);
    proof.second_header = proof.first_header.clone();
    assert_eq!(
        chain.pallet.validate_fraud_proof(&FraudProof::BundleEquivocation(proof), true),
        Err(FraudProofError::BadBundleEquivocationFraudProof)
    );
    let mut proof = equivocation(&mut chain);
    proof.slot += 1;
    assert_eq!(
        chain.pallet.validate_fraud_proof(&FraudProof::BundleEquivocation(proof), true),
        Err(FraudProofError::BadBundleEquivocationFraudProof)
    );
    let mut proof = equivocation(&mut chain);
    proof.second_header.signature = vec![0; 64];
    assert_eq!(
        chain.pallet.validate_fraud_proof(&FraudProof::BundleEquivocation(proof), true),
        Err(FraudProofError::BadBundleEquivocationFraudProof)
    );
    let mut proof = equivocation(&mut chain);
    proof.first_header.header.proof_of_election.operator_id = 5;
    proof.second_header.header.proof_of_election.operator_id = 5;
    assert_eq!(
        chain.pallet.validate_fraud_proof(&FraudProof::BundleEquivocation(proof), true),
        Err(FraudProofError::MissingOperator)
    );
}

#[test]
fn confirmation_triggers_epoch() {
    let mut chain = Chain::new(2);
    // The receipt of block 21 confirms block 19.
    chain.produce_blocks(22);
    assert_eq!(chain.pallet.latest_confirmed_domain_block_number(DOMAIN), 19);
    let epoch_before = chain.pallet.staking.domain_staking_summary.get(&DOMAIN).unwrap().current_epoch_index;
    assert_eq!(epoch_before, 2);
    let stake_before = *chain
        .pallet
        .staking
        .domain_staking_summary
        .get(&DOMAIN)
        .unwrap()
        .current_operators
        .get(&0)
        .unwrap();
    let total_before =
        chain.pallet.staking.domain_staking_summary.get(&DOMAIN).unwrap().current_total_stake;
    let fund_before = chain.pallet.storage_fund_account_balance(0);
    let events_before = chain.pallet.events.len();
    // The receipt of block 22 confirms block 20, and with it the epoch ends.
    chain.begin_block();
    let receipt = chain.receipt(22, 4022);
    chain.receipts.push(receipt.clone());
    let bundle = chain.bundle(receipt, vec![vec![22]]);
    chain
        .pallet
        .pre_dispatch(&Call::SubmitBundle { opaque_bundle: bundle.clone() }, &good_evidence())
        .unwrap();
    let charged = chain.pallet.storage_fund_account_balance(0);
    assert_eq!(charged, fund_before - bundle.size() as u128);
    let weight = chain.pallet.submit_bundle(Origin::Unsigned, bundle).unwrap();
    assert_eq!(chain.pallet.latest_confirmed_domain_block_number(DOMAIN), 20);
    let summary = chain.pallet.staking.domain_staking_summary.get(&DOMAIN).unwrap();
    assert_eq!(summary.current_epoch_index, epoch_before + 1);
    assert!(chain.pallet.events[events_before..].contains(&Event::DomainEpochCompleted {
        domain_id: DOMAIN,
        completed_epoch_index: epoch_before,
    }));
    let last = chain.pallet.staking.last_epoch_staking_distribution.get(&DOMAIN).unwrap();
    assert_eq!(last.operators.get(&0), Some(&stake_before));
    assert_eq!(last.total_domain_stake, total_before);
    // The storage fee of the confirmed block went back to the fund of the operator.
    assert_eq!(chain.pallet.storage_fund_account_balance(0), charged + 6);
    // Ten blocks were confirmed in the epoch, with an execution fee of 40 each: the
    // operator keeps a twentieth of the reward, and all of it is staked.
    let operator = *chain.pallet.staking.operators.get(&0).unwrap();
    assert_eq!(operator.current_total_stake, stake_before + 400);
    assert_eq!(summary.current_operators.get(&0), Some(&(stake_before + 400)));
    assert!(chain.pallet.events[events_before..].contains(&Event::OperatorRewarded {
        operator_id: 0,
        reward: 400,
    }));
    assert!(chain.pallet.events[events_before..].contains(&Event::OperatorTaxCollected {
        operator_id: 0,
        tax: 20,
    }));
    // The call, the confirmation with one submitter, and the epoch transition with
    // one rewarded and one settled operator.
    assert_eq!(weight, weight_sum(&[1000, 200 + 20, 300 + 3, 400, 500 + 5]));
    // A bundle in the same consensus block is elected by the stake of the epoch that
    // ended.
    assert_eq!(
        chain.pallet.fetch_operator_stake_info(DOMAIN, &0),
        Ok((stake_before, total_before))
    );
    chain.pallet.on_finalize();
    assert_eq!(
        chain.pallet.fetch_operator_stake_info(DOMAIN, &0),
        Ok((stake_before + 400, stake_before + 400))
    );
}

#[test]
fn head_never_falls_below_confirmed() {
    let mut chain = Chain::new(3);
    for _ in 0..12 {
        chain.produce_block();
        assert!(
            chain.pallet.head_receipt_number(DOMAIN)
                >= chain.pallet.latest_confirmed_domain_block_number(DOMAIN)
        );
    }
    assert_eq!(chain.pallet.head_receipt_number(DOMAIN), 11);
    assert_eq!(chain.pallet.latest_confirmed_domain_block_number(DOMAIN), 8);
    assert_eq!(chain.pallet.oldest_unconfirmed_receipt_number(DOMAIN), Some(9));
    let oldest = chain.receipts[9].hash();
    chain
        .pallet
        .submit_fraud_proof(Origin::Unsigned, FraudProof::ValidBundle(bad_receipt_proof(oldest)))
        .unwrap();
    assert_eq!(chain.pallet.head_receipt_number(DOMAIN), 8);
    assert_eq!(chain.pallet.latest_confirmed_domain_block_number(DOMAIN), 8);
    assert_eq!(chain.pallet.oldest_unconfirmed_receipt_number(DOMAIN), None);
}

#[test]
fn genesis_receipt_is_unchallengeable() {
    let mut chain = Chain::new(8);
    chain.produce_blocks(3);
    let genesis = chain.receipts[0].hash();
    let fraud_proof = FraudProof::InvalidBlockFees(bad_receipt_proof(genesis));
    assert_eq!(
        chain.pallet.validate_fraud_proof(&fraud_proof, true),
        Err(FraudProofError::ChallengingGenesisReceipt)
    );
    // So is a proof that names another domain, of whatever kind.
    let mut elsewhere = bad_receipt_proof(genesis);
    elsewhere.domain_id = 9;
    for proof_verified in [true, false] {
        assert_eq!(
            chain.pallet.validate_fraud_proof(
                &FraudProof::InvalidStateTransition(elsewhere.clone()),
                proof_verified
            ),
            Err(FraudProofError::ChallengingGenesisReceipt)
        );
        assert_eq!(
            chain.pallet.validate_fraud_proof(
                &FraudProof::Other {
                    domain_id: 9,
                    bad_receipt_hash: Some(genesis),
                    proof: vec![]
                },
                proof_verified
            ),
            Err(FraudProofError::ChallengingGenesisReceipt)
        );
    }
    assert_eq!(
        chain.pallet.submit_fraud_proof(Origin::Unsigned, fraud_proof),
        Err(DispatchError::Module(Error::FraudProof(FraudProofError::BadReceiptNotFound)))
    );
    assert_eq!(chain.pallet.block_tree.prune_receipt(DOMAIN, 0), Ok(None));
    assert_eq!(chain.pallet.receipt_hash(DOMAIN, 0), Some(genesis));
    // The receipt of block zero outlives every confirmation.
    chain.produce_blocks(20);
    assert_eq!(chain.pallet.receipt_hash(DOMAIN, 0), Some(genesis));
    assert!(chain.pallet.execution_receipt(&genesis).is_some());
    assert!(chain.pallet.non_empty_er_exists(DOMAIN));
}

#[test]
fn fraud_proof_gate() {
    let mut chain = Chain::new(8);
    chain.produce_blocks(5);
    let unknown = H256::from_low_u64(0xdead);
    assert_eq!(
        chain.pallet.validate_fraud_proof(&FraudProof::InvalidBundles(bad_receipt_proof(unknown)), true),
        Err(FraudProofError::BadReceiptNotFound)
    );
    assert_eq!(
        chain.pallet.receipts_to_verify(&FraudProof::InvalidBundles(bad_receipt_proof(unknown))),
        (None, None)
    );
    let receipt_3 = chain.receipts[3].hash();
    // A proof is verified against its receipt, and against the receipt of the parent
    // block where its kind needs it.
    assert_eq!(
        chain.pallet.receipts_to_verify(&FraudProof::InvalidBundles(bad_receipt_proof(receipt_3))),
        (Some(&chain.receipts[3]), Some(&chain.receipts[2]))
    );
    assert_eq!(
        chain.pallet.receipts_to_verify(&FraudProof::InvalidBlockFees(bad_receipt_proof(receipt_3))),
        (Some(&chain.receipts[3]), None)
    );
    let proofs = vec![
        (FraudProof::InvalidBlockFees(bad_receipt_proof(receipt_3)), FraudProofError::InvalidBlockFeesFraudProof),
        (FraudProof::InvalidTransfers(bad_receipt_proof(receipt_3)), FraudProofError::InvalidTransfersFraudProof),
        (
            FraudProof::InvalidDomainBlockHash(bad_receipt_proof(receipt_3)),
            FraudProofError::InvalidDomainBlockHashFraudProof,
        ),
        (
            FraudProof::InvalidExtrinsicsRoot(bad_receipt_proof(receipt_3)),
            FraudProofError::InvalidExtrinsicRootFraudProof,
        ),
        (
            FraudProof::InvalidStateTransition(bad_receipt_proof(receipt_3)),
            FraudProofError::InvalidStateTransitionFraudProof,
        ),
        (FraudProof::InvalidBundles(bad_receipt_proof(receipt_3)), FraudProofError::InvalidBundleFraudProof),
        (FraudProof::ValidBundle(bad_receipt_proof(receipt_3)), FraudProofError::BadValidBundleFraudProof),
    ];
    for (proof, error) in proofs {
        assert_eq!(chain.pallet.validate_fraud_proof(&proof, false), Err(error));
        assert_eq!(
            chain.pallet.validate_fraud_proof(&proof, true),
            Ok((FraudProofTag::BadER(DOMAIN), u64::MAX - 3))
        );
    }
    assert_eq!(
        chain.pallet.validate_fraud_proof(
            &FraudProof::Other { domain_id: DOMAIN, bad_receipt_hash: Some(receipt_3), proof: vec![] },
            true
        ),
        Err(FraudProofError::UnexpectedFraudProof)
    );
    assert_eq!(
        chain.pallet.validate_fraud_proof(
            &FraudProof::Other { domain_id: DOMAIN, bad_receipt_hash: None, proof: vec![] },
            true
        ),
        Err(FraudProofError::UnexpectedFraudProof)
    );
    // A proof that names another domain: the receipt is above the head of that
    // domain, whatever the proof holds.
    let mut elsewhere = bad_receipt_proof(receipt_3);
    elsewhere.domain_id = 9;
    let elsewhere = FraudProof::InvalidBlockFees(elsewhere);
    assert_eq!(
        chain.pallet.validate_fraud_proof(&elsewhere, true),
        Err(FraudProofError::BadReceiptAlreadyReported)
    );
    assert_eq!(
        chain.pallet.validate_fraud_proof(&elsewhere, false),
        Err(FraudProofError::BadReceiptAlreadyReported)
    );
    // Once the head of that domain is high enough, the proof is looked at first, and
    // only then the receipt is found not to be a receipt of that domain.
    chain.pallet.block_tree.head_receipt_number.insert(9, 5);
    assert_eq!(
        chain.pallet.validate_fraud_proof(&elsewhere, false),
        Err(FraudProofError::InvalidBlockFeesFraudProof)
    );
    assert_eq!(
        chain.pallet.validate_fraud_proof(&elsewhere, true),
        Err(FraudProofError::BadReceiptNotFound)
    );
    let state = chain.pallet.block_tree.head_receipt_number.len();
    assert_eq!(
        chain.pallet.submit_fraud_proof(Origin::Unsigned, elsewhere),
        Err(DispatchError::Module(Error::FraudProof(FraudProofError::BadReceiptNotFound)))
    );
    assert_eq!(chain.pallet.block_tree.head_receipt_number.len(), state);
    assert_eq!(chain.pallet.head_receipt_number(DOMAIN), 4);
}

#[test]
fn fraud_proof_needs_the_parent_receipt() {
    let mut chain = Chain::new(8);
    chain.produce_blocks(5);
    let receipt_3 = chain.receipts[3].hash();
    let receipt_2 = chain.receipts[2].hash();
    // Take the parent out of the tree behind the back of the tree.
    let node: BlockTreeNode = chain.pallet.block_tree.block_tree_nodes.remove(&receipt_2).unwrap();
    assert_eq!(node.execution_receipt.domain_block_number, 2);
    for proof in [
        FraudProof::InvalidDomainBlockHash(bad_receipt_proof(receipt_3)),
        FraudProof::InvalidStateTransition(bad_receipt_proof(receipt_3)),
        FraudProof::InvalidBundles(bad_receipt_proof(receipt_3)),
    ] {
        assert_eq!(
            chain.pallet.validate_fraud_proof(&proof, true),
            Err(FraudProofError::ParentReceiptNotFound)
        );
    }
    assert_eq!(
        chain.pallet.validate_fraud_proof(&FraudProof::InvalidBlockFees(bad_receipt_proof(receipt_3)), true),
        Ok((FraudProofTag::BadER(DOMAIN), u64::MAX - 3))
    );
}

#[test]
fn bundle_checks_in_order() {
    let mut chain = Chain::new(100);
    chain.produce_blocks(3);
    chain.begin_block();
    let receipt = chain.receipt(3, 4004);
    let good = chain.bundle(receipt.clone(), vec![vec![1, 2, 3]]);
    let validate = |chain: &Chain, bundle: &OpaqueBundle| {
        chain.pallet.validate_bundle(bundle, true, &good_slots(), &good_checks())
    };
    assert_eq!(validate(&chain, &good), Ok(()));

    let mut bundle = good.clone();
    bundle.sealed_header.header.proof_of_election.operator_id = 17;
    assert_eq!(validate(&chain, &bundle), Err(BundleError::InvalidOperatorId));

    let mut bundle = good.clone();
    bundle.sealed_header.signature[0] ^= 1;
    assert_eq!(validate(&chain, &bundle), Err(BundleError::BadBundleSignature));

    let mut bundle = good.clone();
    bundle.sealed_header.signature = vec![1, 2, 3];
    assert_eq!(validate(&chain, &bundle), Err(BundleError::BadBundleSignature));

    let resign = |chain: &Chain, bundle: &mut OpaqueBundle| {
        bundle.sealed_header.signature =
            chain.pair.sign(&bundle.sealed_header.pre_hash().to_bytes()).0.to_vec();
    };

    let mut bundle = good.clone();
    bundle.sealed_header.header.proof_of_election.domain_id = 5;
    resign(&chain, &mut bundle);
    assert_eq!(validate(&chain, &bundle), Err(BundleError::InvalidDomainId));

    let mut bundle = good.clone();
    bundle.extrinsics = vec![vec![0; 1_000_001]];
    bundle.sealed_header.header.bundle_extrinsics_root = extrinsics_root(&bundle.extrinsics);
    resign(&chain, &mut bundle);
    assert_eq!(bundle.body_size(), 1_000_005);
    assert_eq!(validate(&chain, &bundle), Err(BundleError::BundleTooLarge));

    let mut bundle = good.clone();
    bundle.sealed_header.header.estimated_bundle_weight = Weight { ref_time: 1_000_001, proof_size: 0 };
    resign(&chain, &mut bundle);
    assert_eq!(validate(&chain, &bundle), Err(BundleError::BundleTooHeavy));

    let mut bundle = good.clone();
    bundle.sealed_header.header.estimated_bundle_weight =
        Weight { ref_time: 1_000_000, proof_size: 6_000_000 };
    resign(&chain, &mut bundle);
    assert_eq!(validate(&chain, &bundle), Ok(()));

    let mut bundle = good.clone();
    bundle.extrinsics.push(vec![9]);
    assert_eq!(validate(&chain, &bundle), Err(BundleError::InvalidExtrinsicRoot));

    assert_eq!(
        chain.pallet.validate_bundle(
            &good,
            true,
            &good_slots(),
            &ProofChecks { proof_of_time_valid: false, vrf_signature_valid: true }
        ),
        Err(BundleError::InvalidProofOfTime)
    );
    assert_eq!(
        chain.pallet.validate_bundle(
            &good,
            true,
            &good_slots(),
            &ProofChecks { proof_of_time_valid: true, vrf_signature_valid: false }
        ),
        Err(BundleError::BadVrfSignature)
    );

    let mut bundle = good.clone();
    bundle.sealed_header.header.proof_of_election.vrf_signature.output =
        H256 { w0: u64::MAX, w1: u64::MAX, w2: 0, w3: 0 };
    resign(&chain, &mut bundle);
    assert_eq!(validate(&chain, &bundle), Err(BundleError::ThresholdUnsatisfied));

    let mut bundle = good.clone();
    bundle.sealed_header.header.receipt.domain_block_number = 7;
    resign(&chain, &mut bundle);
    assert_eq!(validate(&chain, &bundle), Err(BundleError::Receipt(BlockTreeError::InFutureReceipt)));

    // An operator that takes part only from the next epoch on is not elected.
    let other = key_pair(33);
    chain.pallet.currency.mint_into(&H256::from_low_u64(3), 10_000);
    chain
        .pallet
        .register_operator(
            Origin::Signed(H256::from_low_u64(3)),
            DOMAIN,
            500,
            OperatorConfig { signing_key: public_key(&other), minimum_nominator_stake: 10, nomination_tax: 0 },
        )
        .unwrap();
    let mut bundle = good.clone();
    bundle.sealed_header.header.proof_of_election.operator_id = 1;
    bundle.sealed_header.signature = other.sign(&bundle.sealed_header.pre_hash().to_bytes()).0.to_vec();
    assert_eq!(validate(&chain, &bundle), Err(BundleError::BadOperator));
}

#[test]
fn bundle_slot_must_be_fresh() {
    let mut chain = Chain::new(100);
    chain.produce_blocks(9);
    chain.begin_block();
    let receipt = chain.receipt(9, 4010);
    let bundle = chain.bundle(receipt, vec![]);
    let slot = bundle.sealed_header.slot_number();
    let check = |pre_dispatch: bool, slots: SlotInfo| {
        chain.pallet.validate_bundle(&bundle, pre_dispatch, &slots, &good_checks())
    };
    assert_eq!(
        check(true, SlotInfo { future_slot: Some(slot - 1), slot_produced_after: Some(9) }),
        Err(BundleError::SlotInTheFuture)
    );
    // The pool does not look at the future slot.
    assert_eq!(check(false, SlotInfo { future_slot: Some(slot - 1), slot_produced_after: Some(9) }), Ok(()));
    assert_eq!(check(true, SlotInfo { future_slot: Some(slot), slot_produced_after: Some(9) }), Ok(()));
    assert_eq!(check(true, SlotInfo { future_slot: None, slot_produced_after: Some(5) }), Ok(()));
    assert_eq!(
        check(true, SlotInfo { future_slot: None, slot_produced_after: Some(4) }),
        Err(BundleError::SlotInThePast)
    );
    // At block 10 with a longevity of 5 the chain is longer than a bundle lives.
    assert_eq!(
        check(true, SlotInfo { future_slot: None, slot_produced_after: None }),
        Err(BundleError::SlotInThePast)
    );
    assert_eq!(chain.pallet.proof_of_time_block_hash(10), block_hash(9));
    assert_eq!(chain.pallet.proof_of_time_block_hash(7), block_hash(7));
}

#[test]
fn receipts_are_classified() {
    let mut chain = Chain::new(3);
    chain.produce_blocks(8);
    // The head is at 7, and block 4 is confirmed.
    assert_eq!(chain.pallet.head_receipt_number(DOMAIN), 7);
    assert_eq!(chain.pallet.latest_confirmed_domain_block_number(DOMAIN), 4);
    chain.begin_block();
    let tree = &chain.pallet.block_tree;
    let classify = |receipt: &ExecutionReceipt| tree.execution_receipt_type(DOMAIN, receipt);
    assert_eq!(classify(&chain.receipts[7]), ReceiptType::Accepted(AcceptedReceiptType::CurrentHead));
    assert_eq!(classify(&chain.receipt(8, 1)), ReceiptType::Accepted(AcceptedReceiptType::NewHead));
    assert_eq!(classify(&chain.receipts[4]), ReceiptType::Rejected(RejectedReceiptType::Stale));
    assert_eq!(classify(&chain.receipts[0]), ReceiptType::Rejected(RejectedReceiptType::Stale));
    assert_eq!(classify(&chain.receipts[6]), ReceiptType::Rejected(RejectedReceiptType::Stale));
    let mut future = chain.receipt(8, 1);
    future.domain_block_number = 9;
    assert_eq!(classify(&future), ReceiptType::Rejected(RejectedReceiptType::InFuture));
    let mut orphan = chain.receipt(8, 1);
    orphan.parent_domain_block_receipt_hash = H256::from_low_u64(404);
    assert_eq!(classify(&orphan), ReceiptType::Rejected(RejectedReceiptType::UnknownParent));
    let mut unknown = chain.receipt(8, 1);
    unknown.consensus_block_hash = H256::from_low_u64(405);
    assert_eq!(
        classify(&unknown),
        ReceiptType::Rejected(RejectedReceiptType::BuiltOnUnknownConsensusBlock)
    );
    let mut unavailable = chain.receipt(8, 1);
    unavailable.consensus_block_number = 100;
    assert_eq!(
        classify(&unavailable),
        ReceiptType::Rejected(RejectedReceiptType::UnavailableConsensusBlockHash)
    );
    let branch = chain.receipt(6, 12345);
    assert_eq!(classify(&branch), ReceiptType::Rejected(RejectedReceiptType::NewBranch));
    let head_branch = chain.receipt(7, 12345);
    assert_eq!(classify(&head_branch), ReceiptType::Rejected(RejectedReceiptType::NewBranch));
    assert_eq!(
        tree.verify_execution_receipt(DOMAIN, &branch),
        Err(BlockTreeError::NewBranchReceipt)
    );
    assert_eq!(tree.verify_execution_receipt(DOMAIN, &chain.receipts[7]), Ok(()));
}

#[test]
fn submit_bundle_refuses_what_the_tree_refuses() {
    let mut chain = Chain::new(3);
    chain.produce_blocks(5);
    chain.begin_block();
    let stale = chain.receipts[1].clone();
    let bundle = chain.bundle(stale, vec![]);
    let events = chain.pallet.events.len();
    assert_eq!(
        chain.pallet.submit_bundle(Origin::Unsigned, bundle.clone()),
        Err(DispatchError::Module(Error::BlockTree(BlockTreeError::StaleReceipt)))
    );
    assert_eq!(
        chain.pallet.submit_bundle(Origin::Root, bundle.clone()),
        Err(DispatchError::BadOrigin)
    );
    assert_eq!(
        chain.pallet.submit_bundle(Origin::Signed(owner()), bundle),
        Err(DispatchError::BadOrigin)
    );
    assert_eq!(chain.pallet.events.len(), events);
    assert_eq!(chain.pallet.successful_bundles(DOMAIN), vec![]);
}

#[test]
fn head_domain_number_cannot_pass_the_largest() {
    let mut chain = Chain::new(100);
    chain.produce_blocks(2);
    chain.begin_block();
    chain.pallet.block_tree.head_domain_number.insert(DOMAIN, u32::MAX);
    let receipt = chain.receipt(2, 1);
    let bundle = chain.bundle(receipt, vec![]);
    assert_eq!(
        chain.pallet.submit_bundle(Origin::Unsigned, bundle),
        Err(DispatchError::Module(Error::BlockTree(BlockTreeError::MaxHeadDomainNumber)))
    );
    assert_eq!(chain.pallet.head_receipt_number(DOMAIN), 1);
}

#[test]
fn invalid_bundle_authors_are_slashed_on_confirmation() {
    // The receipt of block 1 holds the bundle of the block invalid, and the receipt
    // of block 3 confirms block 1.
    let mut chain = Chain::new(2);
    chain.produce_block();
    chain.begin_block();
    let mut receipt = chain.receipt(1, 4002);
    receipt.bundle_digests[0].is_invalid = true;
    chain.receipts.push(receipt.clone());
    let bundle = chain.bundle(receipt, vec![vec![2]]);
    chain.pallet.submit_bundle(Origin::Unsigned, bundle).unwrap();
    chain.produce_block();
    let events_before = chain.pallet.events.len();
    chain.begin_block();
    let receipt = chain.receipt(3, 4004);
    chain.receipts.push(receipt.clone());
    let bundle = chain.bundle(receipt, vec![vec![4]]);
    let weight = chain.pallet.submit_bundle(Origin::Unsigned, bundle).unwrap();
    assert_eq!(chain.pallet.latest_confirmed_domain_block_number(DOMAIN), 1);
    assert!(chain.pallet.events[events_before..].contains(&Event::OperatorSlashed {
        operator_id: 0,
        reason: SlashedReason::InvalidBundle(1),
    }));
    // The call and the confirmation with one submitter and one invalid author.
    assert_eq!(weight, weight_sum(&[1000, 200 + 20 + 30]));
    // The inbox row of the confirmed block and the author of its bundle are gone.
    assert!(chain.pallet.block_tree.execution_inbox.get(&(DOMAIN, 1, 1)).is_none());
    assert!(chain.pallet.block_tree.consensus_block_hash.get(&(DOMAIN, 1)).is_none());
    assert_eq!(chain.pallet.block_tree.inboxed_bundle_author.len(), 3);
}

#[test]
fn pool_takes_valid_bundles_and_fraud_proofs() {
    let mut chain = Chain::new(8);
    chain.produce_blocks(4);
    chain.begin_block();
    let receipt = chain.receipt(4, 1);
    let bundle = chain.bundle(receipt, vec![vec![1; 10]]);
    let call = Call::SubmitBundle { opaque_bundle: bundle.clone() };
    let valid = chain.pallet.validate_unsigned(TransactionSource::External, &call, &good_evidence()).unwrap();
    assert_eq!(valid.priority, 1);
    assert_eq!(valid.longevity, 100);
    assert!(valid.propagate);
    assert!(valid.requires.is_empty());
    let mut tag = vec![20 << 2];
    tag.extend_from_slice(b"SubspaceSubmitBundle");
    tag.extend_from_slice(&bundle.hash().to_bytes());
    assert_eq!(valid.provides, vec![tag]);
    let mut hash = [0u8; 32];
    hash.copy_from_slice(&bundle.hash().to_bytes());
    let built = sp_runtime::transaction_validity::ValidTransaction::with_tag_prefix(
        "SubspaceSubmitBundle",
    )
    .priority(1)
    .longevity(100)
    .and_provides(sp_core::H256(hash))
    .propagate(true)
    .build()
    .unwrap();
    assert_eq!(valid.provides, built.provides);
    assert_eq!(valid.requires, built.requires);
    assert_eq!((valid.priority, valid.longevity, valid.propagate), (built.priority, built.longevity, built.propagate));

    let mut no_proof_of_time = good_evidence();
    no_proof_of_time.checks.proof_of_time_valid = false;
    assert_eq!(
        chain.pallet.validate_unsigned(TransactionSource::External, &call, &no_proof_of_time),
        Err(InvalidTransaction::Custom(103))
    );
    let mut stale = bundle.clone();
    stale.sealed_header.header.receipt = chain.receipts[1].clone();
    stale.sealed_header.signature =
        chain.pair.sign(&stale.sealed_header.pre_hash().to_bytes()).0.to_vec();
    assert_eq!(
        chain.pallet.validate_unsigned(
            TransactionSource::External,
            &Call::SubmitBundle { opaque_bundle: stale },
            &good_evidence()
        ),
        Err(InvalidTransaction::Custom(102))
    );
    chain.pallet.storage_fund.funds.insert(0, 3);
    assert_eq!(
        chain.pallet.validate_unsigned(TransactionSource::External, &call, &good_evidence()),
        Err(InvalidTransaction::Custom(105))
    );
    assert_eq!(chain.pallet.pre_dispatch(&call, &good_evidence()), Err(InvalidTransaction::Custom(105)));
    assert_eq!(chain.pallet.pre_dispatch(&call, &no_proof_of_time), Err(InvalidTransaction::Call));
    assert_eq!(chain.pallet.storage_fund_account_balance(0), 3);

    let fraud_proof = FraudProof::InvalidBlockFees(bad_receipt_proof(chain.receipts[3].hash()));
    let call = Call::SubmitFraudProof { fraud_proof };
    let valid = chain.pallet.validate_unsigned(TransactionSource::Local, &call, &good_evidence()).unwrap();
    assert_eq!(valid.priority, u64::MAX - 3);
    assert_eq!(valid.longevity, u64::MAX);
    let mut tag = vec![24 << 2];
    tag.extend_from_slice(b"SubspaceSubmitFraudProof");
    tag.extend_from_slice(&[0, 0, 0, 0, 0]);
    assert_eq!(valid.provides, vec![tag]);
    let mut unverified = good_evidence();
    unverified.fraud_proof_verified = false;
    assert_eq!(
        chain.pallet.validate_unsigned(TransactionSource::Local, &call, &unverified),
        Err(InvalidTransaction::Custom(104))
    );
    assert_eq!(chain.pallet.pre_dispatch(&call, &unverified), Err(InvalidTransaction::Call));
    assert_eq!(chain.pallet.pre_dispatch(&call, &good_evidence()), Ok(()));
    let signed = Call::UnlockFunds { operator_id: 0 };
    assert_eq!(
        chain.pallet.validate_unsigned(TransactionSource::InBlock, &signed, &good_evidence()),
        Err(InvalidTransaction::Call)
    );
    assert_eq!(chain.pallet.pre_dispatch(&signed, &good_evidence()), Err(InvalidTransaction::Call));
    assert_eq!(signed.index(), 10);
    assert_eq!(call.index(), 1);
    assert_eq!(Call::DeregisterOperator { operator_id: 0 }.index(), 8);
    assert_eq!(Call::InstantiateDomain {
        domain_config: domain_config(),
        genesis_state_root: H256::zero(),
        genesis_block_hash: H256::zero(),
    }.index(), 6);
    assert_eq!(
        Call::SetPermissionedActionAllowedBy {
            permissioned_action_allowed_by: PermissionedActionAllowedBy::Anyone
        }
        .index(),
        14
    );

    let proof = equivocation(&mut chain);
    let call = Call::SubmitFraudProof { fraud_proof: FraudProof::BundleEquivocation(proof) };
    let valid = chain.pallet.validate_unsigned(TransactionSource::Local, &call, &good_evidence()).unwrap();
    assert_eq!(valid.priority, u64::MAX - 9);
    let mut tag = vec![24 << 2];
    tag.extend_from_slice(b"SubspaceSubmitFraudProof");
    tag.extend_from_slice(&[1, 0, 0, 0, 0, 0, 0, 0, 0]);
    assert_eq!(valid.provides, vec![tag]);
}

#[test]
fn inbox_digest_is_kept_until_confirmation() {
    let mut chain = Chain::new(2);
    let first = chain.produce_block();
    let digest = BundleDigest {
        header_hash: first.sealed_header.pre_hash(),
        extrinsics_root: first.extrinsics_root(),
        size: first.size(),
    };
    assert_eq!(chain.pallet.block_tree.execution_inbox.get(&(DOMAIN, 1, 1)), Some(&vec![digest]));
    assert_eq!(chain.pallet.block_tree.inboxed_bundle_author.get(&digest.header_hash), Some(&0));
    chain.produce_blocks(3);
    assert!(chain.pallet.block_tree.execution_inbox.get(&(DOMAIN, 1, 1)).is_some());
    chain.produce_blocks(4);
    assert_eq!(chain.pallet.latest_confirmed_domain_block(DOMAIN), Some((1, H256::from_low_u64(1001))));
    assert!(chain.pallet.block_tree.execution_inbox.get(&(DOMAIN, 1, 1)).is_none());
    assert!(chain.pallet.block_tree.inboxed_bundle_author.get(&digest.header_hash).is_none());
}

#[test]
fn bundle_limit_must_be_calculable() {
    let mut chain = Chain::new(100);
    chain.produce_blocks(2);
    chain.begin_block();
    let receipt = chain.receipt(2, 1);
    let bundle = chain.bundle(receipt, vec![]);
    let mut domain = chain.pallet.registry.domain_registry.remove(&DOMAIN).unwrap();
    domain.domain_config.bundle_slot_probability = (1, 7);
    chain.pallet.registry.domain_registry.insert(DOMAIN, domain);
    assert_eq!(
        chain.pallet.validate_bundle(&bundle, true, &good_slots(), &good_checks()),
        Err(BundleError::UnableToCalculateBundleLimit)
    );
}

#[test]
fn tree_that_names_a_receipt_without_holding_it() {
    let mut chain = Chain::new(2);
    chain.produce_blocks(4);
    let receipt_2 = chain.receipts[2].hash();
    let node = chain.pallet.block_tree.block_tree_nodes.remove(&receipt_2).unwrap();
    assert_eq!(
        chain.pallet.block_tree.prune_receipt(DOMAIN, 2),
        Err(BlockTreeError::MissingDomainBlock)
    );
    assert_eq!(chain.pallet.receipt_hash(DOMAIN, 2), Some(receipt_2));
    // The receipt of block 4 would confirm block 2.
    chain.begin_block();
    let receipt = chain.receipt(4, 1);
    let bundle = chain.bundle(receipt.clone(), vec![]);
    let head = chain.pallet.head_receipt_number(DOMAIN);
    assert_eq!(
        chain.pallet.submit_bundle(Origin::Unsigned, bundle.clone()),
        Err(DispatchError::Module(Error::BlockTree(BlockTreeError::MissingDomainBlock)))
    );
    assert_eq!(
        chain.pallet.block_tree.process_execution_receipt(DOMAIN, 0, receipt, AcceptedReceiptType::NewHead, 2),
        Err(BlockTreeError::MissingDomainBlock)
    );
    assert_eq!(chain.pallet.head_receipt_number(DOMAIN), head);
    assert_eq!(chain.pallet.successful_bundles(DOMAIN), vec![]);
    // A vote for a head that the tree does not hold fails as well.
    let head_receipt = chain.receipts[3].clone();
    let head_node = chain.pallet.block_tree.block_tree_nodes.remove(&head_receipt.hash()).unwrap();
    assert_eq!(
        chain.pallet.block_tree.process_execution_receipt(
            DOMAIN,
            0,
            head_receipt.clone(),
            AcceptedReceiptType::CurrentHead,
            2
        ),
        Err(BlockTreeError::MissingDomainBlock)
    );
    chain.pallet.block_tree.block_tree_nodes.insert(head_receipt.hash(), head_node);
    chain.pallet.block_tree.block_tree_nodes.insert(receipt_2, node);
    assert_eq!(chain.pallet.submit_bundle(Origin::Unsigned, bundle), Ok(weight_sum(&[1000, 200 + 20])));
    assert_eq!(chain.pallet.latest_confirmed_domain_block_number(DOMAIN), 2);
}

#[test]
fn votes_for_the_head_are_counted_once() {
    let mut chain = Chain::new(100);
    chain.produce_blocks(3);
    let head = chain.receipts[2].clone();
    for extrinsic in [1u8, 2, 3] {
        let bundle = chain.bundle(head.clone(), vec![vec![extrinsic]]);
        chain.pallet.submit_bundle(Origin::Unsigned, bundle).unwrap();
    }
    let node = chain.pallet.block_tree.block_tree_nodes.get(&head.hash()).unwrap();
    assert_eq!(node.operator_ids, vec![0]);
    assert_eq!(chain.pallet.block_tree.latest_submitted_er.get(&(DOMAIN, 0)), Some(&2));
    assert_eq!(chain.pallet.successful_bundles(DOMAIN).len(), 4);
}

struct KnownSlots {
    future_slot: Option<u64>,
    produced_after: Option<u32>,
}

impl BlockSlot for KnownSlots {
    fn future_slot(&self, _block_number: u32) -> Option<u64> {
        self.future_slot
    }

    fn slot_produced_after(&self, _to_check: u64) -> Option<u32> {
        self.produced_after
    }
}

#[test]
fn bundle_is_checked_against_the_slots_of_the_chain() {
    let mut chain = Chain::new(100);
    chain.produce_blocks(9);
    chain.begin_block();
    let receipt = chain.receipt(9, 4010);
    let bundle = chain.bundle(receipt, vec![]);
    let slot = bundle.sealed_header.slot_number();
    let check = |pre_dispatch: bool, future_slot: Option<u64>, produced_after: Option<u32>| {
        chain.pallet.validate_bundle_at(
            &bundle,
            pre_dispatch,
            &KnownSlots { future_slot, produced_after },
            &good_checks(),
        )
    };
    assert_eq!(check(true, Some(slot), Some(9)), Ok(()));
    assert_eq!(check(true, Some(slot - 1), Some(9)), Err(BundleError::SlotInTheFuture));
    assert_eq!(check(false, Some(slot - 1), Some(9)), Ok(()));
    assert_eq!(check(true, None, Some(4)), Err(BundleError::SlotInThePast));
    assert_eq!(check(true, None, None), Err(BundleError::SlotInThePast));
}

#[test]
fn the_tree_stays_in_order() {
    let mut chain = Chain::new(3);
    let in_order = |chain: &Chain| {
        let tree = &chain.pallet.block_tree;
        let head = chain.pallet.head_receipt_number(DOMAIN);
        let confirmed = chain.pallet.latest_confirmed_domain_block_number(DOMAIN);
        assert!(confirmed <= head && head <= confirmed + 3);
        for number in 1..=head + 5 {
            let held = tree.block_tree.get(&(DOMAIN, number)).is_some();
            if number <= confirmed || number > confirmed + 3 {
                assert!(!held);
            } else if number <= head {
                assert!(held);
            }
        }
        confirmed
    };
    assert_eq!(in_order(&chain), 0);
    let mut last = 0;
    for _ in 0..8 {
        chain.produce_block();
        let confirmed = in_order(&chain);
        assert!(confirmed >= last);
        last = confirmed;
    }
    // A fraud proof lowers the head and leaves the latest confirmed block.
    let head = chain.pallet.head_receipt_number(DOMAIN);
    let bad = chain.receipts[head as usize - 1].hash();
    chain
        .pallet
        .submit_fraud_proof(Origin::Unsigned, FraudProof::InvalidBlockFees(bad_receipt_proof(bad)))
        .unwrap();
    assert_eq!(chain.pallet.head_receipt_number(DOMAIN), head - 2);
    assert_eq!(in_order(&chain), last);
}

#[test]
fn a_bundle_is_measured_whole_and_by_its_extrinsics() {
    let mut chain = Chain::new(8);
    chain.produce_blocks(2);
    chain.begin_block();
    let receipt = chain.receipt(2, 4003);
    let bundle = chain.bundle(receipt, vec![vec![1, 2, 3], vec![4; 70]]);
    // Each extrinsic counts with its bytes and the bytes of its length.
    assert_eq!(bundle.body_size(), (1 + 3) + (2 + 70));
    assert_eq!(bundle.size() as usize, bundle.encode().len());
    assert!(bundle.size() > bundle.body_size());
    let fund_before = chain.pallet.storage_fund_account_balance(0);
    chain
        .pallet
        .pre_dispatch(&Call::SubmitBundle { opaque_bundle: bundle.clone() }, &good_evidence())
        .unwrap();
    assert_eq!(chain.pallet.storage_fund_account_balance(0), fund_before - bundle.size() as u128);
}
