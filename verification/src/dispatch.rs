//! The two unsigned calls: submitting a bundle and submitting a fraud proof.

use crate::block_tree::{
    AcceptedReceiptType, BlockTreeView, BundleDigest, ConfirmedInfo, ConfirmedInfoView,
    Error as BlockTreeError, ReceiptType,
};
use crate::bundle::OpaqueBundle;
use crate::config::MAX_BUNLDE_PER_BLOCK;
use crate::error::{ensure_none, DispatchError, Error, FraudProofError, Origin};
use crate::event::Event;
use crate::fraud_proof::FraudProof;
use crate::nomination::{count, count_of};
use crate::pallet::{Pallet, PalletView};
use crate::primitives::{DomainBlockNumber, DomainId, OperatorId, Weight, H256};
use crate::settlement::{lemma_rewards_keep_epochs, lemma_slash_keeps_epochs};
use crate::staking::SlashedReason;
use vstd::prelude::*;

verus! {

impl PalletView {
    /// The state after the receipt at the height is pruned as a bad receipt: it is
    /// out of the tree, and its submitters are slashed for it.
    pub open spec fn with_bad_receipt_handled(
        self,
        domain_id: DomainId,
        number: DomainBlockNumber,
    ) -> PalletView
        recommends
            self.block_tree.prunes(domain_id, number),
    {
        (PalletView {
            block_tree: self.block_tree.after_prune(domain_id, number),
            ..self
        }).with_slashes(
            self.block_tree.node_at(domain_id, number).operator_ids,
            SlashedReason::BadExecutionReceipt(self.block_tree.block_tree[(domain_id, number)]),
        )
    }

    /// The state with the bundle stored. The first bundle of a domain in a consensus
    /// block raises the number of the best block of the domain by one. The digest of
    /// the bundle goes to the inbox under the domain, that number and the consensus
    /// block that is built; its author is put on record under the hash of its header;
    /// and its hash joins the bundles taken in the block.
    pub open spec fn with_bundle_stored(
        self,
        domain_id: DomainId,
        operator_id: OperatorId,
        bundle_hash: H256,
        digest: BundleDigest,
    ) -> PalletView {
        let first = self.bundles_of(domain_id).len() == 0;
        let head = if first {
            (self.block_tree.head_domain(domain_id) + 1) as u32
        } else {
            self.block_tree.head_domain(domain_id)
        };
        let key = (domain_id, head, self.system.block_number);
        PalletView {
            block_tree: BlockTreeView {
                head_domain_number: if first {
                    self.block_tree.head_domain_number.insert(domain_id, head)
                } else {
                    self.block_tree.head_domain_number
                },
                execution_inbox: self.block_tree.execution_inbox.insert(
                    key,
                    self.block_tree.inbox_row(key).push(digest),
                ),
                inboxed_bundle_author: self.block_tree.inboxed_bundle_author.insert(
                    digest.header_hash,
                    operator_id,
                ),
                ..self.block_tree
            },
            successful_bundles: self.successful_bundles.insert(
                domain_id,
                self.bundles_of(domain_id).push(bundle_hash),
            ),
            events: self.events.push(
                Event::BundleStored { domain_id, bundle_hash, bundle_author: operator_id },
            ),
            ..self
        }
    }

    /// The digest that the inbox keeps of the bundle.
    pub open spec fn digest_of(bundle: OpaqueBundle) -> BundleDigest {
        BundleDigest {
            header_hash: bundle.sealed_header.spec_pre_hash(),
            extrinsics_root: bundle.sealed_header.header.bundle_extrinsics_root,
            size: bundle.spec_size(),
        }
    }

    /// The kind as which the tree takes the receipt of the bundle. Asked of a bundle
    /// whose receipt the tree takes.
    pub open spec fn receipt_kind(self, bundle: OpaqueBundle) -> AcceptedReceiptType {
        match self.block_tree.receipt_type(
            bundle.sealed_header.header.proof_of_election.domain_id,
            bundle.sealed_header.header.receipt,
        ) {
            ReceiptType::Accepted(kind) => kind,
            ReceiptType::Rejected(_) => AcceptedReceiptType::CurrentHead,
        }
    }

    /// Whether the receipt of the bundle, taken as a new head, replaces a bad receipt
    /// at its height.
    pub open spec fn replaces_bad_receipt(self, bundle: OpaqueBundle) -> bool {
        self.receipt_kind(bundle) == AcceptedReceiptType::NewHead && self.block_tree.prunes(
            bundle.sealed_header.header.proof_of_election.domain_id,
            bundle.sealed_header.header.receipt.domain_block_number,
        )
    }

    /// Whether taking the receipt of the bundle confirms a block.
    pub open spec fn bundle_confirms(self, bundle: OpaqueBundle) -> bool {
        self.block_tree.submission_confirms(
            bundle.sealed_header.header.proof_of_election.domain_id,
            bundle.sealed_header.header.proof_of_election.operator_id,
            bundle.sealed_header.header.receipt,
            self.receipt_kind(bundle),
            self.config.block_tree_pruning_depth,
        )
    }

    /// The height of the block that taking the receipt of the bundle confirms.
    pub open spec fn confirmed_by(self, bundle: OpaqueBundle) -> DomainBlockNumber {
        (bundle.sealed_header.header.receipt.domain_block_number
            - self.config.block_tree_pruning_depth) as u32
    }

    /// What the confirmation that the bundle brings about hands out.
    pub open spec fn confirmation_of(self, bundle: OpaqueBundle) -> ConfirmedInfoView {
        let election = bundle.sealed_header.header.proof_of_election;
        let receipt = bundle.sealed_header.header.receipt;
        self.block_tree.pruned_for(
            election.domain_id,
            receipt.domain_block_number,
            self.receipt_kind(bundle),
        ).with_receipt(
            election.domain_id,
            election.operator_id,
            receipt,
            self.receipt_kind(bundle),
        ).confirmed_info(election.domain_id, self.confirmed_by(bundle))
    }

    /// Why the bundle cannot be submitted, if it cannot: the call is not unsigned;
    /// the tree refuses the receipt; the tree names a receipt that it does not hold;
    /// the confirmation that the bundle brings about ends an epoch that cannot end; or
    /// the number of the best block of the domain cannot be raised.
    pub open spec fn submit_bundle_error(self, origin: Origin, bundle: OpaqueBundle) -> Option<
        DispatchError,
    > {
        let election = bundle.sealed_header.header.proof_of_election;
        let receipt = bundle.sealed_header.header.receipt;
        let domain_id = election.domain_id;
        if origin != Origin::Unsigned {
            Some(DispatchError::BadOrigin)
        } else {
            match self.block_tree.receipt_type(domain_id, receipt) {
                ReceiptType::Rejected(rejected) => Some(
                    DispatchError::Module(Error::BlockTree(rejected.spec_error())),
                ),
                ReceiptType::Accepted(kind) => {
                    if self.block_tree.submission_fails(
                        domain_id,
                        election.operator_id,
                        receipt,
                        kind,
                        self.config.block_tree_pruning_depth,
                    ) {
                        Some(
                            DispatchError::Module(
                                Error::BlockTree(BlockTreeError::MissingDomainBlock),
                            ),
                        )
                    } else if self.bundle_confirms(bundle) && self.ends_epoch(
                        self.confirmed_by(bundle),
                    ) && self.epoch_ledger().epoch_error(domain_id) is Some {
                        Some(
                            DispatchError::Module(
                                Error::StakingEpoch(
                                    self.epoch_ledger().epoch_error(domain_id).unwrap(),
                                ),
                            ),
                        )
                    } else if self.bundles_of(domain_id).len() == 0 && self.block_tree.head_domain(
                        domain_id,
                    ) == u32::MAX {
                        Some(
                            DispatchError::Module(
                                Error::BlockTree(BlockTreeError::MaxHeadDomainNumber),
                            ),
                        )
                    } else {
                        None
                    }
                },
            }
        }
    }

    /// The state once the receipt of the bundle is in the tree: a bad receipt at its
    /// height is handled first, and the block that it confirms, if any, is out of the
    /// tree.
    pub open spec fn with_receipt_taken(self, bundle: OpaqueBundle) -> PalletView {
        let election = bundle.sealed_header.header.proof_of_election;
        let receipt = bundle.sealed_header.header.receipt;
        let domain_id = election.domain_id;
        let handled = if self.replaces_bad_receipt(bundle) {
            self.with_bad_receipt_handled(domain_id, receipt.domain_block_number)
        } else {
            self
        };
        PalletView {
            block_tree: handled.block_tree.after_process(
                domain_id,
                election.operator_id,
                receipt,
                self.receipt_kind(bundle),
                self.config.block_tree_pruning_depth,
            ),
            ..handled
        }
    }

    /// The state after the bundle is submitted.
    pub open spec fn after_submit_bundle(self, bundle: OpaqueBundle) -> PalletView {
        let election = bundle.sealed_header.header.proof_of_election;
        let domain_id = election.domain_id;
        let taken = self.with_receipt_taken(bundle);
        let confirmed = if self.bundle_confirms(bundle) {
            taken.with_confirmation(domain_id, self.confirmation_of(bundle))
        } else {
            taken
        };
        confirmed.with_bundle_stored(
            domain_id,
            election.operator_id,
            bundle.spec_hash(),
            Self::digest_of(bundle),
        )
    }

    /// The weight of submitting the bundle: that of the call, of handling a bad
    /// receipt and of confirming a block where the bundle brings them about, and in no
    /// case more than the largest weight of the call.
    pub open spec fn submit_bundle_weight(self, bundle: OpaqueBundle) -> Weight {
        let election = bundle.sealed_header.header.proof_of_election;
        let receipt = bundle.sealed_header.header.receipt;
        let domain_id = election.domain_id;
        let base = self.config.weights.submit_bundle;
        let handled = if self.replaces_bad_receipt(bundle) {
            base.spec_saturating_add(
                self.config.weights.handle_bad_receipt.spec_at(
                    count_of(
                        self.block_tree.node_at(
                            domain_id,
                            receipt.domain_block_number,
                        ).operator_ids.len(),
                    ),
                ),
            )
        } else {
            base
        };
        let confirmed = if self.bundle_confirms(bundle) {
            handled.spec_saturating_add(
                self.with_receipt_taken(bundle).confirmation_weight(
                    domain_id,
                    self.confirmation_of(bundle),
                ),
            )
        } else {
            handled
        };
        confirmed.spec_min(self.config.spec_max_submit_bundle_weight())
    }
}

impl PalletView {
    /// The state with the hash of a fraud proof for the domain among the fraud
    /// proofs taken in the consensus block.
    pub open spec fn with_fraud_proof_recorded(self, domain_id: DomainId, hash: H256) -> PalletView {
        PalletView {
            successful_fraud_proofs: self.successful_fraud_proofs.insert(
                domain_id,
                self.fraud_proofs_of(domain_id).push(hash),
            ),
            ..self
        }
    }

    /// The height of the receipt that the fraud proof is against.
    pub open spec fn bad_receipt_number(self, fraud_proof: FraudProof) -> DomainBlockNumber {
        self.block_tree.block_tree_nodes[fraud_proof.spec_targeted_bad_receipt_hash().unwrap()].execution_receipt.domain_block_number
    }

    /// Why the fraud proof cannot be submitted, if it cannot: the call is not
    /// unsigned, or the receipt that the proof is against is not a receipt of the
    /// domain between its latest confirmed block and its head.
    pub open spec fn submit_fraud_proof_error(self, origin: Origin, fraud_proof: FraudProof) -> Option<
        DispatchError,
    > {
        let domain_id = fraud_proof.spec_domain_id();
        if origin != Origin::Unsigned {
            Some(DispatchError::BadOrigin)
        } else {
            match fraud_proof.spec_targeted_bad_receipt_hash() {
                Some(hash) => if !self.challengeable(domain_id, hash) || self.bad_receipt_number(
                    fraud_proof,
                ) == 0 || self.block_tree.head_receipt(domain_id) < self.bad_receipt_number(
                    fraud_proof,
                ) {
                    Some(
                        DispatchError::Module(Error::FraudProof(FraudProofError::BadReceiptNotFound)),
                    )
                } else {
                    None
                },
                None => None,
            }
        }
    }

    /// The state after the fraud proof is submitted. For a proof against a receipt:
    /// the receipt is pruned, its submitters are slashed for it, and the head of the
    /// domain is the block below the receipt. For a proof of an equivocation: the
    /// operator is slashed for it, and the head stays. Either way the proof is told of
    /// and recorded.
    pub open spec fn after_submit_fraud_proof(self, fraud_proof: FraudProof) -> PalletView {
        let domain_id = fraud_proof.spec_domain_id();
        match fraud_proof.spec_targeted_bad_receipt_hash() {
            Some(hash) => {
                let number = self.bad_receipt_number(fraud_proof);
                let handled = self.with_bad_receipt_handled(domain_id, number);
                (PalletView {
                    block_tree: BlockTreeView {
                        head_receipt_number: handled.block_tree.head_receipt_number.insert(
                            domain_id,
                            (number - 1) as u32,
                        ),
                        ..handled.block_tree
                    },
                    events: handled.events.push(
                        Event::FraudProofProcessed {
                            domain_id,
                            new_head_receipt_number: Some((number - 1) as u32),
                        },
                    ),
                    ..handled
                }).with_fraud_proof_recorded(domain_id, fraud_proof.spec_hash())
            },
            None => match fraud_proof.spec_targeted_bad_operator_and_slot() {
                Some((operator_id, slot)) => (PalletView {
                    events: self.events.push(
                        Event::FraudProofProcessed { domain_id, new_head_receipt_number: None },
                    ),
                    ..self
                }).with_slashes(
                    seq![operator_id],
                    SlashedReason::BundleEquivocation(slot),
                ).with_fraud_proof_recorded(domain_id, fraud_proof.spec_hash()),
                None => self.with_fraud_proof_recorded(domain_id, fraud_proof.spec_hash()),
            },
        }
    }

    /// The weight of submitting the fraud proof: that of the call, and that of
    /// handling a bad receipt with as many submitters as the receipt has, or with one
    /// for an equivocation.
    pub open spec fn submit_fraud_proof_weight(self, fraud_proof: FraudProof) -> Weight {
        let base = self.config.weights.submit_fraud_proof;
        match fraud_proof.spec_targeted_bad_receipt_hash() {
            Some(hash) => {
                let submitters = count_of(
                    self.block_tree.block_tree_nodes[hash].operator_ids.len(),
                );
                base.spec_saturating_add(
                    self.config.weights.handle_bad_receipt.spec_at(
                        if submitters <= MAX_BUNLDE_PER_BLOCK {
                            submitters
                        } else {
                            MAX_BUNLDE_PER_BLOCK
                        },
                    ),
                )
            },
            None => if fraud_proof.spec_targeted_bad_operator_and_slot() is Some {
                base.spec_saturating_add(self.config.weights.handle_bad_receipt.spec_at(1))
            } else {
                base
            },
        }
    }
}

impl Pallet {
    /// Settles what follows from the confirmation that `info` tells of. Hands back
    /// the weight of it.
    fn settle_confirmation(&mut self, domain_id: DomainId, info: ConfirmedInfo) -> (weight: Weight)
        requires
            old(self)@.ends_epoch(info.domain_block_number) ==> old(self)@.epoch_ledger().epoch_error(domain_id) is None,
        ensures
            final(self)@ == old(self)@.with_confirmation(domain_id, info@),
            weight == old(self)@.confirmation_weight(domain_id, info@),
    {
        let confirm_weight = self.config.weights.confirm_domain_block.at(
            count(info.operator_ids.len()),
            count(info.invalid_bundle_authors.len()),
        );
        let ghost before = self@;
        self.refund_storage_fee(info.total_storage_fee, &info.paid_bundle_storage_fees);
        let ghost refunded = self@;
        self.staking.do_reward_operators(domain_id, &info.operator_ids, info.rewards);
        let ghost rewarded = self@;
        self.slash_operators(
            &info.invalid_bundle_authors,
            SlashedReason::InvalidBundle(info.domain_block_number),
        );
        proof {
            assert(self@ == before.with_confirmation_settled(domain_id, info@));
            lemma_rewards_keep_epochs(refunded.staking, domain_id, info@.operator_ids, info.rewards);
            lemma_slash_keeps_epochs(
                rewarded.staking,
                info@.invalid_bundle_authors,
                info@.invalid_bundle_authors.len() as int,
            );
            assert(self@.staking.current_epoch(domain_id) == rewarded.staking.current_epoch(
                domain_id,
            ));
            assert(rewarded.staking.current_epoch(domain_id) == refunded.staking.current_epoch(
                domain_id,
            ));
            assert(refunded.staking == before.staking);
        }
        if self.config.stake_epoch_duration != 0 && info.domain_block_number
            % self.config.stake_epoch_duration == 0 {
            match self.finalize_domain_epoch(domain_id) {
                Ok(transition) => {
                    self.events.push(
                        Event::DomainEpochCompleted {
                            domain_id,
                            completed_epoch_index: transition.completed_epoch_index,
                        },
                    );
                    confirm_weight.saturating_add(self.actual_epoch_transition_weight(transition))
                },
                Err(_) => {
                    proof {
                        assert(false);
                    }
                    confirm_weight
                },
            }
        } else {
            confirm_weight
        }
    }

    /// Stores a bundle whose receipt is taken.
    fn store_bundle(
        &mut self,
        domain_id: DomainId,
        operator_id: OperatorId,
        bundle_hash: H256,
        digest: BundleDigest,
    )
        requires
            !(old(self)@.bundles_of(domain_id).len() == 0 && old(self)@.block_tree.head_domain(
                domain_id,
            ) == u32::MAX),
        ensures
            final(self)@ == old(self)@.with_bundle_stored(
                domain_id,
                operator_id,
                bundle_hash,
                digest,
            ),
    {
        let mut bundles = match self.successful_bundles.remove(&domain_id) {
            Some(bundles) => bundles,
            None => Vec::new(),
        };
        assert(bundles@ =~= old(self)@.bundles_of(domain_id));
        let head = self.block_tree.head_domain_number(domain_id);
        let head_domain_number = if bundles.len() == 0 {
            let next_number = head + 1;
            self.block_tree.head_domain_number.insert(domain_id, next_number);
            next_number
        } else {
            head
        };
        let key = (domain_id, head_domain_number, self.system.block_number);
        let mut digests = match self.block_tree.execution_inbox.remove(&key) {
            Some(digests) => digests,
            None => Vec::new(),
        };
        assert(digests@ =~= old(self)@.block_tree.inbox_row(key));
        digests.push(digest);
        let ghost digests_after = digests@;
        self.block_tree.execution_inbox.insert(key, digests);
        self.block_tree.inboxed_bundle_author.insert(digest.header_hash, operator_id);
        bundles.push(bundle_hash);
        let ghost bundles_after = bundles@;
        self.successful_bundles.insert(domain_id, bundles);
        self.events.push(Event::BundleStored { domain_id, bundle_hash, bundle_author: operator_id });
        proof {
            assert(self@.block_tree.execution_inbox =~= old(self)@.block_tree.execution_inbox.insert(
                key,
                digests_after,
            ));
            assert(self@.block_tree.block_tree_nodes =~= old(self)@.block_tree.block_tree_nodes);
            assert(self@.successful_bundles =~= old(self)@.successful_bundles.insert(
                domain_id,
                bundles_after,
            ));
            assert(self@.successful_fraud_proofs =~= old(self)@.successful_fraud_proofs);
        }
    }

    /// Handles the bad receipt of the domain at the height: prunes it and slashes
    /// its submitters. Hands back the number of its submitters.
    fn handle_bad_receipt(&mut self, domain_id: DomainId, number: DomainBlockNumber) -> (submitters:
        usize)
        requires
            old(self)@.block_tree.prunes(domain_id, number),
        ensures
            final(self)@ == old(self)@.with_bad_receipt_handled(domain_id, number),
            submitters == old(self)@.block_tree.node_at(domain_id, number).operator_ids.len(),
    {
        let bad_receipt_hash = match self.block_tree.block_tree.get(&(domain_id, number)) {
            Some(hash) => *hash,
            None => {
                proof {
                    assert(false);
                }
                H256::zero()
            },
        };
        match self.block_tree.prune_receipt(domain_id, number) {
            Ok(Some(node)) => {
                proof {
                    assert(self@.successful_bundles =~= old(self)@.successful_bundles);
                    assert(self@.successful_fraud_proofs =~= old(self)@.successful_fraud_proofs);
                }
                self.slash_operators(
                    &node.operator_ids,
                    SlashedReason::BadExecutionReceipt(bad_receipt_hash),
                );
                node.operator_ids.len()
            },
            _ => {
                proof {
                    assert(false);
                }
                0
            },
        }
    }

    /// Submits a bundle: takes its receipt into the block tree of its domain,
    /// settles what follows from that, and stores the bundle. Hands back the weight
    /// that the call took. Nothing is changed where the bundle cannot be submitted.
    pub fn submit_bundle(&mut self, origin: Origin, opaque_bundle: OpaqueBundle) -> (result: Result<
        Weight,
        DispatchError,
    >)
        requires
            opaque_bundle.encodable(),
        ensures
            match result {
                Ok(weight) => {
                    &&& old(self)@.submit_bundle_error(origin, opaque_bundle) is None
                    &&& final(self)@ == old(self)@.after_submit_bundle(opaque_bundle)
                    &&& weight == old(self)@.submit_bundle_weight(opaque_bundle)
                },
                Err(e) => {
                    &&& Some(e) == old(self)@.submit_bundle_error(origin, opaque_bundle)
                    &&& final(self)@ == old(self)@
                },
            },
    {
        match ensure_none(origin) {
            Ok(()) => {},
            Err(e) => {
                return Err(e);
            },
        }
        let ghost before = self@;
        let domain_id = opaque_bundle.domain_id();
        let bundle_hash = opaque_bundle.hash();
        let bundle_header_hash = opaque_bundle.sealed_header.pre_hash();
        let extrinsics_root = opaque_bundle.extrinsics_root();
        let operator_id = opaque_bundle.operator_id();
        let bundle_size = opaque_bundle.size();
        let receipt = opaque_bundle.into_receipt();
        let receipt_block_number = receipt.domain_block_number;
        let pruning_depth = self.config.block_tree_pruning_depth;
        let accepted_receipt_type = match self.block_tree.execution_receipt_type(domain_id, &receipt) {
            ReceiptType::Rejected(rejected_receipt_type) => {
                return Err(
                    DispatchError::Module(Error::BlockTree(rejected_receipt_type.error())),
                );
            },
            ReceiptType::Accepted(accepted_receipt_type) => accepted_receipt_type,
        };
        if self.block_tree.submission_fails(
            domain_id,
            operator_id,
            &receipt,
            accepted_receipt_type,
            pruning_depth,
        ) {
            return Err(DispatchError::Module(Error::BlockTree(BlockTreeError::MissingDomainBlock)));
        }
        let confirms = self.block_tree.submission_confirms(
            domain_id,
            operator_id,
            &receipt,
            accepted_receipt_type,
            pruning_depth,
        );
        if confirms {
            let confirmed = receipt_block_number - pruning_depth;
            if self.config.stake_epoch_duration != 0 && confirmed % self.config.stake_epoch_duration
                == 0 {
                match self.staking.current_epoch(domain_id) {
                    None => {
                        return Err(
                            DispatchError::Module(
                                Error::StakingEpoch(
                                    crate::staking_epoch::Error::DomainNotInitialized,
                                ),
                            ),
                        );
                    },
                    Some(epoch) => {
                        if epoch == u32::MAX {
                            return Err(
                                DispatchError::Module(
                                    Error::StakingEpoch(
                                        crate::staking_epoch::Error::MaximumEpochIndex,
                                    ),
                                ),
                            );
                        }
                    },
                }
            }
        }
        let first = match self.successful_bundles.get(&domain_id) {
            Some(bundles) => bundles.len() == 0,
            None => true,
        };
        assert(first == (before.bundles_of(domain_id).len() == 0));
        if first && self.block_tree.head_domain_number(domain_id) == u32::MAX {
            return Err(
                DispatchError::Module(Error::BlockTree(BlockTreeError::MaxHeadDomainNumber)),
            );
        }
        let mut actual_weight = self.config.weights.submit_bundle;
        let replaces = match accepted_receipt_type {
            AcceptedReceiptType::NewHead => receipt_block_number != 0
                && self.block_tree.block_tree.contains_key(&(domain_id, receipt_block_number)),
            AcceptedReceiptType::CurrentHead => false,
        };
        assert(replaces == before.replaces_bad_receipt(opaque_bundle));
        if replaces {
            let submitters = self.handle_bad_receipt(domain_id, receipt_block_number);
            actual_weight = actual_weight.saturating_add(
                self.config.weights.handle_bad_receipt.at(count(submitters)),
            );
        }
        let ghost handled = self@;
        proof {
            if replaces {
                lemma_slash_keeps_epochs(
                    before.staking,
                    before.block_tree.node_at(domain_id, receipt_block_number).operator_ids,
                    before.block_tree.node_at(domain_id, receipt_block_number).operator_ids.len() as int,
                );
            }
            assert(handled.staking.current_epoch(domain_id) == before.staking.current_epoch(
                domain_id,
            ));
            assert(handled.block_tree == before.block_tree.pruned_for(
                domain_id,
                receipt_block_number,
                accepted_receipt_type,
            ));
        }
        let maybe_confirmed_domain_block_info = match self.block_tree.process_execution_receipt(
            domain_id,
            operator_id,
            receipt,
            accepted_receipt_type,
            pruning_depth,
        ) {
            Ok(info) => info,
            Err(_) => {
                proof {
                    assert(false);
                }
                None
            },
        };
        proof {
            assert(self@.successful_bundles =~= handled.successful_bundles);
            assert(self@.successful_fraud_proofs =~= handled.successful_fraud_proofs);
            assert(self@ == before.with_receipt_taken(opaque_bundle));
        }
        match maybe_confirmed_domain_block_info {
            Some(confirmed_block_info) => {
                assert(before.bundle_confirms(opaque_bundle));
                assert(confirmed_block_info@ == before.confirmation_of(opaque_bundle));
                assert(confirmed_block_info.domain_block_number == before.confirmed_by(
                    opaque_bundle,
                ));
                let weight = self.settle_confirmation(domain_id, confirmed_block_info);
                actual_weight = actual_weight.saturating_add(weight);
            },
            None => {},
        }
        proof {
            assert(self@.bundles_of(domain_id) == before.bundles_of(domain_id));
            assert(self@.block_tree.head_domain(domain_id) == before.block_tree.head_domain(
                domain_id,
            ));
        }
        self.store_bundle(
            domain_id,
            operator_id,
            bundle_hash,
            BundleDigest { header_hash: bundle_header_hash, extrinsics_root, size: bundle_size },
        );
        Ok(actual_weight.min(self.max_submit_bundle_weight()))
    }
    /// Records the hash of a fraud proof for the domain.
    fn record_fraud_proof(&mut self, domain_id: DomainId, hash: H256)
        ensures
            final(self)@ == old(self)@.with_fraud_proof_recorded(domain_id, hash),
    {
        let mut proofs = match self.successful_fraud_proofs.remove(&domain_id) {
            Some(proofs) => proofs,
            None => Vec::new(),
        };
        assert(proofs@ =~= old(self)@.fraud_proofs_of(domain_id));
        proofs.push(hash);
        let ghost after = proofs@;
        self.successful_fraud_proofs.insert(domain_id, proofs);
        proof {
            assert(self@.successful_fraud_proofs =~= old(self)@.successful_fraud_proofs.insert(
                domain_id,
                after,
            ));
            assert(self@.successful_bundles =~= old(self)@.successful_bundles);
        }
    }

    /// Submits a fraud proof. A proof against a receipt prunes the receipt, slashes
    /// its submitters and lowers the head of the domain to the block below the
    /// receipt; the receipts above it stay in the tree until new receipts replace
    /// them. A proof of an equivocation slashes the operator. Hands back the weight
    /// that the call took. Nothing is changed where the proof cannot be submitted.
    pub fn submit_fraud_proof(&mut self, origin: Origin, fraud_proof: FraudProof) -> (result: Result<
        Weight,
        DispatchError,
    >)
        requires
            fraud_proof.encodable(),
        ensures
            match result {
                Ok(weight) => {
                    &&& old(self)@.submit_fraud_proof_error(origin, fraud_proof) is None
                    &&& final(self)@ == old(self)@.after_submit_fraud_proof(fraud_proof)
                    &&& weight == old(self)@.submit_fraud_proof_weight(fraud_proof)
                },
                Err(e) => {
                    &&& Some(e) == old(self)@.submit_fraud_proof_error(origin, fraud_proof)
                    &&& final(self)@ == old(self)@
                },
            },
    {
        match ensure_none(origin) {
            Ok(()) => {},
            Err(e) => {
                return Err(e);
            },
        }
        let domain_id = fraud_proof.domain_id();
        let proof_hash = fraud_proof.hash();
        let mut actual_weight = self.config.weights.submit_fraud_proof;
        match fraud_proof.targeted_bad_receipt_hash() {
            Some(bad_receipt_hash) => {
                let head_receipt_number = self.block_tree.head_receipt_number(domain_id);
                let bad_receipt_number = match self.block_tree.block_tree_nodes.get(
                    &bad_receipt_hash,
                ) {
                    Some(node) => node.execution_receipt.domain_block_number,
                    None => {
                        return Err(
                            DispatchError::Module(
                                Error::FraudProof(FraudProofError::BadReceiptNotFound),
                            ),
                        );
                    },
                };
                let in_tree = match self.block_tree.block_tree.get(
                    &(domain_id, bad_receipt_number),
                ) {
                    Some(hash) => hash.same_hash(&bad_receipt_hash),
                    None => false,
                };
                if !in_tree || bad_receipt_number == 0 || bad_receipt_number
                    <= self.block_tree.latest_confirmed_domain_block_number(domain_id)
                    || head_receipt_number < bad_receipt_number {
                    return Err(
                        DispatchError::Module(Error::FraudProof(FraudProofError::BadReceiptNotFound)),
                    );
                }
                let submitters = self.handle_bad_receipt(domain_id, bad_receipt_number);
                let counted = count(submitters);
                actual_weight = actual_weight.saturating_add(
                    self.config.weights.handle_bad_receipt.at(
                        if counted <= MAX_BUNLDE_PER_BLOCK {
                            counted
                        } else {
                            MAX_BUNLDE_PER_BLOCK
                        },
                    ),
                );
                let new_head_receipt_number = bad_receipt_number - 1;
                self.block_tree.head_receipt_number.insert(domain_id, new_head_receipt_number);
                self.events.push(
                    Event::FraudProofProcessed {
                        domain_id,
                        new_head_receipt_number: Some(new_head_receipt_number),
                    },
                );
                proof {
                    assert(self@.block_tree.block_tree_nodes == old(self)@.with_bad_receipt_handled(domain_id, bad_receipt_number).block_tree.block_tree_nodes);
                    assert(self@.block_tree.execution_inbox == old(self)@.with_bad_receipt_handled(
                        domain_id,
                        bad_receipt_number,
                    ).block_tree.execution_inbox);
                }
            },
            None => {
                match fraud_proof.targeted_bad_operator_and_slot_for_bundle_equivocation() {
                    Some((targeted_bad_operator, slot)) => {
                        self.events.push(
                            Event::FraudProofProcessed { domain_id, new_head_receipt_number: None },
                        );
                        let operators: Vec<OperatorId> = vec![targeted_bad_operator];
                        assert(operators@ =~= seq![targeted_bad_operator]);
                        self.slash_operators(&operators, SlashedReason::BundleEquivocation(slot));
                        actual_weight = actual_weight.saturating_add(
                            self.config.weights.handle_bad_receipt.at(1),
                        );
                    },
                    None => {},
                }
            },
        }
        self.record_fraud_proof(domain_id, proof_hash);
        Ok(actual_weight)
    }
}

} // verus!
