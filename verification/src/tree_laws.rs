//! The order that the tree of every domain is in, and that every submission keeps:
//! the receipts of a domain fill the heights between its latest confirmed block and
//! its head, none is left at or below the latest confirmed block, and none lies
//! beyond the pruning depth above it.

use crate::block_tree::{AcceptedReceiptType, BlockTreeView, ReceiptType};
use crate::bundle::OpaqueBundle;
use crate::error::Origin;
use crate::fraud_proof::FraudProof;
use crate::pallet::PalletView;
use crate::primitives::{AccountId, BlockNumber, DomainBlockNumber, DomainId, OperatorId, H256};
use crate::registry::DomainConfig;
use crate::receipt::ExecutionReceipt;
use vstd::prelude::*;

verus! {

impl BlockTreeView {
    /// Whether the tree of the domain is in order for blocks confirmed
    /// `pruning_depth` blocks behind the head: the head is at or above the latest
    /// confirmed block and no more than the depth above it; the tree names no receipt
    /// from block one up to the latest confirmed block; it names one at every height
    /// above the latest confirmed block up to the head; and it names none beyond the
    /// depth above the latest confirmed block.
    pub open spec fn domain_in_order(
        self,
        domain_id: DomainId,
        pruning_depth: DomainBlockNumber,
    ) -> bool {
        let confirmed = self.latest_confirmed(domain_id);
        let head = self.head_receipt(domain_id);
        &&& confirmed <= head <= confirmed + pruning_depth
        &&& forall|n: DomainBlockNumber|
            1 <= n <= confirmed ==> !#[trigger] self.block_tree.contains_key((domain_id, n))
        &&& forall|n: DomainBlockNumber|
            confirmed < n <= head ==> #[trigger] self.block_tree.contains_key((domain_id, n))
        &&& forall|n: DomainBlockNumber|
            n > confirmed + pruning_depth ==> !#[trigger] self.block_tree.contains_key(
                (domain_id, n),
            )
    }

    /// Whether the tree of every domain is in order.
    pub open spec fn in_order(self, pruning_depth: DomainBlockNumber) -> bool {
        forall|d: DomainId| #[trigger] self.domain_in_order(d, pruning_depth)
    }
}

/// A tree without receipts is in order.
pub proof fn lemma_empty_tree_is_in_order(pruning_depth: DomainBlockNumber)
    ensures
        BlockTreeView::empty().in_order(pruning_depth),
{
    assert forall|d: DomainId| #[trigger]
        BlockTreeView::empty().domain_in_order(d, pruning_depth) by {}
}

/// Taking a receipt that the tree accepts, after an old receipt at its height is
/// pruned, keeps the tree in order. The latest confirmed block of no domain falls,
/// and no receipt both replaces an old receipt at its height and confirms a block.
pub proof fn lemma_submission_keeps_tree_in_order(
    tree: BlockTreeView,
    domain_id: DomainId,
    submitter: OperatorId,
    receipt: ExecutionReceipt,
    kind: AcceptedReceiptType,
    pruning_depth: DomainBlockNumber,
)
    requires
        tree.in_order(pruning_depth),
        tree.receipt_type(domain_id, receipt) == ReceiptType::Accepted(kind),
        !tree.submission_fails(domain_id, submitter, receipt, kind, pruning_depth),
    ensures
        ({
            let after = tree.pruned_for(domain_id, receipt.domain_block_number, kind).after_process(
                domain_id,
                submitter,
                receipt,
                kind,
                pruning_depth,
            );
            &&& after.in_order(pruning_depth)
            &&& forall|d: DomainId| #[trigger]
                after.latest_confirmed(d) >= tree.latest_confirmed(d)
        }),
        !(kind == AcceptedReceiptType::NewHead && tree.prunes(
            domain_id,
            receipt.domain_block_number,
        ) && tree.submission_confirms(domain_id, submitter, receipt, kind, pruning_depth)),
{
    let number = receipt.domain_block_number;
    let pruned = tree.pruned_for(domain_id, number, kind);
    let taken = pruned.with_receipt(domain_id, submitter, receipt, kind);
    let after = pruned.after_process(domain_id, submitter, receipt, kind, pruning_depth);
    let confirmed = tree.latest_confirmed(domain_id);
    let head = tree.head_receipt(domain_id);
    assert(tree.domain_in_order(domain_id, pruning_depth));
    assert forall|d: DomainId| #[trigger] after.domain_in_order(d, pruning_depth) by {
        assert(tree.domain_in_order(d, pruning_depth));
        if d == domain_id && kind == AcceptedReceiptType::NewHead {
            assert(number == head + 1);
            assert(number > confirmed);
            assert(taken.block_tree.contains_key((domain_id, number)));
            assert forall|n: DomainBlockNumber| n != number implies taken.block_tree.contains_key(
                (domain_id, n),
            ) == tree.block_tree.contains_key((domain_id, n)) by {}
            if number > pruning_depth {
                let height = (number - pruning_depth) as u32;
                if height == confirmed + 1 {
                    assert(taken.block_tree.contains_key((domain_id, height)));
                }
            }
        }
    }
    assert forall|d: DomainId| #[trigger]
        after.latest_confirmed(d) >= tree.latest_confirmed(d) by {
        assert(tree.domain_in_order(d, pruning_depth));
    }
}

/// Submitting a bundle keeps the tree in order, and lowers the latest confirmed
/// block of no domain. No bundle both replaces an old receipt at the height of its
/// receipt and confirms a block.
pub proof fn lemma_submit_bundle_keeps_tree_in_order(
    state: PalletView,
    origin: Origin,
    bundle: OpaqueBundle,
)
    requires
        state.block_tree.in_order(state.config.block_tree_pruning_depth),
        state.submit_bundle_error(origin, bundle) is None,
    ensures
        state.after_submit_bundle(bundle).block_tree.in_order(
            state.config.block_tree_pruning_depth,
        ),
        forall|d: DomainId| #[trigger]
            state.after_submit_bundle(bundle).block_tree.latest_confirmed(d)
                >= state.block_tree.latest_confirmed(d),
        !(state.replaces_bad_receipt(bundle) && state.bundle_confirms(bundle)),
{
    let election = bundle.sealed_header.header.proof_of_election;
    let receipt = bundle.sealed_header.header.receipt;
    let domain_id = election.domain_id;
    let depth = state.config.block_tree_pruning_depth;
    let kind = state.receipt_kind(bundle);
    lemma_submission_keeps_tree_in_order(
        state.block_tree,
        domain_id,
        election.operator_id,
        receipt,
        kind,
        depth,
    );
    let taken = state.with_receipt_taken(bundle).block_tree;
    assert(taken == state.block_tree.pruned_for(
        domain_id,
        receipt.domain_block_number,
        kind,
    ).after_process(domain_id, election.operator_id, receipt, kind, depth));
    let after = state.after_submit_bundle(bundle).block_tree;
    assert forall|d: DomainId| #[trigger] after.domain_in_order(d, depth) by {
        assert(taken.domain_in_order(d, depth));
    }
    assert forall|d: DomainId| #[trigger]
        after.latest_confirmed(d) >= state.block_tree.latest_confirmed(d) by {
        assert(taken.latest_confirmed(d) >= state.block_tree.latest_confirmed(d));
    }
}

/// Submitting a fraud proof keeps the tree in order, and leaves the latest
/// confirmed block of every domain as it is.
pub proof fn lemma_submit_fraud_proof_keeps_tree_in_order(
    state: PalletView,
    origin: Origin,
    fraud_proof: FraudProof,
)
    requires
        state.block_tree.in_order(state.config.block_tree_pruning_depth),
        state.submit_fraud_proof_error(origin, fraud_proof) is None,
    ensures
        state.after_submit_fraud_proof(fraud_proof).block_tree.in_order(
            state.config.block_tree_pruning_depth,
        ),
        forall|d: DomainId| #[trigger]
            state.after_submit_fraud_proof(fraud_proof).block_tree.latest_confirmed(d)
                == state.block_tree.latest_confirmed(d),
{
    let depth = state.config.block_tree_pruning_depth;
    let after = state.after_submit_fraud_proof(fraud_proof).block_tree;
    assert forall|d: DomainId| #[trigger] after.domain_in_order(d, depth) by {
        assert(state.block_tree.domain_in_order(d, depth));
    }
}

/// Instantiating a domain keeps the tree in order, where the latest confirmed
/// block of the new domain was block zero before: the receipt of its block zero is
/// all that is put into the tree.
pub proof fn lemma_instantiation_keeps_tree_in_order(
    state: PalletView,
    after: PalletView,
    who: AccountId,
    domain_config: DomainConfig,
    created_at: BlockNumber,
    state_root: H256,
    block_hash: H256,
)
    requires
        state.block_tree.in_order(state.config.block_tree_pruning_depth),
        state.block_tree.latest_confirmed(state.registry.next_domain_id) == 0,
        state.instantiated(after, who, domain_config, created_at, state_root, block_hash),
    ensures
        after.block_tree.in_order(state.config.block_tree_pruning_depth),
{
    let depth = state.config.block_tree_pruning_depth;
    let domain_id = state.registry.next_domain_id;
    assert forall|d: DomainId| #[trigger] after.block_tree.domain_in_order(d, depth) by {
        assert(state.block_tree.domain_in_order(d, depth));
        if d != domain_id {
            assert(after.block_tree.latest_confirmed_domain_block.remove(domain_id).contains_key(d)
                == state.block_tree.latest_confirmed_domain_block.remove(domain_id).contains_key(
                d,
            ));
            if state.block_tree.latest_confirmed_domain_block.contains_key(d) {
                assert(after.block_tree.latest_confirmed_domain_block.remove(domain_id)[d]
                    == state.block_tree.latest_confirmed_domain_block.remove(domain_id)[d]);
            }
            assert(after.block_tree.latest_confirmed(d) == state.block_tree.latest_confirmed(d));
        }
    }
}

} // verus!
