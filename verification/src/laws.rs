//! Laws of the block tree and of the two unsigned calls.

use crate::admission::{ProofChecks, SlotInfo};
use crate::block_tree::{AcceptedReceiptType, BlockTreeView, ReceiptType};
use crate::bundle::OpaqueBundle;
use crate::error::{BundleError, FraudProofError, Origin};
use crate::fraud_proof::FraudProof;
use crate::hashing::sr25519_verifies;
use crate::pallet::PalletView;
use crate::primitives::{Balance, DomainBlockNumber, DomainId, OperatorId, Share};
use crate::receipt::ExecutionReceipt;
use crate::staking::{Operator, OperatorStatus, SharePrice, StakingView};
use crate::staking_epoch::{tax_of, EpochProgress};
use crate::table::{lemma_with_id_contains, with_id};
use vstd::arithmetic::div_mod::{
    lemma_div_pos_is_pos, lemma_fundamental_div_mod, lemma_fundamental_div_mod_converse,
    lemma_mod_pos_bound,
};
use vstd::prelude::*;

verus! {

impl BlockTreeView {
    /// Whether the head receipt of every domain is at or above its latest confirmed
    /// block.
    pub open spec fn heads_above_confirmed(self) -> bool {
        forall|d: DomainId| #[trigger] self.head_receipt(d) >= self.latest_confirmed(d)
    }
}

/// A receipt that the tree takes as a new head is for the block after the head,
/// which is above the latest confirmed block and is never block zero. A receipt that
/// the tree takes as the current head is the receipt at the head.
pub proof fn lemma_accepted_receipt_is_at_the_head(
    tree: BlockTreeView,
    domain_id: DomainId,
    receipt: ExecutionReceipt,
)
    requires
        tree.receipt_type(domain_id, receipt) is Accepted,
    ensures
        tree.receipt_type(domain_id, receipt) == ReceiptType::Accepted(
            AcceptedReceiptType::NewHead,
        ) ==> receipt.domain_block_number == tree.head_receipt(domain_id) + 1
            && receipt.domain_block_number > tree.latest_confirmed(domain_id)
            && receipt.domain_block_number >= 1,
        tree.receipt_type(domain_id, receipt) == ReceiptType::Accepted(
            AcceptedReceiptType::CurrentHead,
        ) ==> tree.is_head_receipt(domain_id, receipt),
{
}

/// Pruning never takes the receipt of block zero out of the tree.
pub proof fn lemma_genesis_is_never_pruned(tree: BlockTreeView, domain_id: DomainId)
    ensures
        !tree.prunes(domain_id, 0),
{
}

/// Taking a receipt into the tree leaves the receipt of block zero of every domain
/// where it is, and keeps the head of every domain at or above its latest confirmed
/// block.
pub proof fn lemma_process_keeps_tree_sound(
    tree: BlockTreeView,
    domain_id: DomainId,
    submitter: OperatorId,
    receipt: ExecutionReceipt,
    kind: AcceptedReceiptType,
    pruning_depth: DomainBlockNumber,
)
    requires
        tree.receipt_type(domain_id, receipt) == ReceiptType::Accepted(kind),
    ensures
        forall|d: DomainId|
            #![trigger tree.after_process(domain_id, submitter, receipt, kind, pruning_depth).block_tree.contains_key((d, 0))]
            {
                let after = tree.after_process(domain_id, submitter, receipt, kind, pruning_depth);
                &&& after.block_tree.contains_key((d, 0)) == tree.block_tree.contains_key((d, 0))
                &&& tree.block_tree.contains_key((d, 0)) ==> after.block_tree[(d, 0)]
                    == tree.block_tree[(d, 0)]
            },
        tree.heads_above_confirmed() ==> tree.after_process(
            domain_id,
            submitter,
            receipt,
            kind,
            pruning_depth,
        ).heads_above_confirmed(),
{
    lemma_accepted_receipt_is_at_the_head(tree, domain_id, receipt);
    let after = tree.after_process(domain_id, submitter, receipt, kind, pruning_depth);
    if tree.heads_above_confirmed() {
        assert forall|d: DomainId| #[trigger] after.head_receipt(d) >= after.latest_confirmed(d) by {
            assert(tree.head_receipt(d) >= tree.latest_confirmed(d));
        }
    }
}

/// Submitting a bundle keeps the head receipt of every domain at or above its
/// latest confirmed block, and leaves the receipt of block zero of every domain
/// where it is.
pub proof fn lemma_submit_bundle_keeps_tree_sound(
    state: PalletView,
    origin: Origin,
    bundle: OpaqueBundle,
)
    requires
        state.submit_bundle_error(origin, bundle) is None,
    ensures
        state.block_tree.heads_above_confirmed() ==> state.after_submit_bundle(
            bundle,
        ).block_tree.heads_above_confirmed(),
        forall|d: DomainId|
            #![trigger state.after_submit_bundle(bundle).block_tree.block_tree.contains_key((d, 0))]
            {
                let after = state.after_submit_bundle(bundle).block_tree;
                &&& after.block_tree.contains_key((d, 0)) == state.block_tree.block_tree.contains_key(
                    (d, 0),
                )
                &&& state.block_tree.block_tree.contains_key((d, 0)) ==> after.block_tree[(d, 0)]
                    == state.block_tree.block_tree[(d, 0)]
            },
{
    let election = bundle.sealed_header.header.proof_of_election;
    let receipt = bundle.sealed_header.header.receipt;
    let domain_id = election.domain_id;
    let kind = state.receipt_kind(bundle);
    lemma_accepted_receipt_is_at_the_head(state.block_tree, domain_id, receipt);
    let pruned = state.block_tree.pruned_for(domain_id, receipt.domain_block_number, kind);
    assert(pruned.receipt_type(domain_id, receipt) == ReceiptType::Accepted(kind));
    lemma_process_keeps_tree_sound(
        pruned,
        domain_id,
        election.operator_id,
        receipt,
        kind,
        state.config.block_tree_pruning_depth,
    );
    let taken = state.with_receipt_taken(bundle);
    assert(taken.block_tree == pruned.after_process(
        domain_id,
        election.operator_id,
        receipt,
        kind,
        state.config.block_tree_pruning_depth,
    ));
    let after = state.after_submit_bundle(bundle).block_tree;
    if state.block_tree.heads_above_confirmed() {
        assert forall|d: DomainId| #[trigger] pruned.head_receipt(d) >= pruned.latest_confirmed(d) by {
            assert(state.block_tree.head_receipt(d) >= state.block_tree.latest_confirmed(d));
        }
        assert forall|d: DomainId| #[trigger] after.head_receipt(d) >= after.latest_confirmed(d) by {
            assert(taken.block_tree.head_receipt(d) >= taken.block_tree.latest_confirmed(d));
        }
    }
    assert forall|d: DomainId|
        #![trigger state.after_submit_bundle(bundle).block_tree.block_tree.contains_key((d, 0))]
        {
            &&& after.block_tree.contains_key((d, 0)) == state.block_tree.block_tree.contains_key(
                (d, 0),
            )
            &&& state.block_tree.block_tree.contains_key((d, 0)) ==> after.block_tree[(d, 0)]
                == state.block_tree.block_tree[(d, 0)]
        } by {
        assert(taken.block_tree.block_tree.contains_key((d, 0)) == pruned.block_tree.contains_key(
            (d, 0),
        ));
    }
}

/// Whether `after` has the operators and the staking summaries of `before`, each
/// operator on the domain that it was on, and every operator that waited to be
/// slashed in `before` still waiting.
pub open spec fn keeps_operators(before: StakingView, after: StakingView) -> bool {
    &&& forall|id: OperatorId|
        #![trigger after.operators.contains_key(id)]
        after.operators.contains_key(id) == before.operators.contains_key(id)
    &&& forall|id: OperatorId|
        #![trigger after.operators[id]]
        before.operators.contains_key(id) ==> after.operators[id].current_domain_id
            == before.operators[id].current_domain_id
    &&& forall|d: DomainId|
        #![trigger after.domain_staking_summary.contains_key(d)]
        after.domain_staking_summary.contains_key(d) == before.domain_staking_summary.contains_key(
            d,
        )
    &&& forall|d: DomainId, id: OperatorId|
        #![trigger after.pending_slashes_of(d).contains(id)]
        before.pending_slashes_of(d).contains(id) ==> after.pending_slashes_of(d).contains(id)
}

/// Slashing one operator takes no operator and no staking summary off the record,
/// leaves every operator on its domain, and leaves every operator that waits to be
/// slashed waiting.
pub proof fn lemma_slash_one_frame(staking: StakingView, operator_id: OperatorId)
    ensures
        keeps_operators(staking, staking.slash_one(operator_id)),
{
    let after = staking.slash_one(operator_id);
    assert forall|d: DomainId, id: OperatorId|
        #![trigger after.pending_slashes_of(d).contains(id)]
        staking.pending_slashes_of(d).contains(id) implies after.pending_slashes_of(d).contains(
        id,
    ) by {
        if staking.slashes(operator_id) && staking.operators[operator_id].current_domain_id == d {
            assert(after.pending_slashes_of(d) == with_id(
                staking.pending_slashes_of(d),
                operator_id,
            ));
            lemma_with_id_contains(staking.pending_slashes_of(d), operator_id, id);
        } else {
            assert(after.pending_slashes_of(d) == staking.pending_slashes_of(d));
        }
    }
}

/// Slashing operators takes no operator and no staking summary off the record,
/// leaves every operator on its domain, and leaves every operator that waits to be
/// slashed waiting.
pub proof fn lemma_slash_all_frame(staking: StakingView, operator_ids: Seq<OperatorId>, k: int)
    ensures
        keeps_operators(staking, staking.slash_all(operator_ids, k)),
    decreases k,
{
    if k > 0 {
        lemma_slash_all_frame(staking, operator_ids, k - 1);
        let before = staking.slash_all(operator_ids, k - 1);
        lemma_slash_one_frame(before, operator_ids[k - 1]);
        let after = staking.slash_all(operator_ids, k);
        assert(after == before.slash_one(operator_ids[k - 1]));
        assert forall|d: DomainId, id: OperatorId|
            #![trigger after.pending_slashes_of(d).contains(id)]
            staking.pending_slashes_of(d).contains(id) implies after.pending_slashes_of(d).contains(
            id,
        ) by {
            assert(before.pending_slashes_of(d).contains(id));
        }
        assert forall|id: OperatorId|
            #![trigger after.operators[id]]
            staking.operators.contains_key(id) implies after.operators[id].current_domain_id
                == staking.operators[id].current_domain_id by {
            assert(before.operators.contains_key(id));
            assert(before.operators[id].current_domain_id
                == staking.operators[id].current_domain_id);
        }
        assert forall|id: OperatorId|
            #![trigger after.operators.contains_key(id)]
            after.operators.contains_key(id) == staking.operators.contains_key(id) by {
            assert(before.operators.contains_key(id) == staking.operators.contains_key(id));
        }
        assert forall|d: DomainId|
            #![trigger after.domain_staking_summary.contains_key(d)]
            after.domain_staking_summary.contains_key(d)
                == staking.domain_staking_summary.contains_key(d) by {
            assert(before.domain_staking_summary.contains_key(d)
                == staking.domain_staking_summary.contains_key(d));
        }
    }
}

/// After operators are slashed, each of them that is on record on a domain with a
/// staking summary waits to be slashed on that domain.
pub proof fn lemma_slashed_operators_are_pending(
    staking: StakingView,
    operator_ids: Seq<OperatorId>,
    k: int,
    i: int,
)
    requires
        0 <= i < k <= operator_ids.len(),
        staking.operators.contains_key(operator_ids[i]),
        staking.domain_staking_summary.contains_key(
            staking.operators[operator_ids[i]].current_domain_id,
        ),
    ensures
        staking.slash_all(operator_ids, k).pending_slashes_of(
            staking.operators[operator_ids[i]].current_domain_id,
        ).contains(operator_ids[i]),
    decreases k,
{
    let id = operator_ids[i];
    let domain_id = staking.operators[id].current_domain_id;
    let before = staking.slash_all(operator_ids, k - 1);
    let after = staking.slash_all(operator_ids, k);
    lemma_slash_all_frame(staking, operator_ids, k - 1);
    assert(after == before.slash_one(operator_ids[k - 1]));
    if i == k - 1 {
        assert(before.operators.contains_key(id));
        assert(before.operators[id].current_domain_id == domain_id);
        assert(before.domain_staking_summary.contains_key(domain_id));
        if before.slashes(id) {
            let pending = with_id(before.pending_slashes_of(domain_id), id);
            lemma_with_id_contains(before.pending_slashes_of(domain_id), id, id);
            assert(after.pending_slashes_of(domain_id) == pending);
        }
    } else {
        lemma_slashed_operators_are_pending(staking, operator_ids, k - 1, i);
        let slashed = operator_ids[k - 1];
        if before.slashes(slashed) && before.operators[slashed].current_domain_id == domain_id {
            assert(after.pending_slashes_of(domain_id) == with_id(
                before.pending_slashes_of(domain_id),
                slashed,
            ));
            lemma_with_id_contains(before.pending_slashes_of(domain_id), slashed, id);
        } else {
            assert(after.pending_slashes_of(domain_id) == before.pending_slashes_of(domain_id));
        }
    }
}

/// A fraud proof that is submitted against a receipt at height `n` lowers the head
/// of the domain to `n - 1`, which is not below the latest confirmed block; takes
/// the receipt out of the tree; makes every receipt above the new head wait to be
/// pruned; and makes every submitter of the receipt that is on record on a domain
/// with a staking summary wait to be slashed. The receipt is never that of block
/// zero.
pub proof fn lemma_fraud_proof_reverts_head(
    state: PalletView,
    origin: Origin,
    fraud_proof: FraudProof,
    submitter: int,
)
    requires
        state.submit_fraud_proof_error(origin, fraud_proof) is None,
        fraud_proof.spec_targeted_bad_receipt_hash() is Some,
        0 <= submitter < state.block_tree.block_tree_nodes[fraud_proof.spec_targeted_bad_receipt_hash().unwrap()].operator_ids.len(),
    ensures
        ({
            let hash = fraud_proof.spec_targeted_bad_receipt_hash().unwrap();
            let domain_id = fraud_proof.spec_domain_id();
            let number = state.bad_receipt_number(fraud_proof);
            let after = state.after_submit_fraud_proof(fraud_proof);
            let operator_id = state.block_tree.block_tree_nodes[hash].operator_ids[submitter];
            &&& number >= 1
            &&& after.block_tree.head_receipt(domain_id) == number - 1
            &&& after.block_tree.head_receipt(domain_id) >= after.block_tree.latest_confirmed(
                domain_id,
            )
            &&& !after.block_tree.block_tree_nodes.contains_key(hash)
            &&& forall|above: DomainBlockNumber|
                above >= number ==> #[trigger] after.block_tree.bad_er_pending_to_prune(
                    domain_id,
                    above,
                )
            &&& state.staking.operators.contains_key(operator_id)
                && state.staking.domain_staking_summary.contains_key(
                state.staking.operators[operator_id].current_domain_id,
            ) ==> after.staking.pending_slashes_of(
                state.staking.operators[operator_id].current_domain_id,
            ).contains(operator_id)
        }),
{
    let hash = fraud_proof.spec_targeted_bad_receipt_hash().unwrap();
    let domain_id = fraud_proof.spec_domain_id();
    let number = state.bad_receipt_number(fraud_proof);
    let operator_ids = state.block_tree.block_tree_nodes[hash].operator_ids;
    let operator_id = operator_ids[submitter];
    assert(state.block_tree.node_at(domain_id, number).operator_ids == operator_ids);
    if state.staking.operators.contains_key(operator_id)
        && state.staking.domain_staking_summary.contains_key(
        state.staking.operators[operator_id].current_domain_id,
    ) {
        lemma_slashed_operators_are_pending(
            state.staking,
            operator_ids,
            operator_ids.len() as int,
            submitter,
        );
    }
}

/// Submitting a fraud proof keeps the head receipt of every domain at or above its
/// latest confirmed block, and leaves the receipt of block zero of every domain
/// where it is.
pub proof fn lemma_submit_fraud_proof_keeps_tree_sound(
    state: PalletView,
    origin: Origin,
    fraud_proof: FraudProof,
)
    requires
        state.submit_fraud_proof_error(origin, fraud_proof) is None,
    ensures
        state.block_tree.heads_above_confirmed() ==> state.after_submit_fraud_proof(
            fraud_proof,
        ).block_tree.heads_above_confirmed(),
        forall|d: DomainId|
            #![trigger state.after_submit_fraud_proof(fraud_proof).block_tree.block_tree.contains_key((d, 0))]
            {
                let after = state.after_submit_fraud_proof(fraud_proof).block_tree;
                &&& after.block_tree.contains_key((d, 0)) == state.block_tree.block_tree.contains_key(
                    (d, 0),
                )
                &&& state.block_tree.block_tree.contains_key((d, 0)) ==> after.block_tree[(d, 0)]
                    == state.block_tree.block_tree[(d, 0)]
            },
{
    let after = state.after_submit_fraud_proof(fraud_proof).block_tree;
    if state.block_tree.heads_above_confirmed() {
        assert forall|d: DomainId| #[trigger] after.head_receipt(d) >= after.latest_confirmed(d) by {
            assert(state.block_tree.head_receipt(d) >= state.block_tree.latest_confirmed(d));
        }
    }
}

/// The sum of the first `k` of `shares`.
pub open spec fn shares_sum(shares: Seq<Share>, k: int) -> nat
    decreases k,
{
    if k <= 0 {
        0
    } else {
        shares_sum(shares, k - 1) + shares[k - 1] as nat
    }
}

/// The sum of what each of the first `k` of `shares` is worth at `price`.
pub open spec fn worth_sum(price: SharePrice, shares: Seq<Share>, k: int) -> nat
    decreases k,
{
    if k <= 0 {
        0
    } else {
        worth_sum(price, shares, k - 1) + price.stake_for(shares[k - 1]) as nat
    }
}

/// No part of a sum is above the sum.
pub proof fn lemma_shares_sum_bounds(shares: Seq<Share>, k: int, i: int)
    requires
        0 <= i < k <= shares.len(),
    ensures
        shares[i] <= shares_sum(shares, k),
        shares_sum(shares, i) <= shares_sum(shares, k),
    decreases k,
{
    if i < k - 1 {
        lemma_shares_sum_bounds(shares, k - 1, i);
    }
}

/// What shares are worth at a price is their part of the stake, rounded down, as
/// long as they are no more than the share supply.
pub proof fn lemma_worth_of_shares(price: SharePrice, shares: Share)
    requires
        price.total_shares > 0,
        shares <= price.total_shares,
    ensures
        price.stake_for(shares) == (shares as int * price.total_stake as int) / (
        price.total_shares as int),
        price.stake_for(shares) <= price.total_stake,
{
    let s = shares as int;
    let t = price.total_stake as int;
    let n = price.total_shares as int;
    assert((s * t) / n <= t) by (nonlinear_arith)
        requires
            0 <= s <= n,
            0 < n,
            0 <= t,
    ;
    assert(s * t >= 0) by (nonlinear_arith)
        requires
            0 <= s,
            0 <= t,
    ;
}

/// Where the shares of the nominators of an operator add up to its share supply,
/// what they are worth at the share price adds up to the stake of the operator, less
/// what is lost to rounding: less than one unit for each nominator.
pub proof fn lemma_shares_are_worth_the_stake(price: SharePrice, shares: Seq<Share>)
    requires
        price.total_shares > 0,
        shares.len() > 0,
        shares_sum(shares, shares.len() as int) == price.total_shares,
    ensures
        worth_sum(price, shares, shares.len() as int) <= price.total_stake,
        price.total_stake < worth_sum(price, shares, shares.len() as int) + shares.len(),
{
    lemma_worth_sum_bounds(price, shares, shares.len() as int);
    let n = price.total_shares as int;
    let t = price.total_stake as int;
    assert((n * t) / n == t) by (nonlinear_arith)
        requires
            n > 0,
    ;
}

/// Where the shares of the nominators of an operator add up to no more than its
/// share supply, what they are worth at the share price adds up to no more than the
/// stake of the operator, and to what their sum is worth less what is lost to
/// rounding: less than one unit for each nominator.
pub proof fn lemma_shares_within_supply_are_worth_their_part(
    price: SharePrice,
    shares: Seq<Share>,
)
    requires
        price.total_shares > 0,
        shares.len() > 0,
        shares_sum(shares, shares.len() as int) <= price.total_shares,
    ensures
        worth_sum(price, shares, shares.len() as int) <= price.total_stake,
        (shares_sum(shares, shares.len() as int) * price.total_stake) / (
        price.total_shares as int) < worth_sum(price, shares, shares.len() as int) + shares.len(),
{
    lemma_worth_sum_bounds(price, shares, shares.len() as int);
    let n = price.total_shares as int;
    let t = price.total_stake as int;
    let sum = shares_sum(shares, shares.len() as int) as int;
    assert((sum * t) / n <= t) by (nonlinear_arith)
        requires
            0 <= sum <= n,
            0 < n,
            0 <= t,
    ;
}

/// The sum of two quotients rounded down is the quotient of the sum rounded down,
/// or one less.
pub proof fn lemma_floor_of_a_sum(a: int, b: int, n: int)
    requires
        a >= 0,
        b >= 0,
        n > 0,
    ensures
        a / n + b / n <= (a + b) / n <= a / n + b / n + 1,
{
    lemma_fundamental_div_mod(a, n);
    lemma_fundamental_div_mod(b, n);
    lemma_mod_pos_bound(a, n);
    lemma_mod_pos_bound(b, n);
    let q = a / n + b / n;
    let r = a % n + b % n;
    assert(q * n == n * (a / n) + n * (b / n)) by (nonlinear_arith)
        requires
            q == a / n + b / n,
    ;
    if r < n {
        lemma_fundamental_div_mod_converse(a + b, n, q, r);
    } else {
        assert((q + 1) * n == q * n + n) by (nonlinear_arith);
        lemma_fundamental_div_mod_converse(a + b, n, q + 1, r - n);
    }
}

/// What the first `k` of `shares` are worth at `price`, each for itself, is what
/// their sum is worth, less what is lost to rounding: less than one unit for each
/// but the first. This holds where the shares add up to no more than the share
/// supply.
pub proof fn lemma_worth_sum_bounds(price: SharePrice, shares: Seq<Share>, k: int)
    requires
        price.total_shares > 0,
        1 <= k <= shares.len(),
        shares_sum(shares, shares.len() as int) <= price.total_shares,
    ensures
        worth_sum(price, shares, k) <= (shares_sum(shares, k) * price.total_stake) / (
        price.total_shares as int),
        (shares_sum(shares, k) * price.total_stake) / (price.total_shares as int) < worth_sum(
            price,
            shares,
            k,
        ) + k,
    decreases k,
{
    let n = price.total_shares as int;
    let t = price.total_stake as int;
    let last = shares[k - 1] as int;
    lemma_shares_sum_bounds(shares, shares.len() as int, k - 1);
    lemma_worth_of_shares(price, shares[k - 1]);
    let before = shares_sum(shares, k - 1) as int;
    if k == 1 {
        assert(worth_sum(price, shares, 0) == 0);
        assert(shares_sum(shares, 0) == 0);
        assert(worth_sum(price, shares, 1) == price.stake_for(shares[0]));
        assert(shares_sum(shares, 1) == shares[0]);
    } else {
        lemma_worth_sum_bounds(price, shares, k - 1);
        assert((before + last) * t == before * t + last * t) by (nonlinear_arith);
        assert(before * t >= 0 && last * t >= 0) by (nonlinear_arith)
            requires
                t >= 0,
                before >= 0,
                last >= 0,
        ;
        lemma_floor_of_a_sum(before * t, last * t, n);
    }
}

/// The sum of the shares that each of the first `k` of `deposits` buys at `price`.
pub open spec fn bought_sum(price: SharePrice, deposits: Seq<Balance>, k: int) -> nat
    decreases k,
{
    if k <= 0 {
        0
    } else {
        bought_sum(price, deposits, k - 1) + price.shares_for(deposits[k - 1]) as nat
    }
}

/// Where a pool has neither stake nor shares, or one without the other, the first
/// `k` of `deposits` buy one share for each unit.
pub proof fn lemma_bought_sum_at_par(price: SharePrice, deposits: Seq<Balance>, k: int)
    requires
        price.total_shares == 0 || price.total_stake == 0,
        0 <= k <= deposits.len(),
    ensures
        bought_sum(price, deposits, k) == shares_sum(deposits, k),
    decreases k,
{
    if k > 0 {
        lemma_bought_sum_at_par(price, deposits, k - 1);
    }
}

/// What the first `k` of `deposits` buy at `price`, each for itself, is what their
/// sum buys, less what is lost to rounding: less than one share for each but the
/// first. This holds where what all the deposits buy together fits in a balance.
pub proof fn lemma_bought_sum_bounds(price: SharePrice, deposits: Seq<Balance>, k: int)
    requires
        price.total_shares > 0,
        price.total_stake > 0,
        1 <= k <= deposits.len(),
        (shares_sum(deposits, deposits.len() as int) * price.total_shares) / (
        price.total_stake as int) <= u128::MAX,
    ensures
        bought_sum(price, deposits, k) <= (shares_sum(deposits, k) * price.total_shares) / (
        price.total_stake as int),
        (shares_sum(deposits, k) * price.total_shares) / (price.total_stake as int) < bought_sum(
            price,
            deposits,
            k,
        ) + k,
    decreases k,
{
    let n = price.total_shares as int;
    let t = price.total_stake as int;
    let last = deposits[k - 1] as int;
    let all = shares_sum(deposits, deposits.len() as int) as int;
    let before = shares_sum(deposits, k - 1) as int;
    lemma_shares_sum_bounds(deposits, deposits.len() as int, k - 1);
    assert(last * n >= 0 && (all - last) * n >= 0 && all * n == last * n + (all - last) * n)
        by (nonlinear_arith)
        requires
            0 <= last <= all,
            n > 0,
    ;
    lemma_floor_of_a_sum(last * n, (all - last) * n, t);
    lemma_div_pos_is_pos((all - last) * n, t);
    assert(price.shares_for(deposits[k - 1]) == (last * n) / t);
    if k == 1 {
        assert(bought_sum(price, deposits, 0) == 0);
        assert(shares_sum(deposits, 0) == 0);
        assert(shares_sum(deposits, 1) == deposits[0]);
        assert(bought_sum(price, deposits, 1) == price.shares_for(deposits[0]));
    } else {
        lemma_bought_sum_bounds(price, deposits, k - 1);
        assert((before + last) * n == before * n + last * n) by (nonlinear_arith);
        assert(before * n >= 0) by (nonlinear_arith)
            requires
                n >= 0,
                before >= 0,
        ;
        lemma_floor_of_a_sum(before * n, last * n, t);
    }
}

/// The end of an epoch keeps the shares of the nominators of an operator within its
/// share supply. Before, the shares that the nominators keep and the shares
/// withdrawn in the epoch add up to the supply, and their deposits of the epoch to
/// the deposits of the operator. After, the shares that they keep and the shares
/// that their deposits buy at the frozen price add up to no more than the new
/// supply, and fall short of it by less than one share for each nominator. This
/// holds where the new supply fits in a balance.
pub proof fn lemma_epoch_keeps_shares_within_supply(
    operator: Operator,
    kept: Seq<Share>,
    deposits: Seq<Balance>,
)
    requires
        kept.len() == deposits.len(),
        deposits.len() > 0,
        shares_sum(kept, kept.len() as int) + operator.withdrawals_in_epoch
            == operator.current_total_shares,
        shares_sum(deposits, deposits.len() as int) == operator.deposits_in_epoch,
        shares_sum(kept, kept.len() as int) + EpochProgress::frozen_price(operator).shares_for(
            operator.deposits_in_epoch,
        ) <= u128::MAX,
        EpochProgress::frozen_price(operator).shares_for(operator.deposits_in_epoch) < u128::MAX,
    ensures
        ({
            let price = EpochProgress::frozen_price(operator);
            let settled = EpochProgress::settled_operator(operator);
            let held = shares_sum(kept, kept.len() as int) + bought_sum(
                price,
                deposits,
                deposits.len() as int,
            );
            held <= settled.current_total_shares < held + deposits.len()
        }),
{
    let price = EpochProgress::frozen_price(operator);
    if price.total_shares == 0 || price.total_stake == 0 {
        lemma_bought_sum_at_par(price, deposits, deposits.len() as int);
    } else {
        lemma_bought_sum_bounds(price, deposits, deposits.len() as int);
    }
}

/// The end of an epoch conserves the stake of an operator: what its shares stand
/// for after the epoch, and what left with the shares that were withdrawn, is what
/// they stood for before, its deposits of the epoch and its reward. A reward never
/// lowers the price of the shares, and leaves their number as it is. This holds
/// where no sum goes beyond the largest balance and no more shares were withdrawn
/// than the operator has.
pub proof fn lemma_epoch_conserves_stake(operator: Operator, reward: Balance)
    requires
        operator.nomination_tax <= 100,
        operator.withdrawals_in_epoch <= operator.current_total_shares,
        operator.current_total_stake + operator.deposits_in_epoch + reward <= u128::MAX,
    ensures
        ({
            let rewarded = EpochProgress::rewarded_operator(operator, reward);
            let price = EpochProgress::frozen_price(rewarded);
            let settled = EpochProgress::settled_operator(rewarded);
            &&& settled.current_total_stake + price.stake_for(operator.withdrawals_in_epoch)
                == operator.current_total_stake + operator.deposits_in_epoch + reward
            &&& price.total_stake >= operator.current_total_stake
            &&& price.total_shares == operator.current_total_shares
        }),
{
    let tax = tax_of(reward, operator.nomination_tax);
    let rate = operator.nomination_tax as int;
    assert((reward as int * rate) / 100 <= reward) by (nonlinear_arith)
        requires
            0 <= rate <= 100,
            0 <= reward,
    ;
    assert(tax <= reward);
    let rewarded = EpochProgress::rewarded_operator(operator, reward);
    let price = EpochProgress::frozen_price(rewarded);
    assert(price.total_stake == operator.current_total_stake + reward - tax);
    let withdrawn = operator.withdrawals_in_epoch;
    if price.total_shares != 0 {
        lemma_worth_of_shares(price, withdrawn);
    }
}

/// A fraud proof against a receipt of block zero is refused for challenging a
/// genesis receipt, whatever its kind, whatever it holds and whatever domain it
/// names; and it cannot be submitted.
pub proof fn lemma_genesis_receipt_is_unchallengeable(
    state: PalletView,
    fraud_proof: FraudProof,
    proof_verified: bool,
)
    requires
        fraud_proof.spec_targeted_bad_receipt_hash() is Some,
        state.block_tree.block_tree_nodes.contains_key(
            fraud_proof.spec_targeted_bad_receipt_hash().unwrap(),
        ),
        state.bad_receipt_number(fraud_proof) == 0,
    ensures
        state.fraud_proof_error(fraud_proof, proof_verified) == Some(
            FraudProofError::ChallengingGenesisReceipt,
        ),
        forall|origin: Origin| #[trigger]
            state.submit_fraud_proof_error(origin, fraud_proof) is Some,
{
}

/// A fraud proof against a receipt that the tree does not hold is refused as a
/// proof against a receipt that is not found.
pub proof fn lemma_unknown_receipt_is_not_found(
    state: PalletView,
    fraud_proof: FraudProof,
    proof_verified: bool,
)
    requires
        fraud_proof.spec_targeted_bad_receipt_hash() is Some,
        !state.block_tree.block_tree_nodes.contains_key(
            fraud_proof.spec_targeted_bad_receipt_hash().unwrap(),
        ),
    ensures
        state.fraud_proof_error(fraud_proof, proof_verified) == Some(
            FraudProofError::BadReceiptNotFound,
        ),
{
}

/// A fraud proof against a receipt above the head of the domain that it names is
/// refused as reported already, before anything that it holds is looked at.
pub proof fn lemma_receipt_above_the_head_is_reported_already(
    state: PalletView,
    fraud_proof: FraudProof,
    proof_verified: bool,
)
    requires
        fraud_proof.spec_targeted_bad_receipt_hash() is Some,
        state.block_tree.block_tree_nodes.contains_key(
            fraud_proof.spec_targeted_bad_receipt_hash().unwrap(),
        ),
        state.bad_receipt_number(fraud_proof) > state.block_tree.head_receipt(
            fraud_proof.spec_domain_id(),
        ),
    ensures
        state.fraud_proof_error(fraud_proof, proof_verified) == Some(
            FraudProofError::BadReceiptAlreadyReported,
        ),
{
}

/// A fraud proof of a kind that is taken, against a receipt that the tree holds
/// above block zero and not above the head of the domain that it names, is refused
/// with the error of its kind where it does not prove the receipt wrong; and where
/// it does, with the missing parent receipt where its kind needs that receipt and
/// the tree does not hold it.
pub proof fn lemma_fraud_proof_is_verified_before_its_domain_is_looked_at(
    state: PalletView,
    fraud_proof: FraudProof,
    proof_verified: bool,
)
    requires
        fraud_proof.spec_targeted_bad_receipt_hash() is Some,
        !(fraud_proof is Other),
        state.block_tree.block_tree_nodes.contains_key(
            fraud_proof.spec_targeted_bad_receipt_hash().unwrap(),
        ),
        0 < state.bad_receipt_number(fraud_proof) <= state.block_tree.head_receipt(
            fraud_proof.spec_domain_id(),
        ),
    ensures
        !proof_verified ==> state.fraud_proof_error(fraud_proof, proof_verified) == Some(
            PalletView::unproven(fraud_proof),
        ),
        proof_verified && fraud_proof.spec_needs_parent_receipt()
            && !state.block_tree.block_tree_nodes.contains_key(
            state.block_tree.block_tree_nodes[fraud_proof.spec_targeted_bad_receipt_hash().unwrap()].execution_receipt.parent_domain_block_receipt_hash,
        ) ==> state.fraud_proof_error(fraud_proof, proof_verified) == Some(
            FraudProofError::ParentReceiptNotFound,
        ),
{
}

/// Once a bundle is submitted, a bundle with the same header is refused as a
/// duplicate, whatever its signature and its extrinsics are, provided that its
/// operator is on record and not slashed and that the signature is the operator's.
pub proof fn lemma_resubmitted_bundle_is_duplicate(
    state: PalletView,
    origin: Origin,
    first: OpaqueBundle,
    second: OpaqueBundle,
    pre_dispatch: bool,
    slots: SlotInfo,
    checks: ProofChecks,
)
    requires
        state.submit_bundle_error(origin, first) is None,
        second.sealed_header.header == first.sealed_header.header,
        ({
            let after = state.after_submit_bundle(first);
            let operator_id = second.sealed_header.header.proof_of_election.operator_id;
            &&& after.staking.operators.contains_key(operator_id)
            &&& after.staking.operators[operator_id].status != OperatorStatus::Slashed
            &&& after.staking.operators[operator_id].status != OperatorStatus::PendingSlash
            &&& sr25519_verifies(
                second.sealed_header.signature@,
                second.sealed_header.spec_pre_hash().bytes(),
                after.staking.operators[operator_id].signing_key.bytes(),
            )
        }),
    ensures
        state.after_submit_bundle(first).bundle_error(second, pre_dispatch, slots, checks) == Some(
            BundleError::DuplicatedBundle,
        ),
{
    let after = state.after_submit_bundle(first);
    assert(after.block_tree.inboxed_bundle_author.contains_key(
        first.sealed_header.spec_pre_hash(),
    ));
}

} // verus!
