//! The law of the stake that is held: what is held as the stake of an operator is
//! its stake, the deposits of the epoch and what was withdrawn and is not unlocked
//! yet. Every operation of the staking ledger keeps it.

use crate::block_tree::{BlockTreeView, ConfirmedInfoView};
use crate::bundle::OpaqueBundle;
use crate::config::Config;
use crate::currency::{CurrencyView, HoldIdentifier};
use crate::event::Event;
use crate::fraud_proof::FraudProof;
use crate::nomination::{lemma_storage_fee_part_bound, payouts, stake_on_hold, Ledger};
use crate::pallet::PalletView;
use crate::primitives::{AccountId, Balance, DomainBlockNumber, DomainId, OperatorId, Share};
use crate::staking::{OperatorConfig, SharePrice, SlashedReason, StakingSummaryView, StakingView};
use crate::staking_epoch::{granted_reward, tax_of, EpochLedger, EpochProgress};
use vstd::prelude::*;

verus! {

/// What is to be held as the stake of the operator: its stake, the deposits of the
/// epoch and what was withdrawn and is not unlocked yet. Nothing for an operator
/// that is not on record.
pub open spec fn stake_due(staking: StakingView, operator_id: OperatorId) -> int {
    if staking.operators.contains_key(operator_id) {
        let operator = staking.operators[operator_id];
        operator.current_total_stake + operator.deposits_in_epoch + operator.pending_withdrawals
    } else {
        0
    }
}

/// Whether every operator on record has an identifier that was given out, an owner
/// on record and a nomination tax of no more than the whole.
pub open spec fn operators_in_order(staking: StakingView) -> bool {
    forall|id: OperatorId| #[trigger]
        staking.operators.contains_key(id) ==> {
            &&& id < staking.next_operator_id
            &&& staking.operator_id_owner.contains_key(id)
            &&& staking.operators[id].nomination_tax <= 100
        }
}

/// Whether the operators are in order and what is held as the stake of each
/// operator is what is to be held.
pub open spec fn stake_is_held(staking: StakingView, currency: CurrencyView) -> bool {
    &&& operators_in_order(staking)
    &&& forall|id: OperatorId| #[trigger] stake_on_hold(currency, id) == stake_due(staking, id)
}

/// A ledger without operators and without balances holds the stake of every
/// operator.
pub proof fn lemma_empty_ledger_holds_the_stake()
    ensures
        stake_is_held(StakingView::empty(), CurrencyView::empty()),
{
}

/// Registering an operator keeps the stake held.
pub proof fn lemma_register_keeps_stake_held(
    ledger: Ledger,
    config: Config,
    allowed: bool,
    owner: AccountId,
    domain_id: DomainId,
    amount: Balance,
    operator_config: OperatorConfig,
)
    requires
        stake_is_held(ledger.staking, ledger.currency),
        config.storage_fee_reserve <= 100,
        ledger.register_error(config, allowed, owner, domain_id, amount, operator_config) is None,
    ensures
        ({
            let after = ledger.after_register(config, owner, domain_id, amount, operator_config);
            stake_is_held(after.staking, after.currency)
        }),
{
    let after = ledger.after_register(config, owner, domain_id, amount, operator_config);
    let new_id = ledger.staking.next_operator_id;
    lemma_storage_fee_part_bound(config, amount);
    assert(!ledger.staking.operators.contains_key(new_id));
    assert(stake_on_hold(ledger.currency, new_id) == stake_due(ledger.staking, new_id));
    assert forall|id: OperatorId| #[trigger]
        stake_on_hold(after.currency, id) == stake_due(after.staking, id) by {
        assert(stake_on_hold(ledger.currency, id) == stake_due(ledger.staking, id));
    }
}

/// Nominating an operator keeps the stake held.
pub proof fn lemma_nominate_keeps_stake_held(
    ledger: Ledger,
    config: Config,
    operator_id: OperatorId,
    who: AccountId,
    amount: Balance,
)
    requires
        stake_is_held(ledger.staking, ledger.currency),
        config.storage_fee_reserve <= 100,
        ledger.nominate_error(config, operator_id, who, amount) is None,
    ensures
        ({
            let after = ledger.after_nominate(config, operator_id, who, amount);
            stake_is_held(after.staking, after.currency)
        }),
{
    let after = ledger.after_nominate(config, operator_id, who, amount);
    lemma_storage_fee_part_bound(config, amount);
    assert(stake_on_hold(ledger.currency, operator_id) == stake_due(ledger.staking, operator_id));
    assert forall|id: OperatorId| #[trigger]
        stake_on_hold(after.currency, id) == stake_due(after.staking, id) by {
        assert(stake_on_hold(ledger.currency, id) == stake_due(ledger.staking, id));
    }
}

/// Deregistering an operator keeps the stake held.
pub proof fn lemma_deregister_keeps_stake_held(
    staking: StakingView,
    currency: CurrencyView,
    owner: AccountId,
    operator_id: OperatorId,
    tree: BlockTreeView,
    locking_period: DomainBlockNumber,
)
    requires
        stake_is_held(staking, currency),
        staking.deregister_error(owner, operator_id) is None,
    ensures
        stake_is_held(staking.after_deregister(operator_id, tree, locking_period), currency),
{
    let after = staking.after_deregister(operator_id, tree, locking_period);
    assert forall|id: OperatorId| #[trigger]
        stake_on_hold(currency, id) == stake_due(after, id) by {
        assert(stake_on_hold(currency, id) == stake_due(staking, id));
    }
}

/// Withdrawing shares from an operator keeps the stake held: the shares leave the
/// stake only when the epoch ends.
pub proof fn lemma_withdraw_keeps_stake_held(
    staking: StakingView,
    currency: CurrencyView,
    config: Config,
    operator_id: OperatorId,
    who: AccountId,
    shares: Share,
    tree: BlockTreeView,
)
    requires
        stake_is_held(staking, currency),
        staking.withdraw_error(config, operator_id, who, shares) is None,
    ensures
        stake_is_held(staking.after_withdraw(config, operator_id, who, shares, tree), currency),
{
    let after = staking.after_withdraw(config, operator_id, who, shares, tree);
    assert forall|id: OperatorId| #[trigger]
        stake_on_hold(currency, id) == stake_due(after, id) by {
        assert(stake_on_hold(currency, id) == stake_due(staking, id));
    }
}

/// Unlocking what was withdrawn from an operator keeps the stake held: what is paid
/// out leaves both what is held and what waits to be unlocked.
pub proof fn lemma_unlock_funds_keeps_stake_held(
    ledger: Ledger,
    operator_id: OperatorId,
    who: AccountId,
    tree: BlockTreeView,
)
    requires
        stake_is_held(ledger.staking, ledger.currency),
        ledger.staking.unlock_funds_error(operator_id, who, tree) is None,
    ensures
        ({
            let after = ledger.after_unlock_funds(operator_id, who);
            stake_is_held(after.staking, after.currency)
        }),
{
    let after = ledger.after_unlock_funds(operator_id, who);
    assert(stake_on_hold(ledger.currency, operator_id) == stake_due(ledger.staking, operator_id));
    assert forall|id: OperatorId| #[trigger]
        stake_on_hold(after.currency, id) == stake_due(after.staking, id) by {
        assert(stake_on_hold(ledger.currency, id) == stake_due(ledger.staking, id));
    }
}

/// What an operator that is done pays out to its nominators touches the stake that
/// is held of no other operator.
pub proof fn lemma_payouts_frame(
    currency: CurrencyView,
    staking: StakingView,
    operator_id: OperatorId,
    price: SharePrice,
    k: int,
)
    ensures
        forall|id: OperatorId|
            id != operator_id ==> #[trigger] stake_on_hold(
                payouts(currency, staking, operator_id, price, k),
                id,
            ) == stake_on_hold(currency, id),
    decreases k,
{
    if k > 0 {
        lemma_payouts_frame(currency, staking, operator_id, price, k - 1);
        let paid = payouts(currency, staking, operator_id, price, k - 1);
        assert forall|id: OperatorId| id != operator_id implies #[trigger] stake_on_hold(
            payouts(currency, staking, operator_id, price, k),
            id,
        ) == stake_on_hold(currency, id) by {
            assert(stake_on_hold(paid, id) == stake_on_hold(currency, id));
        }
    }
}

/// Unlocking an operator keeps the stake held: once its nominators are paid out,
/// what is left of its stake goes to its owner, and nothing is held of it any more.
pub proof fn lemma_unlock_operator_keeps_stake_held(
    ledger: Ledger,
    operator_id: OperatorId,
    tree: BlockTreeView,
)
    requires
        stake_is_held(ledger.staking, ledger.currency),
        ledger.staking.unlock_operator_error(operator_id, tree) is None,
    ensures
        ({
            let after = ledger.after_unlock_operator(operator_id);
            stake_is_held(after.staking, after.currency)
        }),
{
    let after = ledger.after_unlock_operator(operator_id);
    lemma_payouts_frame(
        ledger.currency,
        ledger.staking,
        operator_id,
        ledger.staking.standing_price(operator_id),
        ledger.staking.nominators_of(operator_id).len() as int,
    );
    let paid = payouts(
        ledger.currency,
        ledger.staking,
        operator_id,
        ledger.staking.standing_price(operator_id),
        ledger.staking.nominators_of(operator_id).len() as int,
    );
    assert(ledger.staking.operators.contains_key(operator_id));
    assert(ledger.staking.operator_id_owner.contains_key(operator_id));
    assert forall|id: OperatorId| #[trigger]
        stake_on_hold(after.currency, id) == stake_due(after.staking, id) by {
        assert(stake_on_hold(ledger.currency, id) == stake_due(ledger.staking, id));
        if id == operator_id {
            assert(stake_on_hold(after.currency, id) == 0);
        } else {
            assert(stake_on_hold(paid, id) == stake_on_hold(ledger.currency, id));
            assert(stake_on_hold(after.currency, id) == stake_on_hold(paid, id));
        }
    }
}

/// Slashing operators keeps the stake held: the stake of an operator that waits to
/// be slashed is held until the epoch ends.
pub proof fn lemma_slash_keeps_stake_held(
    staking: StakingView,
    currency: CurrencyView,
    operator_ids: Seq<OperatorId>,
    k: int,
)
    requires
        stake_is_held(staking, currency),
    ensures
        stake_is_held(staking.slash_all(operator_ids, k), currency),
    decreases k,
{
    if k > 0 {
        lemma_slash_keeps_stake_held(staking, currency, operator_ids, k - 1);
        let before = staking.slash_all(operator_ids, k - 1);
        let after = before.slash_one(operator_ids[k - 1]);
        assert forall|id: OperatorId| #[trigger]
            stake_on_hold(currency, id) == stake_due(after, id) by {
            assert(stake_on_hold(currency, id) == stake_due(before, id));
        }
    }
}

/// Rewarding operators keeps the stake held: a reward joins the stake only when
/// the epoch ends.
pub proof fn lemma_rewards_keep_stake_held(
    staking: StakingView,
    currency: CurrencyView,
    domain_id: DomainId,
    operator_ids: Seq<OperatorId>,
    rewards: Balance,
)
    requires
        stake_is_held(staking, currency),
    ensures
        stake_is_held(staking.with_rewards(domain_id, operator_ids, rewards), currency),
{
    let after = staking.with_rewards(domain_id, operator_ids, rewards);
    assert forall|id: OperatorId| #[trigger]
        stake_on_hold(currency, id) == stake_due(after, id) by {
        assert(stake_on_hold(currency, id) == stake_due(staking, id));
    }
}

/// Slashing operators for good keeps the stake held: the stake that was held of
/// each is in the treasury, and each is left without stake.
pub proof fn lemma_sweep_keeps_stake_held(
    ledger: EpochLedger,
    operator_ids: Seq<OperatorId>,
    treasury: AccountId,
    k: int,
)
    requires
        stake_is_held(ledger.staking, ledger.currency),
    ensures
        ({
            let after = ledger.swept(operator_ids, treasury, k);
            &&& stake_is_held(after.staking, after.currency)
            &&& after.staking.domain_staking_summary == ledger.staking.domain_staking_summary
        }),
    decreases k,
{
    if k > 0 {
        lemma_sweep_keeps_stake_held(ledger, operator_ids, treasury, k - 1);
        let before = ledger.swept(operator_ids, treasury, k - 1);
        let after = before.swept_one(operator_ids[k - 1], treasury);
        assert forall|id: OperatorId| #[trigger]
            stake_on_hold(after.currency, id) == stake_due(after.staking, id) by {
            assert(stake_on_hold(before.currency, id) == stake_due(before.staking, id));
        }
    }
}

/// Giving operators their rewards of an epoch keeps the stake held: what each is
/// granted of its reward is created in the stake that is held of it, and joins its
/// stake and, as the tax, its deposits of the epoch.
pub proof fn lemma_rewarding_keeps_stake_held(
    progress: EpochProgress,
    summary: StakingSummaryView,
    operator_ids: Seq<OperatorId>,
    k: int,
)
    requires
        stake_is_held(progress.staking, progress.currency),
    ensures
        ({
            let after = progress.rewarded(summary, operator_ids, k);
            &&& stake_is_held(after.staking, after.currency)
            &&& after.staking.domain_staking_summary == progress.staking.domain_staking_summary
        }),
    decreases k,
{
    if k > 0 {
        lemma_rewarding_keeps_stake_held(progress, summary, operator_ids, k - 1);
        let before = progress.rewarded(summary, operator_ids, k - 1);
        let operator_id = operator_ids[k - 1];
        let after = before.rewarded_one(summary, operator_id);
        if before.staking.operators.contains_key(operator_id) {
            let operator = before.staking.operators[operator_id];
            let reward = granted_reward(
                operator,
                StakingView::epoch_reward(summary, operator_id),
            );
            let rate = operator.nomination_tax as int;
            assert(stake_on_hold(before.currency, operator_id) == stake_due(
                before.staking,
                operator_id,
            ));
            assert((reward as int * rate) / 100 <= reward) by (nonlinear_arith)
                requires
                    0 <= rate <= 100,
                    0 <= reward,
            ;
            assert(tax_of(reward, operator.nomination_tax) <= reward);
            assert forall|id: OperatorId| #[trigger]
                stake_on_hold(after.currency, id) == stake_due(after.staking, id) by {
                assert(stake_on_hold(before.currency, id) == stake_due(before.staking, id));
            }
        }
    }
}

/// Settling an epoch for operators keeps the stake held: what the withdrawn shares
/// of each stood for waits to be unlocked, and its deposits of the epoch join its
/// stake.
pub proof fn lemma_settling_keeps_stake_held(
    progress: EpochProgress,
    summary: StakingSummaryView,
    domain_id: DomainId,
    operator_ids: Seq<OperatorId>,
    k: int,
)
    requires
        stake_is_held(progress.staking, progress.currency),
    ensures
        ({
            let after = progress.settled(summary, domain_id, operator_ids, k);
            &&& stake_is_held(after.staking, after.currency)
            &&& after.staking.domain_staking_summary == progress.staking.domain_staking_summary
        }),
    decreases k,
{
    if k > 0 {
        lemma_settling_keeps_stake_held(progress, summary, domain_id, operator_ids, k - 1);
        let before = progress.settled(summary, domain_id, operator_ids, k - 1);
        let operator_id = operator_ids[k - 1];
        let after = before.settled_one(summary, domain_id, operator_id);
        if before.staking.operators.contains_key(operator_id) {
            assert(stake_on_hold(before.currency, operator_id) == stake_due(
                before.staking,
                operator_id,
            ));
            assert forall|id: OperatorId| #[trigger]
                stake_on_hold(after.currency, id) == stake_due(after.staking, id) by {
                assert(stake_on_hold(before.currency, id) == stake_due(before.staking, id));
            }
        }
    }
}

/// The end of an epoch keeps the stake held.
pub proof fn lemma_epoch_keeps_stake_held(
    ledger: EpochLedger,
    domain_id: DomainId,
    treasury: AccountId,
)
    requires
        stake_is_held(ledger.staking, ledger.currency),
    ensures
        ({
            let after = ledger.after_epoch(domain_id, treasury);
            stake_is_held(after.staking, after.currency)
        }),
{
    let summary = ledger.staking.domain_staking_summary[domain_id];
    let base = ledger.without_domain(domain_id);
    assert forall|id: OperatorId| #[trigger]
        stake_on_hold(base.currency, id) == stake_due(base.staking, id) by {
        assert(stake_on_hold(ledger.currency, id) == stake_due(ledger.staking, id));
    }
    let fresh = EpochProgress {
        staking: base.staking,
        currency: base.currency,
        operators: Map::empty(),
        total_stake: 0,
        finalized: 0,
        events: Seq::empty(),
    };
    lemma_rewarding_keeps_stake_held(fresh, summary, summary.rewarded, summary.rewarded.len() as int);
    let pending = ledger.staking.pending_slashes_of(domain_id);
    lemma_sweep_keeps_stake_held(
        ledger.after_rewards(domain_id),
        pending,
        treasury,
        pending.len() as int,
    );
    let slashed = ledger.after_slashes(domain_id, treasury);
    let start = EpochProgress {
        staking: slashed.staking,
        currency: slashed.currency,
        operators: Map::empty(),
        total_stake: 0,
        finalized: 0,
        events: ledger.epoch_rewarded(domain_id).events,
    };
    lemma_settling_keeps_stake_held(
        start,
        summary,
        domain_id,
        summary.next_operators,
        summary.next_operators.len() as int,
    );
    let done = ledger.epoch_settled(domain_id, treasury);
    let after = ledger.after_epoch(domain_id, treasury);
    assert forall|id: OperatorId| #[trigger]
        stake_on_hold(after.currency, id) == stake_due(after.staking, id) by {
        assert(stake_on_hold(done.currency, id) == stake_due(done.staking, id));
    }
}

impl PalletView {
    /// Whether the stake of every operator is held.
    pub open spec fn holds_the_stake(self) -> bool {
        stake_is_held(self.staking, self.currency)
    }
}

/// Slashing operators in a state keeps the stake held.
pub proof fn lemma_slashes_keep_stake_held(
    state: PalletView,
    operator_ids: Seq<OperatorId>,
    reason: SlashedReason,
)
    requires
        state.holds_the_stake(),
    ensures
        state.with_slashes(operator_ids, reason).holds_the_stake(),
{
    lemma_slash_keeps_stake_held(
        state.staking,
        state.currency,
        operator_ids,
        operator_ids.len() as int,
    );
}

/// The confirmation of a block keeps the stake held, whether it ends an epoch or
/// not.
pub proof fn lemma_confirmation_keeps_stake_held(
    state: PalletView,
    domain_id: DomainId,
    info: ConfirmedInfoView,
)
    requires
        state.holds_the_stake(),
    ensures
        state.with_confirmation(domain_id, info).holds_the_stake(),
{
    let refunded = state.with_storage_fee_refund(
        info.total_storage_fee,
        info.paid_bundle_storage_fees,
    );
    assert forall|id: OperatorId| #[trigger]
        stake_on_hold(refunded.currency, id) == stake_due(refunded.staking, id) by {
        assert(stake_on_hold(state.currency, id) == stake_due(state.staking, id));
    }
    lemma_rewards_keep_stake_held(
        refunded.staking,
        refunded.currency,
        domain_id,
        info.operator_ids,
        info.rewards,
    );
    let rewarded = PalletView {
        staking: refunded.staking.with_rewards(domain_id, info.operator_ids, info.rewards),
        ..refunded
    };
    lemma_slashes_keep_stake_held(
        rewarded,
        info.invalid_bundle_authors,
        SlashedReason::InvalidBundle(info.domain_block_number),
    );
    let settled = state.with_confirmation_settled(domain_id, info);
    lemma_epoch_keeps_stake_held(settled.epoch_ledger(), domain_id, state.config.treasury_account);
}

/// Submitting a bundle keeps the stake held.
pub proof fn lemma_submit_bundle_keeps_stake_held(state: PalletView, bundle: OpaqueBundle)
    requires
        state.holds_the_stake(),
    ensures
        state.after_submit_bundle(bundle).holds_the_stake(),
{
    let election = bundle.sealed_header.header.proof_of_election;
    let receipt = bundle.sealed_header.header.receipt;
    let domain_id = election.domain_id;
    if state.replaces_bad_receipt(bundle) {
        lemma_slashes_keep_stake_held(
            PalletView {
                block_tree: state.block_tree.after_prune(domain_id, receipt.domain_block_number),
                ..state
            },
            state.block_tree.node_at(domain_id, receipt.domain_block_number).operator_ids,
            SlashedReason::BadExecutionReceipt(
                state.block_tree.block_tree[(domain_id, receipt.domain_block_number)],
            ),
        );
    }
    let taken = state.with_receipt_taken(bundle);
    assert(taken.holds_the_stake());
    if state.bundle_confirms(bundle) {
        lemma_confirmation_keeps_stake_held(taken, domain_id, state.confirmation_of(bundle));
    }
}

/// Submitting a fraud proof keeps the stake held.
pub proof fn lemma_submit_fraud_proof_keeps_stake_held(state: PalletView, fraud_proof: FraudProof)
    requires
        state.holds_the_stake(),
    ensures
        state.after_submit_fraud_proof(fraud_proof).holds_the_stake(),
{
    let domain_id = fraud_proof.spec_domain_id();
    match fraud_proof.spec_targeted_bad_receipt_hash() {
        Some(hash) => {
            let number = state.bad_receipt_number(fraud_proof);
            lemma_slashes_keep_stake_held(
                PalletView { block_tree: state.block_tree.after_prune(domain_id, number), ..state },
                state.block_tree.node_at(domain_id, number).operator_ids,
                SlashedReason::BadExecutionReceipt(state.block_tree.block_tree[(domain_id, number)]),
            );
        },
        None => match fraud_proof.spec_targeted_bad_operator_and_slot() {
            Some((operator_id, slot)) => {
                lemma_slashes_keep_stake_held(
                    PalletView {
                        events: state.events.push(
                            Event::FraudProofProcessed { domain_id, new_head_receipt_number: None },
                        ),
                        ..state
                    },
                    seq![operator_id],
                    SlashedReason::BundleEquivocation(slot),
                );
            },
            None => {},
        },
    }
}

/// Putting funds of an account on hold for another purpose than staking keeps the
/// stake held.
pub proof fn lemma_other_holds_keep_stake_held(
    staking: StakingView,
    currency: CurrencyView,
    reason: HoldIdentifier,
    who: AccountId,
    amount: Balance,
)
    requires
        stake_is_held(staking, currency),
        !(reason is StakingStaked),
    ensures
        stake_is_held(staking, currency.with_hold(reason, who, amount)),
{
    let after = currency.with_hold(reason, who, amount);
    assert forall|id: OperatorId| #[trigger]
        stake_on_hold(after, id) == stake_due(staking, id) by {
        assert(stake_on_hold(currency, id) == stake_due(staking, id));
    }
}

} // verus!
