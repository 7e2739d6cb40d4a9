//! What follows from pruning a bad receipt and from confirming a domain block:
//! slashes, refunds of storage fees, rewards, and the end of a staking epoch.

use crate::block_tree::ConfirmedInfoView;
use crate::bundle_storage_fund::{
    fee_share, paid_size, share_of_fee, total_paid_size, BundleStorageFund, BundleStorageFundView,
};
use crate::config::Config;
use crate::event::Event;
use crate::pallet::{Pallet, PalletView};
use crate::primitives::{Balance, DomainBlockNumber, DomainId, OperatorId, Weight};
use crate::staking::{
    add_saturating, saturating_balance_sum, saturating_difference, sub_saturating, Operator,
    SlashedReason, StakingView,
};
use crate::staking_epoch::{
    do_finalize_domain_current_epoch, EpochLedger, EpochTransitionResult, Error as EpochError,
};
use crate::table::Table;
use vstd::prelude::*;

verus! {

/// The events that tell of the slashing of the first `k` of `operator_ids` for
/// `reason`.
pub open spec fn slash_events(operator_ids: Seq<OperatorId>, reason: SlashedReason, k: int) -> Seq<
    Event,
>
    decreases k,
{
    if k <= 0 {
        Seq::empty()
    } else {
        slash_events(operator_ids, reason, k - 1).push(
            Event::OperatorSlashed { operator_id: operator_ids[k - 1], reason },
        )
    }
}

/// The storage funds after the first `k` of `paid` got their part of `total_fee`
/// back: each bundle whose author is one of `operators` brings its author the part
/// of the fee that falls to its size out of `total_size`.
pub open spec fn refunds(
    fund: BundleStorageFundView,
    operators: Map<OperatorId, Operator>,
    total_fee: Balance,
    paid: Seq<(OperatorId, u32)>,
    total_size: u64,
    k: int,
) -> BundleStorageFundView
    decreases k,
{
    if k <= 0 {
        fund
    } else {
        let before = refunds(fund, operators, total_fee, paid, total_size, k - 1);
        if operators.contains_key(paid[k - 1].0) {
            before.with_deposit(paid[k - 1].0, fee_share(total_fee, paid[k - 1].1, total_size))
        } else {
            before
        }
    }
}

/// What the first `k` of `paid` got back of `total_fee`, held at the largest
/// balance.
pub open spec fn refunded(
    operators: Map<OperatorId, Operator>,
    total_fee: Balance,
    paid: Seq<(OperatorId, u32)>,
    total_size: u64,
    k: int,
) -> Balance
    decreases k,
{
    if k <= 0 {
        0
    } else {
        let before = refunded(operators, total_fee, paid, total_size, k - 1);
        if operators.contains_key(paid[k - 1].0) {
            saturating_balance_sum(before, fee_share(total_fee, paid[k - 1].1, total_size))
        } else {
            before
        }
    }
}

/// The weight of an epoch transition that did what `transition` says.
pub open spec fn epoch_transition_weight(config: Config, transition: EpochTransitionResult) -> Weight {
    config.weights.operator_reward_tax_and_restake.spec_at(
        transition.rewarded_operator_count,
    ).spec_saturating_add(
        config.weights.finalize_slashed_operators.spec_at(transition.slashed_nominator_count),
    ).spec_saturating_add(
        config.weights.finalize_domain_epoch_staking.spec_at(transition.finalized_operator_count),
    )
}

impl PalletView {
    /// The state after `operator_ids` are slashed for `reason`, one after the other.
    /// Each operator whose slashing changes the ledger is told of.
    pub open spec fn with_slashes(self, operator_ids: Seq<OperatorId>, reason: SlashedReason) -> PalletView {
        let slashed = self.staking.newly_slashed(operator_ids, operator_ids.len() as int);
        PalletView {
            staking: self.staking.slash_all(operator_ids, operator_ids.len() as int),
            events: self.events + slash_events(slashed, reason, slashed.len() as int),
            ..self
        }
    }

    /// The state after the storage fee `total_fee` of a confirmed block is given
    /// back: the author of each bundle in `paid` gets its part into its storage fund,
    /// and what is left goes to the treasury. Nothing happens where the fee is zero.
    pub open spec fn with_storage_fee_refund(
        self,
        total_fee: Balance,
        paid: Seq<(OperatorId, u32)>,
    ) -> PalletView {
        if total_fee == 0 {
            self
        } else {
            let total_size = paid_size(paid, paid.len() as int);
            PalletView {
                storage_fund: refunds(
                    self.storage_fund,
                    self.staking.operators,
                    total_fee,
                    paid,
                    total_size,
                    paid.len() as int,
                ),
                currency: self.currency.with_mint(
                    self.config.treasury_account,
                    saturating_difference(
                        total_fee,
                        refunded(
                            self.staking.operators,
                            total_fee,
                            paid,
                            total_size,
                            paid.len() as int,
                        ),
                    ),
                ),
                ..self
            }
        }
    }

    /// The staking ledger and the balances of the state.
    pub open spec fn epoch_ledger(self) -> EpochLedger {
        EpochLedger { staking: self.staking, currency: self.currency }
    }

    /// The state after the current epoch of the domain ended. What the settling of
    /// the epoch tells is told.
    pub open spec fn with_epoch_ended(self, domain_id: DomainId) -> PalletView {
        let after = self.epoch_ledger().after_epoch(domain_id, self.config.treasury_account);
        PalletView {
            staking: after.staking,
            currency: after.currency,
            events: self.events + self.epoch_ledger().epoch_settled(
                domain_id,
                self.config.treasury_account,
            ).events,
            ..self
        }
    }

    /// What the end of the current epoch of the domain hands back.
    pub open spec fn epoch_result(self, domain_id: DomainId) -> EpochTransitionResult {
        self.epoch_ledger().epoch_result(domain_id, self.config.treasury_account)
    }

    /// Whether the confirmation of the block at height `number` ends a staking
    /// epoch: the height is a multiple of the length of an epoch.
    pub open spec fn ends_epoch(self, number: DomainBlockNumber) -> bool {
        self.config.stake_epoch_duration != 0 && number % self.config.stake_epoch_duration == 0
    }

    /// The state before the end of the epoch, after the block that `info` tells of
    /// is confirmed: the storage fee is given back, the submitters of the receipt are
    /// rewarded, and the authors of invalid bundles are slashed.
    pub open spec fn with_confirmation_settled(
        self,
        domain_id: DomainId,
        info: ConfirmedInfoView,
    ) -> PalletView {
        let refunded = self.with_storage_fee_refund(
            info.total_storage_fee,
            info.paid_bundle_storage_fees,
        );
        (PalletView {
            staking: refunded.staking.with_rewards(domain_id, info.operator_ids, info.rewards),
            ..refunded
        }).with_slashes(
            info.invalid_bundle_authors,
            SlashedReason::InvalidBundle(info.domain_block_number),
        )
    }

    /// The state after the block that `info` tells of is confirmed. Where the
    /// confirmation ends a staking epoch, the epoch ends and its end is told.
    pub open spec fn with_confirmation(self, domain_id: DomainId, info: ConfirmedInfoView) -> PalletView {
        let settled = self.with_confirmation_settled(domain_id, info);
        if self.ends_epoch(info.domain_block_number) {
            let ended = settled.with_epoch_ended(domain_id);
            PalletView {
                events: ended.events.push(
                    Event::DomainEpochCompleted {
                        domain_id,
                        completed_epoch_index: settled.epoch_result(domain_id).completed_epoch_index,
                    },
                ),
                ..ended
            }
        } else {
            settled
        }
    }

    /// The weight of confirming the block that `info` tells of.
    pub open spec fn confirmation_weight(self, domain_id: DomainId, info: ConfirmedInfoView) -> Weight {
        let confirm = self.config.weights.confirm_domain_block.spec_at(
            crate::nomination::count_of(info.operator_ids.len()),
            crate::nomination::count_of(info.invalid_bundle_authors.len()),
        );
        if self.ends_epoch(info.domain_block_number) {
            confirm.spec_saturating_add(
                epoch_transition_weight(
                    self.config,
                    self.with_confirmation_settled(domain_id, info).epoch_result(domain_id),
                ),
            )
        } else {
            confirm
        }
    }
}

/// Slashing an operator leaves the staking summaries of the same domains, each in
/// the same epoch.
pub proof fn lemma_slash_keeps_epochs(staking: StakingView, operator_ids: Seq<OperatorId>, k: int)
    ensures
        forall|d: DomainId|
            #![trigger staking.slash_all(operator_ids, k).current_epoch(d)]
            staking.slash_all(operator_ids, k).current_epoch(d) == staking.current_epoch(d),
    decreases k,
{
    if k > 0 {
        lemma_slash_keeps_epochs(staking, operator_ids, k - 1);
        let before = staking.slash_all(operator_ids, k - 1);
        assert forall|d: DomainId|
            #![trigger staking.slash_all(operator_ids, k).current_epoch(d)]
            staking.slash_all(operator_ids, k).current_epoch(d) == staking.current_epoch(d) by {
            assert(before.slash_one(operator_ids[k - 1]).current_epoch(d) == before.current_epoch(d));
            assert(before.current_epoch(d) == staking.current_epoch(d));
        }
    }
}

/// Rewarding operators leaves the staking summary of each domain in the same epoch.
pub proof fn lemma_rewards_keep_epochs(
    staking: StakingView,
    domain_id: DomainId,
    operator_ids: Seq<OperatorId>,
    rewards: Balance,
)
    ensures
        forall|d: DomainId|
            #![trigger staking.with_rewards(domain_id, operator_ids, rewards).current_epoch(d)]
            staking.with_rewards(domain_id, operator_ids, rewards).current_epoch(d)
                == staking.current_epoch(d),
{
    if staking.domain_staking_summary.contains_key(domain_id) && operator_ids.len() > 0 {
        let reward = (rewards / (operator_ids.len() as u128)) as u128;
        lemma_summary_rewards_keep_epoch(
            staking.domain_staking_summary[domain_id],
            operator_ids,
            reward,
            operator_ids.len() as int,
        );
    }
}

/// Rewarding operators leaves a staking summary in the same epoch.
pub proof fn lemma_summary_rewards_keep_epoch(
    summary: crate::staking::StakingSummaryView,
    operator_ids: Seq<OperatorId>,
    reward: Balance,
    k: int,
)
    ensures
        StakingView::summary_with_rewards(summary, operator_ids, reward, k).current_epoch_index
            == summary.current_epoch_index,
    decreases k,
{
    if k > 0 {
        lemma_summary_rewards_keep_epoch(summary, operator_ids, reward, k - 1);
    }
}

/// Gives the storage fee `total_fee` of a confirmed block back to the authors of the
/// bundles in `paid`. Hands back what is left for the treasury.
fn refund_to_funds(
    fund: &mut BundleStorageFund,
    operators: &Table<OperatorId, Operator>,
    total_fee: Balance,
    paid: &Vec<(OperatorId, u32)>,
) -> (left: Balance)
    ensures
        final(fund)@ == refunds(
            old(fund)@,
            operators@,
            total_fee,
            paid@,
            paid_size(paid@, paid@.len() as int),
            paid@.len() as int,
        ),
        left == saturating_difference(
            total_fee,
            refunded(
                operators@,
                total_fee,
                paid@,
                paid_size(paid@, paid@.len() as int),
                paid@.len() as int,
            ),
        ),
{
    let total_size = total_paid_size(paid);
    let mut given: Balance = 0;
    let mut i: usize = 0;
    while i < paid.len()
        invariant
            i <= paid@.len(),
            total_size == paid_size(paid@, paid@.len() as int),
            fund@ == refunds(old(fund)@, operators@, total_fee, paid@, total_size, i as int),
            given == refunded(operators@, total_fee, paid@, total_size, i as int),
        decreases paid@.len() - i,
    {
        let author = paid[i].0;
        if operators.contains_key(&author) {
            let share = share_of_fee(total_fee, paid[i].1, total_size);
            fund.deposit(author, share);
            given = add_saturating(given, share);
        }
        i = i + 1;
    }
    sub_saturating(total_fee, given)
}

impl Pallet {
    /// Slashes `operator_ids` for `reason`, one after the other, and tells of each
    /// operator whose slashing changed the ledger.
    pub fn slash_operators(&mut self, operator_ids: &Vec<OperatorId>, reason: SlashedReason)
        ensures
            final(self)@ == old(self)@.with_slashes(operator_ids@, reason),
    {
        let slashed = self.staking.do_slash_operators(operator_ids);
        let ghost events_before = self.events@;
        let mut i: usize = 0;
        while i < slashed.len()
            invariant
                i <= slashed@.len(),
                self.events@ == events_before + slash_events(slashed@, reason, i as int),
                self@ == (PalletView { events: self.events@, ..old(self)@.with_slashes(
                    operator_ids@,
                    reason,
                ) }),
                slashed@ == old(self)@.staking.newly_slashed(
                    operator_ids@,
                    operator_ids@.len() as int,
                ),
                events_before == old(self)@.events,
            decreases slashed@.len() - i,
        {
            self.events.push(Event::OperatorSlashed { operator_id: slashed[i], reason });
            proof {
                assert(self.events@ =~= events_before + slash_events(slashed@, reason, i + 1));
            }
            i = i + 1;
        }
    }

    /// Gives the storage fee `total_fee` of a confirmed block back.
    pub fn refund_storage_fee(&mut self, total_fee: Balance, paid: &Vec<(OperatorId, u32)>)
        ensures
            final(self)@ == old(self)@.with_storage_fee_refund(total_fee, paid@),
    {
        if total_fee == 0 {
            return ;
        }
        let left = refund_to_funds(&mut self.storage_fund, &self.staking.operators, total_fee, paid);
        let treasury = self.config.treasury_account;
        self.currency.mint_into(&treasury, left);
    }

    /// Ends the current epoch of the domain and tells what the settling of the epoch
    /// tells. Nothing is changed where the epoch cannot end.
    pub fn finalize_domain_epoch(&mut self, domain_id: DomainId) -> (result: Result<
        EpochTransitionResult,
        EpochError,
    >)
        ensures
            match result {
                Ok(transition) => {
                    &&& old(self)@.epoch_ledger().epoch_error(domain_id) is None
                    &&& transition == old(self)@.epoch_result(domain_id)
                    &&& final(self)@ == old(self)@.with_epoch_ended(domain_id)
                },
                Err(e) => Some(e) == old(self)@.epoch_ledger().epoch_error(domain_id) && final(self)@ == old(self)@,
            },
    {
        let treasury = self.config.treasury_account;
        match do_finalize_domain_current_epoch(
            &mut self.staking,
            &mut self.currency,
            &treasury,
            domain_id,
        ) {
            Ok((transition, events)) => {
                let ghost events_before = self.events@;
                let mut i: usize = 0;
                while i < events.len()
                    invariant
                        i <= events@.len(),
                        self.events@ == events_before + events@.take(i as int),
                        self@ == (PalletView { events: self.events@, ..old(self)@.with_epoch_ended(
                            domain_id,
                        ) }),
                    decreases events@.len() - i,
                {
                    self.events.push(events[i]);
                    proof {
                        assert(events@.take(i + 1) =~= events@.take(i as int).push(events@[i as int]));
                        assert(self.events@ =~= events_before + events@.take(i + 1));
                    }
                    i = i + 1;
                }
                proof {
                    assert(events@.take(events@.len() as int) =~= events@);
                }
                Ok(transition)
            },
            Err(e) => Err(e),
        }
    }

    /// The weight of an epoch transition that did what `transition` says.
    pub fn actual_epoch_transition_weight(&self, epoch_transition_res: EpochTransitionResult) -> (weight:
        Weight)
        ensures
            weight == epoch_transition_weight(self.config, epoch_transition_res),
    {
        self.config.weights.operator_reward_tax_and_restake.at(
            epoch_transition_res.rewarded_operator_count,
        ).saturating_add(
            self.config.weights.finalize_slashed_operators.at(
                epoch_transition_res.slashed_nominator_count,
            ),
        ).saturating_add(
            self.config.weights.finalize_domain_epoch_staking.at(
                epoch_transition_res.finalized_operator_count,
            ),
        )
    }
}

} // verus!
