//! The transition of a domain from one staking epoch to the next.
//!
//! When an epoch ends, each operator with rewards in the epoch gets them: the tax
//! as a deposit of its owner, the rest on top of its stake. Then the operators that
//! wait to be slashed lose their stake to the treasury; each operator of the next
//! epoch has its share price frozen and its pending deposits and withdrawals
//! settled at that price; and the operators of the next epoch become those of the
//! current one.

use crate::currency::{Currency, CurrencyView, HoldIdentifier};
use crate::event::Event;
use crate::nomination::{count, count_of, lesser, settle_deposit};
use crate::primitives::{AccountId, Balance, DomainId, EpochIndex, OperatorId};
use crate::staking::{
    add_saturating, mul_div, mul_div_floor, saturating_balance_sum, saturating_difference,
    stake_account, stake_account_of, sub_saturating, Deposit, ElectionParamsView,
    ElectionVerificationParams, Operator, OperatorStatus, SharePrice, Staking, StakingSummaryView,
    StakingView,
};
use crate::table::{IdSet, Table};
use std::collections::BTreeMap;
use vstd::prelude::*;

verus! {

broadcast use vstd::std_specs::btree::group_btree_axioms;

/// What can go wrong in an epoch transition.
#[derive(Clone, Copy, Debug, PartialEq, Eq, Structural)]
pub enum Error {
    /// The domain has no staking summary.
    DomainNotInitialized,
    /// No more epochs can be numbered.
    MaximumEpochIndex,
}

/// What an epoch transition did.
#[derive(Clone, Copy, Debug, PartialEq, Eq, Structural)]
pub struct EpochTransitionResult {
    /// The number of operators with rewards in the epoch.
    pub rewarded_operator_count: u32,
    /// The number of operators whose stake was settled.
    pub finalized_operator_count: u32,
    /// The number of accounts that lost their stake with a slashed operator.
    pub slashed_nominator_count: u32,
    /// The index of the epoch that ended.
    pub completed_epoch_index: EpochIndex,
}

/// The staking ledger and the balances, as a value.
pub struct EpochLedger {
    pub staking: StakingView,
    pub currency: CurrencyView,
}

/// How far the settling of an epoch has come.
pub struct EpochProgress {
    pub staking: StakingView,
    pub currency: CurrencyView,
    /// The stake of each operator that is settled, for the next epoch.
    pub operators: Map<OperatorId, Balance>,
    /// The sum of that stake, held at the largest balance.
    pub total_stake: Balance,
    /// The number of operators that are settled.
    pub finalized: nat,
    /// What the settling tells the subscribers.
    pub events: Seq<Event>,
}

impl EpochLedger {
    /// The ledger after the operator is slashed for good: the stake that is held of
    /// it is in the treasury; the operator, if it is on record, is slashed and has
    /// neither stake nor shares; its deposits and withdrawals and the count of its
    /// nominators are off the record.
    pub open spec fn swept_one(self, operator_id: OperatorId, treasury: AccountId) -> EpochLedger {
        EpochLedger {
            currency: self.currency.with_slash(
                HoldIdentifier::StakingStaked(operator_id),
                stake_account_of(operator_id),
                treasury,
            ),
            staking: StakingView {
                operators: if self.staking.operators.contains_key(operator_id) {
                    self.staking.operators.insert(
                        operator_id,
                        Operator {
                            status: OperatorStatus::Slashed,
                            current_total_stake: 0,
                            current_total_shares: 0,
                            deposits_in_epoch: 0,
                            withdrawals_in_epoch: 0,
                            pending_withdrawals: 0,
                            ..self.staking.operators[operator_id]
                        },
                    )
                } else {
                    self.staking.operators
                },
                deposits: self.staking.deposits.remove(operator_id),
                nominators: self.staking.nominators.remove(operator_id),
                withdrawals: self.staking.withdrawals.remove(operator_id),
                nominator_count: self.staking.nominator_count.remove(operator_id),
                ..self.staking
            },
        }
    }

    /// The ledger after the first `k` of `operator_ids` are slashed for good, one
    /// after the other.
    pub open spec fn swept(self, operator_ids: Seq<OperatorId>, treasury: AccountId, k: int) -> EpochLedger
        decreases k,
    {
        if k <= 0 {
            self
        } else {
            self.swept(operator_ids, treasury, k - 1).swept_one(operator_ids[k - 1], treasury)
        }
    }

    /// The number of accounts that lose their stake when the first `k` of
    /// `operator_ids` are slashed for good.
    pub open spec fn swept_nominators(
        self,
        operator_ids: Seq<OperatorId>,
        treasury: AccountId,
        k: int,
    ) -> nat
        decreases k,
    {
        if k <= 0 {
            0
        } else {
            self.swept_nominators(operator_ids, treasury, k - 1) + self.swept(
                operator_ids,
                treasury,
                k - 1,
            ).staking.nominators_of(operator_ids[k - 1]).len()
        }
    }
}

/// The part of `reward` that the operator keeps at a tax of `nomination_tax`
/// hundredths.
pub open spec fn tax_of(reward: Balance, nomination_tax: u8) -> Balance {
    mul_div_floor(reward, nomination_tax as u128, 100)
}

impl StakingView {
    /// The ledger with `tax` more waiting in the deposit of the owner with the
    /// operator, held at the largest balance. What waited in the deposit since an
    /// earlier epoch is turned into shares first, where the price of that epoch is on
    /// record. The deposit is made where the owner has none.
    pub open spec fn with_tax_deposited(
        self,
        operator_id: OperatorId,
        owner: AccountId,
        tax: Balance,
        epoch: EpochIndex,
    ) -> StakingView {
        let domain_id = self.operators[operator_id].current_domain_id;
        let deposit = if self.deposit_price_missing(operator_id, owner, domain_id, epoch) {
            self.deposit_of(operator_id, owner).unwrap()
        } else {
            self.settled_deposit(operator_id, owner, domain_id, epoch)
        };
        self.with_deposit(
            operator_id,
            owner,
            Deposit {
                shares: deposit.shares,
                pending_amount: saturating_balance_sum(deposit.pending_amount, tax),
                pending_epoch: epoch,
            },
        )
    }
}

/// What the operator is granted of `reward`: all of it, as far as the stake that
/// is held of the operator has room for it.
pub open spec fn granted_reward(operator: Operator, reward: Balance) -> Balance {
    let held = operator.current_total_stake + operator.deposits_in_epoch
        + operator.pending_withdrawals;
    if held >= u128::MAX {
        0
    } else if held + reward > u128::MAX {
        (u128::MAX - held) as u128
    } else {
        reward
    }
}

impl EpochProgress {
    /// The operator with `reward`: the reward less the tax is added to its stake,
    /// which raises the price of its shares, and the tax is a deposit of the epoch.
    pub open spec fn rewarded_operator(operator: Operator, reward: Balance) -> Operator {
        let tax = tax_of(reward, operator.nomination_tax);
        Operator {
            current_total_stake: saturating_balance_sum(
                operator.current_total_stake,
                saturating_difference(reward, tax),
            ),
            deposits_in_epoch: saturating_balance_sum(operator.deposits_in_epoch, tax),
            ..operator
        }
    }

    /// The progress after the operator got its reward of the epoch. An operator that
    /// is not on record is passed over. What the operator is granted of the reward is
    /// created in the stake that is held of it. The tax, where there is any and the
    /// owner is on record, waits in the deposit of the owner for the end of the epoch.
    pub open spec fn rewarded_one(
        self,
        summary: StakingSummaryView,
        operator_id: OperatorId,
    ) -> EpochProgress {
        if !self.staking.operators.contains_key(operator_id) {
            self
        } else {
            let operator = self.staking.operators[operator_id];
            let reward = granted_reward(
                operator,
                StakingView::epoch_reward(summary, operator_id),
            );
            let tax = tax_of(reward, operator.nomination_tax);
            let pays_tax = tax > 0 && self.staking.operator_id_owner.contains_key(operator_id);
            let owner = self.staking.operator_id_owner[operator_id];
            let recorded = StakingView {
                operators: self.staking.operators.insert(
                    operator_id,
                    Self::rewarded_operator(operator, reward),
                ),
                ..self.staking
            };
            EpochProgress {
                staking: if pays_tax {
                    recorded.with_tax_deposited(
                        operator_id,
                        owner,
                        tax,
                        summary.current_epoch_index,
                    )
                } else {
                    recorded
                },
                currency: self.currency.with_mint_on_hold(
                    HoldIdentifier::StakingStaked(operator_id),
                    stake_account_of(operator_id),
                    reward,
                ),
                events: {
                    let rewarded = if reward > 0 {
                        self.events.push(Event::OperatorRewarded { operator_id, reward })
                    } else {
                        self.events
                    };
                    if tax > 0 {
                        rewarded.push(Event::OperatorTaxCollected { operator_id, tax })
                    } else {
                        rewarded
                    }
                },
                ..self
            }
        }
    }

    /// The progress after the first `k` of `operator_ids` got their rewards of the
    /// epoch, one after the other.
    pub open spec fn rewarded(
        self,
        summary: StakingSummaryView,
        operator_ids: Seq<OperatorId>,
        k: int,
    ) -> EpochProgress
        decreases k,
    {
        if k <= 0 {
            self
        } else {
            self.rewarded(summary, operator_ids, k - 1).rewarded_one(summary, operator_ids[k - 1])
        }
    }

    /// The price of the shares of the operator as it is frozen at the end of an
    /// epoch.
    pub open spec fn frozen_price(operator: Operator) -> SharePrice {
        SharePrice {
            total_stake: operator.current_total_stake,
            total_shares: operator.current_total_shares,
        }
    }

    /// What leaves the stake of the operator for the shares withdrawn in the epoch,
    /// at the frozen price.
    pub open spec fn withdrawn_stake(operator: Operator) -> Balance {
        let price = Self::frozen_price(operator);
        lesser(price.stake_for(operator.withdrawals_in_epoch), price.total_stake)
    }

    /// The operator once the epoch is settled: the shares withdrawn in the epoch are
    /// burned, and what they stand for leaves the stake and waits to be unlocked; the
    /// deposits of the epoch join the stake and are turned into shares. All of it at
    /// the frozen price.
    pub open spec fn settled_operator(operator: Operator) -> Operator {
        let price = Self::frozen_price(operator);
        let withdrawn = Self::withdrawn_stake(operator);
        Operator {
            current_total_stake: saturating_balance_sum(
                saturating_difference(price.total_stake, withdrawn),
                operator.deposits_in_epoch,
            ),
            current_total_shares: saturating_balance_sum(
                saturating_difference(price.total_shares, operator.withdrawals_in_epoch),
                price.shares_for(operator.deposits_in_epoch),
            ),
            deposits_in_epoch: 0,
            withdrawals_in_epoch: 0,
            pending_withdrawals: saturating_balance_sum(operator.pending_withdrawals, withdrawn),
            ..operator
        }
    }

    /// The progress after the epoch `epoch` of the domain is settled for the
    /// operator. An operator that is not on record is passed over. The frozen price
    /// is put on record.
    pub open spec fn settled_one(
        self,
        summary: StakingSummaryView,
        domain_id: DomainId,
        operator_id: OperatorId,
    ) -> EpochProgress {
        if !self.staking.operators.contains_key(operator_id) {
            self
        } else {
            let operator = self.staking.operators[operator_id];
            let settled = Self::settled_operator(operator);
            EpochProgress {
                staking: StakingView {
                    operators: self.staking.operators.insert(operator_id, settled),
                    operator_epoch_share_price: self.staking.operator_epoch_share_price.insert(
                        (operator_id, domain_id, summary.current_epoch_index),
                        Self::frozen_price(operator),
                    ),
                    ..self.staking
                },
                operators: self.operators.insert(operator_id, settled.current_total_stake),
                total_stake: saturating_balance_sum(self.total_stake, settled.current_total_stake),
                finalized: self.finalized + 1,
                ..self
            }
        }
    }

    /// The progress after the epoch is settled for the first `k` of `operator_ids`,
    /// one after the other.
    pub open spec fn settled(
        self,
        summary: StakingSummaryView,
        domain_id: DomainId,
        operator_ids: Seq<OperatorId>,
        k: int,
    ) -> EpochProgress
        decreases k,
    {
        if k <= 0 {
            self
        } else {
            self.settled(summary, domain_id, operator_ids, k - 1).settled_one(
                summary,
                domain_id,
                operator_ids[k - 1],
            )
        }
    }
}

impl EpochLedger {
    /// Why the current epoch of the domain cannot end, if it cannot.
    pub open spec fn epoch_error(self, domain_id: DomainId) -> Option<Error> {
        if !self.staking.domain_staking_summary.contains_key(domain_id) {
            Some(Error::DomainNotInitialized)
        } else if self.staking.domain_staking_summary[domain_id].current_epoch_index == u32::MAX {
            Some(Error::MaximumEpochIndex)
        } else {
            None
        }
    }

    /// The ledger without the staking summary and the pending slashes of the
    /// domain.
    pub open spec fn without_domain(self, domain_id: DomainId) -> EpochLedger {
        EpochLedger {
            staking: StakingView {
                domain_staking_summary: self.staking.domain_staking_summary.remove(domain_id),
                pending_slashes: self.staking.pending_slashes.remove(domain_id),
                ..self.staking
            },
            ..self
        }
    }

    /// The progress once the operators with rewards in the current epoch of the
    /// domain got them.
    pub open spec fn epoch_rewarded(self, domain_id: DomainId) -> EpochProgress {
        let summary = self.staking.domain_staking_summary[domain_id];
        let base = self.without_domain(domain_id);
        (EpochProgress {
            staking: base.staking,
            currency: base.currency,
            operators: Map::empty(),
            total_stake: 0,
            finalized: 0,
            events: Seq::empty(),
        }).rewarded(summary, summary.rewarded, summary.rewarded.len() as int)
    }

    /// The staking ledger and the balances once the rewards of the current epoch of
    /// the domain are given.
    pub open spec fn after_rewards(self, domain_id: DomainId) -> EpochLedger {
        let rewarded = self.epoch_rewarded(domain_id);
        EpochLedger { staking: rewarded.staking, currency: rewarded.currency }
    }

    /// The ledger after the rewards of the current epoch of the domain are given and
    /// its pending slashes are carried out.
    pub open spec fn after_slashes(self, domain_id: DomainId, treasury: AccountId) -> EpochLedger {
        self.after_rewards(domain_id).swept(
            self.staking.pending_slashes_of(domain_id),
            treasury,
            self.staking.pending_slashes_of(domain_id).len() as int,
        )
    }

    /// The progress once the current epoch of the domain is settled for each
    /// operator of the next epoch.
    pub open spec fn epoch_settled(self, domain_id: DomainId, treasury: AccountId) -> EpochProgress {
        let summary = self.staking.domain_staking_summary[domain_id];
        let slashed = self.after_slashes(domain_id, treasury);
        (EpochProgress {
            staking: slashed.staking,
            currency: slashed.currency,
            operators: Map::empty(),
            total_stake: 0,
            finalized: 0,
            events: self.epoch_rewarded(domain_id).events,
        }).settled(summary, domain_id, summary.next_operators, summary.next_operators.len() as int)
    }

    /// The ledger after the current epoch of the domain ended: the rewards of the
    /// epoch are given, the pending slashes are carried out, the operators of the next
    /// epoch are settled and are the operators of the new epoch, the rewards start
    /// over, no staking operation is pending, and the stake of the epoch that ended is
    /// kept for the elections of this consensus block.
    pub open spec fn after_epoch(self, domain_id: DomainId, treasury: AccountId) -> EpochLedger {
        let summary = self.staking.domain_staking_summary[domain_id];
        let done = self.epoch_settled(domain_id, treasury);
        EpochLedger {
            staking: StakingView {
                domain_staking_summary: done.staking.domain_staking_summary.insert(
                    domain_id,
                    StakingSummaryView {
                        current_epoch_index: (summary.current_epoch_index + 1) as u32,
                        current_total_stake: done.total_stake,
                        current_operators: done.operators,
                        next_operators: summary.next_operators,
                        current_epoch_rewards: Map::empty(),
                        rewarded: Seq::empty(),
                    },
                ),
                last_epoch_staking_distribution: done.staking.last_epoch_staking_distribution.insert(
                    domain_id,
                    ElectionParamsView {
                        operators: summary.current_operators,
                        total_domain_stake: summary.current_total_stake,
                    },
                ),
                pending_staking_operation_count: done.staking.pending_staking_operation_count.insert(
                    domain_id,
                    0,
                ),
                ..done.staking
            },
            currency: done.currency,
        }
    }

    /// What the end of the current epoch of the domain hands back.
    pub open spec fn epoch_result(self, domain_id: DomainId, treasury: AccountId) -> EpochTransitionResult {
        let summary = self.staking.domain_staking_summary[domain_id];
        EpochTransitionResult {
            rewarded_operator_count: count_of(summary.rewarded.len()),
            finalized_operator_count: count_of(self.epoch_settled(domain_id, treasury).finalized),
            slashed_nominator_count: count_of(
                self.after_rewards(domain_id).swept_nominators(
                    self.staking.pending_slashes_of(domain_id),
                    treasury,
                    self.staking.pending_slashes_of(domain_id).len() as int,
                ),
            ),
            completed_epoch_index: summary.current_epoch_index,
        }
    }
}

/// Slashes one operator for good. Hands back the number of accounts that lost their
/// stake.
fn sweep_operator(
    staking: &mut Staking,
    currency: &mut Currency,
    operator_id: OperatorId,
    treasury: &AccountId,
) -> (swept: usize)
    ensures
        (EpochLedger { staking: final(staking)@, currency: final(currency)@ }) == (EpochLedger {
            staking: old(staking)@,
            currency: old(currency)@,
        }).swept_one(operator_id, *treasury),
        swept == old(staking)@.nominators_of(operator_id).len(),
{
    let ghost before = EpochLedger { staking: staking@, currency: currency@ };
    let deposits = match staking.deposits.remove(&operator_id) {
        Some(deposits) => deposits,
        None => Table::new(),
    };
    let n = deposits.len();
    proof {
        assert(deposits.keys() =~= before.staking.nominators_of(operator_id));
    }
    currency.slash_hold(
        HoldIdentifier::StakingStaked(operator_id),
        &stake_account(operator_id),
        treasury,
    );
    staking.withdrawals.remove(&operator_id);
    staking.nominator_count.remove(&operator_id);
    let operator = match staking.operators.get(&operator_id) {
        Some(operator) => Some(*operator),
        None => None,
    };
    match operator {
        Some(operator) => {
            staking.operators.insert(
                operator_id,
                Operator {
                    status: OperatorStatus::Slashed,
                    current_total_stake: 0,
                    current_total_shares: 0,
                    deposits_in_epoch: 0,
                    withdrawals_in_epoch: 0,
                    pending_withdrawals: 0,
                    ..operator
                },
            );
        },
        None => {},
    }
    proof {
        assert(staking@.domain_staking_summary =~= before.staking.domain_staking_summary);
        assert(staking@.pending_slashes =~= before.staking.pending_slashes);
        assert(staking@.last_epoch_staking_distribution
            =~= before.staking.last_epoch_staking_distribution);
        assert(staking@.deposits =~= before.staking.deposits.remove(operator_id));
        assert(staking@.nominators =~= before.staking.nominators.remove(operator_id));
        assert(staking@.withdrawals =~= before.staking.withdrawals.remove(operator_id));
    }
    n
}

/// The part of `reward` that the operator keeps at a tax of `nomination_tax`
/// hundredths.
fn operator_tax(reward: Balance, nomination_tax: u8) -> (tax: Balance)
    ensures
        tax == tax_of(reward, nomination_tax),
{
    mul_div(reward, nomination_tax as u128, 100)
}

/// What the operator is granted of `reward`.
fn grant(operator: &Operator, reward: Balance) -> (granted: Balance)
    ensures
        granted == granted_reward(*operator, reward),
{
    let held = add_saturating(
        add_saturating(operator.current_total_stake, operator.deposits_in_epoch),
        operator.pending_withdrawals,
    );
    if reward <= u128::MAX - held {
        reward
    } else {
        u128::MAX - held
    }
}

/// Gives one operator its reward of the epoch `epoch`.
fn reward_operator(
    staking: &mut Staking,
    currency: &mut Currency,
    events: &mut Vec<Event>,
    epoch: EpochIndex,
    operator_id: OperatorId,
    reward: Balance,
)
    ensures
        forall|
            summary: StakingSummaryView,
            operators: Map<OperatorId, Balance>,
            total_stake: Balance,
            finalized: nat,
        |
            #![trigger (EpochProgress {
                staking: old(staking)@,
                currency: old(currency)@,
                operators,
                total_stake,
                finalized,
                events: old(events)@,
            }).rewarded_one(summary, operator_id)]
            summary.current_epoch_index == epoch && StakingView::epoch_reward(summary, operator_id)
                == reward ==> (EpochProgress {
                staking: old(staking)@,
                currency: old(currency)@,
                operators,
                total_stake,
                finalized,
                events: old(events)@,
            }).rewarded_one(summary, operator_id) == (EpochProgress {
                staking: final(staking)@,
                currency: final(currency)@,
                operators,
                total_stake,
                finalized,
                events: final(events)@,
            }),
{
    let operator = match staking.operators.get(&operator_id) {
        Some(operator) => *operator,
        None => {
            return ;
        },
    };
    let reward = grant(&operator, reward);
    let tax = operator_tax(reward, operator.nomination_tax);
    let rewarded = Operator {
        current_total_stake: add_saturating(
            operator.current_total_stake,
            sub_saturating(reward, tax),
        ),
        deposits_in_epoch: add_saturating(operator.deposits_in_epoch, tax),
        ..operator
    };
    assert(rewarded == EpochProgress::rewarded_operator(operator, reward));
    staking.operators.insert(operator_id, rewarded);
    let owner = match staking.operator_id_owner.get(&operator_id) {
        Some(owner) => Some(*owner),
        None => None,
    };
    proof {
        assert(staking@.domain_staking_summary =~= old(staking)@.domain_staking_summary);
        assert(staking@.pending_slashes =~= old(staking)@.pending_slashes);
        assert(staking@.last_epoch_staking_distribution
            =~= old(staking)@.last_epoch_staking_distribution);
        assert(staking@.deposits =~= old(staking)@.deposits);
        assert(staking@.nominators =~= old(staking)@.nominators);
        assert(staking@.withdrawals =~= old(staking)@.withdrawals);
    }
    if tax > 0 {
        match owner {
            Some(owner) => {
                let deposit = match settle_deposit(
                    staking,
                    operator_id,
                    &owner,
                    rewarded.current_domain_id,
                    epoch,
                ) {
                    Some(deposit) => deposit,
                    None => staking.deposit_of(operator_id, &owner).unwrap(),
                };
                staking.set_deposit(
                    operator_id,
                    owner,
                    Deposit {
                        shares: deposit.shares,
                        pending_amount: add_saturating(deposit.pending_amount, tax),
                        pending_epoch: epoch,
                    },
                );
            },
            None => {},
        }
    }
    currency.mint_on_hold(
        HoldIdentifier::StakingStaked(operator_id),
        &stake_account(operator_id),
        reward,
    );
    if reward > 0 {
        events.push(Event::OperatorRewarded { operator_id, reward });
    }
    if tax > 0 {
        events.push(Event::OperatorTaxCollected { operator_id, tax });
    }
}

/// Settles the epoch `epoch` of the domain for one operator. Hands back the stake of
/// the operator for the next epoch, if the operator is on record.
fn settle_operator(
    staking: &mut Staking,
    domain_id: DomainId,
    epoch: EpochIndex,
    operator_id: OperatorId,
) -> (stake: Option<Balance>)
    ensures
        forall|
            summary: StakingSummaryView,
            currency: CurrencyView,
            operators: Map<OperatorId, Balance>,
            total_stake: Balance,
            finalized: nat,
            events: Seq<Event>,
        |
            #![trigger (EpochProgress {
                staking: old(staking)@,
                currency,
                operators,
                total_stake,
                finalized,
                events,
            }).settled_one(summary, domain_id, operator_id)]
            summary.current_epoch_index == epoch ==> {
                let before = EpochProgress {
                    staking: old(staking)@,
                    currency,
                    operators,
                    total_stake,
                    finalized,
                    events,
                };
                let after = before.settled_one(summary, domain_id, operator_id);
                &&& after.staking == final(staking)@
                &&& after.currency == currency
                &&& after.events == events
                &&& match stake {
                    Some(stake) => {
                        &&& old(staking)@.operators.contains_key(operator_id)
                        &&& after.operators == operators.insert(operator_id, stake)
                        &&& after.total_stake == saturating_balance_sum(total_stake, stake)
                        &&& after.finalized == finalized + 1
                    },
                    None => !old(staking)@.operators.contains_key(operator_id) && after == before,
                }
            },
{
    let operator = match staking.operators.get(&operator_id) {
        Some(operator) => *operator,
        None => {
            return None;
        },
    };
    let price = SharePrice {
        total_stake: operator.current_total_stake,
        total_shares: operator.current_total_shares,
    };
    let worth = price.share_to_stake(operator.withdrawals_in_epoch);
    let withdrawn = if worth <= price.total_stake {
        worth
    } else {
        price.total_stake
    };
    let settled = Operator {
        current_total_stake: add_saturating(
            sub_saturating(price.total_stake, withdrawn),
            operator.deposits_in_epoch,
        ),
        current_total_shares: add_saturating(
            sub_saturating(price.total_shares, operator.withdrawals_in_epoch),
            price.stake_to_share(operator.deposits_in_epoch),
        ),
        deposits_in_epoch: 0,
        withdrawals_in_epoch: 0,
        pending_withdrawals: add_saturating(operator.pending_withdrawals, withdrawn),
        ..operator
    };
    assert(price == EpochProgress::frozen_price(operator));
    assert(withdrawn == EpochProgress::withdrawn_stake(operator));
    assert(settled == EpochProgress::settled_operator(operator));
    staking.operators.insert(operator_id, settled);
    staking.operator_epoch_share_price.insert((operator_id, domain_id, epoch), price);
    proof {
        assert(staking@.domain_staking_summary =~= old(staking)@.domain_staking_summary);
        assert(staking@.pending_slashes =~= old(staking)@.pending_slashes);
        assert(staking@.last_epoch_staking_distribution
            =~= old(staking)@.last_epoch_staking_distribution);
        assert(staking@.deposits =~= old(staking)@.deposits);
        assert(staking@.nominators =~= old(staking)@.nominators);
        assert(staking@.withdrawals =~= old(staking)@.withdrawals);
    }
    Some(settled.current_total_stake)
}

/// Ends the current epoch of the domain. Hands back what the transition did and
/// what it tells the subscribers. `treasury` is the account that slashed stake goes
/// to. Nothing is changed where the epoch cannot end.
pub fn do_finalize_domain_current_epoch(
    staking: &mut Staking,
    currency: &mut Currency,
    treasury: &AccountId,
    domain_id: DomainId,
) -> (result: Result<(EpochTransitionResult, Vec<Event>), Error>)
    ensures
        match result {
            Ok((transition, events)) => {
                let before = EpochLedger { staking: old(staking)@, currency: old(currency)@ };
                &&& before.epoch_error(domain_id) is None
                &&& (EpochLedger { staking: final(staking)@, currency: final(currency)@ })
                    == before.after_epoch(domain_id, *treasury)
                &&& transition == before.epoch_result(domain_id, *treasury)
                &&& events@ == before.epoch_settled(domain_id, *treasury).events
            },
            Err(e) => {
                &&& Some(e) == (EpochLedger {
                    staking: old(staking)@,
                    currency: old(currency)@,
                }).epoch_error(domain_id)
                &&& final(staking)@ == old(staking)@
                &&& final(currency)@ == old(currency)@
            },
        },
{
    let ghost before = EpochLedger { staking: staking@, currency: currency@ };
    let epoch = match staking.current_epoch(domain_id) {
        Some(epoch) => epoch,
        None => {
            return Err(Error::DomainNotInitialized);
        },
    };
    if epoch == u32::MAX {
        return Err(Error::MaximumEpochIndex);
    }
    let mut summary = staking.domain_staking_summary.remove(&domain_id).unwrap();
    let ghost summary_before = summary@;
    let pending = match staking.pending_slashes.remove(&domain_id) {
        Some(pending) => pending,
        None => IdSet::new(),
    };
    let ghost base = EpochLedger { staking: staking@, currency: currency@ };
    proof {
        assert(base.staking.domain_staking_summary =~= before.staking.domain_staking_summary.remove(
            domain_id,
        ));
        assert(base.staking.pending_slashes =~= before.staking.pending_slashes.remove(domain_id));
        assert(base.staking.last_epoch_staking_distribution
            =~= before.staking.last_epoch_staking_distribution);
        assert(base.staking.deposits =~= before.staking.deposits);
        assert(base.staking.nominators =~= before.staking.nominators);
        assert(base.staking.withdrawals =~= before.staking.withdrawals);
        assert(base == before.without_domain(domain_id));
        assert(pending@ =~= before.staking.pending_slashes_of(domain_id));
        assert(summary_before == before.staking.domain_staking_summary[domain_id]);
    }
    let mut events: Vec<Event> = Vec::new();
    let rewarded = summary.current_epoch_rewards.len();
    let ghost fresh = EpochProgress {
        staking: base.staking,
        currency: base.currency,
        operators: Map::empty(),
        total_stake: 0,
        finalized: 0,
        events: Seq::empty(),
    };
    let mut r: usize = 0;
    assert(events@ =~= Seq::<Event>::empty());
    while r < rewarded
        invariant
            r <= rewarded,
            rewarded == summary_before.rewarded.len(),
            summary@ == summary_before,
            summary_before.current_epoch_index == epoch,
            (EpochProgress {
                staking: staking@,
                currency: currency@,
                operators: Map::empty(),
                total_stake: 0,
                finalized: 0,
                events: events@,
            }) == fresh.rewarded(summary_before, summary_before.rewarded, r as int),
        decreases rewarded - r,
    {
        let operator_id = *summary.current_epoch_rewards.key_at(r);
        let reward = match summary.current_epoch_rewards.get(&operator_id) {
            Some(reward) => *reward,
            None => 0,
        };
        let ghost progress = EpochProgress {
            staking: staking@,
            currency: currency@,
            operators: Map::empty(),
            total_stake: 0,
            finalized: 0,
            events: events@,
        };
        let ghost expected = progress.rewarded_one(summary_before, operator_id);
        reward_operator(staking, currency, &mut events, epoch, operator_id, reward);
        r = r + 1;
    }
    let ghost given = EpochLedger { staking: staking@, currency: currency@ };
    let ghost told = events@;
    assert(given == before.after_rewards(domain_id));
    assert(told == before.epoch_rewarded(domain_id).events);
    let pending_len = pending.len();
    let mut slashed_nominators: usize = 0;
    let mut i: usize = 0;
    while i < pending_len
        invariant
            i <= pending_len,
            pending_len == pending@.len(),
            events@ == told,
            (EpochLedger { staking: staking@, currency: currency@ }) == given.swept(
                pending@,
                *treasury,
                i as int,
            ),
            slashed_nominators >= given.swept_nominators(pending@, *treasury, i as int)
                || slashed_nominators == usize::MAX,
            slashed_nominators <= given.swept_nominators(pending@, *treasury, i as int),
        decreases pending_len - i,
    {
        let swept = sweep_operator(staking, currency, pending.get(i), treasury);
        slashed_nominators = if slashed_nominators > usize::MAX - swept {
            usize::MAX
        } else {
            slashed_nominators + swept
        };
        i = i + 1;
    }
    let ghost slashed = EpochLedger { staking: staking@, currency: currency@ };
    assert(slashed == before.after_slashes(domain_id, *treasury));
    let mut operators: BTreeMap<OperatorId, Balance> = BTreeMap::new();
    let mut total_stake: Balance = 0;
    let mut finalized: usize = 0;
    let next_len = summary.next_operators.len();
    let ghost start = EpochProgress {
        staking: slashed.staking,
        currency: slashed.currency,
        operators: Map::empty(),
        total_stake: 0,
        finalized: 0,
        events: told,
    };
    let mut j: usize = 0;
    while j < next_len
        invariant
            j <= next_len,
            next_len == summary.next_operators@.len(),
            summary@ == summary_before,
            summary_before.current_epoch_index == epoch,
            finalized <= j,
            (EpochProgress {
                staking: staking@,
                currency: currency@,
                operators: operators@,
                total_stake,
                finalized: finalized as nat,
                events: events@,
            }) == start.settled(summary_before, domain_id, summary_before.next_operators, j as int),
        decreases next_len - j,
    {
        let operator_id = summary.next_operators.get(j);
        let ghost progress = EpochProgress {
            staking: staking@,
            currency: currency@,
            operators: operators@,
            total_stake,
            finalized: finalized as nat,
            events: events@,
        };
        let ghost expected = progress.settled_one(summary_before, domain_id, operator_id);
        match settle_operator(staking, domain_id, epoch, operator_id) {
            Some(stake) => {
                operators.insert(operator_id, stake);
                total_stake = add_saturating(total_stake, stake);
                finalized = finalized + 1;
            },
            None => {},
        }
        j = j + 1;
    }
    let ghost done = EpochProgress {
        staking: staking@,
        currency: currency@,
        operators: operators@,
        total_stake,
        finalized: finalized as nat,
        events: events@,
    };
    assert(done == before.epoch_settled(domain_id, *treasury));
    let mut last_operators: BTreeMap<OperatorId, Balance> = BTreeMap::new();
    core::mem::swap(&mut summary.current_operators, &mut last_operators);
    let last_total = summary.current_total_stake;
    summary.current_operators = operators;
    summary.current_total_stake = total_stake;
    summary.current_epoch_index = epoch + 1;
    summary.current_epoch_rewards.clear();
    let ghost summary_after = summary@;
    proof {
        assert(summary_after.rewarded =~= Seq::<OperatorId>::empty());
    }
    staking.domain_staking_summary.insert(domain_id, summary);
    let last = ElectionVerificationParams { operators: last_operators, total_domain_stake: last_total };
    let ghost last_view = last@;
    staking.last_epoch_staking_distribution.insert(domain_id, last);
    staking.pending_staking_operation_count.insert(domain_id, 0);
    proof {
        assert(staking@.domain_staking_summary =~= done.staking.domain_staking_summary.insert(
            domain_id,
            summary_after,
        ));
        assert(staking@.pending_slashes =~= done.staking.pending_slashes);
        assert(staking@.last_epoch_staking_distribution
            =~= done.staking.last_epoch_staking_distribution.insert(domain_id, last_view));
        assert(staking@.deposits =~= done.staking.deposits);
        assert(staking@.nominators =~= done.staking.nominators);
        assert(staking@.withdrawals =~= done.staking.withdrawals);
    }
    Ok(
        (
            EpochTransitionResult {
                rewarded_operator_count: count(rewarded),
                finalized_operator_count: count(finalized),
                slashed_nominator_count: count(slashed_nominators),
                completed_epoch_index: epoch,
            },
            events,
        ),
    )
}

} // verus!
