//! Registering operators, nominating them, and taking stake out again.

use crate::block_tree::{BlockTree, BlockTreeView};
use crate::bundle_storage_fund::{BundleStorageFund, BundleStorageFundView};
use crate::config::Config;
use crate::currency::{Currency, CurrencyView, HoldIdentifier};
use crate::primitives::{
    AccountId, Balance, DomainBlockNumber, DomainId, EpochIndex, OperatorId, Share,
};
use crate::staking::{
    add_saturating, least, least_of, mul_div, mul_div_floor, saturating_balance_sum, stake_account,
    stake_account_of, Deposit, Error, Operator, OperatorConfig, OperatorStatus, SharePrice, Staking,
    StakingSummaryView, StakingView, Withdrawal,
};
use crate::table::{with_id, without, Table};
use vstd::prelude::*;

verus! {

/// The staking ledger with the balances and the storage funds, as a value.
pub struct Ledger {
    pub staking: StakingView,
    pub currency: CurrencyView,
    pub storage_fund: BundleStorageFundView,
}

/// The three parts of the ledger as one value.
pub open spec fn ledger(staking: Staking, currency: Currency, fund: BundleStorageFund) -> Ledger {
    Ledger { staking: staking@, currency: currency@, storage_fund: fund@ }
}

/// The part of a deposit of `amount` that goes to the storage fund of the operator.
pub open spec fn storage_fee_part(config: Config, amount: Balance) -> Balance {
    mul_div_floor(amount, config.storage_fee_reserve as u128, 100)
}

/// The part of a deposit of `amount` that is staked.
pub open spec fn staked_part(config: Config, amount: Balance) -> Balance {
    (amount - storage_fee_part(config, amount)) as u128
}

/// The part that goes to the storage fund is never more than the deposit.
pub proof fn lemma_storage_fee_part_bound(config: Config, amount: Balance)
    requires
        config.storage_fee_reserve <= 100,
    ensures
        storage_fee_part(config, amount) <= amount,
{
    let reserve = config.storage_fee_reserve as int;
    assert(amount * reserve / 100 <= amount) by (nonlinear_arith)
        requires
            0 <= reserve <= 100,
            0 <= amount,
    ;
}

/// What is held as the stake of the operator.
pub open spec fn stake_on_hold(currency: CurrencyView, operator_id: OperatorId) -> Balance {
    currency.balance_on_hold(
        HoldIdentifier::StakingStaked(operator_id),
        stake_account_of(operator_id),
    )
}

/// Whether a deposit of `amount` can be taken from the account: it can spend the
/// amount, and the staked part fits on top of what is held as the stake of the
/// operator.
pub open spec fn deposit_can_be_taken(
    currency: CurrencyView,
    config: Config,
    operator_id: OperatorId,
    who: AccountId,
    amount: Balance,
) -> bool {
    &&& currency.balance(who) >= amount
    &&& stake_on_hold(currency, operator_id) + staked_part(config, amount) <= u128::MAX
}

/// The balances after a deposit of `amount` is taken from the account: the staked
/// part is held as the stake of the operator, and the rest has left the account.
pub open spec fn balances_after_deposit(
    currency: CurrencyView,
    config: Config,
    operator_id: OperatorId,
    who: AccountId,
    amount: Balance,
) -> CurrencyView {
    currency.with_withdrawal(who, storage_fee_part(config, amount)).with_stake_taken(
        who,
        HoldIdentifier::StakingStaked(operator_id),
        stake_account_of(operator_id),
        staked_part(config, amount),
    )
}

impl StakingView {
    /// Whether the account would be a new nominator of the operator: it has no
    /// deposit with it and does not own it.
    pub open spec fn is_new_nominator(self, operator_id: OperatorId, who: AccountId) -> bool {
        &&& self.deposit_of(operator_id, who) is None
        &&& !(self.operator_id_owner.contains_key(operator_id)
            && self.operator_id_owner[operator_id] == who)
    }

    /// The deposit of the account with the operator as it stands once its pending
    /// balance of an earlier epoch is turned into shares; a deposit of nothing where
    /// the account has none.
    pub open spec fn settled_deposit(
        self,
        operator_id: OperatorId,
        who: AccountId,
        domain_id: DomainId,
        current_epoch: EpochIndex,
    ) -> Deposit {
        match self.deposit_of(operator_id, who) {
            Some(deposit) => if deposit.needs_price(current_epoch) {
                deposit.settled(
                    self.operator_epoch_share_price[(operator_id, domain_id, deposit.pending_epoch)],
                )
            } else {
                deposit
            },
            None => Deposit { shares: 0, pending_amount: 0, pending_epoch: current_epoch },
        }
    }

    /// Whether the deposit of the account with the operator waits for a share price
    /// that is not on record.
    pub open spec fn deposit_price_missing(
        self,
        operator_id: OperatorId,
        who: AccountId,
        domain_id: DomainId,
        current_epoch: EpochIndex,
    ) -> bool {
        match self.deposit_of(operator_id, who) {
            Some(deposit) => deposit.needs_price(current_epoch) && self.share_price(
                operator_id,
                domain_id,
                deposit.pending_epoch,
            ) is None,
            None => false,
        }
    }
}

impl Ledger {
    /// Whether a deposit of `amount` can be taken from the account.
    pub open spec fn can_take_deposit(
        self,
        config: Config,
        operator_id: OperatorId,
        who: AccountId,
        amount: Balance,
    ) -> bool {
        deposit_can_be_taken(self.currency, config, operator_id, who, amount)
    }

    /// The ledger after a deposit of `amount` is taken from the account: the staked
    /// part is held as the stake of the operator, and the rest is in the storage fund
    /// of the operator.
    pub open spec fn with_deposit_taken(
        self,
        config: Config,
        operator_id: OperatorId,
        who: AccountId,
        amount: Balance,
    ) -> Ledger {
        Ledger {
            currency: balances_after_deposit(self.currency, config, operator_id, who, amount),
            storage_fund: self.storage_fund.with_deposit(
                operator_id,
                storage_fee_part(config, amount),
            ),
            ..self
        }
    }

    /// Why the account cannot register an operator on the domain, if it cannot.
    /// `allowed` says whether the domain allows the account to operate on it.
    pub open spec fn register_error(
        self,
        config: Config,
        allowed: bool,
        owner: AccountId,
        domain_id: DomainId,
        amount: Balance,
        operator_config: OperatorConfig,
    ) -> Option<Error> {
        if !self.staking.domain_staking_summary.contains_key(domain_id) {
            Some(Error::DomainNotInitialized)
        } else if !allowed {
            Some(Error::OperatorNotAllowed)
        } else if self.staking.operator_signing_key.contains_key(operator_config.signing_key) {
            Some(Error::DuplicateOperatorSigningKey)
        } else if operator_config.nomination_tax >= 100 {
            Some(Error::InvalidNominationTax)
        } else if operator_config.minimum_nominator_stake < config.min_nominator_stake {
            Some(Error::MinimumNominatorStake)
        } else if amount < config.min_operator_stake {
            Some(Error::MinimumOperatorStake)
        } else if self.staking.next_operator_id == u64::MAX {
            Some(Error::MaximumOperatorId)
        } else if self.currency.balance(owner) < amount {
            Some(Error::InsufficientBalance)
        } else if !self.can_take_deposit(config, self.staking.next_operator_id, owner, amount) {
            Some(Error::BalanceOverflow)
        } else {
            None
        }
    }

    /// The ledger after the account registered an operator on the domain with a
    /// deposit of `amount`: the operator has the next identifier and takes part from
    /// the next epoch on; the staked part of the deposit waits for the end of the
    /// epoch.
    pub open spec fn after_register(
        self,
        config: Config,
        owner: AccountId,
        domain_id: DomainId,
        amount: Balance,
        operator_config: OperatorConfig,
    ) -> Ledger {
        let operator_id = self.staking.next_operator_id;
        let summary = self.staking.domain_staking_summary[domain_id];
        let staked = staked_part(config, amount);
        let taken = self.with_deposit_taken(config, operator_id, owner, amount);
        let staking = StakingView {
            next_operator_id: (operator_id + 1) as u64,
            operator_id_owner: self.staking.operator_id_owner.insert(operator_id, owner),
            operator_signing_key: self.staking.operator_signing_key.insert(
                operator_config.signing_key,
                operator_id,
            ),
            operators: self.staking.operators.insert(
                operator_id,
                Operator {
                    signing_key: operator_config.signing_key,
                    current_domain_id: domain_id,
                    next_domain_id: domain_id,
                    minimum_nominator_stake: operator_config.minimum_nominator_stake,
                    nomination_tax: operator_config.nomination_tax,
                    current_total_stake: 0,
                    current_total_shares: 0,
                    status: OperatorStatus::Registered,
                    deposits_in_epoch: staked,
                    withdrawals_in_epoch: 0,
                    pending_withdrawals: 0,
                },
            ),
            domain_staking_summary: self.staking.domain_staking_summary.insert(
                domain_id,
                StakingSummaryView {
                    next_operators: with_id(summary.next_operators, operator_id),
                    ..summary
                },
            ),
            ..self.staking
        }.with_deposit(
            operator_id,
            owner,
            Deposit {
                shares: 0,
                pending_amount: staked,
                pending_epoch: summary.current_epoch_index,
            },
        );
        Ledger { staking, ..taken }
    }

    /// Why the account cannot nominate the operator with `amount`, if it cannot.
    pub open spec fn nominate_error(
        self,
        config: Config,
        operator_id: OperatorId,
        who: AccountId,
        amount: Balance,
    ) -> Option<Error> {
        if !self.staking.operators.contains_key(operator_id) {
            Some(Error::UnknownOperator)
        } else {
            let operator = self.staking.operators[operator_id];
            let domain_id = operator.current_domain_id;
            let staked = staked_part(config, amount);
            if operator.status != OperatorStatus::Registered {
                Some(Error::OperatorNotRegistered)
            } else if self.staking.current_epoch(domain_id) is None {
                Some(Error::DomainNotInitialized)
            } else {
                let epoch = self.staking.current_epoch(domain_id).unwrap();
                if self.staking.is_new_nominator(operator_id, who) && staked
                    < operator.minimum_nominator_stake {
                    Some(Error::MinimumNominatorStake)
                } else if self.staking.is_new_nominator(operator_id, who)
                    && self.staking.nominators_count(operator_id) >= config.max_nominators {
                    Some(Error::MaximumNominators)
                } else if self.staking.pending_operations(domain_id)
                    >= config.max_pending_staking_operation {
                    Some(Error::TooManyPendingStakingOperation)
                } else if self.staking.deposit_price_missing(operator_id, who, domain_id, epoch) {
                    Some(Error::MissingOperatorEpochSharePrice)
                } else if self.currency.balance(who) < amount {
                    Some(Error::InsufficientBalance)
                } else if !self.can_take_deposit(config, operator_id, who, amount)
                    || operator.deposits_in_epoch + staked > u128::MAX || self.staking.settled_deposit(
                    operator_id,
                    who,
                    domain_id,
                    epoch,
                ).pending_amount + staked > u128::MAX {
                    Some(Error::BalanceOverflow)
                } else {
                    None
                }
            }
        }
    }

    /// The ledger after the account nominated the operator with `amount`: the staked
    /// part waits for the end of the epoch, on top of what waited already.
    pub open spec fn after_nominate(
        self,
        config: Config,
        operator_id: OperatorId,
        who: AccountId,
        amount: Balance,
    ) -> Ledger {
        let operator = self.staking.operators[operator_id];
        let domain_id = operator.current_domain_id;
        let epoch = self.staking.current_epoch(domain_id).unwrap();
        let staked = staked_part(config, amount);
        let deposit = self.staking.settled_deposit(operator_id, who, domain_id, epoch);
        let taken = self.with_deposit_taken(config, operator_id, who, amount);
        let staking = StakingView {
            operators: self.staking.operators.insert(
                operator_id,
                Operator {
                    deposits_in_epoch: (operator.deposits_in_epoch + staked) as u128,
                    ..operator
                },
            ),
            nominator_count: if self.staking.is_new_nominator(operator_id, who) {
                self.staking.nominator_count.insert(
                    operator_id,
                    (self.staking.nominators_count(operator_id) + 1) as u32,
                )
            } else {
                self.staking.nominator_count
            },
            pending_staking_operation_count: self.staking.pending_staking_operation_count.insert(
                domain_id,
                (self.staking.pending_operations(domain_id) + 1) as u32,
            ),
            ..self.staking
        }.with_deposit(
            operator_id,
            who,
            Deposit {
                shares: deposit.shares,
                pending_amount: (deposit.pending_amount + staked) as u128,
                pending_epoch: epoch,
            },
        );
        Ledger { staking, ..taken }
    }
}

/// The part of a deposit of `amount` that goes to the storage fund of the operator.
pub fn storage_fee_deposit(config: &Config, amount: Balance) -> (part: Balance)
    requires
        config.storage_fee_reserve <= 100,
    ensures
        part == storage_fee_part(*config, amount),
        part <= amount,
{
    proof {
        lemma_storage_fee_part_bound(*config, amount);
    }
    mul_div(amount, config.storage_fee_reserve as u128, 100)
}

/// Whether a deposit of `amount` can be taken from the account.
fn can_take_deposit(
    currency: &Currency,
    config: &Config,
    operator_id: OperatorId,
    who: &AccountId,
    amount: Balance,
) -> (r: bool)
    requires
        config.storage_fee_reserve <= 100,
    ensures
        r == deposit_can_be_taken(currency@, *config, operator_id, *who, amount),
{
    let fee = storage_fee_deposit(config, amount);
    let staked = amount - fee;
    currency.balance(who) >= amount && currency.balance_on_hold(
        HoldIdentifier::StakingStaked(operator_id),
        &stake_account(operator_id),
    ) <= u128::MAX - staked
}

/// Takes a deposit of `amount` from the account for the operator.
fn take_deposit(
    currency: &mut Currency,
    fund: &mut BundleStorageFund,
    config: &Config,
    operator_id: OperatorId,
    who: &AccountId,
    amount: Balance,
)
    requires
        config.storage_fee_reserve <= 100,
        old(currency)@.balance(*who) >= amount,
        stake_on_hold(old(currency)@, operator_id) + staked_part(*config, amount) <= u128::MAX,
    ensures
        final(currency)@ == balances_after_deposit(
            old(currency)@,
            *config,
            operator_id,
            *who,
            amount,
        ),
        final(fund)@ == old(fund)@.with_deposit(operator_id, storage_fee_part(*config, amount)),
{
    let fee = storage_fee_deposit(config, amount);
    let staked = amount - fee;
    currency.withdraw(who, fee);
    currency.take_on_hold(
        who,
        HoldIdentifier::StakingStaked(operator_id),
        &stake_account(operator_id),
        staked,
    );
    fund.deposit(operator_id, fee);
}

/// Registers an operator of the account on the domain with a deposit of `amount`.
/// Hands back the identifier of the operator and the index of the current epoch of
/// the domain. `allowed` says whether the domain allows the account to operate on
/// it. Nothing is changed where the registration is refused.
pub fn do_register_operator(
    staking: &mut Staking,
    currency: &mut Currency,
    fund: &mut BundleStorageFund,
    config: &Config,
    allowed: bool,
    owner: AccountId,
    domain_id: DomainId,
    amount: Balance,
    operator_config: OperatorConfig,
) -> (result: Result<(OperatorId, EpochIndex), Error>)
    requires
        config.storage_fee_reserve <= 100,
    ensures
        match result {
            Ok((operator_id, epoch)) => {
                &&& ledger(*old(staking), *old(currency), *old(fund)).register_error(
                    *config,
                    allowed,
                    owner,
                    domain_id,
                    amount,
                    operator_config,
                ) is None
                &&& operator_id == old(staking)@.next_operator_id
                &&& Some(epoch) == old(staking)@.current_epoch(domain_id)
                &&& ledger(*final(staking), *final(currency), *final(fund)) == ledger(
                    *old(staking),
                    *old(currency),
                    *old(fund),
                ).after_register(*config, owner, domain_id, amount, operator_config)
            },
            Err(e) => {
                &&& Some(e) == ledger(*old(staking), *old(currency), *old(fund)).register_error(
                    *config,
                    allowed,
                    owner,
                    domain_id,
                    amount,
                    operator_config,
                )
                &&& ledger(*final(staking), *final(currency), *final(fund)) == ledger(
                    *old(staking),
                    *old(currency),
                    *old(fund),
                )
            },
        },
{
    let ghost before = ledger(*staking, *currency, *fund);
    let epoch = match staking.current_epoch(domain_id) {
        Some(epoch) => epoch,
        None => {
            return Err(Error::DomainNotInitialized);
        },
    };
    if !allowed {
        return Err(Error::OperatorNotAllowed);
    }
    if staking.operator_signing_key.contains_key(&operator_config.signing_key) {
        return Err(Error::DuplicateOperatorSigningKey);
    }
    if operator_config.nomination_tax >= 100 {
        return Err(Error::InvalidNominationTax);
    }
    if operator_config.minimum_nominator_stake < config.min_nominator_stake {
        return Err(Error::MinimumNominatorStake);
    }
    if amount < config.min_operator_stake {
        return Err(Error::MinimumOperatorStake);
    }
    let operator_id = staking.next_operator_id;
    if operator_id == u64::MAX {
        return Err(Error::MaximumOperatorId);
    }
    if currency.balance(&owner) < amount {
        return Err(Error::InsufficientBalance);
    }
    if !can_take_deposit(currency, config, operator_id, &owner, amount) {
        assert(!before.can_take_deposit(*config, operator_id, owner, amount));
        return Err(Error::BalanceOverflow);
    }
    assert(before.can_take_deposit(*config, operator_id, owner, amount));
    let staked = amount - storage_fee_deposit(config, amount);
    take_deposit(currency, fund, config, operator_id, &owner, amount);
    assert(before.with_deposit_taken(*config, operator_id, owner, amount) == (Ledger {
        staking: before.staking,
        currency: currency@,
        storage_fund: fund@,
    }));
    staking.next_operator_id = operator_id + 1;
    staking.operator_id_owner.insert(operator_id, owner);
    staking.operator_signing_key.insert(operator_config.signing_key, operator_id);
    staking.operators.insert(
        operator_id,
        Operator {
            signing_key: operator_config.signing_key,
            current_domain_id: domain_id,
            next_domain_id: domain_id,
            minimum_nominator_stake: operator_config.minimum_nominator_stake,
            nomination_tax: operator_config.nomination_tax,
            current_total_stake: 0,
            current_total_shares: 0,
            status: OperatorStatus::Registered,
            deposits_in_epoch: staked,
            withdrawals_in_epoch: 0,
            pending_withdrawals: 0,
        },
    );
    let mut summary = staking.domain_staking_summary.remove(&domain_id).unwrap();
    let ghost summary_before = summary@;
    summary.next_operators.insert(operator_id);
    let ghost summary_after = summary@;
    staking.domain_staking_summary.insert(domain_id, summary);
    proof {
        assert(staking@.domain_staking_summary =~= before.staking.domain_staking_summary.insert(
            domain_id,
            summary_after,
        ));
        assert(staking@.pending_slashes =~= before.staking.pending_slashes);
        assert(staking@.last_epoch_staking_distribution
            =~= before.staking.last_epoch_staking_distribution);
        assert(staking@.deposits =~= before.staking.deposits);
        assert(staking@.nominators =~= before.staking.nominators);
        assert(staking@.withdrawals =~= before.staking.withdrawals);
    }
    staking.set_deposit(
        operator_id,
        owner,
        Deposit { shares: 0, pending_amount: staked, pending_epoch: epoch },
    );
    Ok((operator_id, epoch))
}

/// The deposit of the account with the operator as it stands once its pending
/// balance of an earlier epoch is turned into shares. There is none where the
/// share price of that epoch is not on record.
pub fn settle_deposit(
    staking: &Staking,
    operator_id: OperatorId,
    who: &AccountId,
    domain_id: DomainId,
    current_epoch: EpochIndex,
) -> (deposit: Option<Deposit>)
    ensures
        match deposit {
            Some(d) => !staking@.deposit_price_missing(operator_id, *who, domain_id, current_epoch)
                && d == staking@.settled_deposit(operator_id, *who, domain_id, current_epoch),
            None => staking@.deposit_price_missing(operator_id, *who, domain_id, current_epoch),
        },
{
    match staking.deposit_of(operator_id, who) {
        Some(deposit) => {
            if deposit.pending_amount != 0 && deposit.pending_epoch != current_epoch {
                match staking.share_price(operator_id, domain_id, deposit.pending_epoch) {
                    Some(price) => Some(deposit.settle(&price)),
                    None => None,
                }
            } else {
                Some(deposit)
            }
        },
        None => Some(Deposit { shares: 0, pending_amount: 0, pending_epoch: current_epoch }),
    }
}

/// Nominates the operator with `amount` of the account. Nothing is changed where
/// the nomination is refused.
pub fn do_nominate_operator(
    staking: &mut Staking,
    currency: &mut Currency,
    fund: &mut BundleStorageFund,
    config: &Config,
    operator_id: OperatorId,
    nominator_id: AccountId,
    amount: Balance,
) -> (result: Result<(), Error>)
    requires
        config.storage_fee_reserve <= 100,
    ensures
        match result {
            Ok(()) => {
                &&& ledger(*old(staking), *old(currency), *old(fund)).nominate_error(
                    *config,
                    operator_id,
                    nominator_id,
                    amount,
                ) is None
                &&& ledger(*final(staking), *final(currency), *final(fund)) == ledger(
                    *old(staking),
                    *old(currency),
                    *old(fund),
                ).after_nominate(*config, operator_id, nominator_id, amount)
            },
            Err(e) => {
                &&& Some(e) == ledger(*old(staking), *old(currency), *old(fund)).nominate_error(
                    *config,
                    operator_id,
                    nominator_id,
                    amount,
                )
                &&& ledger(*final(staking), *final(currency), *final(fund)) == ledger(
                    *old(staking),
                    *old(currency),
                    *old(fund),
                )
            },
        },
{
    let ghost before = ledger(*staking, *currency, *fund);
    let operator = match staking.operators.get(&operator_id) {
        Some(operator) => *operator,
        None => {
            return Err(Error::UnknownOperator);
        },
    };
    let domain_id = operator.current_domain_id;
    match operator.status {
        OperatorStatus::Registered => {},
        _ => {
            return Err(Error::OperatorNotRegistered);
        },
    }
    let epoch = match staking.current_epoch(domain_id) {
        Some(epoch) => epoch,
        None => {
            return Err(Error::DomainNotInitialized);
        },
    };
    let staked = amount - storage_fee_deposit(config, amount);
    let owns = match staking.operator_id_owner.get(&operator_id) {
        Some(owner) => owner.same_hash(&nominator_id),
        None => false,
    };
    let is_new = staking.deposit_of(operator_id, &nominator_id).is_none() && !owns;
    assert(is_new == before.staking.is_new_nominator(operator_id, nominator_id));
    let count = staking.nominators_count(operator_id);
    if is_new && staked < operator.minimum_nominator_stake {
        return Err(Error::MinimumNominatorStake);
    }
    if is_new && count >= config.max_nominators {
        return Err(Error::MaximumNominators);
    }
    let pending = staking.pending_operations(domain_id);
    if pending >= config.max_pending_staking_operation {
        return Err(Error::TooManyPendingStakingOperation);
    }
    let deposit = match settle_deposit(staking, operator_id, &nominator_id, domain_id, epoch) {
        Some(deposit) => deposit,
        None => {
            return Err(Error::MissingOperatorEpochSharePrice);
        },
    };
    if currency.balance(&nominator_id) < amount {
        return Err(Error::InsufficientBalance);
    }
    if !can_take_deposit(currency, config, operator_id, &nominator_id, amount) {
        assert(!before.can_take_deposit(*config, operator_id, nominator_id, amount));
        return Err(Error::BalanceOverflow);
    }
    assert(before.can_take_deposit(*config, operator_id, nominator_id, amount));
    if operator.deposits_in_epoch > u128::MAX - staked || deposit.pending_amount > u128::MAX
        - staked {
        return Err(Error::BalanceOverflow);
    }
    take_deposit(currency, fund, config, operator_id, &nominator_id, amount);
    assert(before.with_deposit_taken(*config, operator_id, nominator_id, amount) == (Ledger {
        staking: before.staking,
        currency: currency@,
        storage_fund: fund@,
    }));
    staking.operators.insert(
        operator_id,
        Operator { deposits_in_epoch: operator.deposits_in_epoch + staked, ..operator },
    );
    if is_new {
        staking.nominator_count.insert(operator_id, count + 1);
    }
    staking.pending_staking_operation_count.insert(domain_id, pending + 1);
    proof {
        assert(staking@.domain_staking_summary =~= before.staking.domain_staking_summary);
        assert(staking@.pending_slashes =~= before.staking.pending_slashes);
        assert(staking@.last_epoch_staking_distribution
            =~= before.staking.last_epoch_staking_distribution);
        assert(staking@.deposits =~= before.staking.deposits);
        assert(staking@.nominators =~= before.staking.nominators);
        assert(staking@.withdrawals =~= before.staking.withdrawals);
    }
    staking.set_deposit(
        operator_id,
        nominator_id,
        Deposit {
            shares: deposit.shares,
            pending_amount: deposit.pending_amount + staked,
            pending_epoch: epoch,
        },
    );
    Ok(())
}

/// `a + b`, held at the largest block number.
pub open spec fn saturating_number(a: DomainBlockNumber, b: DomainBlockNumber) -> DomainBlockNumber {
    if a + b > u32::MAX {
        u32::MAX
    } else {
        (a + b) as u32
    }
}

/// `a + b`, held at the largest block number.
pub fn add_numbers_saturating(a: DomainBlockNumber, b: DomainBlockNumber) -> (r: DomainBlockNumber)
    ensures
        r == saturating_number(a, b),
{
    if a > u32::MAX - b {
        u32::MAX
    } else {
        a + b
    }
}

impl StakingView {
    /// Why the account cannot deregister the operator, if it cannot.
    pub open spec fn deregister_error(self, owner: AccountId, operator_id: OperatorId) -> Option<
        Error,
    > {
        if !self.operators.contains_key(operator_id) {
            Some(Error::UnknownOperator)
        } else if !(self.operator_id_owner.contains_key(operator_id)
            && self.operator_id_owner[operator_id] == owner) {
            Some(Error::NotOperatorOwner)
        } else if self.operators[operator_id].status != OperatorStatus::Registered {
            Some(Error::OperatorNotRegistered)
        } else if self.current_epoch(self.operators[operator_id].current_domain_id) is None {
            Some(Error::DomainNotInitialized)
        } else {
            None
        }
    }

    /// The ledger after the operator is deregistered: it takes part no longer from
    /// the next epoch on, and its stake unlocks once the best block of its domain is
    /// `locking_period` blocks beyond the block that is the best now.
    pub open spec fn after_deregister(
        self,
        operator_id: OperatorId,
        tree: BlockTreeView,
        locking_period: DomainBlockNumber,
    ) -> StakingView {
        let operator = self.operators[operator_id];
        let domain_id = operator.current_domain_id;
        let summary = self.domain_staking_summary[domain_id];
        StakingView {
            operators: self.operators.insert(
                operator_id,
                Operator {
                    status: OperatorStatus::Deregistered {
                        domain_id,
                        epoch_index: summary.current_epoch_index,
                        unlock_at_domain_block_number: saturating_number(
                            tree.head_domain(domain_id),
                            locking_period,
                        ),
                    },
                    ..operator
                },
            ),
            domain_staking_summary: self.domain_staking_summary.insert(
                domain_id,
                StakingSummaryView {
                    next_operators: without(summary.next_operators, operator_id),
                    ..summary
                },
            ),
            ..self
        }
    }

    /// The withdrawal of the account from the operator as it stands once its pending
    /// shares of an earlier epoch are turned into a balance; a withdrawal of nothing
    /// where the account has none.
    pub open spec fn settled_withdrawal(
        self,
        operator_id: OperatorId,
        who: AccountId,
        domain_id: DomainId,
        current_epoch: EpochIndex,
    ) -> Withdrawal {
        match self.withdrawal_of(operator_id, who) {
            Some(withdrawal) => if withdrawal.needs_price(current_epoch) {
                withdrawal.settled(
                    self.operator_epoch_share_price[(
                        operator_id,
                        domain_id,
                        withdrawal.pending_epoch,
                    )],
                )
            } else {
                withdrawal
            },
            None => Withdrawal {
                pending_shares: 0,
                pending_epoch: current_epoch,
                amount: 0,
                unlock_at_domain_block_number: 0,
            },
        }
    }

    /// Whether the withdrawal of the account from the operator waits for a share
    /// price that is not on record.
    pub open spec fn withdrawal_price_missing(
        self,
        operator_id: OperatorId,
        who: AccountId,
        domain_id: DomainId,
        current_epoch: EpochIndex,
    ) -> bool {
        match self.withdrawal_of(operator_id, who) {
            Some(withdrawal) => withdrawal.needs_price(current_epoch) && self.share_price(
                operator_id,
                domain_id,
                withdrawal.pending_epoch,
            ) is None,
            None => false,
        }
    }

    /// Why the account cannot withdraw `shares` from the operator, if it cannot. The
    /// shares must be shares of the account, and the operator must have as many
    /// shares left once the shares withdrawn in the epoch are gone.
    pub open spec fn withdraw_error(
        self,
        config: Config,
        operator_id: OperatorId,
        who: AccountId,
        shares: Share,
    ) -> Option<Error> {
        if shares == 0 {
            Some(Error::ZeroWithdrawShares)
        } else if !self.operators.contains_key(operator_id) {
            Some(Error::UnknownOperator)
        } else {
            let operator = self.operators[operator_id];
            let domain_id = operator.current_domain_id;
            if operator.status != OperatorStatus::Registered {
                Some(Error::OperatorNotRegistered)
            } else if self.current_epoch(domain_id) is None {
                Some(Error::DomainNotInitialized)
            } else {
                let epoch = self.current_epoch(domain_id).unwrap();
                if self.deposit_of(operator_id, who) is None {
                    Some(Error::UnknownNominator)
                } else if self.deposit_price_missing(operator_id, who, domain_id, epoch)
                    || self.withdrawal_price_missing(operator_id, who, domain_id, epoch) {
                    Some(Error::MissingOperatorEpochSharePrice)
                } else if self.settled_deposit(operator_id, who, domain_id, epoch).shares < shares
                    || operator.withdrawals_in_epoch + shares > operator.current_total_shares {
                    Some(Error::InsufficientShares)
                } else if self.pending_operations(domain_id)
                    >= config.max_pending_staking_operation {
                    Some(Error::TooManyPendingStakingOperation)
                } else {
                    None
                }
            }
        }
    }

    /// The ledger after the account withdrew `shares` from the operator: the shares
    /// have left its deposit and wait to be burned at the end of the epoch; what they
    /// are worth unlocks once the best block of the domain is the locking period
    /// beyond the block that is the best now.
    pub open spec fn after_withdraw(
        self,
        config: Config,
        operator_id: OperatorId,
        who: AccountId,
        shares: Share,
        tree: BlockTreeView,
    ) -> StakingView {
        let operator = self.operators[operator_id];
        let domain_id = operator.current_domain_id;
        let epoch = self.current_epoch(domain_id).unwrap();
        let deposit = self.settled_deposit(operator_id, who, domain_id, epoch);
        let withdrawal = self.settled_withdrawal(operator_id, who, domain_id, epoch);
        StakingView {
            operators: self.operators.insert(
                operator_id,
                Operator {
                    withdrawals_in_epoch: (operator.withdrawals_in_epoch + shares) as u128,
                    ..operator
                },
            ),
            pending_staking_operation_count: self.pending_staking_operation_count.insert(
                domain_id,
                (self.pending_operations(domain_id) + 1) as u32,
            ),
            ..self
        }.with_deposit(
            operator_id,
            who,
            Deposit { shares: (deposit.shares - shares) as u128, ..deposit },
        ).with_withdrawal(
            operator_id,
            who,
            Withdrawal {
                pending_shares: saturating_balance_sum(withdrawal.pending_shares, shares),
                pending_epoch: epoch,
                amount: withdrawal.amount,
                unlock_at_domain_block_number: saturating_number(
                    tree.head_domain(domain_id),
                    config.stake_withdrawal_locking_period,
                ),
            },
        )
    }

    /// Why the account cannot unlock what it withdrew from the operator, if it
    /// cannot.
    pub open spec fn unlock_funds_error(
        self,
        operator_id: OperatorId,
        who: AccountId,
        tree: BlockTreeView,
    ) -> Option<Error> {
        if !self.operators.contains_key(operator_id) {
            Some(Error::UnknownOperator)
        } else {
            let domain_id = self.operators[operator_id].current_domain_id;
            if self.withdrawal_of(operator_id, who) is None {
                Some(Error::MissingWithdrawal)
            } else if self.current_epoch(domain_id) is None {
                Some(Error::DomainNotInitialized)
            } else {
                let epoch = self.current_epoch(domain_id).unwrap();
                let withdrawal = self.settled_withdrawal(operator_id, who, domain_id, epoch);
                if self.withdrawal_price_missing(operator_id, who, domain_id, epoch) {
                    Some(Error::MissingOperatorEpochSharePrice)
                } else if tree.head_domain(domain_id)
                    < withdrawal.unlock_at_domain_block_number {
                    Some(Error::UnlockPeriodNotComplete)
                } else if withdrawal.amount == 0 {
                    Some(Error::MissingWithdrawal)
                } else {
                    None
                }
            }
        }
    }

    /// The withdrawal that the account unlocks from the operator, with what is due to
    /// the account.
    pub open spec fn due_withdrawal(self, operator_id: OperatorId, who: AccountId) -> Withdrawal {
        let domain_id = self.operators[operator_id].current_domain_id;
        self.settled_withdrawal(
            operator_id,
            who,
            domain_id,
            self.current_epoch(domain_id).unwrap(),
        )
    }
}

/// What the account unlocks of what it withdrew from the operator: what is due to
/// it, as far as the operator has withdrawn stake left and holds it.
pub open spec fn funds_to_unlock(
    staking: StakingView,
    currency: CurrencyView,
    operator_id: OperatorId,
    who: AccountId,
) -> Balance {
    least_of(
        staking.due_withdrawal(operator_id, who).amount,
        staking.operators[operator_id].pending_withdrawals,
        stake_on_hold(currency, operator_id),
    )
}

impl StakingView {
    /// The ledger after the account unlocked `paid` of what it withdrew from the
    /// operator: nothing waits to be unlocked any more, and the withdrawal is off the
    /// record unless shares of it still wait for the end of the epoch.
    pub open spec fn after_unlock_funds(
        self,
        operator_id: OperatorId,
        who: AccountId,
        paid: Balance,
    ) -> StakingView {
        let operator = self.operators[operator_id];
        let withdrawal = self.due_withdrawal(operator_id, who);
        let staking = StakingView {
            operators: self.operators.insert(
                operator_id,
                Operator {
                    pending_withdrawals: (operator.pending_withdrawals - paid) as u128,
                    ..operator
                },
            ),
            ..self
        };
        if withdrawal.pending_shares == 0 {
            staking.without_withdrawal(operator_id, who)
        } else {
            staking.with_withdrawal(operator_id, who, Withdrawal { amount: 0, ..withdrawal })
        }
    }
}

impl Ledger {
    /// What the account unlocks of what it withdrew from the operator.
    pub open spec fn unlocked_amount(self, operator_id: OperatorId, who: AccountId) -> Balance {
        funds_to_unlock(self.staking, self.currency, operator_id, who)
    }

    /// The ledger after the account unlocked what it withdrew from the operator: the
    /// amount has left the stake that is held of the operator and is the account's to
    /// spend.
    pub open spec fn after_unlock_funds(self, operator_id: OperatorId, who: AccountId) -> Ledger {
        let paid = self.unlocked_amount(operator_id, who);
        Ledger {
            staking: self.staking.after_unlock_funds(operator_id, who, paid),
            currency: self.currency.with_stake_paid(
                HoldIdentifier::StakingStaked(operator_id),
                stake_account_of(operator_id),
                who,
                paid,
            ),
            ..self
        }
    }
}

/// The withdrawal of the account from the operator as it stands once its pending
/// shares of an earlier epoch are turned into a balance. There is none where the
/// share price of that epoch is not on record.
fn settle_withdrawal(
    staking: &Staking,
    operator_id: OperatorId,
    who: &AccountId,
    domain_id: DomainId,
    current_epoch: EpochIndex,
) -> (withdrawal: Option<Withdrawal>)
    ensures
        match withdrawal {
            Some(w) => !staking@.withdrawal_price_missing(
                operator_id,
                *who,
                domain_id,
                current_epoch,
            ) && w == staking@.settled_withdrawal(operator_id, *who, domain_id, current_epoch),
            None => staking@.withdrawal_price_missing(operator_id, *who, domain_id, current_epoch),
        },
{
    match staking.withdrawal_of(operator_id, who) {
        Some(withdrawal) => {
            if withdrawal.pending_shares != 0 && withdrawal.pending_epoch != current_epoch {
                match staking.share_price(operator_id, domain_id, withdrawal.pending_epoch) {
                    Some(price) => Some(withdrawal.settle(&price)),
                    None => None,
                }
            } else {
                Some(withdrawal)
            }
        },
        None => Some(
            Withdrawal {
                pending_shares: 0,
                pending_epoch: current_epoch,
                amount: 0,
                unlock_at_domain_block_number: 0,
            },
        ),
    }
}

/// Deregisters the operator on behalf of its owner. Nothing is changed where the
/// deregistration is refused.
pub fn do_deregister_operator(
    staking: &mut Staking,
    tree: &BlockTree,
    config: &Config,
    owner: AccountId,
    operator_id: OperatorId,
) -> (result: Result<(), Error>)
    ensures
        match result {
            Ok(()) => old(staking)@.deregister_error(owner, operator_id) is None && final(staking)@ == old(staking)@.after_deregister(
                operator_id,
                tree@,
                config.stake_withdrawal_locking_period,
            ),
            Err(e) => Some(e) == old(staking)@.deregister_error(owner, operator_id) && final(staking)@ == old(staking)@,
        },
{
    let operator = match staking.operators.get(&operator_id) {
        Some(operator) => *operator,
        None => {
            return Err(Error::UnknownOperator);
        },
    };
    let owns = match staking.operator_id_owner.get(&operator_id) {
        Some(account) => account.same_hash(&owner),
        None => false,
    };
    if !owns {
        return Err(Error::NotOperatorOwner);
    }
    match operator.status {
        OperatorStatus::Registered => {},
        _ => {
            return Err(Error::OperatorNotRegistered);
        },
    }
    let domain_id = operator.current_domain_id;
    let epoch = match staking.current_epoch(domain_id) {
        Some(epoch) => epoch,
        None => {
            return Err(Error::DomainNotInitialized);
        },
    };
    let unlock_at = add_numbers_saturating(
        tree.head_domain_number(domain_id),
        config.stake_withdrawal_locking_period,
    );
    staking.operators.insert(
        operator_id,
        Operator {
            status: OperatorStatus::Deregistered {
                domain_id,
                epoch_index: epoch,
                unlock_at_domain_block_number: unlock_at,
            },
            ..operator
        },
    );
    let mut summary = staking.domain_staking_summary.remove(&domain_id).unwrap();
    summary.next_operators.remove(operator_id);
    let ghost summary_after = summary@;
    staking.domain_staking_summary.insert(domain_id, summary);
    proof {
        assert(staking@.domain_staking_summary =~= old(staking)@.domain_staking_summary.insert(
            domain_id,
            summary_after,
        ));
        assert(staking@.pending_slashes =~= old(staking)@.pending_slashes);
        assert(staking@.last_epoch_staking_distribution
            =~= old(staking)@.last_epoch_staking_distribution);
        assert(staking@.deposits =~= old(staking)@.deposits);
        assert(staking@.nominators =~= old(staking)@.nominators);
        assert(staking@.withdrawals =~= old(staking)@.withdrawals);
    }
    Ok(())
}

/// Withdraws `shares` of the account from the operator. Nothing is changed where
/// the withdrawal is refused.
pub fn do_withdraw_stake(
    staking: &mut Staking,
    tree: &BlockTree,
    config: &Config,
    operator_id: OperatorId,
    nominator_id: AccountId,
    shares: Share,
) -> (result: Result<(), Error>)
    ensures
        match result {
            Ok(()) => old(staking)@.withdraw_error(*config, operator_id, nominator_id, shares)
                is None && final(staking)@ == old(staking)@.after_withdraw(
                *config,
                operator_id,
                nominator_id,
                shares,
                tree@,
            ),
            Err(e) => Some(e) == old(staking)@.withdraw_error(
                *config,
                operator_id,
                nominator_id,
                shares,
            ) && final(staking)@ == old(staking)@,
        },
{
    if shares == 0 {
        return Err(Error::ZeroWithdrawShares);
    }
    let operator = match staking.operators.get(&operator_id) {
        Some(operator) => *operator,
        None => {
            return Err(Error::UnknownOperator);
        },
    };
    let domain_id = operator.current_domain_id;
    match operator.status {
        OperatorStatus::Registered => {},
        _ => {
            return Err(Error::OperatorNotRegistered);
        },
    }
    let epoch = match staking.current_epoch(domain_id) {
        Some(epoch) => epoch,
        None => {
            return Err(Error::DomainNotInitialized);
        },
    };
    if staking.deposit_of(operator_id, &nominator_id).is_none() {
        return Err(Error::UnknownNominator);
    }
    let deposit = match settle_deposit(staking, operator_id, &nominator_id, domain_id, epoch) {
        Some(deposit) => deposit,
        None => {
            return Err(Error::MissingOperatorEpochSharePrice);
        },
    };
    let withdrawal = match settle_withdrawal(staking, operator_id, &nominator_id, domain_id, epoch) {
        Some(withdrawal) => withdrawal,
        None => {
            return Err(Error::MissingOperatorEpochSharePrice);
        },
    };
    if deposit.shares < shares || operator.withdrawals_in_epoch > operator.current_total_shares
        || shares > operator.current_total_shares - operator.withdrawals_in_epoch {
        return Err(Error::InsufficientShares);
    }
    let pending = staking.pending_operations(domain_id);
    if pending >= config.max_pending_staking_operation {
        return Err(Error::TooManyPendingStakingOperation);
    }
    let unlock_at = add_numbers_saturating(
        tree.head_domain_number(domain_id),
        config.stake_withdrawal_locking_period,
    );
    staking.operators.insert(
        operator_id,
        Operator { withdrawals_in_epoch: operator.withdrawals_in_epoch + shares, ..operator },
    );
    staking.pending_staking_operation_count.insert(domain_id, pending + 1);
    proof {
        assert(staking@.domain_staking_summary =~= old(staking)@.domain_staking_summary);
        assert(staking@.pending_slashes =~= old(staking)@.pending_slashes);
        assert(staking@.last_epoch_staking_distribution
            =~= old(staking)@.last_epoch_staking_distribution);
        assert(staking@.deposits =~= old(staking)@.deposits);
        assert(staking@.nominators =~= old(staking)@.nominators);
        assert(staking@.withdrawals =~= old(staking)@.withdrawals);
    }
    staking.set_deposit(
        operator_id,
        nominator_id,
        Deposit { shares: deposit.shares - shares, ..deposit },
    );
    staking.set_withdrawal(
        operator_id,
        nominator_id,
        Withdrawal {
            pending_shares: add_saturating(withdrawal.pending_shares, shares),
            pending_epoch: epoch,
            amount: withdrawal.amount,
            unlock_at_domain_block_number: unlock_at,
        },
    );
    Ok(())
}

/// Unlocks what the account withdrew from the operator and hands the amount back.
/// The amount is paid out of the stake that is held of the operator. Nothing is
/// changed where the unlocking is refused.
pub fn do_unlock_funds(
    staking: &mut Staking,
    currency: &mut Currency,
    tree: &BlockTree,
    operator_id: OperatorId,
    nominator_id: AccountId,
) -> (result: Result<Balance, Error>)
    ensures
        match result {
            Ok(amount) => {
                &&& old(staking)@.unlock_funds_error(operator_id, nominator_id, tree@) is None
                &&& amount == funds_to_unlock(
                    old(staking)@,
                    old(currency)@,
                    operator_id,
                    nominator_id,
                )
                &&& final(staking)@ == old(staking)@.after_unlock_funds(
                    operator_id,
                    nominator_id,
                    amount,
                )
                &&& final(currency)@ == old(currency)@.with_stake_paid(
                    HoldIdentifier::StakingStaked(operator_id),
                    stake_account_of(operator_id),
                    nominator_id,
                    amount,
                )
            },
            Err(e) => {
                &&& Some(e) == old(staking)@.unlock_funds_error(operator_id, nominator_id, tree@)
                &&& final(staking)@ == old(staking)@
                &&& final(currency)@ == old(currency)@
            },
        },
{
    let ghost before = staking@;
    let operator = match staking.operators.get(&operator_id) {
        Some(operator) => *operator,
        None => {
            return Err(Error::UnknownOperator);
        },
    };
    let domain_id = operator.current_domain_id;
    if staking.withdrawal_of(operator_id, &nominator_id).is_none() {
        return Err(Error::MissingWithdrawal);
    }
    let epoch = match staking.current_epoch(domain_id) {
        Some(epoch) => epoch,
        None => {
            return Err(Error::DomainNotInitialized);
        },
    };
    let withdrawal = match settle_withdrawal(staking, operator_id, &nominator_id, domain_id, epoch) {
        Some(withdrawal) => withdrawal,
        None => {
            return Err(Error::MissingOperatorEpochSharePrice);
        },
    };
    if tree.head_domain_number(domain_id)
        < withdrawal.unlock_at_domain_block_number {
        return Err(Error::UnlockPeriodNotComplete);
    }
    if withdrawal.amount == 0 {
        return Err(Error::MissingWithdrawal);
    }
    let reason = HoldIdentifier::StakingStaked(operator_id);
    let pool = stake_account(operator_id);
    let paid = least(
        withdrawal.amount,
        operator.pending_withdrawals,
        currency.balance_on_hold(reason, &pool),
    );
    staking.operators.insert(
        operator_id,
        Operator { pending_withdrawals: operator.pending_withdrawals - paid, ..operator },
    );
    proof {
        assert(staking@.domain_staking_summary =~= before.domain_staking_summary);
        assert(staking@.pending_slashes =~= before.pending_slashes);
        assert(staking@.last_epoch_staking_distribution
            =~= before.last_epoch_staking_distribution);
        assert(staking@.deposits =~= before.deposits);
        assert(staking@.nominators =~= before.nominators);
        assert(staking@.withdrawals =~= before.withdrawals);
    }
    if withdrawal.pending_shares == 0 {
        staking.remove_withdrawal(operator_id, &nominator_id);
    } else {
        staking.set_withdrawal(operator_id, nominator_id, Withdrawal { amount: 0, ..withdrawal });
    }
    currency.pay_from_hold(reason, &pool, &nominator_id, paid);
    Ok(paid)
}

/// The smaller of two balances.
pub open spec fn lesser(a: Balance, b: Balance) -> Balance {
    if a <= b {
        a
    } else {
        b
    }
}

/// What an operator that is done pays out to the first `k` of its nominators, one
/// after the other, out of the stake that is held of it: each gets what its deposit
/// and its withdrawal are worth at `price`, as far as the stake that is left goes.
pub open spec fn payouts(
    currency: CurrencyView,
    staking: StakingView,
    operator_id: OperatorId,
    price: SharePrice,
    k: int,
) -> CurrencyView
    decreases k,
{
    if k <= 0 {
        currency
    } else {
        let who = staking.nominators_of(operator_id)[k - 1];
        let paid = payouts(currency, staking, operator_id, price, k - 1);
        paid.with_stake_paid(
            HoldIdentifier::StakingStaked(operator_id),
            stake_account_of(operator_id),
            who,
            lesser(
                staking.nominator_payout(operator_id, who, price),
                stake_on_hold(paid, operator_id),
            ),
        )
    }
}

/// `n`, held at the largest 32-bit number.
pub open spec fn count_of(n: nat) -> u32 {
    if n > u32::MAX {
        u32::MAX
    } else {
        n as u32
    }
}

/// `n`, held at the largest 32-bit number.
pub fn count(n: usize) -> (r: u32)
    ensures
        r == count_of(n as nat),
{
    if n > u32::MAX as usize {
        u32::MAX
    } else {
        n as u32
    }
}

impl StakingView {
    /// Why the operator cannot be unlocked, if it cannot.
    pub open spec fn unlock_operator_error(self, operator_id: OperatorId, tree: BlockTreeView) -> Option<
        Error,
    > {
        if !self.operators.contains_key(operator_id) {
            Some(Error::UnknownOperator)
        } else {
            let operator = self.operators[operator_id];
            match operator.status {
                OperatorStatus::Deregistered {
                    unlock_at_domain_block_number,
                    ..
                } => if tree.head_domain(operator.current_domain_id)
                    < unlock_at_domain_block_number {
                    Some(Error::UnlockPeriodNotComplete)
                } else {
                    None
                },
                _ => Some(Error::OperatorNotDeregistered),
            }
        }
    }

    /// The price of the shares of the operator as it stands.
    pub open spec fn standing_price(self, operator_id: OperatorId) -> SharePrice {
        SharePrice {
            total_stake: self.operators[operator_id].current_total_stake,
            total_shares: self.operators[operator_id].current_total_shares,
        }
    }

    /// The deposit of the account with the operator with its pending balance turned
    /// into shares at the price of the epoch in which it was made, where that price
    /// is on record; a deposit of nothing where the account has none.
    pub open spec fn final_deposit(self, operator_id: OperatorId, who: AccountId) -> Deposit {
        let domain_id = self.operators[operator_id].current_domain_id;
        match self.deposit_of(operator_id, who) {
            Some(deposit) => match self.share_price(operator_id, domain_id, deposit.pending_epoch) {
                Some(price) => if deposit.pending_amount != 0 {
                    deposit.settled(price)
                } else {
                    deposit
                },
                None => deposit,
            },
            None => Deposit { shares: 0, pending_amount: 0, pending_epoch: 0 },
        }
    }

    /// The withdrawal of the account from the operator with its pending shares
    /// turned into a balance at the price of the epoch in which they were withdrawn,
    /// where that price is on record; a withdrawal of nothing where the account has
    /// none.
    pub open spec fn final_withdrawal(self, operator_id: OperatorId, who: AccountId) -> Withdrawal {
        let domain_id = self.operators[operator_id].current_domain_id;
        match self.withdrawal_of(operator_id, who) {
            Some(withdrawal) => match self.share_price(
                operator_id,
                domain_id,
                withdrawal.pending_epoch,
            ) {
                Some(price) => if withdrawal.pending_shares != 0 {
                    withdrawal.settled(price)
                } else {
                    withdrawal
                },
                None => withdrawal,
            },
            None => Withdrawal {
                pending_shares: 0,
                pending_epoch: 0,
                amount: 0,
                unlock_at_domain_block_number: 0,
            },
        }
    }

    /// What the deposit and the withdrawal of the account with the operator are worth
    /// at `price`, once what is pending of them is settled as far as the prices on
    /// record allow: the shares of the deposit, its pending balance, the balance of
    /// the withdrawal and its pending shares. The sum is held at the largest balance.
    pub open spec fn nominator_payout(
        self,
        operator_id: OperatorId,
        who: AccountId,
        price: SharePrice,
    ) -> Balance {
        let deposit = self.final_deposit(operator_id, who);
        let withdrawal = self.final_withdrawal(operator_id, who);
        saturating_balance_sum(
            saturating_balance_sum(
                saturating_balance_sum(price.stake_for(deposit.shares), deposit.pending_amount),
                withdrawal.amount,
            ),
            price.stake_for(withdrawal.pending_shares),
        )
    }

    /// The ledger without the operator: the operator, its owner, its signing key,
    /// its deposits and withdrawals and the count of its nominators are off the
    /// record.
    pub open spec fn without_operator(self, operator_id: OperatorId) -> StakingView {
        StakingView {
            operators: self.operators.remove(operator_id),
            operator_id_owner: self.operator_id_owner.remove(operator_id),
            operator_signing_key: self.operator_signing_key.remove(
                self.operators[operator_id].signing_key,
            ),
            deposits: self.deposits.remove(operator_id),
            nominators: self.nominators.remove(operator_id),
            withdrawals: self.withdrawals.remove(operator_id),
            nominator_count: self.nominator_count.remove(operator_id),
            ..self
        }
    }
}

impl Ledger {
    /// The ledger after the operator is unlocked: each of its nominators is paid
    /// out, what is left of its stake and what is in its storage fund go to its
    /// owner, and the operator is off the record.
    pub open spec fn after_unlock_operator(self, operator_id: OperatorId) -> Ledger {
        let paid = payouts(
            self.currency,
            self.staking,
            operator_id,
            self.staking.standing_price(operator_id),
            self.staking.nominators_of(operator_id).len() as int,
        );
        Ledger {
            staking: self.staking.without_operator(operator_id),
            currency: if self.staking.operator_id_owner.contains_key(operator_id) {
                paid.with_stake_paid(
                    HoldIdentifier::StakingStaked(operator_id),
                    stake_account_of(operator_id),
                    self.staking.operator_id_owner[operator_id],
                    stake_on_hold(paid, operator_id),
                ).with_mint(
                    self.staking.operator_id_owner[operator_id],
                    self.storage_fund.balance(operator_id),
                )
            } else {
                paid
            },
            storage_fund: BundleStorageFundView {
                funds: self.storage_fund.funds.remove(operator_id),
                ..self.storage_fund
            },
        }
    }
}

/// What the deposit `deposit` and the withdrawal `withdrawal` are worth at `price`.
fn worth(deposit: &Deposit, withdrawal: &Withdrawal, price: &SharePrice) -> (r: Balance)
    ensures
        r == saturating_balance_sum(
            saturating_balance_sum(
                saturating_balance_sum(price.stake_for(deposit.shares), deposit.pending_amount),
                withdrawal.amount,
            ),
            price.stake_for(withdrawal.pending_shares),
        ),
{
    add_saturating(
        add_saturating(
            add_saturating(price.share_to_stake(deposit.shares), deposit.pending_amount),
            withdrawal.amount,
        ),
        price.share_to_stake(withdrawal.pending_shares),
    )
}

/// Unlocks a deregistered operator whose locking period is over: pays its
/// nominators out and takes it off the record. Hands back the number of accounts
/// that were paid out. Nothing is changed where the unlocking is refused.
pub fn do_unlock_operator(
    staking: &mut Staking,
    currency: &mut Currency,
    fund: &mut BundleStorageFund,
    tree: &BlockTree,
    operator_id: OperatorId,
) -> (result: Result<u32, Error>)
    ensures
        match result {
            Ok(paid) => {
                &&& old(staking)@.unlock_operator_error(operator_id, tree@) is None
                &&& paid == count_of(old(staking)@.nominators_of(operator_id).len())
                &&& ledger(*final(staking), *final(currency), *final(fund)) == ledger(
                    *old(staking),
                    *old(currency),
                    *old(fund),
                ).after_unlock_operator(operator_id)
            },
            Err(e) => {
                &&& Some(e) == old(staking)@.unlock_operator_error(operator_id, tree@)
                &&& ledger(*final(staking), *final(currency), *final(fund)) == ledger(
                    *old(staking),
                    *old(currency),
                    *old(fund),
                )
            },
        },
{
    let ghost before = ledger(*staking, *currency, *fund);
    let operator = match staking.operators.get(&operator_id) {
        Some(operator) => *operator,
        None => {
            return Err(Error::UnknownOperator);
        },
    };
    match operator.status {
        OperatorStatus::Deregistered { unlock_at_domain_block_number, .. } => {
            if tree.head_domain_number(operator.current_domain_id)
                < unlock_at_domain_block_number {
                return Err(Error::UnlockPeriodNotComplete);
            }
        },
        _ => {
            return Err(Error::OperatorNotDeregistered);
        },
    }
    let price = SharePrice {
        total_stake: operator.current_total_stake,
        total_shares: operator.current_total_shares,
    };
    let deposits = match staking.deposits.remove(&operator_id) {
        Some(deposits) => deposits,
        None => Table::new(),
    };
    let withdrawals = match staking.withdrawals.remove(&operator_id) {
        Some(withdrawals) => withdrawals,
        None => Table::new(),
    };
    let n = deposits.len();
    let reason = HoldIdentifier::StakingStaked(operator_id);
    let pool = stake_account(operator_id);
    proof {
        assert(deposits@ =~= before.staking.deposits_of(operator_id));
        assert(deposits.keys() =~= before.staking.nominators_of(operator_id));
        assert(withdrawals@ =~= before.staking.withdrawals_of(operator_id));
    }
    let mut i: usize = 0;
    while i < n
        invariant
            i <= n,
            n == deposits.keys().len(),
            deposits@ == before.staking.deposits_of(operator_id),
            deposits.keys() == before.staking.nominators_of(operator_id),
            withdrawals@ == before.staking.withdrawals_of(operator_id),
            price == before.staking.standing_price(operator_id),
            operator == before.staking.operators[operator_id],
            reason == HoldIdentifier::StakingStaked(operator_id),
            pool == stake_account_of(operator_id),
            staking@.operator_epoch_share_price == before.staking.operator_epoch_share_price,
            currency@ == payouts(before.currency, before.staking, operator_id, price, i as int),
        decreases n - i,
    {
        let who = *deposits.key_at(i);
        let deposit = match deposits.get(&who) {
            Some(deposit) => match staking.share_price(
                operator_id,
                operator.current_domain_id,
                deposit.pending_epoch,
            ) {
                Some(price) => if deposit.pending_amount != 0 {
                    deposit.settle(&price)
                } else {
                    *deposit
                },
                None => *deposit,
            },
            None => Deposit { shares: 0, pending_amount: 0, pending_epoch: 0 },
        };
        let withdrawal = match withdrawals.get(&who) {
            Some(withdrawal) => match staking.share_price(
                operator_id,
                operator.current_domain_id,
                withdrawal.pending_epoch,
            ) {
                Some(price) => if withdrawal.pending_shares != 0 {
                    withdrawal.settle(&price)
                } else {
                    *withdrawal
                },
                None => *withdrawal,
            },
            None => Withdrawal {
                pending_shares: 0,
                pending_epoch: 0,
                amount: 0,
                unlock_at_domain_block_number: 0,
            },
        };
        assert(deposit == before.staking.final_deposit(operator_id, who));
        assert(withdrawal == before.staking.final_withdrawal(operator_id, who));
        let payout = worth(&deposit, &withdrawal, &price);
        let held = currency.balance_on_hold(reason, &pool);
        let amount = if payout <= held {
            payout
        } else {
            held
        };
        currency.pay_from_hold(reason, &pool, &who, amount);
        i = i + 1;
    }
    staking.operators.remove(&operator_id);
    let owner = staking.operator_id_owner.remove(&operator_id);
    staking.operator_signing_key.remove(&operator.signing_key);
    staking.nominator_count.remove(&operator_id);
    let in_fund = fund.close(operator_id);
    match owner {
        Some(owner) => {
            let rest = currency.balance_on_hold(reason, &pool);
            currency.pay_from_hold(reason, &pool, &owner, rest);
            currency.mint_into(&owner, in_fund);
        },
        None => {},
    }
    proof {
        assert(staking@.domain_staking_summary =~= before.staking.domain_staking_summary);
        assert(staking@.pending_slashes =~= before.staking.pending_slashes);
        assert(staking@.last_epoch_staking_distribution
            =~= before.staking.last_epoch_staking_distribution);
        assert(staking@.deposits =~= before.staking.deposits.remove(operator_id));
        assert(staking@.nominators =~= before.staking.nominators.remove(operator_id));
        assert(staking@.withdrawals =~= before.staking.withdrawals.remove(operator_id));
    }
    Ok(count(n))
}

} // verus!
