//! The staking ledger: operators, their stake, and what waits for the next epoch.

use crate::primitives::{
    AccountId, Balance, DomainBlockNumber, DomainId, EpochIndex, OperatorId, OperatorPublicKey,
    Share, SlotNumber, H256,
};
use crate::table::{with_id, without, IdSet, Table};
use std::collections::BTreeMap;
use vstd::prelude::*;

verus! {

broadcast use vstd::std_specs::btree::group_btree_axioms;

/// What can go wrong in the staking ledger.
#[derive(Clone, Copy, Debug, PartialEq, Eq, Structural)]
pub enum Error {
    /// No more operator identifiers are left.
    MaximumOperatorId,
    /// The domain has no staking summary.
    DomainNotInitialized,
    /// The domain does not allow the account to operate on it.
    OperatorNotAllowed,
    /// The signing key belongs to a registered operator.
    DuplicateOperatorSigningKey,
    /// The nomination tax is not below the whole.
    InvalidNominationTax,
    /// The stake is below the least stake of an operator.
    MinimumOperatorStake,
    /// The stake is below the least stake of a nominator.
    MinimumNominatorStake,
    /// The account cannot spend the amount.
    InsufficientBalance,
    /// An amount does not fit.
    BalanceOverflow,
    /// No operator has the identifier.
    UnknownOperator,
    /// The operator is not registered any more.
    OperatorNotRegistered,
    /// The account does not own the operator.
    NotOperatorOwner,
    /// The operator has as many nominators as it may have.
    MaximumNominators,
    /// The domain has as many staking operations pending as it may have.
    TooManyPendingStakingOperation,
    /// The account has no deposit with the operator.
    UnknownNominator,
    /// A withdrawal of no shares.
    ZeroWithdrawShares,
    /// The account does not own as many shares.
    InsufficientShares,
    /// The share price of a past epoch is not on record.
    MissingOperatorEpochSharePrice,
    /// The account has no withdrawal with the operator.
    MissingWithdrawal,
    /// The locking period of the withdrawal is not over.
    UnlockPeriodNotComplete,
    /// The operator is not deregistered.
    OperatorNotDeregistered,
}

/// Why an operator is slashed.
#[derive(Clone, Copy, Debug, PartialEq, Eq, Structural)]
pub enum SlashedReason {
    /// The operator produced an invalid bundle in the domain block.
    InvalidBundle(DomainBlockNumber),
    /// The operator submitted the bad execution receipt.
    BadExecutionReceipt(H256),
    /// The operator signed two bundle headers at the slot.
    BundleEquivocation(SlotNumber),
}

/// Where an operator stands.
#[derive(Clone, Copy, Debug, PartialEq, Eq, Structural)]
pub enum OperatorStatus {
    /// Registered, and taking part from the next epoch on.
    Registered,
    /// Deregistered in the epoch; its stake unlocks once the domain has a block of
    /// the number.
    Deregistered {
        domain_id: DomainId,
        epoch_index: EpochIndex,
        unlock_at_domain_block_number: DomainBlockNumber,
    },
    /// Slashed: its stake went to the treasury.
    Slashed,
    /// To be slashed when the epoch ends.
    PendingSlash,
}

/// What an operator sets when it registers.
#[derive(Clone, Copy, Debug, PartialEq, Eq, Structural)]
pub struct OperatorConfig {
    /// The key that the operator signs bundles with.
    pub signing_key: OperatorPublicKey,
    /// The least stake that the operator takes from a nominator.
    pub minimum_nominator_stake: Balance,
    /// The part of each reward that the operator keeps, in hundredths.
    pub nomination_tax: u8,
}

/// An operator.
#[derive(Clone, Copy, Debug, PartialEq, Eq, Structural)]
pub struct Operator {
    pub signing_key: OperatorPublicKey,
    pub current_domain_id: DomainId,
    pub next_domain_id: DomainId,
    pub minimum_nominator_stake: Balance,
    /// The part of each reward that the operator keeps, in hundredths.
    pub nomination_tax: u8,
    /// The stake that the shares of the pool stand for.
    pub current_total_stake: Balance,
    /// The shares of the pool.
    pub current_total_shares: Share,
    pub status: OperatorStatus,
    /// The deposits of the current epoch, which become shares when it ends.
    pub deposits_in_epoch: Balance,
    /// The shares withdrawn in the current epoch, which are burned when it ends.
    pub withdrawals_in_epoch: Share,
    /// What left the stake with withdrawn shares and waits to be unlocked.
    pub pending_withdrawals: Balance,
}

/// The account on which the stake of the operator is held.
pub open spec fn stake_account_of(operator_id: OperatorId) -> AccountId {
    H256 { w0: operator_id, w1: 0, w2: 0, w3: 0x7374_616b_6564_0000 }
}

/// The account on which the stake of the operator is held.
pub fn stake_account(operator_id: OperatorId) -> (account: AccountId)
    ensures
        account == stake_account_of(operator_id),
{
    H256 { w0: operator_id, w1: 0, w2: 0, w3: 0x7374_616b_6564_0000 }
}

/// The smallest of three balances.
pub open spec fn least_of(a: Balance, b: Balance, c: Balance) -> Balance {
    if a <= b && a <= c {
        a
    } else if b <= c {
        b
    } else {
        c
    }
}

/// The smallest of three balances.
pub fn least(a: Balance, b: Balance, c: Balance) -> (r: Balance)
    ensures
        r == least_of(a, b, c),
{
    if a <= b && a <= c {
        a
    } else if b <= c {
        b
    } else {
        c
    }
}

/// The price of the shares of an operator at the end of an epoch: `total_shares`
/// shares stood for `total_stake`.
#[derive(Clone, Copy, Debug, PartialEq, Eq, Structural)]
pub struct SharePrice {
    pub total_stake: Balance,
    pub total_shares: Share,
}

/// What a nominator has deposited with an operator.
#[derive(Clone, Copy, Debug, PartialEq, Eq, Structural)]
pub struct Deposit {
    /// The shares owned as of the last settled epoch.
    pub shares: Share,
    /// The balance that waits for the share price of the epoch `pending_epoch`.
    pub pending_amount: Balance,
    /// The epoch in which the pending balance was deposited.
    pub pending_epoch: EpochIndex,
}

/// What a nominator is withdrawing from an operator.
#[derive(Clone, Copy, Debug, PartialEq, Eq, Structural)]
pub struct Withdrawal {
    /// The shares that wait to be burned at the share price of the epoch
    /// `pending_epoch`.
    pub pending_shares: Share,
    /// The epoch in which the pending shares were withdrawn.
    pub pending_epoch: EpochIndex,
    /// The balance that waits to be unlocked.
    pub amount: Balance,
    /// The number of the domain block from which on the balance can be unlocked.
    pub unlock_at_domain_block_number: DomainBlockNumber,
}

/// The stake of a domain in its current epoch.
pub struct StakingSummary {
    pub current_epoch_index: EpochIndex,
    pub current_total_stake: Balance,
    /// The stake of each operator that takes part in the current epoch.
    pub current_operators: BTreeMap<OperatorId, Balance>,
    /// The operators that take part in the next epoch.
    pub next_operators: IdSet,
    /// The rewards of the current epoch.
    pub current_epoch_rewards: Table<OperatorId, Balance>,
}

/// A staking summary as a value. `rewarded` holds the operators with rewards in
/// the order in which the rewards are walked: ascending.
pub struct StakingSummaryView {
    pub current_epoch_index: EpochIndex,
    pub current_total_stake: Balance,
    pub current_operators: Map<OperatorId, Balance>,
    pub next_operators: Seq<OperatorId>,
    pub current_epoch_rewards: Map<OperatorId, Balance>,
    pub rewarded: Seq<OperatorId>,
}

impl View for StakingSummary {
    type V = StakingSummaryView;

    open spec fn view(&self) -> StakingSummaryView {
        StakingSummaryView {
            current_epoch_index: self.current_epoch_index,
            current_total_stake: self.current_total_stake,
            current_operators: self.current_operators@,
            next_operators: self.next_operators@,
            current_epoch_rewards: self.current_epoch_rewards@,
            rewarded: self.current_epoch_rewards.keys(),
        }
    }
}

/// The stake that elections are verified against.
pub struct ElectionVerificationParams {
    pub operators: BTreeMap<OperatorId, Balance>,
    pub total_domain_stake: Balance,
}

/// Election parameters as a value.
pub struct ElectionParamsView {
    pub operators: Map<OperatorId, Balance>,
    pub total_domain_stake: Balance,
}

impl View for ElectionVerificationParams {
    type V = ElectionParamsView;

    open spec fn view(&self) -> ElectionParamsView {
        ElectionParamsView {
            operators: self.operators@,
            total_domain_stake: self.total_domain_stake,
        }
    }
}

/// The tables of the staking ledger.
pub struct Staking {
    pub next_operator_id: OperatorId,
    pub operator_id_owner: Table<OperatorId, AccountId>,
    pub operator_signing_key: Table<OperatorPublicKey, OperatorId>,
    pub domain_staking_summary: Table<DomainId, StakingSummary>,
    pub operators: Table<OperatorId, Operator>,
    pub operator_epoch_share_price: Table<(OperatorId, DomainId, EpochIndex), SharePrice>,
    /// The deposits with each operator, under the account that made them.
    pub deposits: Table<OperatorId, Table<AccountId, Deposit>>,
    /// The withdrawals from each operator, under the account that makes them.
    pub withdrawals: Table<OperatorId, Table<AccountId, Withdrawal>>,
    /// The number of nominators of each operator, its owner not counted.
    pub nominator_count: Table<OperatorId, u32>,
    pub pending_slashes: Table<DomainId, IdSet>,
    pub pending_staking_operation_count: Table<DomainId, u32>,
    pub last_epoch_staking_distribution: Table<DomainId, ElectionVerificationParams>,
}

/// The staking ledger as a value: one map for each table. `nominators` holds the
/// accounts with a deposit with each operator in the order in which they are
/// walked.
pub struct StakingView {
    pub next_operator_id: OperatorId,
    pub operator_id_owner: Map<OperatorId, AccountId>,
    pub operator_signing_key: Map<OperatorPublicKey, OperatorId>,
    pub domain_staking_summary: Map<DomainId, StakingSummaryView>,
    pub operators: Map<OperatorId, Operator>,
    pub operator_epoch_share_price: Map<(OperatorId, DomainId, EpochIndex), SharePrice>,
    pub deposits: Map<OperatorId, Map<AccountId, Deposit>>,
    pub nominators: Map<OperatorId, Seq<AccountId>>,
    pub withdrawals: Map<OperatorId, Map<AccountId, Withdrawal>>,
    pub nominator_count: Map<OperatorId, u32>,
    pub pending_slashes: Map<DomainId, Seq<OperatorId>>,
    pub pending_staking_operation_count: Map<DomainId, u32>,
    pub last_epoch_staking_distribution: Map<DomainId, ElectionParamsView>,
}

impl View for Staking {
    type V = StakingView;

    open spec fn view(&self) -> StakingView {
        StakingView {
            next_operator_id: self.next_operator_id,
            operator_id_owner: self.operator_id_owner@,
            operator_signing_key: self.operator_signing_key@,
            domain_staking_summary: self.domain_staking_summary@.map_values(
                |s: StakingSummary| s@,
            ),
            operators: self.operators@,
            operator_epoch_share_price: self.operator_epoch_share_price@,
            deposits: self.deposits@.map_values(|t: Table<AccountId, Deposit>| t@),
            nominators: self.deposits@.map_values(|t: Table<AccountId, Deposit>| t.keys()),
            withdrawals: self.withdrawals@.map_values(|t: Table<AccountId, Withdrawal>| t@),
            nominator_count: self.nominator_count@,
            pending_slashes: self.pending_slashes@.map_values(|s: IdSet| s@),
            pending_staking_operation_count: self.pending_staking_operation_count@,
            last_epoch_staking_distribution: self.last_epoch_staking_distribution@.map_values(
                |p: ElectionVerificationParams| p@,
            ),
        }
    }
}

/// `a - b`, held at zero.
pub open spec fn saturating_difference(a: Balance, b: Balance) -> Balance {
    if a >= b {
        (a - b) as u128
    } else {
        0
    }
}

/// `a + b`, held at the largest balance.
pub open spec fn saturating_balance_sum(a: Balance, b: Balance) -> Balance {
    if a + b > u128::MAX {
        u128::MAX
    } else {
        (a + b) as u128
    }
}

/// `a - b`, held at zero.
pub fn sub_saturating(a: Balance, b: Balance) -> (r: Balance)
    ensures
        r == saturating_difference(a, b),
{
    if a >= b {
        a - b
    } else {
        0
    }
}

/// `a + b`, held at the largest balance.
pub fn add_saturating(a: Balance, b: Balance) -> (r: Balance)
    ensures
        r == saturating_balance_sum(a, b),
{
    if a > u128::MAX - b {
        u128::MAX
    } else {
        a + b
    }
}

/// `a * b / c`, rounded down and held at the largest 128-bit number; zero where `c`
/// is zero.
pub open spec fn mul_div_floor(a: u128, b: u128, c: u128) -> u128 {
    if c == 0 {
        0
    } else if a * b / (c as int) > u128::MAX {
        u128::MAX
    } else {
        (a * b / (c as int)) as u128
    }
}

/// `a * b / c`, rounded down and held at the largest 128-bit number; zero where `c`
/// is zero.
pub fn mul_div(a: u128, b: u128, c: u128) -> (r: u128)
    ensures
        r == mul_div_floor(a, b, c),
{
    if c == 0 {
        return 0;
    }
    assert(a * b <= crate::u256::u256_max()) by (nonlinear_arith)
        requires
            a <= u128::MAX,
            b <= u128::MAX,
    ;
    let product = match crate::u256::U256::from_u128(a).checked_mul(
        crate::u256::U256::from_u128(b),
    ) {
        Some(product) => product,
        None => {
            return u128::MAX;
        },
    };
    match product.checked_div(crate::u256::U256::from_u128(c)) {
        Some(quotient) => match quotient.to_u128() {
            Some(r) => r,
            None => u128::MAX,
        },
        None => u128::MAX,
    }
}

impl SharePrice {
    /// The shares that `stake` buys at the price. One share for each unit where the
    /// pool has no stake or no shares.
    pub open spec fn shares_for(self, stake: Balance) -> Share {
        if self.total_shares == 0 || self.total_stake == 0 {
            stake
        } else {
            mul_div_floor(stake, self.total_shares, self.total_stake)
        }
    }

    /// The stake that `shares` stand for at the price: their part of the stake of the
    /// pool, rounded down. One unit for each share where the pool has no shares.
    pub open spec fn stake_for(self, shares: Share) -> Balance {
        if self.total_shares == 0 {
            shares
        } else {
            mul_div_floor(shares, self.total_stake, self.total_shares)
        }
    }

    /// The shares that `stake` buys at the price.
    pub fn stake_to_share(&self, stake: Balance) -> (shares: Share)
        ensures
            shares == self.shares_for(stake),
    {
        if self.total_shares == 0 || self.total_stake == 0 {
            stake
        } else {
            mul_div(stake, self.total_shares, self.total_stake)
        }
    }

    /// The stake that `shares` stand for at the price.
    pub fn share_to_stake(&self, shares: Share) -> (stake: Balance)
        ensures
            stake == self.stake_for(shares),
    {
        if self.total_shares == 0 {
            shares
        } else {
            mul_div(shares, self.total_stake, self.total_shares)
        }
    }
}

impl Deposit {
    /// Whether the pending balance waits for the price of an epoch that is over.
    pub open spec fn needs_price(self, current_epoch: EpochIndex) -> bool {
        self.pending_amount != 0 && self.pending_epoch != current_epoch
    }

    /// The deposit once its pending balance is turned into shares at `price`.
    pub open spec fn settled(self, price: SharePrice) -> Deposit {
        Deposit {
            shares: saturating_balance_sum(self.shares, price.shares_for(self.pending_amount)),
            pending_amount: 0,
            pending_epoch: self.pending_epoch,
        }
    }

    /// Turns the pending balance into shares at `price`.
    pub fn settle(&self, price: &SharePrice) -> (deposit: Deposit)
        ensures
            deposit == self.settled(*price),
    {
        Deposit {
            shares: add_saturating(self.shares, price.stake_to_share(self.pending_amount)),
            pending_amount: 0,
            pending_epoch: self.pending_epoch,
        }
    }
}

impl Withdrawal {
    /// Whether the pending shares wait for the price of an epoch that is over.
    pub open spec fn needs_price(self, current_epoch: EpochIndex) -> bool {
        self.pending_shares != 0 && self.pending_epoch != current_epoch
    }

    /// The withdrawal once its pending shares are turned into a balance at `price`.
    pub open spec fn settled(self, price: SharePrice) -> Withdrawal {
        Withdrawal {
            pending_shares: 0,
            amount: saturating_balance_sum(self.amount, price.stake_for(self.pending_shares)),
            ..self
        }
    }

    /// Turns the pending shares into a balance at `price`.
    pub fn settle(&self, price: &SharePrice) -> (withdrawal: Withdrawal)
        ensures
            withdrawal == self.settled(*price),
    {
        Withdrawal {
            pending_shares: 0,
            pending_epoch: self.pending_epoch,
            amount: add_saturating(self.amount, price.share_to_stake(self.pending_shares)),
            unlock_at_domain_block_number: self.unlock_at_domain_block_number,
        }
    }
}

impl StakingView {
    /// The ledger without any operator.
    pub open spec fn empty() -> StakingView {
        StakingView {
            next_operator_id: 0,
            operator_id_owner: Map::empty(),
            operator_signing_key: Map::empty(),
            domain_staking_summary: Map::empty(),
            operators: Map::empty(),
            operator_epoch_share_price: Map::empty(),
            deposits: Map::empty(),
            nominators: Map::empty(),
            withdrawals: Map::empty(),
            nominator_count: Map::empty(),
            pending_slashes: Map::empty(),
            pending_staking_operation_count: Map::empty(),
            last_epoch_staking_distribution: Map::empty(),
        }
    }

    /// The operators of the domain that wait to be slashed.
    pub open spec fn pending_slashes_of(self, domain_id: DomainId) -> Seq<OperatorId> {
        if self.pending_slashes.contains_key(domain_id) {
            self.pending_slashes[domain_id]
        } else {
            Seq::empty()
        }
    }

    /// Whether slashing the operator changes the ledger: the operator is known, its
    /// domain has a staking summary, and it does not wait to be slashed already.
    pub open spec fn slashes(self, operator_id: OperatorId) -> bool {
        &&& self.operators.contains_key(operator_id)
        &&& self.domain_staking_summary.contains_key(self.operators[operator_id].current_domain_id)
        &&& !self.pending_slashes_of(self.operators[operator_id].current_domain_id).contains(
            operator_id,
        )
    }

    /// The ledger after the operator is slashed: the operator waits to be slashed; it
    /// takes part neither in the current epoch of its domain nor in the next; its
    /// stake no longer counts in the stake of the domain.
    pub open spec fn slash_one(self, operator_id: OperatorId) -> StakingView {
        if !self.slashes(operator_id) {
            self
        } else {
            let operator = self.operators[operator_id];
            let domain_id = operator.current_domain_id;
            let summary = self.domain_staking_summary[domain_id];
            StakingView {
                operators: self.operators.insert(
                    operator_id,
                    Operator { status: OperatorStatus::PendingSlash, ..operator },
                ),
                domain_staking_summary: self.domain_staking_summary.insert(
                    domain_id,
                    StakingSummaryView {
                        current_operators: summary.current_operators.remove(operator_id),
                        next_operators: without(summary.next_operators, operator_id),
                        current_total_stake: saturating_difference(
                            summary.current_total_stake,
                            operator.current_total_stake,
                        ),
                        ..summary
                    },
                ),
                pending_slashes: self.pending_slashes.insert(
                    domain_id,
                    with_id(self.pending_slashes_of(domain_id), operator_id),
                ),
                ..self
            }
        }
    }

    /// The ledger after the first `k` of `operator_ids` are slashed, one after the
    /// other.
    pub open spec fn slash_all(self, operator_ids: Seq<OperatorId>, k: int) -> StakingView
        decreases k,
    {
        if k <= 0 {
            self
        } else {
            self.slash_all(operator_ids, k - 1).slash_one(operator_ids[k - 1])
        }
    }

    /// Those of the first `k` of `operator_ids` whose slashing changes the ledger, in
    /// their order.
    pub open spec fn newly_slashed(self, operator_ids: Seq<OperatorId>, k: int) -> Seq<OperatorId>
        decreases k,
    {
        if k <= 0 {
            Seq::empty()
        } else {
            let before = self.newly_slashed(operator_ids, k - 1);
            if self.slash_all(operator_ids, k - 1).slashes(operator_ids[k - 1]) {
                before.push(operator_ids[k - 1])
            } else {
                before
            }
        }
    }

    /// The reward of one operator in the current epoch of the domain so far.
    pub open spec fn epoch_reward(summary: StakingSummaryView, operator_id: OperatorId) -> Balance {
        if summary.current_epoch_rewards.contains_key(operator_id) {
            summary.current_epoch_rewards[operator_id]
        } else {
            0
        }
    }

    /// The summary with `reward` more for the operator, held at the largest balance.
    pub open spec fn summary_with_reward(
        summary: StakingSummaryView,
        operator_id: OperatorId,
        reward: Balance,
    ) -> StakingSummaryView {
        StakingSummaryView {
            current_epoch_rewards: summary.current_epoch_rewards.insert(
                operator_id,
                saturating_balance_sum(Self::epoch_reward(summary, operator_id), reward),
            ),
            rewarded: with_id(summary.rewarded, operator_id),
            ..summary
        }
    }

    /// The summary with `reward` more for each of the first `k` of `operator_ids`.
    pub open spec fn summary_with_rewards(
        summary: StakingSummaryView,
        operator_ids: Seq<OperatorId>,
        reward: Balance,
        k: int,
    ) -> StakingSummaryView
        decreases k,
    {
        if k <= 0 {
            summary
        } else {
            Self::summary_with_reward(
                Self::summary_with_rewards(summary, operator_ids, reward, k - 1),
                operator_ids[k - 1],
                reward,
            )
        }
    }

    /// The ledger after `rewards` are shared out among `operator_ids` in the domain:
    /// each gets the same part, rounded down, on top of its rewards of the epoch.
    /// Nothing changes where the domain has no staking summary or no operator is
    /// named.
    pub open spec fn with_rewards(
        self,
        domain_id: DomainId,
        operator_ids: Seq<OperatorId>,
        rewards: Balance,
    ) -> StakingView {
        if !self.domain_staking_summary.contains_key(domain_id) || operator_ids.len() == 0 {
            self
        } else {
            StakingView {
                domain_staking_summary: self.domain_staking_summary.insert(
                    domain_id,
                    Self::summary_with_rewards(
                        self.domain_staking_summary[domain_id],
                        operator_ids,
                        (rewards / (operator_ids.len() as u128)) as u128,
                        operator_ids.len() as int,
                    ),
                ),
                ..self
            }
        }
    }

    /// The stake of the operator and of the whole domain that an election in the
    /// domain is verified against: those of the epoch that ended in this consensus
    /// block, where one did and the operator took part in it, else those of the
    /// current epoch.
    pub open spec fn operator_stake_info(
        self,
        domain_id: DomainId,
        operator_id: OperatorId,
    ) -> Option<(Balance, Balance)> {
        if self.last_epoch_staking_distribution.contains_key(domain_id)
            && self.last_epoch_staking_distribution[domain_id].operators.contains_key(operator_id) {
            let last = self.last_epoch_staking_distribution[domain_id];
            Some((last.operators[operator_id], last.total_domain_stake))
        } else if self.domain_staking_summary.contains_key(domain_id)
            && self.domain_staking_summary[domain_id].current_operators.contains_key(operator_id) {
            let summary = self.domain_staking_summary[domain_id];
            Some((summary.current_operators[operator_id], summary.current_total_stake))
        } else {
            None
        }
    }
}

impl Staking {
    /// A ledger without any operator.
    pub fn new() -> (ledger: Staking)
        ensures
            ledger@ == StakingView::empty(),
    {
        let ledger = Staking {
            next_operator_id: 0,
            operator_id_owner: Table::new(),
            operator_signing_key: Table::new(),
            domain_staking_summary: Table::new(),
            operators: Table::new(),
            operator_epoch_share_price: Table::new(),
            deposits: Table::new(),
            withdrawals: Table::new(),
            nominator_count: Table::new(),
            pending_slashes: Table::new(),
            pending_staking_operation_count: Table::new(),
            last_epoch_staking_distribution: Table::new(),
        };
        assert(ledger@.domain_staking_summary =~= Map::<DomainId, StakingSummaryView>::empty());
        assert(ledger@.deposits =~= Map::<OperatorId, Map<AccountId, Deposit>>::empty());
        assert(ledger@.nominators =~= Map::<OperatorId, Seq<AccountId>>::empty());
        assert(ledger@.withdrawals =~= Map::<OperatorId, Map<AccountId, Withdrawal>>::empty());
        assert(ledger@.pending_slashes =~= Map::<DomainId, Seq<OperatorId>>::empty());
        assert(ledger@.last_epoch_staking_distribution =~= Map::<
            DomainId,
            ElectionParamsView,
        >::empty());
        ledger
    }

    /// Whether the operator waits to be slashed in the domain.
    fn is_pending_slash(&self, domain_id: DomainId, operator_id: OperatorId) -> (r: bool)
        ensures
            r == self@.pending_slashes_of(domain_id).contains(operator_id),
    {
        match self.pending_slashes.get(&domain_id) {
            Some(pending) => pending.contains(operator_id),
            None => false,
        }
    }

    /// Slashes one operator. Hands back whether that changed the ledger.
    pub fn slash_operator(&mut self, operator_id: OperatorId) -> (slashed: bool)
        ensures
            slashed == old(self)@.slashes(operator_id),
            final(self)@ == old(self)@.slash_one(operator_id),
    {
        let operator = match self.operators.get(&operator_id) {
            Some(operator) => *operator,
            None => {
                return false;
            },
        };
        let domain_id = operator.current_domain_id;
        if self.is_pending_slash(domain_id, operator_id) {
            return false;
        }
        let mut summary = match self.domain_staking_summary.remove(&domain_id) {
            Some(summary) => summary,
            None => {
                proof {
                    assert(self@.domain_staking_summary =~= old(self)@.domain_staking_summary);
                }
                return false;
            },
        };
        let ghost summary_before = summary@;
        summary.current_operators.remove(&operator_id);
        summary.next_operators.remove(operator_id);
        summary.current_total_stake = sub_saturating(
            summary.current_total_stake,
            operator.current_total_stake,
        );
        let ghost summary_after = summary@;
        self.domain_staking_summary.insert(domain_id, summary);
        self.operators.insert(
            operator_id,
            Operator { status: OperatorStatus::PendingSlash, ..operator },
        );
        let mut pending = match self.pending_slashes.remove(&domain_id) {
            Some(pending) => pending,
            None => IdSet::new(),
        };
        assert(pending@ =~= old(self)@.pending_slashes_of(domain_id));
        pending.insert(operator_id);
        let ghost pending_after = pending@;
        self.pending_slashes.insert(domain_id, pending);
        proof {
            assert(self@.domain_staking_summary =~= old(self)@.domain_staking_summary.insert(
                domain_id,
                summary_after,
            ));
            assert(self@.pending_slashes =~= old(self)@.pending_slashes.insert(
                domain_id,
                pending_after,
            ));
            assert(self@.last_epoch_staking_distribution
                =~= old(self)@.last_epoch_staking_distribution);
            assert(self@.deposits =~= old(self)@.deposits);
            assert(self@.nominators =~= old(self)@.nominators);
            assert(self@.withdrawals =~= old(self)@.withdrawals);
            assert(summary_before == old(self)@.domain_staking_summary[domain_id]);
        }
        true
    }

    /// Slashes each of `operator_ids`, one after the other. Hands back those whose
    /// slashing changed the ledger.
    pub fn do_slash_operators(&mut self, operator_ids: &Vec<OperatorId>) -> (slashed: Vec<
        OperatorId,
    >)
        ensures
            final(self)@ == old(self)@.slash_all(operator_ids@, operator_ids@.len() as int),
            slashed@ == old(self)@.newly_slashed(operator_ids@, operator_ids@.len() as int),
    {
        let mut slashed: Vec<OperatorId> = Vec::new();
        let mut i: usize = 0;
        while i < operator_ids.len()
            invariant
                i <= operator_ids@.len(),
                self@ == old(self)@.slash_all(operator_ids@, i as int),
                slashed@ == old(self)@.newly_slashed(operator_ids@, i as int),
            decreases operator_ids@.len() - i,
        {
            if self.slash_operator(operator_ids[i]) {
                slashed.push(operator_ids[i]);
            }
            i = i + 1;
        }
        slashed
    }

    /// Shares `rewards` out among `operator_ids` in the domain.
    pub fn do_reward_operators(
        &mut self,
        domain_id: DomainId,
        operator_ids: &Vec<OperatorId>,
        rewards: Balance,
    )
        ensures
            final(self)@ == old(self)@.with_rewards(domain_id, operator_ids@, rewards),
    {
        if operator_ids.len() == 0 {
            return ;
        }
        let mut summary = match self.domain_staking_summary.remove(&domain_id) {
            Some(summary) => summary,
            None => {
                proof {
                    assert(self@.domain_staking_summary =~= old(self)@.domain_staking_summary);
                }
                return ;
            },
        };
        let ghost summary_before = summary@;
        let reward: Balance = rewards / (operator_ids.len() as u128);
        let mut i: usize = 0;
        while i < operator_ids.len()
            invariant
                i <= operator_ids@.len(),
                summary@ == StakingView::summary_with_rewards(
                    summary_before,
                    operator_ids@,
                    reward,
                    i as int,
                ),
            decreases operator_ids@.len() - i,
        {
            let operator_id = operator_ids[i];
            let so_far = match summary.current_epoch_rewards.get(&operator_id) {
                Some(amount) => *amount,
                None => 0,
            };
            summary.current_epoch_rewards.insert_ascending(
                operator_id,
                add_saturating(so_far, reward),
            );
            i = i + 1;
        }
        let ghost summary_after = summary@;
        self.domain_staking_summary.insert(domain_id, summary);
        proof {
            assert(self@.domain_staking_summary =~= old(self)@.domain_staking_summary.insert(
                domain_id,
                summary_after,
            ));
            assert(self@.pending_slashes =~= old(self)@.pending_slashes);
            assert(self@.last_epoch_staking_distribution
                =~= old(self)@.last_epoch_staking_distribution);
            assert(self@.deposits =~= old(self)@.deposits);
            assert(self@.nominators =~= old(self)@.nominators);
            assert(self@.withdrawals =~= old(self)@.withdrawals);
        }
    }

    /// The stake of the operator and of the whole domain that an election in the
    /// domain is verified against.
    pub fn operator_stake_info(&self, domain_id: DomainId, operator_id: OperatorId) -> (info:
        Option<(Balance, Balance)>)
        ensures
            info == self@.operator_stake_info(domain_id, operator_id),
    {
        match self.last_epoch_staking_distribution.get(&domain_id) {
            Some(last) => {
                match last.operators.get(&operator_id) {
                    Some(stake) => {
                        return Some((*stake, last.total_domain_stake));
                    },
                    None => {},
                }
            },
            None => {},
        }
        match self.domain_staking_summary.get(&domain_id) {
            Some(summary) => {
                match summary.current_operators.get(&operator_id) {
                    Some(stake) => Some((*stake, summary.current_total_stake)),
                    None => None,
                }
            },
            None => None,
        }
    }
}

impl StakingView {
    /// The deposits with the operator, under the account that made them.
    pub open spec fn deposits_of(self, operator_id: OperatorId) -> Map<AccountId, Deposit> {
        if self.deposits.contains_key(operator_id) {
            self.deposits[operator_id]
        } else {
            Map::empty()
        }
    }

    /// The accounts with a deposit with the operator, in the order in which they are
    /// walked.
    pub open spec fn nominators_of(self, operator_id: OperatorId) -> Seq<AccountId> {
        if self.nominators.contains_key(operator_id) {
            self.nominators[operator_id]
        } else {
            Seq::empty()
        }
    }

    /// The withdrawals from the operator, under the account that makes them.
    pub open spec fn withdrawals_of(self, operator_id: OperatorId) -> Map<AccountId, Withdrawal> {
        if self.withdrawals.contains_key(operator_id) {
            self.withdrawals[operator_id]
        } else {
            Map::empty()
        }
    }

    /// The deposit of the account with the operator, if it has one.
    pub open spec fn deposit_of(self, operator_id: OperatorId, who: AccountId) -> Option<Deposit> {
        if self.deposits_of(operator_id).contains_key(who) {
            Some(self.deposits_of(operator_id)[who])
        } else {
            None
        }
    }

    /// The withdrawal of the account from the operator, if it has one.
    pub open spec fn withdrawal_of(self, operator_id: OperatorId, who: AccountId) -> Option<
        Withdrawal,
    > {
        if self.withdrawals_of(operator_id).contains_key(who) {
            Some(self.withdrawals_of(operator_id)[who])
        } else {
            None
        }
    }

    /// The ledger with `deposit` as the deposit of the account with the operator.
    pub open spec fn with_deposit(
        self,
        operator_id: OperatorId,
        who: AccountId,
        deposit: Deposit,
    ) -> StakingView {
        StakingView {
            deposits: self.deposits.insert(
                operator_id,
                self.deposits_of(operator_id).insert(who, deposit),
            ),
            nominators: self.nominators.insert(
                operator_id,
                if self.deposits_of(operator_id).contains_key(who) {
                    self.nominators_of(operator_id)
                } else {
                    self.nominators_of(operator_id).push(who)
                },
            ),
            ..self
        }
    }

    /// The ledger with `withdrawal` as the withdrawal of the account from the
    /// operator.
    pub open spec fn with_withdrawal(
        self,
        operator_id: OperatorId,
        who: AccountId,
        withdrawal: Withdrawal,
    ) -> StakingView {
        StakingView {
            withdrawals: self.withdrawals.insert(
                operator_id,
                self.withdrawals_of(operator_id).insert(who, withdrawal),
            ),
            ..self
        }
    }

    /// The ledger without a withdrawal of the account from the operator.
    pub open spec fn without_withdrawal(self, operator_id: OperatorId, who: AccountId) -> StakingView {
        if self.withdrawals.contains_key(operator_id) {
            StakingView {
                withdrawals: self.withdrawals.insert(
                    operator_id,
                    self.withdrawals[operator_id].remove(who),
                ),
                ..self
            }
        } else {
            self
        }
    }

    /// The index of the current epoch of the domain, if the domain has a staking
    /// summary.
    pub open spec fn current_epoch(self, domain_id: DomainId) -> Option<EpochIndex> {
        if self.domain_staking_summary.contains_key(domain_id) {
            Some(self.domain_staking_summary[domain_id].current_epoch_index)
        } else {
            None
        }
    }

    /// The share price of the operator at the end of the epoch of the domain, if it
    /// is on record.
    pub open spec fn share_price(
        self,
        operator_id: OperatorId,
        domain_id: DomainId,
        epoch_index: EpochIndex,
    ) -> Option<SharePrice> {
        if self.operator_epoch_share_price.contains_key((operator_id, domain_id, epoch_index)) {
            Some(self.operator_epoch_share_price[(operator_id, domain_id, epoch_index)])
        } else {
            None
        }
    }

    /// The number of nominators of the operator, zero where none is recorded.
    pub open spec fn nominators_count(self, operator_id: OperatorId) -> u32 {
        if self.nominator_count.contains_key(operator_id) {
            self.nominator_count[operator_id]
        } else {
            0
        }
    }

    /// The number of staking operations of the domain that wait for the end of the
    /// epoch, zero where none is recorded.
    pub open spec fn pending_operations(self, domain_id: DomainId) -> u32 {
        if self.pending_staking_operation_count.contains_key(domain_id) {
            self.pending_staking_operation_count[domain_id]
        } else {
            0
        }
    }
}

impl Staking {
    /// The frame of a change that touches neither summaries, pending slashes nor
    /// election parameters.
    proof fn lemma_same_summaries(&self, before: Staking)
        requires
            self.domain_staking_summary == before.domain_staking_summary,
            self.pending_slashes == before.pending_slashes,
            self.last_epoch_staking_distribution == before.last_epoch_staking_distribution,
        ensures
            self@.domain_staking_summary == before@.domain_staking_summary,
            self@.pending_slashes == before@.pending_slashes,
            self@.last_epoch_staking_distribution == before@.last_epoch_staking_distribution,
    {
    }

    /// The deposit of the account with the operator, if it has one.
    pub fn deposit_of(&self, operator_id: OperatorId, who: &AccountId) -> (deposit: Option<Deposit>)
        ensures
            deposit == self@.deposit_of(operator_id, *who),
    {
        match self.deposits.get(&operator_id) {
            Some(deposits) => match deposits.get(who) {
                Some(deposit) => Some(*deposit),
                None => None,
            },
            None => None,
        }
    }

    /// The withdrawal of the account from the operator, if it has one.
    pub fn withdrawal_of(&self, operator_id: OperatorId, who: &AccountId) -> (withdrawal: Option<
        Withdrawal,
    >)
        ensures
            withdrawal == self@.withdrawal_of(operator_id, *who),
    {
        match self.withdrawals.get(&operator_id) {
            Some(withdrawals) => match withdrawals.get(who) {
                Some(withdrawal) => Some(*withdrawal),
                None => None,
            },
            None => None,
        }
    }

    /// Records `deposit` as the deposit of the account with the operator.
    pub fn set_deposit(&mut self, operator_id: OperatorId, who: AccountId, deposit: Deposit)
        ensures
            final(self)@ == old(self)@.with_deposit(operator_id, who, deposit),
    {
        let mut deposits = match self.deposits.remove(&operator_id) {
            Some(deposits) => deposits,
            None => Table::new(),
        };
        let ghost before = deposits;
        let n = deposits.len();
        deposits.insert(who, deposit);
        let ghost after = deposits;
        self.deposits.insert(operator_id, deposits);
        proof {
            self.lemma_same_summaries(*old(self));
            assert(before@ =~= old(self)@.deposits_of(operator_id));
            assert(before.keys() =~= old(self)@.nominators_of(operator_id));
            assert(self@.deposits =~= old(self)@.deposits.insert(operator_id, after@));
            assert(self@.nominators =~= old(self)@.nominators.insert(operator_id, after.keys()));
        }
    }

    /// Records `withdrawal` as the withdrawal of the account from the operator.
    pub fn set_withdrawal(&mut self, operator_id: OperatorId, who: AccountId, withdrawal: Withdrawal)
        ensures
            final(self)@ == old(self)@.with_withdrawal(operator_id, who, withdrawal),
    {
        let mut withdrawals = match self.withdrawals.remove(&operator_id) {
            Some(withdrawals) => withdrawals,
            None => Table::new(),
        };
        let ghost before = withdrawals;
        withdrawals.insert(who, withdrawal);
        let ghost after = withdrawals;
        self.withdrawals.insert(operator_id, withdrawals);
        proof {
            self.lemma_same_summaries(*old(self));
            assert(before@ =~= old(self)@.withdrawals_of(operator_id));
            assert(self@.withdrawals =~= old(self)@.withdrawals.insert(operator_id, after@));
        }
    }

    /// Takes the withdrawal of the account from the operator off the record.
    pub fn remove_withdrawal(&mut self, operator_id: OperatorId, who: &AccountId)
        ensures
            final(self)@ == old(self)@.without_withdrawal(operator_id, *who),
    {
        let mut withdrawals = match self.withdrawals.remove(&operator_id) {
            Some(withdrawals) => withdrawals,
            None => {
                proof {
                    self.lemma_same_summaries(*old(self));
                    assert(self@.withdrawals =~= old(self)@.withdrawals);
                }
                return ;
            },
        };
        withdrawals.remove(who);
        let ghost after = withdrawals;
        self.withdrawals.insert(operator_id, withdrawals);
        proof {
            self.lemma_same_summaries(*old(self));
            assert(self@.withdrawals =~= old(self)@.withdrawals.insert(operator_id, after@));
        }
    }

    /// The index of the current epoch of the domain.
    pub fn current_epoch(&self, domain_id: DomainId) -> (epoch: Option<EpochIndex>)
        ensures
            epoch == self@.current_epoch(domain_id),
    {
        match self.domain_staking_summary.get(&domain_id) {
            Some(summary) => Some(summary.current_epoch_index),
            None => None,
        }
    }

    /// The share price of the operator at the end of the epoch of the domain.
    pub fn share_price(
        &self,
        operator_id: OperatorId,
        domain_id: DomainId,
        epoch_index: EpochIndex,
    ) -> (price: Option<SharePrice>)
        ensures
            price == self@.share_price(operator_id, domain_id, epoch_index),
    {
        match self.operator_epoch_share_price.get(&(operator_id, domain_id, epoch_index)) {
            Some(price) => Some(*price),
            None => None,
        }
    }

    /// The number of nominators of the operator.
    pub fn nominators_count(&self, operator_id: OperatorId) -> (count: u32)
        ensures
            count == self@.nominators_count(operator_id),
    {
        match self.nominator_count.get(&operator_id) {
            Some(count) => *count,
            None => 0,
        }
    }

    /// The number of staking operations of the domain that wait for the end of the
    /// epoch.
    pub fn pending_operations(&self, domain_id: DomainId) -> (count: u32)
        ensures
            count == self@.pending_operations(domain_id),
    {
        match self.pending_staking_operation_count.get(&domain_id) {
            Some(count) => *count,
            None => 0,
        }
    }
}

} // verus!
