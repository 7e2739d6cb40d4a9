//! The ledger of balances: what each account can spend, and what is held of it
//! under each hold.

use crate::primitives::{AccountId, Balance, DomainId, OperatorId};
use crate::table::{Table, TableKey};
use vstd::prelude::*;

verus! {

/// The purposes for which funds of an account are held.
#[derive(Clone, Copy, Debug, PartialEq, Eq, Structural)]
pub enum HoldIdentifier {
    /// Staked with the operator.
    StakingStaked(OperatorId),
    /// Locked up by the creator of the domain.
    DomainInstantiation(DomainId),
    /// Withdrawn from the storage fund of the operator and not yet unlocked.
    StorageFundWithdrawal(OperatorId),
}

impl HoldIdentifier {
    /// The hold for funds staked with the operator.
    pub fn staking_staked(operator_id: OperatorId) -> (id: HoldIdentifier)
        ensures
            id == HoldIdentifier::StakingStaked(operator_id),
    {
        HoldIdentifier::StakingStaked(operator_id)
    }

    /// The hold for the funds that the creator of the domain locks up.
    pub fn domain_instantiation_id(domain_id: DomainId) -> (id: HoldIdentifier)
        ensures
            id == HoldIdentifier::DomainInstantiation(domain_id),
    {
        HoldIdentifier::DomainInstantiation(domain_id)
    }

    /// The hold for funds withdrawn from the storage fund of the operator.
    pub fn storage_fund_withdrawal(operator_id: OperatorId) -> (id: HoldIdentifier)
        ensures
            id == HoldIdentifier::StorageFundWithdrawal(operator_id),
    {
        HoldIdentifier::StorageFundWithdrawal(operator_id)
    }
}

/// An account and a purpose: the key under which held funds are recorded.
#[derive(Clone, Copy, Debug, PartialEq, Eq, Structural)]
pub struct HoldKey {
    pub account: AccountId,
    pub reason: HoldIdentifier,
}

impl TableKey for HoldKey {
    fn same(&self, other: &Self) -> (r: bool) {
        self.account.same_hash(&other.account) && match (self.reason, other.reason) {
            (HoldIdentifier::StakingStaked(a), HoldIdentifier::StakingStaked(b)) => a == b,
            (HoldIdentifier::DomainInstantiation(a), HoldIdentifier::DomainInstantiation(b)) => a
                == b,
            (HoldIdentifier::StorageFundWithdrawal(a), HoldIdentifier::StorageFundWithdrawal(b)) => a
                == b,
            _ => false,
        }
    }
}

/// The ledger.
pub struct Currency {
    /// What each account can spend.
    pub free: Table<AccountId, Balance>,
    /// What is held of each account under each hold.
    pub held: Table<HoldKey, Balance>,
}

/// The ledger as a value.
pub struct CurrencyView {
    pub free: Map<AccountId, Balance>,
    pub held: Map<HoldKey, Balance>,
}

impl View for Currency {
    type V = CurrencyView;

    open spec fn view(&self) -> CurrencyView {
        CurrencyView { free: self.free@, held: self.held@ }
    }
}

impl CurrencyView {
    /// The ledger without any account.
    pub open spec fn empty() -> CurrencyView {
        CurrencyView { free: Map::empty(), held: Map::empty() }
    }

    /// What the account can spend, zero where the ledger does not know it.
    pub open spec fn balance(self, who: AccountId) -> Balance {
        if self.free.contains_key(who) {
            self.free[who]
        } else {
            0
        }
    }

    /// What is held of the account under the hold, zero where nothing is recorded.
    pub open spec fn balance_on_hold(self, reason: HoldIdentifier, who: AccountId) -> Balance {
        let key = HoldKey { account: who, reason };
        if self.held.contains_key(key) {
            self.held[key]
        } else {
            0
        }
    }

    /// The ledger with `amount` less in the account.
    pub open spec fn with_withdrawal(self, who: AccountId, amount: Balance) -> CurrencyView {
        CurrencyView { free: self.free.insert(who, (self.balance(who) - amount) as u128), ..self }
    }

    /// The ledger with `amount` more in the account, held at the largest balance.
    pub open spec fn with_mint(self, who: AccountId, amount: Balance) -> CurrencyView {
        CurrencyView {
            free: self.free.insert(
                who,
                if self.balance(who) + amount > u128::MAX {
                    u128::MAX
                } else {
                    (self.balance(who) + amount) as u128
                },
            ),
            ..self
        }
    }

    /// The ledger after `amount` of what the account `from` can spend is put on hold
    /// on the account `on`.
    pub open spec fn with_stake_taken(
        self,
        from: AccountId,
        reason: HoldIdentifier,
        on: AccountId,
        amount: Balance,
    ) -> CurrencyView {
        CurrencyView {
            free: self.free.insert(from, (self.balance(from) - amount) as u128),
            held: self.held.insert(
                HoldKey { account: on, reason },
                (self.balance_on_hold(reason, on) + amount) as u128,
            ),
        }
    }

    /// The ledger after `amount` of what is held of the account `on` is handed to the
    /// account `to` to spend. What `to` can spend is held at the largest balance.
    pub open spec fn with_stake_paid(
        self,
        reason: HoldIdentifier,
        on: AccountId,
        to: AccountId,
        amount: Balance,
    ) -> CurrencyView {
        CurrencyView {
            free: self.with_mint(to, amount).free,
            held: self.held.insert(
                HoldKey { account: on, reason },
                (self.balance_on_hold(reason, on) - amount) as u128,
            ),
        }
    }

    /// The ledger after the hold is slashed: what was held of the account under the
    /// hold is in the account `to`, held at the largest balance.
    pub open spec fn with_slash(
        self,
        reason: HoldIdentifier,
        who: AccountId,
        to: AccountId,
    ) -> CurrencyView {
        CurrencyView {
            free: self.with_mint(to, self.balance_on_hold(reason, who)).free,
            held: self.held.insert(HoldKey { account: who, reason }, 0),
        }
    }

    /// The ledger with `amount` more held of the account under the hold, held at the
    /// largest balance.
    pub open spec fn with_mint_on_hold(
        self,
        reason: HoldIdentifier,
        who: AccountId,
        amount: Balance,
    ) -> CurrencyView {
        CurrencyView {
            held: self.held.insert(
                HoldKey { account: who, reason },
                if self.balance_on_hold(reason, who) + amount > u128::MAX {
                    u128::MAX
                } else {
                    (self.balance_on_hold(reason, who) + amount) as u128
                },
            ),
            ..self
        }
    }

    /// Whether `amount` of what the account can spend can be put on hold.
    pub open spec fn can_hold(self, reason: HoldIdentifier, who: AccountId, amount: Balance) -> bool {
        self.balance(who) >= amount && self.balance_on_hold(reason, who) + amount <= u128::MAX
    }

    /// The ledger with `amount` moved from what the account can spend to the hold.
    pub open spec fn with_hold(
        self,
        reason: HoldIdentifier,
        who: AccountId,
        amount: Balance,
    ) -> CurrencyView {
        CurrencyView {
            free: self.free.insert(who, (self.balance(who) - amount) as u128),
            held: self.held.insert(
                HoldKey { account: who, reason },
                (self.balance_on_hold(reason, who) + amount) as u128,
            ),
        }
    }

    /// Whether `amount` can be released from the hold to the account.
    pub open spec fn can_release(
        self,
        reason: HoldIdentifier,
        who: AccountId,
        amount: Balance,
    ) -> bool {
        self.balance_on_hold(reason, who) >= amount && self.balance(who) + amount <= u128::MAX
    }

    /// The ledger with `amount` moved from the hold to what the account can spend.
    pub open spec fn with_release(
        self,
        reason: HoldIdentifier,
        who: AccountId,
        amount: Balance,
    ) -> CurrencyView {
        CurrencyView {
            free: self.free.insert(who, (self.balance(who) + amount) as u128),
            held: self.held.insert(
                HoldKey { account: who, reason },
                (self.balance_on_hold(reason, who) - amount) as u128,
            ),
        }
    }

}

impl Currency {
    /// A ledger without any account.
    pub fn new() -> (ledger: Currency)
        ensures
            ledger@ == CurrencyView::empty(),
    {
        Currency { free: Table::new(), held: Table::new() }
    }

    /// What the account can spend.
    pub fn balance(&self, who: &AccountId) -> (amount: Balance)
        ensures
            amount == self@.balance(*who),
    {
        match self.free.get(who) {
            Some(amount) => *amount,
            None => 0,
        }
    }

    /// What is held of the account under the hold.
    pub fn balance_on_hold(&self, reason: HoldIdentifier, who: &AccountId) -> (amount: Balance)
        ensures
            amount == self@.balance_on_hold(reason, *who),
    {
        match self.held.get(&HoldKey { account: *who, reason }) {
            Some(amount) => *amount,
            None => 0,
        }
    }

    /// Creates `amount` in the account. The balance is held at the largest balance.
    pub fn mint_into(&mut self, who: &AccountId, amount: Balance)
        ensures
            final(self)@ == old(self)@.with_mint(*who, amount),
    {
        let balance = self.balance(who);
        let sum = if balance > u128::MAX - amount {
            u128::MAX
        } else {
            balance + amount
        };
        self.free.insert(*who, sum);
    }

    /// Puts `amount` of what the account `from` can spend on hold on the account `on`.
    pub fn take_on_hold(
        &mut self,
        from: &AccountId,
        reason: HoldIdentifier,
        on: &AccountId,
        amount: Balance,
    )
        requires
            old(self)@.balance(*from) >= amount,
            old(self)@.balance_on_hold(reason, *on) + amount <= u128::MAX,
        ensures
            final(self)@ == old(self)@.with_stake_taken(*from, reason, *on, amount),
    {
        let balance = self.balance(from);
        let held = self.balance_on_hold(reason, on);
        self.free.insert(*from, balance - amount);
        self.held.insert(HoldKey { account: *on, reason }, held + amount);
    }

    /// Hands `amount` of what is held of the account `on` to the account `to` to
    /// spend.
    pub fn pay_from_hold(
        &mut self,
        reason: HoldIdentifier,
        on: &AccountId,
        to: &AccountId,
        amount: Balance,
    )
        requires
            old(self)@.balance_on_hold(reason, *on) >= amount,
        ensures
            final(self)@ == old(self)@.with_stake_paid(reason, *on, *to, amount),
    {
        let held = self.balance_on_hold(reason, on);
        self.mint_into(to, amount);
        self.held.insert(HoldKey { account: *on, reason }, held - amount);
    }

    /// Slashes the hold: hands what is held of the account under the hold to `to`.
    pub fn slash_hold(&mut self, reason: HoldIdentifier, who: &AccountId, to: &AccountId)
        ensures
            final(self)@ == old(self)@.with_slash(reason, *who, *to),
    {
        let held = self.balance_on_hold(reason, who);
        self.mint_into(to, held);
        self.held.insert(HoldKey { account: *who, reason }, 0);
    }

    /// Creates `amount` under the hold on the account. What is held is held at the
    /// largest balance.
    pub fn mint_on_hold(&mut self, reason: HoldIdentifier, who: &AccountId, amount: Balance)
        ensures
            final(self)@ == old(self)@.with_mint_on_hold(reason, *who, amount),
    {
        let held = self.balance_on_hold(reason, who);
        let sum = if held > u128::MAX - amount {
            u128::MAX
        } else {
            held + amount
        };
        self.held.insert(HoldKey { account: *who, reason }, sum);
    }

    /// Takes `amount` out of the account.
    pub fn withdraw(&mut self, who: &AccountId, amount: Balance)
        requires
            old(self)@.balance(*who) >= amount,
        ensures
            final(self)@ == old(self)@.with_withdrawal(*who, amount),
    {
        let balance = self.balance(who);
        self.free.insert(*who, balance - amount);
    }

    /// Whether `amount` of what the account can spend can be put on hold.
    pub fn can_hold(&self, reason: HoldIdentifier, who: &AccountId, amount: Balance) -> (r: bool)
        ensures
            r == self@.can_hold(reason, *who, amount),
    {
        self.balance(who) >= amount && self.balance_on_hold(reason, who) <= u128::MAX - amount
    }

    /// Moves `amount` from what the account can spend to the hold.
    pub fn hold(&mut self, reason: HoldIdentifier, who: &AccountId, amount: Balance)
        requires
            old(self)@.can_hold(reason, *who, amount),
        ensures
            final(self)@ == old(self)@.with_hold(reason, *who, amount),
    {
        let balance = self.balance(who);
        let held = self.balance_on_hold(reason, who);
        self.free.insert(*who, balance - amount);
        self.held.insert(HoldKey { account: *who, reason }, held + amount);
    }

    /// Whether `amount` can be released from the hold to the account.
    pub fn can_release(&self, reason: HoldIdentifier, who: &AccountId, amount: Balance) -> (r: bool)
        ensures
            r == self@.can_release(reason, *who, amount),
    {
        self.balance_on_hold(reason, who) >= amount && self.balance(who) <= u128::MAX - amount
    }

    /// Moves `amount` from the hold to what the account can spend.
    pub fn release(&mut self, reason: HoldIdentifier, who: &AccountId, amount: Balance)
        requires
            old(self)@.can_release(reason, *who, amount),
        ensures
            final(self)@ == old(self)@.with_release(reason, *who, amount),
    {
        let balance = self.balance(who);
        let held = self.balance_on_hold(reason, who);
        self.free.insert(*who, balance + amount);
        self.held.insert(HoldKey { account: *who, reason }, held - amount);
    }

}

} // verus!
