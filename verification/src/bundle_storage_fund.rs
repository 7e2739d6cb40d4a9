//! The storage fund of each operator: the escrow that pays for storing its bundles.

use crate::primitives::{Balance, OperatorId};
use crate::staking::{add_saturating, saturating_balance_sum};
use crate::table::Table;
use crate::u256::U256;
use vstd::prelude::*;

verus! {

/// What can go wrong in the storage funds.
#[derive(Clone, Copy, Debug, PartialEq, Eq, Structural)]
pub enum Error {
    /// The fund of the operator cannot pay the storage fee of the bundle.
    BundleStorageFeePayment,
}

/// The storage funds.
pub struct BundleStorageFund {
    /// What is in the fund of each operator.
    pub funds: Table<OperatorId, Balance>,
    /// The fee for storing one byte of a bundle.
    pub storage_fee_per_byte: Balance,
    /// The storage fees that were charged and are owed to the authors of the
    /// consensus blocks.
    pub noted_storage_fees: Balance,
}

/// The storage funds as a value.
pub struct BundleStorageFundView {
    pub funds: Map<OperatorId, Balance>,
    pub storage_fee_per_byte: Balance,
    pub noted_storage_fees: Balance,
}

impl View for BundleStorageFund {
    type V = BundleStorageFundView;

    open spec fn view(&self) -> BundleStorageFundView {
        BundleStorageFundView {
            funds: self.funds@,
            storage_fee_per_byte: self.storage_fee_per_byte,
            noted_storage_fees: self.noted_storage_fees,
        }
    }
}

/// The part of `total` that falls to `size` out of `total_size`, rounded down:
/// nothing where `total_size` is zero.
pub open spec fn fee_share(total: Balance, size: u32, total_size: u64) -> Balance {
    if total_size == 0 || size > total_size {
        0
    } else {
        (total * size / (total_size as int)) as u128
    }
}

/// The sizes of the first `k` of `paid`, summed up and held at the largest 64-bit
/// number.
pub open spec fn paid_size(paid: Seq<(OperatorId, u32)>, k: int) -> u64
    decreases k,
{
    if k <= 0 {
        0
    } else {
        crate::primitives::saturating_sum(paid_size(paid, k - 1), paid[k - 1].1 as u64)
    }
}

impl BundleStorageFundView {
    /// What is in the fund of the operator, zero where it has none.
    pub open spec fn balance(self, operator_id: OperatorId) -> Balance {
        if self.funds.contains_key(operator_id) {
            self.funds[operator_id]
        } else {
            0
        }
    }

    /// The fee for storing a bundle of `bundle_size` bytes.
    pub open spec fn storage_fee(self, bundle_size: u32) -> int {
        self.storage_fee_per_byte * bundle_size
    }

    /// Whether the fund of the operator can pay for a bundle of `bundle_size` bytes.
    /// A bundle without bytes costs nothing.
    pub open spec fn can_charge(self, operator_id: OperatorId, bundle_size: u32) -> bool {
        bundle_size == 0 || self.storage_fee(bundle_size) <= self.balance(operator_id)
    }

    /// The funds after the operator paid for a bundle of `bundle_size` bytes: the
    /// fee left its fund and is noted.
    pub open spec fn after_charge(
        self,
        operator_id: OperatorId,
        bundle_size: u32,
    ) -> BundleStorageFundView {
        if bundle_size == 0 {
            self
        } else {
            let fee = self.storage_fee(bundle_size) as u128;
            BundleStorageFundView {
                funds: self.funds.insert(operator_id, (self.balance(operator_id) - fee) as u128),
                noted_storage_fees: saturating_balance_sum(self.noted_storage_fees, fee),
                ..self
            }
        }
    }

    /// The funds with `amount` more in the fund of the operator, held at the largest
    /// balance.
    pub open spec fn with_deposit(
        self,
        operator_id: OperatorId,
        amount: Balance,
    ) -> BundleStorageFundView {
        BundleStorageFundView {
            funds: self.funds.insert(
                operator_id,
                saturating_balance_sum(self.balance(operator_id), amount),
            ),
            ..self
        }
    }
}

impl BundleStorageFund {
    /// Storage funds without any fund.
    pub fn new(storage_fee_per_byte: Balance) -> (fund: BundleStorageFund)
        ensures
            fund@.funds == Map::<OperatorId, Balance>::empty(),
            fund@.storage_fee_per_byte == storage_fee_per_byte,
            fund@.noted_storage_fees == 0,
    {
        BundleStorageFund { funds: Table::new(), storage_fee_per_byte, noted_storage_fees: 0 }
    }

    /// What is in the fund of the operator.
    pub fn storage_fund_account_balance(&self, operator_id: OperatorId) -> (balance: Balance)
        ensures
            balance == self@.balance(operator_id),
    {
        match self.funds.get(&operator_id) {
            Some(balance) => *balance,
            None => 0,
        }
    }

    /// Whether the fund of the operator can pay for a bundle of `bundle_size` bytes.
    pub fn can_charge(&self, operator_id: OperatorId, bundle_size: u32) -> (r: bool)
        ensures
            r == self@.can_charge(operator_id, bundle_size),
    {
        if bundle_size == 0 {
            return true;
        }
        match self.storage_fee_per_byte.checked_mul(bundle_size as u128) {
            Some(fee) => fee <= self.storage_fund_account_balance(operator_id),
            None => false,
        }
    }

    /// Charges the fund of the operator for a bundle of `bundle_size` bytes. Nothing
    /// is changed where the fund cannot pay.
    pub fn charge_bundle_storage_fee(&mut self, operator_id: OperatorId, bundle_size: u32) -> (result:
        Result<(), Error>)
        ensures
            match result {
                Ok(()) => old(self)@.can_charge(operator_id, bundle_size) && final(self)@ == old(
                    self,
                )@.after_charge(operator_id, bundle_size),
                Err(e) => e == Error::BundleStorageFeePayment && !old(self)@.can_charge(
                    operator_id,
                    bundle_size,
                ) && final(self)@ == old(self)@,
            },
    {
        if bundle_size == 0 {
            return Ok(());
        }
        let fee = match self.storage_fee_per_byte.checked_mul(bundle_size as u128) {
            Some(fee) => fee,
            None => {
                return Err(Error::BundleStorageFeePayment);
            },
        };
        let balance = self.storage_fund_account_balance(operator_id);
        if fee > balance {
            return Err(Error::BundleStorageFeePayment);
        }
        self.funds.insert(operator_id, balance - fee);
        self.noted_storage_fees = add_saturating(self.noted_storage_fees, fee);
        Ok(())
    }

    /// Takes the fund of the operator off the record and hands back what was in it.
    pub fn close(&mut self, operator_id: OperatorId) -> (balance: Balance)
        ensures
            balance == old(self)@.balance(operator_id),
            final(self)@ == (BundleStorageFundView {
                funds: old(self)@.funds.remove(operator_id),
                ..old(self)@
            }),
    {
        match self.funds.remove(&operator_id) {
            Some(balance) => balance,
            None => 0,
        }
    }

    /// Puts `amount` into the fund of the operator.
    pub fn deposit(&mut self, operator_id: OperatorId, amount: Balance)
        ensures
            final(self)@ == old(self)@.with_deposit(operator_id, amount),
    {
        let balance = self.storage_fund_account_balance(operator_id);
        self.funds.insert(operator_id, add_saturating(balance, amount));
    }
}

/// The sizes of `paid`, summed up and held at the largest 64-bit number.
pub fn total_paid_size(paid: &Vec<(OperatorId, u32)>) -> (total: u64)
    ensures
        total == paid_size(paid@, paid@.len() as int),
{
    let mut total: u64 = 0;
    let mut i: usize = 0;
    while i < paid.len()
        invariant
            i <= paid@.len(),
            total == paid_size(paid@, i as int),
        decreases paid@.len() - i,
    {
        total = crate::primitives::add_saturating(total, paid[i].1 as u64);
        i = i + 1;
    }
    total
}

/// The part of `total` that falls to `size` out of `total_size`, rounded down.
pub fn share_of_fee(total: Balance, size: u32, total_size: u64) -> (share: Balance)
    ensures
        share == fee_share(total, size, total_size),
{
    if total_size == 0 || (size as u64) > total_size {
        return 0;
    }
    assert(total * size <= crate::u256::u256_max()) by (nonlinear_arith)
        requires
            total <= u128::MAX,
            size <= u32::MAX,
    ;
    assert(total * size / (total_size as int) <= total) by (nonlinear_arith)
        requires
            0 < total_size,
            0 <= size <= total_size,
            0 <= total,
    ;
    let product = U256::from_u128(total).checked_mul(U256::from_u64(size as u64));
    let quotient = match product {
        Some(p) => p.checked_div(U256::from_u64(total_size)),
        None => None,
    };
    match quotient {
        Some(q) => match q.to_u128() {
            Some(share) => share,
            None => 0,
        },
        None => 0,
    }
}

} // verus!
