//! The constants of the chain and the weights of its calls.

use crate::primitives::{
    add_saturating, saturating_sum, AccountId, Balance, BlockNumber, DomainBlockNumber, Weight,
};
use vstd::prelude::*;

verus! {

/// The most bundles of one domain that a consensus block is taken to hold when the
/// weight of a call is bounded.
pub const MAX_BUNLDE_PER_BLOCK: u32 = 100;

/// The product of two 64-bit numbers, held at the largest 64-bit number.
pub open spec fn saturating_product(a: u64, b: u64) -> u64 {
    if a * b > u64::MAX {
        u64::MAX
    } else {
        (a * b) as u64
    }
}

/// The product of two 64-bit numbers, held at the largest 64-bit number.
pub fn mul_saturating(a: u64, b: u64) -> (product: u64)
    ensures
        product == saturating_product(a, b),
{
    match a.checked_mul(b) {
        Some(product) => product,
        None => u64::MAX,
    }
}

/// A weight that grows with a count: a base, and so much for each item.
#[derive(Clone, Copy, Debug, PartialEq, Eq, Structural)]
pub struct LinearWeight {
    pub base: Weight,
    pub per_item: Weight,
}

impl LinearWeight {
    /// The weight for `n` items. Every sum and product is held at the largest value.
    pub open spec fn spec_at(self, n: u32) -> Weight {
        Weight {
            ref_time: saturating_sum(
                self.base.ref_time,
                saturating_product(self.per_item.ref_time, n as u64),
            ),
            proof_size: saturating_sum(
                self.base.proof_size,
                saturating_product(self.per_item.proof_size, n as u64),
            ),
        }
    }

    /// The weight for `n` items.
    pub fn at(&self, n: u32) -> (weight: Weight)
        ensures
            weight == self.spec_at(n),
    {
        Weight {
            ref_time: add_saturating(
                self.base.ref_time,
                mul_saturating(self.per_item.ref_time, n as u64),
            ),
            proof_size: add_saturating(
                self.base.proof_size,
                mul_saturating(self.per_item.proof_size, n as u64),
            ),
        }
    }
}

/// The weight of confirming a domain block: a base, so much for each operator that
/// submitted the receipt, and so much for each author of an invalid bundle.
#[derive(Clone, Copy, Debug, PartialEq, Eq, Structural)]
pub struct ConfirmWeight {
    pub base: Weight,
    pub per_operator: Weight,
    pub per_invalid_bundle_author: Weight,
}

impl ConfirmWeight {
    /// The weight for `operators` submitters and `authors` authors of invalid
    /// bundles.
    pub open spec fn spec_at(self, operators: u32, authors: u32) -> Weight {
        (LinearWeight { base: self.base, per_item: self.per_operator }).spec_at(
            operators,
        ).spec_saturating_add(
            (LinearWeight {
                base: Weight { ref_time: 0, proof_size: 0 },
                per_item: self.per_invalid_bundle_author,
            }).spec_at(authors),
        )
    }

    /// The weight for `operators` submitters and `authors` authors of invalid
    /// bundles.
    pub fn at(&self, operators: u32, authors: u32) -> (weight: Weight)
        ensures
            weight == self.spec_at(operators, authors),
    {
        let for_operators = LinearWeight { base: self.base, per_item: self.per_operator };
        let for_authors = LinearWeight {
            base: Weight::zero(),
            per_item: self.per_invalid_bundle_author,
        };
        for_operators.at(operators).saturating_add(for_authors.at(authors))
    }
}

/// The weight of each call whose weight goes by what it does, and of each step that
/// such a call may take.
#[derive(Clone, Copy, Debug, PartialEq, Eq, Structural)]
pub struct WeightInfo {
    pub submit_bundle: Weight,
    pub submit_fraud_proof: Weight,
    /// Pruning a bad receipt and slashing its submitters, by their number.
    pub handle_bad_receipt: LinearWeight,
    pub confirm_domain_block: ConfirmWeight,
    /// Sharing out the rewards of an epoch, by the number of rewarded operators.
    pub operator_reward_tax_and_restake: LinearWeight,
    /// Slashing operators for good, by the number of their nominators.
    pub finalize_slashed_operators: LinearWeight,
    /// Settling the stake of an epoch, by the number of operators.
    pub finalize_domain_epoch_staking: LinearWeight,
    /// Unlocking an operator, by the number of its nominators.
    pub unlock_operator: LinearWeight,
}

/// The constants of the chain.
#[derive(Clone, Copy, Debug, PartialEq, Eq)]
pub struct Config {
    /// The depth at which a consensus block is taken to be final.
    pub confirmation_depth_k: BlockNumber,
    /// The delay before a scheduled runtime upgrade is applied.
    pub domain_runtime_upgrade_delay: BlockNumber,
    /// How far behind the head of the block tree a domain block is confirmed.
    pub block_tree_pruning_depth: DomainBlockNumber,
    /// The probability of a slot of the consensus chain, as a fraction.
    pub consensus_slot_probability: (u64, u64),
    pub max_domain_block_size: u32,
    pub max_domain_block_weight: Weight,
    pub max_bundles_per_block: u32,
    pub max_domain_name_length: u32,
    /// What the creator of a domain locks up.
    pub domain_instantiation_deposit: Balance,
    /// The first transaction range of a domain is the largest 256-bit number
    /// divided by this.
    pub initial_domain_tx_range: u64,
    /// The number of blocks after which the transaction range is adjusted.
    pub domain_tx_range_adjustment_interval: u64,
    pub min_operator_stake: Balance,
    pub min_nominator_stake: Balance,
    /// The number of domain blocks for which a withdrawal stays locked.
    pub stake_withdrawal_locking_period: DomainBlockNumber,
    /// The number of domain blocks of a staking epoch.
    pub stake_epoch_duration: DomainBlockNumber,
    pub treasury_account: AccountId,
    pub max_pending_staking_operation: u32,
    pub max_nominators: u32,
    /// The most accounts of a domain that may start with a balance.
    pub max_initial_domain_accounts: u32,
    /// The least balance that an account of a domain may start with.
    pub min_initial_domain_account_balance: Balance,
    /// The number of consensus blocks for which a bundle stays valid.
    pub bundle_longevity: u32,
    /// The part of each deposit that goes to the storage fund of the operator, in
    /// hundredths.
    pub storage_fee_reserve: u8,
    pub weights: WeightInfo,
}

impl Config {
    /// The largest weight that a staking epoch transition may take.
    pub open spec fn spec_max_staking_epoch_transition(self) -> Weight {
        self.weights.operator_reward_tax_and_restake.spec_at(
            MAX_BUNLDE_PER_BLOCK,
        ).spec_saturating_add(
            self.weights.finalize_slashed_operators.spec_at(self.max_nominators),
        ).spec_saturating_add(
            self.weights.finalize_domain_epoch_staking.spec_at(self.max_pending_staking_operation),
        )
    }

    /// The largest weight that submitting a bundle may take: the call itself, the
    /// heavier of handling a bad receipt and confirming a domain block, and one
    /// staking epoch transition.
    pub open spec fn spec_max_submit_bundle_weight(self) -> Weight {
        self.weights.submit_bundle.spec_saturating_add(
            self.weights.handle_bad_receipt.spec_at(self.max_nominators).spec_max(
                self.weights.confirm_domain_block.spec_at(MAX_BUNLDE_PER_BLOCK, MAX_BUNLDE_PER_BLOCK),
            ),
        ).spec_saturating_add(self.spec_max_staking_epoch_transition())
    }

    /// The largest weight that a staking epoch transition may take.
    pub fn max_staking_epoch_transition(&self) -> (weight: Weight)
        ensures
            weight == self.spec_max_staking_epoch_transition(),
    {
        self.weights.operator_reward_tax_and_restake.at(MAX_BUNLDE_PER_BLOCK).saturating_add(
            self.weights.finalize_slashed_operators.at(self.max_nominators),
        ).saturating_add(
            self.weights.finalize_domain_epoch_staking.at(self.max_pending_staking_operation),
        )
    }

    /// The largest weight that submitting a bundle may take.
    pub fn max_submit_bundle_weight(&self) -> (weight: Weight)
        ensures
            weight == self.spec_max_submit_bundle_weight(),
    {
        self.weights.submit_bundle.saturating_add(
            self.weights.handle_bad_receipt.at(self.max_nominators).max(
                self.weights.confirm_domain_block.at(MAX_BUNLDE_PER_BLOCK, MAX_BUNLDE_PER_BLOCK),
            ),
        ).saturating_add(self.max_staking_epoch_transition())
    }
}

} // verus!
