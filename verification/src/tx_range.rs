//! Adaptive per-domain transaction range.
//!
//! At the end of every adjustment interval the range is scaled by the ratio of the
//! bundles that were produced to the bundles that were expected, and never by more
//! than a factor of four in either direction.

use crate::u256::{clamp_nat, u256_max, U256};
use vstd::prelude::*;

verus! {

/// The range that follows `cur` after an interval with `actual` bundles where
/// `expected` were due.
///
/// The range stays as it is where either count is zero, and where `cur * actual`
/// does not fit in 256 bits. Otherwise it is `cur * actual / expected`, held
/// between `cur / 4` and `cur * 4`.
pub open spec fn next_tx_range(cur: nat, actual: nat, expected: nat) -> nat {
    if actual == 0 || expected == 0 || cur * actual > u256_max() {
        cur
    } else {
        clamp_nat(cur * actual / expected, cur / 4, cur * 4)
    }
}

/// The next range is never below a quarter of the current one and never above four
/// times the current one, and it is the current one where either count is zero.
pub proof fn lemma_next_tx_range_bounds(cur: nat, actual: nat, expected: nat)
    ensures
        cur / 4 <= next_tx_range(cur, actual, expected) <= cur * 4,
        actual == 0 || expected == 0 ==> next_tx_range(cur, actual, expected) == cur,
{
}

/// The next range of a 256-bit range is a 256-bit range.
pub proof fn lemma_next_tx_range_fits(cur: nat, actual: nat, expected: nat)
    requires
        cur <= u256_max(),
    ensures
        next_tx_range(cur, actual, expected) <= u256_max(),
{
    if !(actual == 0 || expected == 0 || cur * actual > u256_max()) {
        let product: nat = cur * actual;
        assert(product / expected <= product) by (nonlinear_arith)
            requires
                expected > 0,
        ;
    }
}

/// Calculates the new transaction range from the bundles produced during an interval.
pub fn calculate_tx_range(
    cur_tx_range: U256,
    actual_bundle_count: u64,
    expected_bundle_count: u64,
) -> (new_tx_range: U256)
    ensures
        new_tx_range@ == next_tx_range(
            cur_tx_range@,
            actual_bundle_count as nat,
            expected_bundle_count as nat,
        ),
        cur_tx_range@ / 4 <= new_tx_range@ <= cur_tx_range@ * 4,
        actual_bundle_count == 0 || expected_bundle_count == 0 ==> new_tx_range == cur_tx_range,
{
    if actual_bundle_count == 0 || expected_bundle_count == 0 {
        return cur_tx_range;
    }
    let scaled = match U256::from_u64(actual_bundle_count).checked_mul(cur_tx_range) {
        Some(product) => product,
        None => {
            assert(cur_tx_range@ * (actual_bundle_count as nat) == (actual_bundle_count as nat)
                * cur_tx_range@) by (nonlinear_arith);
            return cur_tx_range;
        },
    };
    assert(cur_tx_range@ * (actual_bundle_count as nat) == (actual_bundle_count as nat)
        * cur_tx_range@) by (nonlinear_arith);
    let target = match scaled.checked_div(U256::from_u64(expected_bundle_count)) {
        Some(quotient) => quotient,
        None => {
            return cur_tx_range;
        },
    };
    let upper_bound = cur_tx_range.saturating_mul(U256::from_u64(4));
    let lower_bound = match cur_tx_range.checked_div(U256::from_u64(4)) {
        Some(quotient) => quotient,
        None => {
            return cur_tx_range;
        },
    };
    proof {
        crate::u256::lemma_u256_view_bound(target);
    }
    target.clamp(lower_bound, upper_bound)
}

/// Per-domain state of the transaction-range controller.
#[derive(Debug, PartialEq, Eq, Structural, Clone, Copy)]
pub struct TxRangeState {
    /// Current transaction range.
    pub tx_range: U256,
    /// Blocks in the current adjustment interval.
    pub interval_blocks: u64,
    /// Bundles in the current adjustment interval.
    pub interval_bundles: u64,
}

impl Default for TxRangeState {
    fn default() -> (state: TxRangeState)
        ensures
            state.tx_range@ == 0,
            state.interval_blocks == 0,
            state.interval_bundles == 0,
    {
        TxRangeState { tx_range: U256::zero(), interval_blocks: 0, interval_bundles: 0 }
    }
}

impl TxRangeState {
    /// Called when a bundle is added to the current block.
    pub fn on_bundle(&mut self)
        requires
            old(self).interval_bundles < u64::MAX,
        ensures
            final(self).interval_bundles == old(self).interval_bundles + 1,
            final(self).interval_blocks == old(self).interval_blocks,
            final(self).tx_range == old(self).tx_range,
    {
        self.interval_bundles = self.interval_bundles + 1;
    }

    /// Whether `next` is the state one block after `self`, with an adjustment interval
    /// of `adjustment_interval` blocks and `target_bundles_per_block` bundles due in
    /// each block.
    ///
    /// Inside an interval only the block count moves. At the end of an interval the
    /// range is recalculated and both counts start over.
    pub open spec fn block_step(
        self,
        next: TxRangeState,
        adjustment_interval: u64,
        target_bundles_per_block: u32,
    ) -> bool {
        if self.interval_blocks + 1 < adjustment_interval {
            &&& next.tx_range == self.tx_range
            &&& next.interval_blocks == self.interval_blocks + 1
            &&& next.interval_bundles == self.interval_bundles
        } else {
            &&& next.tx_range@ == next_tx_range(
                self.tx_range@,
                self.interval_bundles as nat,
                (adjustment_interval * target_bundles_per_block) as nat,
            )
            &&& next.interval_blocks == 0
            &&& next.interval_bundles == 0
        }
    }

    /// Called once per block for a domain: counts the block and, at the end of an
    /// adjustment interval, recalculates the range.
    pub fn on_block(&mut self, adjustment_interval: u64, target_bundles_per_block: u32)
        requires
            old(self).interval_blocks < u64::MAX,
            adjustment_interval * target_bundles_per_block <= u64::MAX,
        ensures
            old(self).block_step(*final(self), adjustment_interval, target_bundles_per_block),
    {
        self.interval_blocks = self.interval_blocks + 1;
        if self.interval_blocks < adjustment_interval {
            return ;
        }
        let expected_bundle_count: u64 = adjustment_interval * (target_bundles_per_block as u64);
        let new_tx_range = calculate_tx_range(
            self.tx_range,
            self.interval_bundles,
            expected_bundle_count,
        );
        self.tx_range = new_tx_range;
        self.interval_blocks = 0;
        self.interval_bundles = 0;
    }
}

} // verus!
