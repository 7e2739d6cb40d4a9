//! What the calls tell the subscribers of the chain.

use crate::primitives::{
    AccountId, Balance, BlockNumber, DomainBlockNumber, DomainId, EpochIndex, OperatorId,
    RuntimeId, H256,
};
use crate::registry::RuntimeType;
use crate::staking::SlashedReason;
use vstd::prelude::*;

verus! {

/// An event.
#[derive(Clone, Copy, Debug, PartialEq, Eq, Structural)]
pub enum Event {
    /// A bundle was stored.
    BundleStored { domain_id: DomainId, bundle_hash: H256, bundle_author: OperatorId },
    DomainRuntimeCreated { runtime_id: RuntimeId, runtime_type: RuntimeType },
    DomainRuntimeUpgradeScheduled { runtime_id: RuntimeId, scheduled_at: BlockNumber },
    DomainRuntimeUpgraded { runtime_id: RuntimeId },
    OperatorRegistered { operator_id: OperatorId, domain_id: DomainId },
    OperatorNominated { operator_id: OperatorId, nominator_id: AccountId },
    DomainInstantiated { domain_id: DomainId },
    OperatorSwitchedDomain { old_domain_id: DomainId, new_domain_id: DomainId },
    OperatorDeregistered { operator_id: OperatorId },
    OperatorUnlocked { operator_id: OperatorId },
    WithdrewStake { operator_id: OperatorId, nominator_id: AccountId },
    FundsUnlocked { operator_id: OperatorId, nominator_id: AccountId, amount: Balance },
    PreferredOperator { operator_id: OperatorId, nominator_id: AccountId },
    OperatorRewarded { operator_id: OperatorId, reward: Balance },
    OperatorTaxCollected { operator_id: OperatorId, tax: Balance },
    DomainEpochCompleted { domain_id: DomainId, completed_epoch_index: EpochIndex },
    ForceDomainEpochTransition { domain_id: DomainId, completed_epoch_index: EpochIndex },
    /// A fraud proof was taken. The new head receipt number is there where the proof
    /// lowered the head.
    FraudProofProcessed {
        domain_id: DomainId,
        new_head_receipt_number: Option<DomainBlockNumber>,
    },
    DomainOperatorAllowListUpdated { domain_id: DomainId },
    OperatorSlashed { operator_id: OperatorId, reason: SlashedReason },
    StorageFeeDeposited { operator_id: OperatorId, nominator_id: AccountId, amount: Balance },
}

} // verus!
