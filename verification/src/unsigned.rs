//! The validation of unsigned calls: before dispatch, and for the transaction pool.

use crate::admission::{ProofChecks, SlotInfo};
use crate::bundle::OpaqueBundle;
use crate::error::BundleError;
use crate::fraud_proof::FraudProof;
use crate::pallet::{Pallet, PalletView};
use crate::primitives::{Balance, DomainId, OperatorId, RuntimeId, Share, H256};
use crate::registry::{
    DomainConfig, OperatorAllowList, PermissionedActionAllowedBy, RawGenesis, RuntimeType,
};
use crate::staking::OperatorConfig;
use crate::validity::{
    bundle_tag_prefix, fraud_proof_tag_prefix, start_bundle_tag, start_fraud_proof_tag, tag,
    InvalidTransaction, InvalidTransactionCode, TransactionSource, ValidTransaction,
};
use vstd::prelude::*;

verus! {

/// A call to the chain's domains.
#[derive(Debug, PartialEq, Eq)]
pub enum Call {
    /// Submits a bundle. Unsigned.
    SubmitBundle { opaque_bundle: OpaqueBundle },
    /// Submits a fraud proof. Unsigned.
    SubmitFraudProof { fraud_proof: FraudProof },
    RegisterDomainRuntime { runtime_name: String, runtime_type: RuntimeType, raw_genesis: RawGenesis },
    UpgradeDomainRuntime { runtime_id: RuntimeId, raw_genesis: RawGenesis },
    RegisterOperator { domain_id: DomainId, amount: Balance, config: OperatorConfig },
    NominateOperator { operator_id: OperatorId, amount: Balance },
    InstantiateDomain {
        domain_config: DomainConfig,
        genesis_state_root: H256,
        genesis_block_hash: H256,
    },
    DeregisterOperator { operator_id: OperatorId },
    WithdrawStake { operator_id: OperatorId, shares: Share },
    UnlockFunds { operator_id: OperatorId },
    UnlockOperator { operator_id: OperatorId },
    UpdateDomainOperatorAllowList { domain_id: DomainId, operator_allow_list: OperatorAllowList },
    ForceStakingEpochTransition { domain_id: DomainId },
    SetPermissionedActionAllowedBy { permissioned_action_allowed_by: PermissionedActionAllowedBy },
}

/// What is known from outside about an unsigned call.
#[derive(Clone, Copy, Debug, PartialEq, Eq)]
pub struct Evidence {
    /// What the consensus chain knows about the slot of a bundle.
    pub slots: SlotInfo,
    /// What was found out about the proofs of a bundle.
    pub checks: ProofChecks,
    /// Whether what a fraud proof holds proves its receipt wrong.
    pub fraud_proof_verified: bool,
}

impl Call {
    /// Whether the call can be encoded.
    pub open spec fn encodable(self) -> bool {
        match self {
            Call::SubmitBundle { opaque_bundle } => opaque_bundle.encodable(),
            Call::SubmitFraudProof { fraud_proof } => fraud_proof.encodable(),
            _ => true,
        }
    }

    /// The index of the call on the wire. Seven is the index of a call that is no
    /// longer taken, and stands for no call.
    pub open spec fn spec_index(self) -> u8 {
        match self {
            Call::SubmitBundle { .. } => 0,
            Call::SubmitFraudProof { .. } => 1,
            Call::RegisterDomainRuntime { .. } => 2,
            Call::UpgradeDomainRuntime { .. } => 3,
            Call::RegisterOperator { .. } => 4,
            Call::NominateOperator { .. } => 5,
            Call::InstantiateDomain { .. } => 6,
            Call::DeregisterOperator { .. } => 8,
            Call::WithdrawStake { .. } => 9,
            Call::UnlockFunds { .. } => 10,
            Call::UnlockOperator { .. } => 11,
            Call::UpdateDomainOperatorAllowList { .. } => 12,
            Call::ForceStakingEpochTransition { .. } => 13,
            Call::SetPermissionedActionAllowedBy { .. } => 14,
        }
    }

    /// The index of the call on the wire.
    pub fn index(&self) -> (index: u8)
        ensures
            index == self.spec_index(),
            index != 7,
            index <= 14,
    {
        match self {
            Call::SubmitBundle { .. } => 0,
            Call::SubmitFraudProof { .. } => 1,
            Call::RegisterDomainRuntime { .. } => 2,
            Call::UpgradeDomainRuntime { .. } => 3,
            Call::RegisterOperator { .. } => 4,
            Call::NominateOperator { .. } => 5,
            Call::InstantiateDomain { .. } => 6,
            Call::DeregisterOperator { .. } => 8,
            Call::WithdrawStake { .. } => 9,
            Call::UnlockFunds { .. } => 10,
            Call::UnlockOperator { .. } => 11,
            Call::UpdateDomainOperatorAllowList { .. } => 12,
            Call::ForceStakingEpochTransition { .. } => 13,
            Call::SetPermissionedActionAllowedBy { .. } => 14,
        }
    }
}

impl PalletView {
    /// Whether the call passes the checks before dispatch: a bundle is valid and
    /// the storage fund of its operator can pay for it; a fraud proof is valid. Any
    /// other call does not pass.
    pub open spec fn passes_pre_dispatch(self, call: Call, evidence: Evidence) -> bool {
        match call {
            Call::SubmitBundle { opaque_bundle } => self.bundle_error(
                opaque_bundle,
                true,
                evidence.slots,
                evidence.checks,
            ) is None && self.storage_fund.can_charge(
                opaque_bundle.sealed_header.header.proof_of_election.operator_id,
                opaque_bundle.spec_size(),
            ),
            Call::SubmitFraudProof { fraud_proof } => self.fraud_proof_error(
                fraud_proof,
                evidence.fraud_proof_verified,
            ) is None,
            _ => false,
        }
    }

    /// How a call that does not pass the checks before dispatch is refused: a valid
    /// bundle whose operator cannot pay for it for the payment of the storage fee,
    /// and any other call as an unexpected call.
    pub open spec fn pre_dispatch_refusal(self, call: Call, evidence: Evidence) -> InvalidTransaction {
        match call {
            Call::SubmitBundle { opaque_bundle } => if self.bundle_error(
                opaque_bundle,
                true,
                evidence.slots,
                evidence.checks,
            ) is None {
                InvalidTransaction::Custom(InvalidTransactionCode::BundleStorageFeePayment.spec_code())
            } else {
                InvalidTransaction::Call
            },
            _ => InvalidTransaction::Call,
        }
    }

    /// Why the pool does not take the call, if it does not. A bundle whose receipt
    /// the tree refuses is refused for its receipt, any other bundle that is not
    /// valid for itself, and a valid one whose operator cannot pay for it for that. A
    /// fraud proof that is not valid is refused for itself, and any other call as
    /// such.
    pub open spec fn pool_refusal(self, call: Call, evidence: Evidence) -> Option<
        InvalidTransaction,
    > {
        match call {
            Call::SubmitBundle { opaque_bundle } => match self.bundle_error(
                opaque_bundle,
                false,
                evidence.slots,
                evidence.checks,
            ) {
                Some(BundleError::Receipt(_)) => Some(
                    InvalidTransaction::Custom(InvalidTransactionCode::ExecutionReceipt.spec_code()),
                ),
                Some(_) => Some(
                    InvalidTransaction::Custom(InvalidTransactionCode::Bundle.spec_code()),
                ),
                None => if self.storage_fund.can_charge(
                    opaque_bundle.sealed_header.header.proof_of_election.operator_id,
                    opaque_bundle.spec_size(),
                ) {
                    None
                } else {
                    Some(
                        InvalidTransaction::Custom(
                            InvalidTransactionCode::BundleStorageFeePayment.spec_code(),
                        ),
                    )
                },
            },
            Call::SubmitFraudProof { fraud_proof } => if self.fraud_proof_error(
                fraud_proof,
                evidence.fraud_proof_verified,
            ) is Some {
                Some(InvalidTransaction::Custom(InvalidTransactionCode::FraudProof.spec_code()))
            } else {
                None
            },
            _ => Some(InvalidTransaction::Call),
        }
    }

    /// The priority with which the pool takes the call: one for a bundle, which is
    /// above an ordinary transaction and below every fraud proof; for a fraud proof,
    /// the priority of the proof.
    pub open spec fn pool_priority(self, call: Call) -> u64 {
        match call {
            Call::SubmitFraudProof { fraud_proof } => self.fraud_proof_priority(fraud_proof),
            _ => 1,
        }
    }

    /// The number of blocks for which the pool keeps the call: the confirmation
    /// depth of the consensus chain for a bundle, and as long as can be for a fraud
    /// proof.
    pub open spec fn pool_longevity(self, call: Call) -> u64 {
        match call {
            Call::SubmitBundle { .. } => self.config.confirmation_depth_k as u64,
            _ => u64::MAX,
        }
    }

    /// The tag that the call provides to the pool: for a bundle, the hash of the
    /// bundle behind the prefix of bundles; for a fraud proof, the tag of the proof
    /// behind the prefix of fraud proofs.
    pub open spec fn pool_tag(call: Call) -> Seq<u8> {
        match call {
            Call::SubmitBundle { opaque_bundle } => tag(
                bundle_tag_prefix(),
                opaque_bundle.spec_hash().bytes(),
            ),
            Call::SubmitFraudProof { fraud_proof } => tag(
                fraud_proof_tag_prefix(),
                PalletView::fraud_proof_tag(fraud_proof).encoding(),
            ),
            _ => Seq::empty(),
        }
    }
}

impl Pallet {
    /// Checks an unsigned call before it is dispatched, and charges the storage fund
    /// of the operator for a bundle. A valid bundle whose operator cannot pay for it
    /// is refused for that, and any other call that does not pass as an unexpected
    /// call. Nothing is changed where the call does not pass.
    pub fn pre_dispatch(&mut self, call: &Call, evidence: &Evidence) -> (result: Result<
        (),
        InvalidTransaction,
    >)
        requires
            call.encodable(),
        ensures
            match result {
                Ok(()) => {
                    &&& old(self)@.passes_pre_dispatch(*call, *evidence)
                    &&& final(self)@ == (match *call {
                        Call::SubmitBundle { opaque_bundle } => PalletView {
                            storage_fund: old(self)@.storage_fund.after_charge(
                                opaque_bundle.sealed_header.header.proof_of_election.operator_id,
                                opaque_bundle.spec_size(),
                            ),
                            ..old(self)@
                        },
                        _ => old(self)@,
                    })
                },
                Err(e) => {
                    &&& e == old(self)@.pre_dispatch_refusal(*call, *evidence)
                    &&& !old(self)@.passes_pre_dispatch(*call, *evidence)
                    &&& final(self)@ == old(self)@
                },
            },
    {
        match call {
            Call::SubmitBundle { opaque_bundle } => {
                match self.validate_bundle(opaque_bundle, true, &evidence.slots, &evidence.checks) {
                    Ok(()) => {},
                    Err(_) => {
                        return Err(InvalidTransaction::Call);
                    },
                }
                match self.storage_fund.charge_bundle_storage_fee(
                    opaque_bundle.operator_id(),
                    opaque_bundle.size(),
                ) {
                    Ok(()) => Ok(()),
                    Err(_) => Err(InvalidTransactionCode::BundleStorageFeePayment.into_invalid()),
                }
            },
            Call::SubmitFraudProof { fraud_proof } => {
                match self.validate_fraud_proof(fraud_proof, evidence.fraud_proof_verified) {
                    Ok(_) => Ok(()),
                    Err(_) => Err(InvalidTransaction::Call),
                }
            },
            _ => Err(InvalidTransaction::Call),
        }
    }

    /// Says whether the transaction pool takes an unsigned call, and how. The state
    /// is not changed.
    pub fn validate_unsigned(&self, source: TransactionSource, call: &Call, evidence: &Evidence) -> (result:
        Result<ValidTransaction, InvalidTransaction>)
        requires
            call.encodable(),
        ensures
            match result {
                Ok(valid) => {
                    &&& self@.pool_refusal(*call, *evidence) is None
                    &&& valid.priority == self@.pool_priority(*call)
                    &&& valid.longevity == self@.pool_longevity(*call)
                    &&& valid.requires@.len() == 0
                    &&& valid.provides@.len() == 1
                    &&& valid.provides@[0]@ == PalletView::pool_tag(*call)
                    &&& valid.propagate
                },
                Err(e) => Some(e) == self@.pool_refusal(*call, *evidence),
            },
    {
        match call {
            Call::SubmitBundle { opaque_bundle } => {
                match self.validate_bundle(opaque_bundle, false, &evidence.slots, &evidence.checks) {
                    Ok(()) => {},
                    Err(e) => {
                        match e {
                            BundleError::Receipt(_) => {
                                return Err(InvalidTransactionCode::ExecutionReceipt.into_invalid());
                            },
                            _ => {
                                return Err(InvalidTransactionCode::Bundle.into_invalid());
                            },
                        }
                    },
                }
                if !self.storage_fund.can_charge(opaque_bundle.operator_id(), opaque_bundle.size()) {
                    return Err(InvalidTransactionCode::BundleStorageFeePayment.into_invalid());
                }
                let mut provided = start_bundle_tag();
                opaque_bundle.hash().put(&mut provided);
                let mut provides: Vec<Vec<u8>> = Vec::new();
                provides.push(provided);
                Ok(
                    ValidTransaction {
                        priority: 1,
                        requires: Vec::new(),
                        provides,
                        longevity: self.config.confirmation_depth_k as u64,
                        propagate: true,
                    },
                )
            },
            Call::SubmitFraudProof { fraud_proof } => {
                let (proof_tag, priority) = match self.validate_fraud_proof(
                    fraud_proof,
                    evidence.fraud_proof_verified,
                ) {
                    Ok(tag_and_priority) => tag_and_priority,
                    Err(_) => {
                        return Err(InvalidTransactionCode::FraudProof.into_invalid());
                    },
                };
                let mut provided = start_fraud_proof_tag();
                proof_tag.encode_to(&mut provided);
                let mut provides: Vec<Vec<u8>> = Vec::new();
                provides.push(provided);
                Ok(
                    ValidTransaction {
                        priority,
                        requires: Vec::new(),
                        provides,
                        longevity: u64::MAX,
                        propagate: true,
                    },
                )
            },
            _ => Err(InvalidTransaction::Call),
        }
    }
}

} // verus!
