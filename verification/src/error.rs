//! The errors of the calls.

use vstd::prelude::*;
use vstd::std_specs::convert::FromSpecImpl;

verus! {

/// Why a proof of election is refused.
#[derive(Clone, Copy, Debug, PartialEq, Eq, Structural)]
pub enum ProofOfElectionError {
    /// The signature of the random function is not valid.
    BadVrfProof,
    /// The output of the random function is not below the threshold.
    ThresholdUnsatisfied,
}

/// Why a bundle is refused.
#[derive(Clone, Copy, Debug, PartialEq, Eq, Structural)]
pub enum BundleError {
    /// No operator has the identifier that the bundle names.
    InvalidOperatorId,
    /// The signature on the bundle header is not valid.
    BadBundleSignature,
    /// The signature of the random function in the proof of election is not valid.
    BadVrfSignature,
    /// No domain has the identifier that the bundle names.
    InvalidDomainId,
    /// The operator may not produce bundles in the current epoch.
    BadOperator,
    /// The proof of election does not meet the threshold.
    ThresholdUnsatisfied,
    /// The bundle was created too long ago.
    StaleBundle,
    /// The receipt in the bundle is refused.
    Receipt(crate::block_tree::Error),
    /// The bundle is larger than the domain allows.
    BundleTooLarge,
    /// The root over the extrinsics is not the one that the header names.
    InvalidExtrinsicRoot,
    /// A bundle with the same header was submitted already.
    DuplicatedBundle,
    /// The proof of time in the proof of election is not valid.
    InvalidProofOfTime,
    /// The bundle is built on a slot in the future.
    SlotInTheFuture,
    /// The bundle is built on a slot too far in the past.
    SlotInThePast,
    /// No bundle limit can be calculated for the domain.
    UnableToCalculateBundleLimit,
    /// The bundle is heavier than the domain allows.
    BundleTooHeavy,
}

impl From<ProofOfElectionError> for BundleError {
    fn from(err: ProofOfElectionError) -> (e: Self) {
        match err {
            ProofOfElectionError::BadVrfProof => BundleError::BadVrfSignature,
            ProofOfElectionError::ThresholdUnsatisfied => BundleError::ThresholdUnsatisfied,
        }
    }
}

impl FromSpecImpl<ProofOfElectionError> for BundleError {
    open spec fn obeys_from_spec() -> bool {
        true
    }

    open spec fn from_spec(err: ProofOfElectionError) -> BundleError {
        match err {
            ProofOfElectionError::BadVrfProof => BundleError::BadVrfSignature,
            ProofOfElectionError::ThresholdUnsatisfied => BundleError::ThresholdUnsatisfied,
        }
    }
}

/// Why a fraud proof is refused.
#[derive(Clone, Copy, Debug, PartialEq, Eq, Structural)]
pub enum FraudProofError {
    /// The targeted receipt is not in the block tree of the domain.
    BadReceiptNotFound,
    /// The receipt of block zero cannot be challenged.
    ChallengingGenesisReceipt,
    /// The descendants of the fraudulent receipt are not pruned.
    DescendantsOfFraudulentERNotPruned,
    /// The block fees of the receipt are not proved wrong.
    InvalidBlockFeesFraudProof,
    /// The transfers of the receipt are not proved wrong.
    InvalidTransfersFraudProof,
    /// The domain block hash of the receipt is not proved wrong.
    InvalidDomainBlockHashFraudProof,
    /// The extrinsics root of the receipt is not proved wrong.
    InvalidExtrinsicRootFraudProof,
    /// The state transition of the receipt is not proved wrong.
    InvalidStateTransitionFraudProof,
    /// The receipt of the parent block is not in the block tree.
    ParentReceiptNotFound,
    /// The bundles of the receipt are not proved wrong.
    InvalidBundleFraudProof,
    /// The bundle that the receipt holds invalid is not proved valid.
    BadValidBundleFraudProof,
    /// No operator has the identifier that the proof names.
    MissingOperator,
    /// The proof is of a kind that is not taken.
    UnexpectedFraudProof,
    /// The two bundle headers do not prove an equivocation.
    BadBundleEquivocationFraudProof,
    /// The receipt was reported by an earlier fraud proof.
    BadReceiptAlreadyReported,
}

/// What can go wrong in a call, by the part of the ledger that refuses it.
#[derive(Clone, Copy, Debug, PartialEq, Eq, Structural)]
pub enum Error {
    /// The fraud proof is refused.
    FraudProof(FraudProofError),
    /// The runtime registry refuses.
    RuntimeRegistry(crate::registry::RuntimeRegistryError),
    /// The staking ledger refuses.
    Staking(crate::staking::Error),
    /// The epoch transition fails.
    StakingEpoch(crate::staking_epoch::Error),
    /// The domain registry refuses.
    DomainRegistry(crate::registry::DomainRegistryError),
    /// The block tree refuses.
    BlockTree(crate::block_tree::Error),
    /// The bundle storage fund refuses.
    BundleStorageFund(crate::bundle_storage_fund::Error),
    /// The caller may not take the permissioned action.
    PermissionedActionNotAllowed,
}

impl From<FraudProofError> for Error {
    fn from(err: FraudProofError) -> (e: Self) {
        Error::FraudProof(err)
    }
}

impl FromSpecImpl<FraudProofError> for Error {
    open spec fn obeys_from_spec() -> bool {
        true
    }

    open spec fn from_spec(err: FraudProofError) -> Error {
        Error::FraudProof(err)
    }
}

impl From<crate::registry::RuntimeRegistryError> for Error {
    fn from(err: crate::registry::RuntimeRegistryError) -> (e: Self) {
        Error::RuntimeRegistry(err)
    }
}

impl FromSpecImpl<crate::registry::RuntimeRegistryError> for Error {
    open spec fn obeys_from_spec() -> bool {
        true
    }

    open spec fn from_spec(err: crate::registry::RuntimeRegistryError) -> Error {
        Error::RuntimeRegistry(err)
    }
}

impl From<crate::staking::Error> for Error {
    fn from(err: crate::staking::Error) -> (e: Self) {
        Error::Staking(err)
    }
}

impl FromSpecImpl<crate::staking::Error> for Error {
    open spec fn obeys_from_spec() -> bool {
        true
    }

    open spec fn from_spec(err: crate::staking::Error) -> Error {
        Error::Staking(err)
    }
}

impl From<crate::staking_epoch::Error> for Error {
    fn from(err: crate::staking_epoch::Error) -> (e: Self) {
        Error::StakingEpoch(err)
    }
}

impl FromSpecImpl<crate::staking_epoch::Error> for Error {
    open spec fn obeys_from_spec() -> bool {
        true
    }

    open spec fn from_spec(err: crate::staking_epoch::Error) -> Error {
        Error::StakingEpoch(err)
    }
}

impl From<crate::registry::DomainRegistryError> for Error {
    fn from(err: crate::registry::DomainRegistryError) -> (e: Self) {
        Error::DomainRegistry(err)
    }
}

impl FromSpecImpl<crate::registry::DomainRegistryError> for Error {
    open spec fn obeys_from_spec() -> bool {
        true
    }

    open spec fn from_spec(err: crate::registry::DomainRegistryError) -> Error {
        Error::DomainRegistry(err)
    }
}

impl From<crate::block_tree::Error> for Error {
    fn from(err: crate::block_tree::Error) -> (e: Self) {
        Error::BlockTree(err)
    }
}

impl FromSpecImpl<crate::block_tree::Error> for Error {
    open spec fn obeys_from_spec() -> bool {
        true
    }

    open spec fn from_spec(err: crate::block_tree::Error) -> Error {
        Error::BlockTree(err)
    }
}

impl From<crate::bundle_storage_fund::Error> for Error {
    fn from(err: crate::bundle_storage_fund::Error) -> (e: Self) {
        Error::BundleStorageFund(err)
    }
}

impl FromSpecImpl<crate::bundle_storage_fund::Error> for Error {
    open spec fn obeys_from_spec() -> bool {
        true
    }

    open spec fn from_spec(err: crate::bundle_storage_fund::Error) -> Error {
        Error::BundleStorageFund(err)
    }
}

/// Why a call fails.
#[derive(Clone, Copy, Debug, PartialEq, Eq, Structural)]
pub enum DispatchError {
    /// The call does not come from an origin that may make it.
    BadOrigin,
    /// The ledger refuses the call.
    Module(Error),
}

/// Where a call comes from.
#[derive(Clone, Copy, Debug, PartialEq, Eq, Structural)]
pub enum Origin {
    /// From the chain itself.
    Root,
    /// From an account that signed the call.
    Signed(crate::primitives::AccountId),
    /// From nobody: an unsigned call.
    Unsigned,
}

/// The account that signed the call, if one did.
pub fn ensure_signed(origin: Origin) -> (result: Result<crate::primitives::AccountId, DispatchError>)
    ensures
        result == (match origin {
            Origin::Signed(who) => Ok::<crate::primitives::AccountId, DispatchError>(who),
            _ => Err::<crate::primitives::AccountId, DispatchError>(DispatchError::BadOrigin),
        }),
{
    match origin {
        Origin::Signed(who) => Ok(who),
        _ => Err(DispatchError::BadOrigin),
    }
}

/// Checks that the call comes from the chain itself.
pub fn ensure_root(origin: Origin) -> (result: Result<(), DispatchError>)
    ensures
        result == (match origin {
            Origin::Root => Ok::<(), DispatchError>(()),
            _ => Err::<(), DispatchError>(DispatchError::BadOrigin),
        }),
{
    match origin {
        Origin::Root => Ok(()),
        _ => Err(DispatchError::BadOrigin),
    }
}

/// Checks that the call is unsigned.
pub fn ensure_none(origin: Origin) -> (result: Result<(), DispatchError>)
    ensures
        result == (match origin {
            Origin::Unsigned => Ok::<(), DispatchError>(()),
            _ => Err::<(), DispatchError>(DispatchError::BadOrigin),
        }),
{
    match origin {
        Origin::Unsigned => Ok(()),
        _ => Err(DispatchError::BadOrigin),
    }
}

} // verus!
