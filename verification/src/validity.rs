//! What the transaction pool is told about an unsigned call.

use crate::codec::{byte_string, put_compact_len};
use vstd::prelude::*;

verus! {

/// Where a transaction comes from.
#[derive(Clone, Copy, Debug, PartialEq, Eq, Structural)]
pub enum TransactionSource {
    InBlock,
    Local,
    External,
}

/// Why a transaction is not valid.
#[derive(Clone, Copy, Debug, PartialEq, Eq, Structural)]
pub enum InvalidTransaction {
    /// The call of the transaction is not expected.
    Call,
    /// A reason of the chain's own, by its code.
    Custom(u8),
}

/// The reasons of the chain's own for which a transaction is not valid.
#[derive(Clone, Copy, Debug, PartialEq, Eq, Structural)]
pub enum InvalidTransactionCode {
    TransactionProof,
    ExecutionReceipt,
    Bundle,
    FraudProof,
    BundleStorageFeePayment,
}

impl InvalidTransactionCode {
    /// The code of the reason.
    pub open spec fn spec_code(self) -> u8 {
        match self {
            InvalidTransactionCode::TransactionProof => 101,
            InvalidTransactionCode::ExecutionReceipt => 102,
            InvalidTransactionCode::Bundle => 103,
            InvalidTransactionCode::FraudProof => 104,
            InvalidTransactionCode::BundleStorageFeePayment => 105,
        }
    }

    /// The code of the reason.
    pub fn code(self) -> (code: u8)
        ensures
            code == self.spec_code(),
    {
        match self {
            InvalidTransactionCode::TransactionProof => 101,
            InvalidTransactionCode::ExecutionReceipt => 102,
            InvalidTransactionCode::Bundle => 103,
            InvalidTransactionCode::FraudProof => 104,
            InvalidTransactionCode::BundleStorageFeePayment => 105,
        }
    }

    /// The reason as a transaction that is not valid.
    pub fn into_invalid(self) -> (invalid: InvalidTransaction)
        ensures
            invalid == InvalidTransaction::Custom(self.spec_code()),
    {
        InvalidTransaction::Custom(self.code())
    }
}

/// What the pool is told about a valid transaction.
#[derive(Clone, Debug, PartialEq, Eq)]
pub struct ValidTransaction {
    /// Transactions with a higher priority are included first.
    pub priority: u64,
    /// The tags that must be provided before the transaction can be included.
    pub requires: Vec<Vec<u8>>,
    /// The tags that the transaction provides.
    pub provides: Vec<Vec<u8>>,
    /// The number of blocks for which the transaction stays valid.
    pub longevity: u64,
    /// Whether the transaction is handed on to other nodes.
    pub propagate: bool,
}

/// The bytes of `SubspaceSubmitBundle`.
pub open spec fn bundle_tag_prefix() -> Seq<u8> {
    seq![
        83u8, 117, 98, 115, 112, 97, 99, 101, 83, 117, 98, 109, 105, 116, 66, 117, 110, 100,
        108, 101,
    ]
}

/// The bytes of `SubspaceSubmitFraudProof`.
pub open spec fn fraud_proof_tag_prefix() -> Seq<u8> {
    seq![
        83u8, 117, 98, 115, 112, 97, 99, 101, 83, 117, 98, 109, 105, 116, 70, 114, 97, 117,
        100, 80, 114, 111, 111, 102,
    ]
}

/// A tag: the prefix behind its length, then the bytes of what is provided.
pub open spec fn tag(prefix: Seq<u8>, provided: Seq<u8>) -> Seq<u8> {
    byte_string(prefix) + provided
}

/// A tag for bytes that a bundle provides, without those bytes: the prefix behind
/// its length.
pub fn start_bundle_tag() -> (out: Vec<u8>)
    ensures
        out@ == byte_string(bundle_tag_prefix()),
{
    let mut out: Vec<u8> = Vec::new();
    put_compact_len(&mut out, 20);
    let prefix: Vec<u8> = vec![
        83u8, 117, 98, 115, 112, 97, 99, 101, 83, 117, 98, 109, 105, 116, 66, 117, 110, 100,
        108, 101,
    ];
    assert(prefix@ =~= bundle_tag_prefix());
    crate::codec::put_bytes(&mut out, &prefix);
    assert(out@ =~= byte_string(bundle_tag_prefix()));
    out
}

/// A tag for bytes that a fraud proof provides, without those bytes: the prefix
/// behind its length.
pub fn start_fraud_proof_tag() -> (out: Vec<u8>)
    ensures
        out@ == byte_string(fraud_proof_tag_prefix()),
{
    let mut out: Vec<u8> = Vec::new();
    put_compact_len(&mut out, 24);
    let prefix: Vec<u8> = vec![
        83u8, 117, 98, 115, 112, 97, 99, 101, 83, 117, 98, 109, 105, 116, 70, 114, 97, 117,
        100, 80, 114, 111, 111, 102,
    ];
    assert(prefix@ =~= fraud_proof_tag_prefix());
    crate::codec::put_bytes(&mut out, &prefix);
    assert(out@ =~= byte_string(fraud_proof_tag_prefix()));
    out
}

} // verus!
