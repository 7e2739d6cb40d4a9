//! Execution receipts: an operator's statement of what a domain block did.

use crate::codec::{compact_len, concat, le_bytes, put_compact_len, put_le};
use crate::hashing::{hash_bytes, hash_of};
use crate::primitives::{Balance, BlockNumber, DomainBlockNumber, H256};
use vstd::prelude::*;

verus! {

/// The fees that a domain block collected.
#[derive(Clone, Copy, Debug, PartialEq, Eq, Structural)]
pub struct BlockFees {
    /// Fees for storing the block's bundles on the consensus chain.
    pub consensus_storage_fee: Balance,
    /// Fees for executing the block's extrinsics on the domain.
    pub domain_execution_fee: Balance,
}

/// The funds that a domain block moved between chains.
#[derive(Clone, Copy, Debug, PartialEq, Eq, Structural)]
pub struct Transfers {
    /// Funds that came into the domain.
    pub transfers_in: Balance,
    /// Funds that left the domain.
    pub transfers_out: Balance,
    /// Rejected incoming funds that the domain claimed back.
    pub rejected_transfers_claimed: Balance,
    /// Outgoing funds that the other side rejected.
    pub transfers_rejected: Balance,
}

/// What a receipt says of one bundle of its domain block.
#[derive(Clone, Copy, Debug, PartialEq, Eq, Structural)]
pub struct InboxedBundle {
    /// The root over the bundle's extrinsics.
    pub extrinsics_root: H256,
    /// Whether the receipt holds the bundle to be invalid.
    pub is_invalid: bool,
}

/// An operator's statement of the execution of one domain block.
#[derive(Clone, Debug, PartialEq, Eq)]
pub struct ExecutionReceipt {
    /// Number of the domain block.
    pub domain_block_number: DomainBlockNumber,
    /// Hash of the domain block.
    pub domain_block_hash: H256,
    /// Root over the extrinsics of the domain block.
    pub extrinsics_root: H256,
    /// Root over the inherent extrinsics of the domain block.
    pub inherent_extrinsics_root: H256,
    /// Hash of the receipt of the parent domain block.
    pub parent_domain_block_receipt_hash: H256,
    /// Number of the consensus block that the domain block is derived from.
    pub consensus_block_number: BlockNumber,
    /// Hash of that consensus block.
    pub consensus_block_hash: H256,
    /// The bundles of the domain block, in the order of the execution inbox.
    pub bundle_digests: Vec<InboxedBundle>,
    /// State root after the domain block.
    pub final_state_root: H256,
    /// State roots between the extrinsics of the domain block.
    pub execution_trace: Vec<H256>,
    /// Fees collected by the domain block.
    pub block_fees: BlockFees,
    /// Funds moved by the domain block.
    pub transfers: Transfers,
}

/// The bytes of each hash of `hashes`, one after the other.
pub open spec fn hashes_bytes(hashes: Seq<H256>) -> Seq<u8> {
    concat(hashes.map_values(|h: H256| h.bytes()))
}

impl InboxedBundle {
    /// The bytes that stand for the entry: the root, then one byte that is 1 where
    /// the bundle is held invalid and 0 where it is not.
    pub open spec fn encoding(self) -> Seq<u8> {
        self.extrinsics_root.bytes() + seq![if self.is_invalid { 1u8 } else { 0u8 }]
    }
}

/// The bytes of each entry of `entries`, one after the other.
pub open spec fn inboxed_bundles_bytes(entries: Seq<InboxedBundle>) -> Seq<u8> {
    concat(entries.map_values(|e: InboxedBundle| e.encoding()))
}

/// Appends the bytes of each entry of `entries`.
pub fn put_inboxed_bundles(out: &mut Vec<u8>, entries: &Vec<InboxedBundle>)
    ensures
        final(out)@ == old(out)@ + inboxed_bundles_bytes(entries@),
{
    let mut i: usize = 0;
    assert(old(out)@ + inboxed_bundles_bytes(entries@.take(0)) =~= old(out)@);
    while i < entries.len()
        invariant
            i <= entries@.len(),
            out@ == old(out)@ + inboxed_bundles_bytes(entries@.take(i as int)),
        decreases entries@.len() - i,
    {
        let entry = &entries[i];
        let ghost before = out@;
        entry.extrinsics_root.put(out);
        out.push(if entry.is_invalid { 1u8 } else { 0u8 });
        proof {
            let done = entries@.take(i as int);
            let next = entries@.take(i + 1);
            assert(next.drop_last() =~= done);
            assert(next.map_values(|e: InboxedBundle| e.encoding()).drop_last()
                =~= done.map_values(|e: InboxedBundle| e.encoding()));
            assert(out@ =~= before + entries@[i as int].encoding());
            assert(inboxed_bundles_bytes(next) =~= inboxed_bundles_bytes(done)
                + entries@[i as int].encoding());
        }
        i = i + 1;
    }
    assert(entries@.take(entries@.len() as int) =~= entries@);
}

/// Appends the bytes of each hash of `hashes`.
pub fn put_hashes(out: &mut Vec<u8>, hashes: &Vec<H256>)
    ensures
        final(out)@ == old(out)@ + hashes_bytes(hashes@),
{
    let mut i: usize = 0;
    assert(old(out)@ + hashes_bytes(hashes@.take(0)) =~= old(out)@);
    while i < hashes.len()
        invariant
            i <= hashes@.len(),
            out@ == old(out)@ + hashes_bytes(hashes@.take(i as int)),
        decreases hashes@.len() - i,
    {
        let ghost before = out@;
        hashes[i].put(out);
        proof {
            let done = hashes@.take(i as int);
            let next = hashes@.take(i + 1);
            assert(next.drop_last() =~= done);
            assert(next.map_values(|h: H256| h.bytes()).drop_last() =~= done.map_values(
                |h: H256| h.bytes(),
            ));
            assert(hashes_bytes(next) =~= hashes_bytes(done) + hashes@[i as int].bytes());
        }
        i = i + 1;
    }
    assert(hashes@.take(hashes@.len() as int) =~= hashes@);
}

impl BlockFees {
    /// The bytes that stand for the fees.
    pub open spec fn encoding(self) -> Seq<u8> {
        le_bytes(self.consensus_storage_fee as nat, 16) + le_bytes(
            self.domain_execution_fee as nat,
            16,
        )
    }

    /// Appends the bytes that stand for the fees.
    pub fn put(&self, out: &mut Vec<u8>)
        ensures
            final(out)@ == old(out)@ + self.encoding(),
    {
        put_le(out, self.consensus_storage_fee, 16);
        put_le(out, self.domain_execution_fee, 16);
        assert(out@ =~= old(out)@ + self.encoding());
    }
}

impl Transfers {
    /// The bytes that stand for the transfers.
    pub open spec fn encoding(self) -> Seq<u8> {
        le_bytes(self.transfers_in as nat, 16) + le_bytes(self.transfers_out as nat, 16)
            + le_bytes(self.rejected_transfers_claimed as nat, 16) + le_bytes(
            self.transfers_rejected as nat,
            16,
        )
    }

    /// Appends the bytes that stand for the transfers.
    pub fn put(&self, out: &mut Vec<u8>)
        ensures
            final(out)@ == old(out)@ + self.encoding(),
    {
        put_le(out, self.transfers_in, 16);
        put_le(out, self.transfers_out, 16);
        put_le(out, self.rejected_transfers_claimed, 16);
        put_le(out, self.transfers_rejected, 16);
        assert(out@ =~= old(out)@ + self.encoding());
    }
}

impl ExecutionReceipt {
    /// The bytes that stand for the place of the domain block: its number and
    /// hash, its roots, the hash of the parent receipt, and the consensus block.
    pub open spec fn place_encoding(self) -> Seq<u8> {
        le_bytes(self.domain_block_number as nat, 4) + self.domain_block_hash.bytes()
            + self.extrinsics_root.bytes() + self.inherent_extrinsics_root.bytes()
            + self.parent_domain_block_receipt_hash.bytes() + le_bytes(
            self.consensus_block_number as nat,
            4,
        ) + self.consensus_block_hash.bytes()
    }

    /// The bytes that stand for what the domain block did: its bundles, the state
    /// root it ended with, and its execution trace.
    pub open spec fn outcome_encoding(self) -> Seq<u8> {
        compact_len(self.bundle_digests@.len()) + inboxed_bundles_bytes(self.bundle_digests@)
            + self.final_state_root.bytes() + compact_len(self.execution_trace@.len())
            + hashes_bytes(self.execution_trace@)
    }

    /// The bytes that stand for the receipt: its fields in the order in which they
    /// are declared, numbers in little-endian form at their full width, and each
    /// list behind its length in compact form.
    pub open spec fn encoding(self) -> Seq<u8> {
        self.place_encoding() + self.outcome_encoding() + self.block_fees.encoding()
            + self.transfers.encoding()
    }

    /// The hash that identifies the receipt.
    pub open spec fn spec_hash(self) -> H256 {
        hash_of(self.encoding())
    }

    /// Whether the lists of the receipt are short enough for their lengths to be
    /// encoded.
    pub open spec fn encodable(self) -> bool {
        self.bundle_digests@.len() <= u32::MAX && self.execution_trace@.len() <= u32::MAX
    }

    fn put_place(&self, out: &mut Vec<u8>)
        ensures
            final(out)@ == old(out)@ + self.place_encoding(),
    {
        put_le(out, self.domain_block_number as u128, 4);
        self.domain_block_hash.put(out);
        self.extrinsics_root.put(out);
        self.inherent_extrinsics_root.put(out);
        self.parent_domain_block_receipt_hash.put(out);
        put_le(out, self.consensus_block_number as u128, 4);
        self.consensus_block_hash.put(out);
        assert(out@ =~= old(out)@ + self.place_encoding());
    }

    fn put_outcome(&self, out: &mut Vec<u8>)
        requires
            self.encodable(),
        ensures
            final(out)@ == old(out)@ + self.outcome_encoding(),
    {
        put_compact_len(out, self.bundle_digests.len() as u32);
        put_inboxed_bundles(out, &self.bundle_digests);
        self.final_state_root.put(out);
        put_compact_len(out, self.execution_trace.len() as u32);
        put_hashes(out, &self.execution_trace);
        assert(out@ =~= old(out)@ + self.outcome_encoding());
    }

    /// Appends the bytes that stand for the receipt.
    pub fn encode_to(&self, out: &mut Vec<u8>)
        requires
            self.encodable(),
        ensures
            final(out)@ == old(out)@ + self.encoding(),
    {
        self.put_place(out);
        self.put_outcome(out);
        self.block_fees.put(out);
        self.transfers.put(out);
        assert(out@ =~= old(out)@ + self.encoding());
    }

    /// The hash that identifies the receipt.
    pub fn hash(&self) -> (hash: H256)
        requires
            self.encodable(),
        ensures
            hash == self.spec_hash(),
    {
        let mut bytes: Vec<u8> = Vec::new();
        self.encode_to(&mut bytes);
        assert(bytes@ =~= self.encoding());
        hash_bytes(&bytes)
    }
}

} // verus!
