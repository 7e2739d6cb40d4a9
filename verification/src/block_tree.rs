//! The block tree of execution receipts of each domain.
//!
//! Every domain has a chain of receipts from its latest confirmed block up to its
//! head. A receipt that extends the head is added; a receipt that equals the head
//! adds its submitter to the head; a block that falls a configured depth behind the
//! head is confirmed and leaves the tree.

use crate::primitives::{
    Balance, BlockNumber, DomainBlockNumber, DomainId, OperatorId, H256,
};
use crate::receipt::ExecutionReceipt;
use crate::table::Table;
use vstd::prelude::*;

verus! {

/// What can go wrong in the block tree.
#[derive(Clone, Copy, Debug, PartialEq, Eq, Structural)]
pub enum Error {
    /// The receipt is for a block that is confirmed already, or repeats a receipt
    /// below the head.
    StaleReceipt,
    /// The receipt is for a block beyond the next one.
    InFutureReceipt,
    /// The receipt of the parent block is not in the tree.
    UnknownParentBlockReceipt,
    /// No consensus block hash is recorded at the height that the receipt names.
    UnavailableConsensusBlockHash,
    /// The receipt names a consensus block hash other than the recorded one.
    BuiltOnUnknownConsensusBlock,
    /// The receipt differs from the one in the tree at its height.
    NewBranchReceipt,
    /// The tree names a receipt at a height without holding it.
    MissingDomainBlock,
    /// The number of the best domain block cannot grow any more.
    MaxHeadDomainNumber,
}

/// The kinds of receipt that the tree takes.
#[derive(Clone, Copy, Debug, PartialEq, Eq, Structural)]
pub enum AcceptedReceiptType {
    /// The receipt extends the head by one block.
    NewHead,
    /// The receipt is the receipt at the head.
    CurrentHead,
}

/// The kinds of receipt that the tree refuses.
#[derive(Clone, Copy, Debug, PartialEq, Eq, Structural)]
pub enum RejectedReceiptType {
    /// For a confirmed block, or a repeat below the head.
    Stale,
    /// Beyond the next block.
    InFuture,
    /// Its parent is not in the tree.
    UnknownParent,
    /// No consensus block hash is recorded at its consensus height.
    UnavailableConsensusBlockHash,
    /// Its consensus block hash is not the recorded one.
    BuiltOnUnknownConsensusBlock,
    /// It differs from the receipt in the tree at its height.
    NewBranch,
}

/// Where a receipt stands with respect to the tree.
#[derive(Clone, Copy, Debug, PartialEq, Eq, Structural)]
pub enum ReceiptType {
    Accepted(AcceptedReceiptType),
    Rejected(RejectedReceiptType),
}

impl RejectedReceiptType {
    /// The error that stands for the refusal.
    pub open spec fn spec_error(self) -> Error {
        match self {
            RejectedReceiptType::Stale => Error::StaleReceipt,
            RejectedReceiptType::InFuture => Error::InFutureReceipt,
            RejectedReceiptType::UnknownParent => Error::UnknownParentBlockReceipt,
            RejectedReceiptType::UnavailableConsensusBlockHash => {
                Error::UnavailableConsensusBlockHash
            },
            RejectedReceiptType::BuiltOnUnknownConsensusBlock => {
                Error::BuiltOnUnknownConsensusBlock
            },
            RejectedReceiptType::NewBranch => Error::NewBranchReceipt,
        }
    }

    /// The error that stands for the refusal.
    pub fn error(self) -> (e: Error)
        ensures
            e == self.spec_error(),
    {
        match self {
            RejectedReceiptType::Stale => Error::StaleReceipt,
            RejectedReceiptType::InFuture => Error::InFutureReceipt,
            RejectedReceiptType::UnknownParent => Error::UnknownParentBlockReceipt,
            RejectedReceiptType::UnavailableConsensusBlockHash => {
                Error::UnavailableConsensusBlockHash
            },
            RejectedReceiptType::BuiltOnUnknownConsensusBlock => {
                Error::BuiltOnUnknownConsensusBlock
            },
            RejectedReceiptType::NewBranch => Error::NewBranchReceipt,
        }
    }
}

/// What the execution inbox keeps of a bundle.
#[derive(Clone, Copy, Debug, PartialEq, Eq, Structural)]
pub struct BundleDigest {
    /// Hash of the bundle header without its signature.
    pub header_hash: H256,
    /// Root over the extrinsics of the bundle.
    pub extrinsics_root: H256,
    /// Size of the bundle body in bytes.
    pub size: u32,
}

/// The latest confirmed block of a domain.
#[derive(Clone, Copy, Debug, PartialEq, Eq, Structural)]
pub struct ConfirmedDomainBlock {
    pub block_number: DomainBlockNumber,
    pub block_hash: H256,
    pub parent_block_receipt_hash: H256,
    pub state_root: H256,
    pub extrinsics_root: H256,
}

/// A receipt in the tree, with the operators that submitted it.
#[derive(Debug, PartialEq, Eq)]
pub struct BlockTreeNode {
    pub execution_receipt: ExecutionReceipt,
    /// The operators that submitted the receipt, each once, in the order in which
    /// they first did.
    pub operator_ids: Vec<OperatorId>,
}

/// A node of the tree as a value: the receipt and the sequence of its submitters.
pub struct NodeView {
    pub execution_receipt: ExecutionReceipt,
    pub operator_ids: Seq<OperatorId>,
}

impl View for BlockTreeNode {
    type V = NodeView;

    open spec fn view(&self) -> NodeView {
        NodeView { execution_receipt: self.execution_receipt, operator_ids: self.operator_ids@ }
    }
}

/// The tables of the block tree.
pub struct BlockTree {
    /// The hash of the receipt at each height of each domain.
    pub block_tree: Table<(DomainId, DomainBlockNumber), H256>,
    /// The node under each receipt hash.
    pub block_tree_nodes: Table<H256, BlockTreeNode>,
    /// The height of the head receipt of each domain.
    pub head_receipt_number: Table<DomainId, DomainBlockNumber>,
    /// Whether the head receipt of a domain was extended in the current consensus
    /// block.
    pub head_receipt_extended: Table<DomainId, bool>,
    /// The consensus block hash that receipts of a domain are checked against, at
    /// each consensus height that holds bundles of the domain.
    pub consensus_block_hash: Table<(DomainId, BlockNumber), H256>,
    /// The digests of the bundles of a domain block, under the domain, the number of
    /// the domain block and the number of the consensus block that holds them.
    pub execution_inbox: Table<(DomainId, DomainBlockNumber, BlockNumber), Vec<BundleDigest>>,
    /// The author of each bundle in the inbox, under the hash of its header.
    pub inboxed_bundle_author: Table<H256, OperatorId>,
    /// The number of the best domain block of each domain.
    pub head_domain_number: Table<DomainId, DomainBlockNumber>,
    /// The latest confirmed block of each domain.
    pub latest_confirmed_domain_block: Table<DomainId, ConfirmedDomainBlock>,
    /// The height of the latest receipt that an operator submitted for a domain.
    pub latest_submitted_er: Table<(DomainId, OperatorId), DomainBlockNumber>,
}

/// The block tree as a value: one map for each table.
pub struct BlockTreeView {
    pub block_tree: Map<(DomainId, DomainBlockNumber), H256>,
    pub block_tree_nodes: Map<H256, NodeView>,
    pub head_receipt_number: Map<DomainId, DomainBlockNumber>,
    pub head_receipt_extended: Map<DomainId, bool>,
    pub consensus_block_hash: Map<(DomainId, BlockNumber), H256>,
    pub execution_inbox: Map<(DomainId, DomainBlockNumber, BlockNumber), Seq<BundleDigest>>,
    pub inboxed_bundle_author: Map<H256, OperatorId>,
    pub head_domain_number: Map<DomainId, DomainBlockNumber>,
    pub latest_confirmed_domain_block: Map<DomainId, ConfirmedDomainBlock>,
    pub latest_submitted_er: Map<(DomainId, OperatorId), DomainBlockNumber>,
}

impl View for BlockTree {
    type V = BlockTreeView;

    open spec fn view(&self) -> BlockTreeView {
        BlockTreeView {
            block_tree: self.block_tree@,
            block_tree_nodes: self.block_tree_nodes@.map_values(|n: BlockTreeNode| n@),
            head_receipt_number: self.head_receipt_number@,
            head_receipt_extended: self.head_receipt_extended@,
            consensus_block_hash: self.consensus_block_hash@,
            execution_inbox: self.execution_inbox@.map_values(|d: Vec<BundleDigest>| d@),
            inboxed_bundle_author: self.inboxed_bundle_author@,
            head_domain_number: self.head_domain_number@,
            latest_confirmed_domain_block: self.latest_confirmed_domain_block@,
            latest_submitted_er: self.latest_submitted_er@,
        }
    }
}

impl BlockTreeView {
    /// The tree without any domain.
    pub open spec fn empty() -> BlockTreeView {
        BlockTreeView {
            block_tree: Map::empty(),
            block_tree_nodes: Map::empty(),
            head_receipt_number: Map::empty(),
            head_receipt_extended: Map::empty(),
            consensus_block_hash: Map::empty(),
            execution_inbox: Map::empty(),
            inboxed_bundle_author: Map::empty(),
            head_domain_number: Map::empty(),
            latest_confirmed_domain_block: Map::empty(),
            latest_submitted_er: Map::empty(),
        }
    }

    /// The height of the head receipt of the domain, zero where none is recorded.
    pub open spec fn head_receipt(self, domain_id: DomainId) -> DomainBlockNumber {
        if self.head_receipt_number.contains_key(domain_id) {
            self.head_receipt_number[domain_id]
        } else {
            0
        }
    }

    /// The number of the latest confirmed block of the domain. Block zero is
    /// confirmed from the start.
    pub open spec fn latest_confirmed(self, domain_id: DomainId) -> DomainBlockNumber {
        if self.latest_confirmed_domain_block.contains_key(domain_id) {
            self.latest_confirmed_domain_block[domain_id].block_number
        } else {
            0
        }
    }

    /// The number of the best domain block of the domain, zero where none is
    /// recorded.
    pub open spec fn head_domain(self, domain_id: DomainId) -> DomainBlockNumber {
        if self.head_domain_number.contains_key(domain_id) {
            self.head_domain_number[domain_id]
        } else {
            0
        }
    }

    /// The height of the latest receipt that the operator submitted for the domain,
    /// zero where none is recorded.
    pub open spec fn latest_submitted(
        self,
        domain_id: DomainId,
        operator_id: OperatorId,
    ) -> DomainBlockNumber {
        if self.latest_submitted_er.contains_key((domain_id, operator_id)) {
            self.latest_submitted_er[(domain_id, operator_id)]
        } else {
            0
        }
    }

    /// Whether the receipt at `receipt_number` is a bad receipt that waits to be
    /// pruned: one above the head, which a fraud proof has lowered.
    pub open spec fn bad_er_pending_to_prune(
        self,
        domain_id: DomainId,
        receipt_number: DomainBlockNumber,
    ) -> bool {
        receipt_number != 0 && self.head_receipt(domain_id) < receipt_number
    }

    /// Whether `receipt` is the receipt at the head of the tree of the domain.
    pub open spec fn is_head_receipt(self, domain_id: DomainId, receipt: ExecutionReceipt) -> bool {
        &&& receipt.domain_block_number == self.head_receipt(domain_id)
        &&& self.block_tree.contains_key((domain_id, receipt.domain_block_number))
        &&& self.block_tree[(domain_id, receipt.domain_block_number)] == receipt.spec_hash()
    }

    /// Where `receipt` stands with respect to the tree of the domain.
    ///
    /// The receipt at the head of the tree is the current head; so the receipt of
    /// block zero is, as long as the tree has no other. Any other receipt is tested
    /// in this order: one at or below the latest confirmed block is stale; one beyond
    /// the block after the head is in the future; one whose parent is not the receipt
    /// in the tree one block below has an unknown parent; one that names a consensus
    /// height without a recorded hash, or another hash than the recorded one, is
    /// refused for that; one above the head is a new head. Below the head, the
    /// receipt in the tree at its height decides: the same one makes it stale, and a
    /// different one a new branch, as does a different one at the head.
    pub open spec fn receipt_type(self, domain_id: DomainId, receipt: ExecutionReceipt) -> ReceiptType {
        let number = receipt.domain_block_number;
        let head = self.head_receipt(domain_id);
        let consensus_key = (domain_id, receipt.consensus_block_number);
        if self.is_head_receipt(domain_id, receipt) {
            ReceiptType::Accepted(AcceptedReceiptType::CurrentHead)
        } else if number <= self.latest_confirmed(domain_id) {
            ReceiptType::Rejected(RejectedReceiptType::Stale)
        } else if number > head + 1 {
            ReceiptType::Rejected(RejectedReceiptType::InFuture)
        } else if !(self.block_tree.contains_key((domain_id, (number - 1) as u32))
            && self.block_tree[(domain_id, (number - 1) as u32)]
            == receipt.parent_domain_block_receipt_hash) {
            ReceiptType::Rejected(RejectedReceiptType::UnknownParent)
        } else if !self.consensus_block_hash.contains_key(consensus_key) {
            ReceiptType::Rejected(RejectedReceiptType::UnavailableConsensusBlockHash)
        } else if self.consensus_block_hash[consensus_key] != receipt.consensus_block_hash {
            ReceiptType::Rejected(RejectedReceiptType::BuiltOnUnknownConsensusBlock)
        } else if number == head + 1 {
            ReceiptType::Accepted(AcceptedReceiptType::NewHead)
        } else if !(self.block_tree.contains_key((domain_id, number)) && self.block_tree[(
            domain_id,
            number,
        )] == receipt.spec_hash()) {
            ReceiptType::Rejected(RejectedReceiptType::NewBranch)
        } else {
            ReceiptType::Rejected(RejectedReceiptType::Stale)
        }
    }
}

/// The records of latest submissions that pruning a node forgets: those of the
/// node's submitters for the domain that name the height `number`.
pub open spec fn forgotten_submissions(
    latest: Map<(DomainId, OperatorId), DomainBlockNumber>,
    domain_id: DomainId,
    number: DomainBlockNumber,
    operator_ids: Seq<OperatorId>,
) -> Set<(DomainId, OperatorId)> {
    Set::new(
        |k: (DomainId, OperatorId)|
            k.0 == domain_id && operator_ids.contains(k.1) && latest.contains_key(k) && latest[k]
                == number,
    )
}

impl BlockTreeView {
    /// Whether the tree names a receipt at the height that it does not hold.
    pub open spec fn node_missing(self, domain_id: DomainId, number: DomainBlockNumber) -> bool {
        self.block_tree.contains_key((domain_id, number)) && !self.block_tree_nodes.contains_key(
            self.block_tree[(domain_id, number)],
        )
    }

    /// Whether pruning at the height takes a node out of the tree: the height is
    /// not zero, and the tree holds a receipt there.
    pub open spec fn prunes(self, domain_id: DomainId, number: DomainBlockNumber) -> bool {
        number != 0 && self.block_tree.contains_key((domain_id, number))
            && self.block_tree_nodes.contains_key(self.block_tree[(domain_id, number)])
    }

    /// The node at the height.
    pub open spec fn node_at(self, domain_id: DomainId, number: DomainBlockNumber) -> NodeView
        recommends
            self.prunes(domain_id, number),
    {
        self.block_tree_nodes[self.block_tree[(domain_id, number)]]
    }

    /// The tree after the node at the height is pruned: the node is gone from both
    /// tables, and so is the record of the latest submission of each of its
    /// submitters whose latest receipt it was. The head is not moved.
    pub open spec fn after_prune(
        self,
        domain_id: DomainId,
        number: DomainBlockNumber,
    ) -> BlockTreeView
        recommends
            self.prunes(domain_id, number),
    {
        let hash = self.block_tree[(domain_id, number)];
        let node = self.block_tree_nodes[hash];
        BlockTreeView {
            block_tree: self.block_tree.remove((domain_id, number)),
            block_tree_nodes: self.block_tree_nodes.remove(hash),
            latest_submitted_er: self.latest_submitted_er.remove_keys(
                forgotten_submissions(
                    self.latest_submitted_er,
                    domain_id,
                    node.execution_receipt.domain_block_number,
                    node.operator_ids,
                ),
            ),
            ..self
        }
    }
}

/// Forgets the latest submission of each of `operator_ids` for the domain that
/// names the height `number`.
fn forget_submissions(
    latest: &mut Table<(DomainId, OperatorId), DomainBlockNumber>,
    domain_id: DomainId,
    number: DomainBlockNumber,
    operator_ids: &Vec<OperatorId>,
)
    ensures
        final(latest)@ == old(latest)@.remove_keys(
            forgotten_submissions(old(latest)@, domain_id, number, operator_ids@),
        ),
{
    let ghost start = latest@;
    let mut i: usize = 0;
    assert(start.remove_keys(
        forgotten_submissions(start, domain_id, number, operator_ids@.take(0)),
    ) =~= start);
    while i < operator_ids.len()
        invariant
            i <= operator_ids@.len(),
            latest@ == start.remove_keys(
                forgotten_submissions(start, domain_id, number, operator_ids@.take(i as int)),
            ),
        decreases operator_ids@.len() - i,
    {
        let key = (domain_id, operator_ids[i]);
        let ghost done = operator_ids@.take(i as int);
        let ghost next = operator_ids@.take(i + 1);
        proof {
            assert(next =~= done.push(operator_ids@[i as int]));
            assert forall|id: OperatorId| next.contains(id) <==> (done.contains(id) || id
                == operator_ids@[i as int]) by {
                if done.contains(id) {
                    let j = choose|j: int| 0 <= j < done.len() && done[j] == id;
                    assert(next[j] == id);
                }
                if id == operator_ids@[i as int] {
                    assert(next[i as int] == id);
                }
                if next.contains(id) {
                    let j = choose|j: int| 0 <= j < next.len() && next[j] == id;
                    if j < i {
                        assert(done[j] == id);
                    }
                }
            }
        }
        let names_height = match latest.get(&key) {
            Some(height) => *height == number,
            None => false,
        };
        if names_height {
            latest.remove(&key);
            assert(forgotten_submissions(start, domain_id, number, next)
                =~= forgotten_submissions(start, domain_id, number, done).insert(key));
            assert(latest@ =~= start.remove_keys(
                forgotten_submissions(start, domain_id, number, next),
            ));
        } else {
            assert(forgotten_submissions(start, domain_id, number, next)
                =~= forgotten_submissions(start, domain_id, number, done));
        }
        i = i + 1;
    }
    assert(operator_ids@.take(operator_ids@.len() as int) =~= operator_ids@);
}


/// What the confirmation of a domain block hands to its caller.
#[derive(Debug, PartialEq, Eq)]
pub struct ConfirmedInfo {
    /// Number of the confirmed block.
    pub domain_block_number: DomainBlockNumber,
    /// The operators that submitted the confirmed receipt.
    pub operator_ids: Vec<OperatorId>,
    /// The execution fees of the block, which reward those operators.
    pub rewards: Balance,
    /// The authors of the bundles that the receipt holds invalid.
    pub invalid_bundle_authors: Vec<OperatorId>,
    /// The storage fees of the block.
    pub total_storage_fee: Balance,
    /// The author and the size of each bundle that the receipt does not hold
    /// invalid, in the order of the inbox.
    pub paid_bundle_storage_fees: Vec<(OperatorId, u32)>,
}

/// A confirmation as a value.
pub struct ConfirmedInfoView {
    pub domain_block_number: DomainBlockNumber,
    pub operator_ids: Seq<OperatorId>,
    pub rewards: Balance,
    pub invalid_bundle_authors: Seq<OperatorId>,
    pub total_storage_fee: Balance,
    pub paid_bundle_storage_fees: Seq<(OperatorId, u32)>,
}

impl View for ConfirmedInfo {
    type V = ConfirmedInfoView;

    open spec fn view(&self) -> ConfirmedInfoView {
        ConfirmedInfoView {
            domain_block_number: self.domain_block_number,
            operator_ids: self.operator_ids@,
            rewards: self.rewards,
            invalid_bundle_authors: self.invalid_bundle_authors@,
            total_storage_fee: self.total_storage_fee,
            paid_bundle_storage_fees: self.paid_bundle_storage_fees@,
        }
    }
}

/// The header hashes of the first `k` of `digests`.
pub open spec fn header_hashes(digests: Seq<BundleDigest>, k: int) -> Set<H256> {
    Set::new(|h: H256| exists|i: int| 0 <= i < k && i < digests.len() && (#[trigger] digests[i]).header_hash == h)
}

/// Whether the receipt holds the bundle at place `i` invalid.
pub open spec fn held_invalid(flags: Seq<crate::receipt::InboxedBundle>, i: int) -> bool {
    0 <= i < flags.len() && flags[i].is_invalid
}

/// The authors of those of the first `k` digests that the receipt holds invalid.
/// A digest counts where its header hash has an author on record and stands at no
/// earlier place.
pub open spec fn invalid_bundle_authors(
    authors: Map<H256, OperatorId>,
    digests: Seq<BundleDigest>,
    flags: Seq<crate::receipt::InboxedBundle>,
    k: int,
) -> Seq<OperatorId>
    decreases k,
{
    if k <= 0 {
        Seq::empty()
    } else {
        let before = invalid_bundle_authors(authors, digests, flags, k - 1);
        let hash = digests[k - 1].header_hash;
        if authors.contains_key(hash) && !header_hashes(digests, k - 1).contains(hash)
            && held_invalid(flags, k - 1) {
            before.push(authors[hash])
        } else {
            before
        }
    }
}

/// The author and size of those of the first `k` digests that the receipt does not
/// hold invalid. A digest counts where its header hash has an author on record and
/// stands at no earlier place.
pub open spec fn paid_storage_fees(
    authors: Map<H256, OperatorId>,
    digests: Seq<BundleDigest>,
    flags: Seq<crate::receipt::InboxedBundle>,
    k: int,
) -> Seq<(OperatorId, u32)>
    decreases k,
{
    if k <= 0 {
        Seq::empty()
    } else {
        let before = paid_storage_fees(authors, digests, flags, k - 1);
        let hash = digests[k - 1].header_hash;
        if authors.contains_key(hash) && !header_hashes(digests, k - 1).contains(hash)
            && !held_invalid(flags, k - 1) {
            before.push((authors[hash], digests[k - 1].size))
        } else {
            before
        }
    }
}

impl BlockTreeView {
    /// The tree with the latest submission of the operator raised to `number`, where
    /// `number` is higher than the one on record.
    pub open spec fn with_submission(
        self,
        domain_id: DomainId,
        operator_id: OperatorId,
        number: DomainBlockNumber,
    ) -> BlockTreeView {
        if number > self.latest_submitted(domain_id, operator_id) {
            BlockTreeView {
                latest_submitted_er: self.latest_submitted_er.insert(
                    (domain_id, operator_id),
                    number,
                ),
                ..self
            }
        } else {
            self
        }
    }

    /// The tree with `receipt` as the new head of the domain, submitted by
    /// `submitter` alone.
    pub open spec fn with_new_head(
        self,
        domain_id: DomainId,
        submitter: OperatorId,
        receipt: ExecutionReceipt,
    ) -> BlockTreeView {
        let hash = receipt.spec_hash();
        let number = receipt.domain_block_number;
        BlockTreeView {
            block_tree: self.block_tree.insert((domain_id, number), hash),
            block_tree_nodes: self.block_tree_nodes.insert(
                hash,
                NodeView { execution_receipt: receipt, operator_ids: seq![submitter] },
            ),
            head_receipt_number: self.head_receipt_number.insert(domain_id, number),
            head_receipt_extended: self.head_receipt_extended.insert(domain_id, true),
            ..self
        }
    }

    /// The tree with `submitter` among the submitters of `receipt`, at the end if it
    /// was not among them.
    pub open spec fn with_vote(self, submitter: OperatorId, receipt: ExecutionReceipt) -> BlockTreeView
        recommends
            self.block_tree_nodes.contains_key(receipt.spec_hash()),
    {
        let hash = receipt.spec_hash();
        let node = self.block_tree_nodes[hash];
        if node.operator_ids.contains(submitter) {
            self
        } else {
            BlockTreeView {
                block_tree_nodes: self.block_tree_nodes.insert(
                    hash,
                    NodeView { operator_ids: node.operator_ids.push(submitter), ..node },
                ),
                ..self
            }
        }
    }

    /// The digests in the inbox under `key`, none where the inbox has no such row.
    pub open spec fn inbox_row(
        self,
        key: (DomainId, DomainBlockNumber, BlockNumber),
    ) -> Seq<BundleDigest> {
        if self.execution_inbox.contains_key(key) {
            self.execution_inbox[key]
        } else {
            Seq::empty()
        }
    }

    /// The tree after the block at height `number` is confirmed: its node is pruned;
    /// the inbox row of the block under the consensus block that its receipt names is
    /// gone, with the authors of the digests of that row; the consensus block hash at
    /// that consensus height is gone; and the block is the latest confirmed one.
    pub open spec fn after_confirm(
        self,
        domain_id: DomainId,
        number: DomainBlockNumber,
    ) -> BlockTreeView
        recommends
            self.prunes(domain_id, number),
    {
        let receipt = self.node_at(domain_id, number).execution_receipt;
        let pruned = self.after_prune(domain_id, number);
        let inbox_key = (domain_id, number, receipt.consensus_block_number);
        let digests = self.inbox_row(inbox_key);
        BlockTreeView {
            execution_inbox: pruned.execution_inbox.remove(inbox_key),
            inboxed_bundle_author: pruned.inboxed_bundle_author.remove_keys(
                header_hashes(digests, digests.len() as int),
            ),
            consensus_block_hash: pruned.consensus_block_hash.remove(
                (domain_id, receipt.consensus_block_number),
            ),
            latest_confirmed_domain_block: pruned.latest_confirmed_domain_block.insert(
                domain_id,
                ConfirmedDomainBlock {
                    block_number: number,
                    block_hash: receipt.domain_block_hash,
                    parent_block_receipt_hash: receipt.parent_domain_block_receipt_hash,
                    state_root: receipt.final_state_root,
                    extrinsics_root: receipt.extrinsics_root,
                },
            ),
            ..pruned
        }
    }

    /// What the confirmation of the block at height `number` hands out: the
    /// submitters of its receipt, its fees, and the authors of its bundles, parted
    /// by what the receipt holds of each bundle.
    pub open spec fn confirmed_info(
        self,
        domain_id: DomainId,
        number: DomainBlockNumber,
    ) -> ConfirmedInfoView
        recommends
            self.prunes(domain_id, number),
    {
        let node = self.node_at(domain_id, number);
        let receipt = node.execution_receipt;
        let digests = self.inbox_row((domain_id, number, receipt.consensus_block_number));
        ConfirmedInfoView {
            domain_block_number: number,
            operator_ids: node.operator_ids,
            rewards: receipt.block_fees.domain_execution_fee,
            invalid_bundle_authors: invalid_bundle_authors(
                self.inboxed_bundle_author,
                digests,
                receipt.bundle_digests@,
                digests.len() as int,
            ),
            total_storage_fee: receipt.block_fees.consensus_storage_fee,
            paid_bundle_storage_fees: paid_storage_fees(
                self.inboxed_bundle_author,
                digests,
                receipt.bundle_digests@,
                digests.len() as int,
            ),
        }
    }

    /// The height that a new head at height `number` confirms, with blocks
    /// confirmed `pruning_depth` blocks behind the head. Height zero is confirmed
    /// from the start, and no new head confirms it.
    pub open spec fn confirmed_height(
        number: DomainBlockNumber,
        pruning_depth: DomainBlockNumber,
    ) -> Option<DomainBlockNumber> {
        if number > pruning_depth {
            Some((number - pruning_depth) as u32)
        } else {
            None
        }
    }

    /// The tree before any confirmation, once `receipt` is taken as `kind` from
    /// `submitter`.
    pub open spec fn with_receipt(
        self,
        domain_id: DomainId,
        submitter: OperatorId,
        receipt: ExecutionReceipt,
        kind: AcceptedReceiptType,
    ) -> BlockTreeView {
        match kind {
            AcceptedReceiptType::NewHead => self.with_new_head(
                domain_id,
                submitter,
                receipt,
            ).with_submission(domain_id, submitter, receipt.domain_block_number),
            AcceptedReceiptType::CurrentHead => self.with_vote(submitter, receipt).with_submission(
                domain_id,
                submitter,
                receipt.domain_block_number,
            ),
        }
    }

    /// Whether taking `receipt` as `kind` fails because the tree names a receipt that
    /// it does not hold: for a vote, the receipt itself; for a new head, the receipt
    /// at the height that the new head confirms.
    pub open spec fn process_fails(
        self,
        domain_id: DomainId,
        submitter: OperatorId,
        receipt: ExecutionReceipt,
        kind: AcceptedReceiptType,
        pruning_depth: DomainBlockNumber,
    ) -> bool {
        match kind {
            AcceptedReceiptType::NewHead => {
                match Self::confirmed_height(receipt.domain_block_number, pruning_depth) {
                    Some(height) => self.with_receipt(
                        domain_id,
                        submitter,
                        receipt,
                        kind,
                    ).node_missing(domain_id, height),
                    None => false,
                }
            },
            AcceptedReceiptType::CurrentHead => !self.block_tree_nodes.contains_key(
                receipt.spec_hash(),
            ),
        }
    }

    /// Whether taking `receipt` as `kind` confirms a block.
    pub open spec fn process_confirms(
        self,
        domain_id: DomainId,
        submitter: OperatorId,
        receipt: ExecutionReceipt,
        kind: AcceptedReceiptType,
        pruning_depth: DomainBlockNumber,
    ) -> bool {
        kind == AcceptedReceiptType::NewHead && match Self::confirmed_height(
            receipt.domain_block_number,
            pruning_depth,
        ) {
            Some(height) => self.with_receipt(domain_id, submitter, receipt, kind).prunes(
                domain_id,
                height,
            ),
            None => false,
        }
    }

    /// The tree once `receipt` is taken as `kind` from `submitter`, where that does
    /// not fail.
    pub open spec fn after_process(
        self,
        domain_id: DomainId,
        submitter: OperatorId,
        receipt: ExecutionReceipt,
        kind: AcceptedReceiptType,
        pruning_depth: DomainBlockNumber,
    ) -> BlockTreeView {
        let taken = self.with_receipt(domain_id, submitter, receipt, kind);
        if self.process_confirms(domain_id, submitter, receipt, kind, pruning_depth) {
            taken.after_confirm(domain_id, (receipt.domain_block_number - pruning_depth) as u32)
        } else {
            taken
        }
    }
}

impl BlockTreeView {
    /// The tree once an old receipt at the height of a new head is pruned: where
    /// `kind` is a new head and the tree holds a receipt at `number`, that receipt is
    /// pruned.
    pub open spec fn pruned_for(
        self,
        domain_id: DomainId,
        number: DomainBlockNumber,
        kind: AcceptedReceiptType,
    ) -> BlockTreeView {
        if kind == AcceptedReceiptType::NewHead && self.prunes(domain_id, number) {
            self.after_prune(domain_id, number)
        } else {
            self
        }
    }

    /// Whether taking `receipt` as `kind`, after an old receipt at its height is
    /// pruned, fails because the tree names a receipt that it does not hold.
    pub open spec fn submission_fails(
        self,
        domain_id: DomainId,
        submitter: OperatorId,
        receipt: ExecutionReceipt,
        kind: AcceptedReceiptType,
        pruning_depth: DomainBlockNumber,
    ) -> bool {
        ||| kind == AcceptedReceiptType::NewHead && receipt.domain_block_number != 0
            && self.node_missing(domain_id, receipt.domain_block_number)
        ||| self.pruned_for(domain_id, receipt.domain_block_number, kind).process_fails(
            domain_id,
            submitter,
            receipt,
            kind,
            pruning_depth,
        )
    }

    /// Whether taking `receipt` as `kind`, after an old receipt at its height is
    /// pruned, confirms a block.
    pub open spec fn submission_confirms(
        self,
        domain_id: DomainId,
        submitter: OperatorId,
        receipt: ExecutionReceipt,
        kind: AcceptedReceiptType,
        pruning_depth: DomainBlockNumber,
    ) -> bool {
        self.pruned_for(domain_id, receipt.domain_block_number, kind).process_confirms(
            domain_id,
            submitter,
            receipt,
            kind,
            pruning_depth,
        )
    }
}

/// Whether `id` is one of `ids`.
pub fn contains_id(ids: &Vec<OperatorId>, id: OperatorId) -> (r: bool)
    ensures
        r == ids@.contains(id),
{
    let mut i: usize = 0;
    while i < ids.len()
        invariant
            i <= ids@.len(),
            forall|j: int| 0 <= j < i ==> ids@[j] != id,
        decreases ids@.len() - i,
    {
        if ids[i] == id {
            return true;
        }
        i = i + 1;
    }
    false
}

/// Takes the authors of `digests` off the record and parts them by what `flags`
/// holds of each bundle.
fn settle_bundles(
    authors: &mut Table<H256, OperatorId>,
    digests: &Vec<BundleDigest>,
    flags: &Vec<crate::receipt::InboxedBundle>,
) -> (parted: (Vec<OperatorId>, Vec<(OperatorId, u32)>))
    ensures
        final(authors)@ == old(authors)@.remove_keys(
            header_hashes(digests@, digests@.len() as int),
        ),
        parted.0@ == invalid_bundle_authors(old(authors)@, digests@, flags@, digests@.len() as int),
        parted.1@ == paid_storage_fees(old(authors)@, digests@, flags@, digests@.len() as int),
{
    let ghost start = authors@;
    let mut invalid: Vec<OperatorId> = Vec::new();
    let mut paid: Vec<(OperatorId, u32)> = Vec::new();
    let mut i: usize = 0;
    assert(start.remove_keys(header_hashes(digests@, 0)) =~= start);
    while i < digests.len()
        invariant
            i <= digests@.len(),
            authors@ == start.remove_keys(header_hashes(digests@, i as int)),
            invalid@ == invalid_bundle_authors(start, digests@, flags@, i as int),
            paid@ == paid_storage_fees(start, digests@, flags@, i as int),
        decreases digests@.len() - i,
    {
        let digest = digests[i];
        let is_invalid = i < flags.len() && flags[i].is_invalid;
        proof {
            assert(header_hashes(digests@, i + 1) =~= header_hashes(digests@, i as int).insert(
                digest.header_hash,
            )) by {
                assert forall|h: H256| header_hashes(digests@, i + 1).contains(h) implies (
                header_hashes(digests@, i as int).contains(h) || h == digest.header_hash) by {
                    let j = choose|j: int|
                        0 <= j < i + 1 && j < digests@.len() && (#[trigger] digests@[j]).header_hash
                            == h;
                    if j < i {
                        assert(digests@[j].header_hash == h);
                    }
                }
                assert(digests@[i as int].header_hash == digest.header_hash);
                assert forall|h: H256| header_hashes(digests@, i as int).contains(h) implies header_hashes(
                    digests@,
                    i + 1,
                ).contains(h) by {
                    let j = choose|j: int|
                        0 <= j < i && j < digests@.len() && (#[trigger] digests@[j]).header_hash == h;
                    assert(digests@[j].header_hash == h);
                }
            }
        }
        match authors.remove(&digest.header_hash) {
            Some(author) => {
                if is_invalid {
                    invalid.push(author);
                } else {
                    paid.push((author, digest.size));
                }
            },
            None => {},
        }
        proof {
            assert(authors@ =~= start.remove_keys(header_hashes(digests@, i + 1)));
        }
        i = i + 1;
    }
    (invalid, paid)
}

impl BlockTree {
    /// A block tree without any domain.
    pub fn new() -> (tree: BlockTree)
        ensures
            tree@ == BlockTreeView::empty(),
    {
        let tree = BlockTree {
            block_tree: Table::new(),
            block_tree_nodes: Table::new(),
            head_receipt_number: Table::new(),
            head_receipt_extended: Table::new(),
            consensus_block_hash: Table::new(),
            execution_inbox: Table::new(),
            inboxed_bundle_author: Table::new(),
            head_domain_number: Table::new(),
            latest_confirmed_domain_block: Table::new(),
            latest_submitted_er: Table::new(),
        };
        assert(tree@.block_tree_nodes =~= Map::<H256, NodeView>::empty());
        assert(tree@.execution_inbox =~= Map::<
            (DomainId, DomainBlockNumber, BlockNumber),
            Seq<BundleDigest>,
        >::empty());
        tree
    }

    /// The height of the head receipt of the domain.
    pub fn head_receipt_number(&self, domain_id: DomainId) -> (number: DomainBlockNumber)
        ensures
            number == self@.head_receipt(domain_id),
    {
        match self.head_receipt_number.get(&domain_id) {
            Some(number) => *number,
            None => 0,
        }
    }

    /// The number of the latest confirmed block of the domain.
    pub fn latest_confirmed_domain_block_number(&self, domain_id: DomainId) -> (number:
        DomainBlockNumber)
        ensures
            number == self@.latest_confirmed(domain_id),
    {
        match self.latest_confirmed_domain_block.get(&domain_id) {
            Some(block) => block.block_number,
            None => 0,
        }
    }

    /// The number of the best domain block of the domain.
    pub fn head_domain_number(&self, domain_id: DomainId) -> (number: DomainBlockNumber)
        ensures
            number == self@.head_domain(domain_id),
    {
        match self.head_domain_number.get(&domain_id) {
            Some(number) => *number,
            None => 0,
        }
    }

    /// Whether the receipt at `receipt_number` is a bad receipt that waits to be
    /// pruned.
    pub fn is_bad_er_pending_to_prune(
        &self,
        domain_id: DomainId,
        receipt_number: DomainBlockNumber,
    ) -> (pending: bool)
        ensures
            pending == self@.bad_er_pending_to_prune(domain_id, receipt_number),
    {
        if receipt_number == 0 {
            return false;
        }
        self.head_receipt_number(domain_id) < receipt_number
    }

    /// Where `execution_receipt` stands with respect to the tree of the domain.
    pub fn execution_receipt_type(
        &self,
        domain_id: DomainId,
        execution_receipt: &ExecutionReceipt,
    ) -> (receipt_type: ReceiptType)
        requires
            execution_receipt.encodable(),
        ensures
            receipt_type == self@.receipt_type(domain_id, *execution_receipt),
    {
        let number = execution_receipt.domain_block_number;
        let head = self.head_receipt_number(domain_id);
        let receipt_hash = execution_receipt.hash();
        let in_tree = match self.block_tree.get(&(domain_id, number)) {
            Some(hash) => hash.same_hash(&receipt_hash),
            None => false,
        };
        if number == head && in_tree {
            return ReceiptType::Accepted(AcceptedReceiptType::CurrentHead);
        }
        if number <= self.latest_confirmed_domain_block_number(domain_id) {
            return ReceiptType::Rejected(RejectedReceiptType::Stale);
        }
        if number - 1 > head {
            return ReceiptType::Rejected(RejectedReceiptType::InFuture);
        }
        let parent_known = match self.block_tree.get(&(domain_id, number - 1)) {
            Some(hash) => hash.same_hash(&execution_receipt.parent_domain_block_receipt_hash),
            None => false,
        };
        if !parent_known {
            return ReceiptType::Rejected(RejectedReceiptType::UnknownParent);
        }
        match self.consensus_block_hash.get(&(domain_id, execution_receipt.consensus_block_number)) {
            None => {
                return ReceiptType::Rejected(RejectedReceiptType::UnavailableConsensusBlockHash);
            },
            Some(hash) => {
                if !hash.same_hash(&execution_receipt.consensus_block_hash) {
                    return ReceiptType::Rejected(
                        RejectedReceiptType::BuiltOnUnknownConsensusBlock,
                    );
                }
            },
        }
        if number - 1 == head {
            return ReceiptType::Accepted(AcceptedReceiptType::NewHead);
        }
        if !in_tree {
            return ReceiptType::Rejected(RejectedReceiptType::NewBranch);
        }
        ReceiptType::Rejected(RejectedReceiptType::Stale)
    }

    /// Checks that the tree takes `execution_receipt`.
    pub fn verify_execution_receipt(
        &self,
        domain_id: DomainId,
        execution_receipt: &ExecutionReceipt,
    ) -> (result: Result<(), Error>)
        requires
            execution_receipt.encodable(),
        ensures
            match self@.receipt_type(domain_id, *execution_receipt) {
                ReceiptType::Accepted(_) => result == Ok::<(), Error>(()),
                ReceiptType::Rejected(rejected) => result == Err::<(), Error>(
                    rejected.spec_error(),
                ),
            },
    {
        match self.execution_receipt_type(domain_id, execution_receipt) {
            ReceiptType::Accepted(_) => Ok(()),
            ReceiptType::Rejected(rejected) => Err(rejected.error()),
        }
    }
    /// Prunes the node at the height out of the tree of the domain and hands it
    /// back. The receipt at height zero is never pruned. Nothing is pruned, and
    /// `MissingDomainBlock` is the error, where the tree names a receipt at the
    /// height that it does not hold.
    pub fn prune_receipt(&mut self, domain_id: DomainId, receipt_number: DomainBlockNumber) -> (result:
        Result<Option<BlockTreeNode>, Error>)
        ensures
            match result {
                Ok(Some(node)) => {
                    &&& old(self)@.prunes(domain_id, receipt_number)
                    &&& node@ == old(self)@.node_at(domain_id, receipt_number)
                    &&& final(self)@ == old(self)@.after_prune(domain_id, receipt_number)
                },
                Ok(None) => {
                    &&& receipt_number == 0 || !old(self)@.block_tree.contains_key(
                        (domain_id, receipt_number),
                    )
                    &&& final(self)@ == old(self)@
                },
                Err(e) => {
                    &&& e == Error::MissingDomainBlock
                    &&& receipt_number != 0
                    &&& old(self)@.node_missing(domain_id, receipt_number)
                    &&& final(self)@ == old(self)@
                },
            },
    {
        if receipt_number == 0 {
            return Ok(None);
        }
        let receipt_hash = match self.block_tree.get(&(domain_id, receipt_number)) {
            Some(hash) => *hash,
            None => {
                return Ok(None);
            },
        };
        if !self.block_tree_nodes.contains_key(&receipt_hash) {
            return Err(Error::MissingDomainBlock);
        }
        self.block_tree.remove(&(domain_id, receipt_number));
        let node = self.block_tree_nodes.remove(&receipt_hash).unwrap();
        forget_submissions(
            &mut self.latest_submitted_er,
            domain_id,
            node.execution_receipt.domain_block_number,
            &node.operator_ids,
        );
        proof {
            assert(self@.block_tree_nodes =~= old(self)@.block_tree_nodes.remove(receipt_hash));
            assert(self@.execution_inbox =~= old(self)@.execution_inbox);
        }
        Ok(Some(node))
    }
    /// Records that the operator submitted a receipt at height `number` for the
    /// domain, where that is higher than its latest submission on record.
    fn note_submission(
        &mut self,
        domain_id: DomainId,
        operator_id: OperatorId,
        number: DomainBlockNumber,
    )
        ensures
            final(self)@ == old(self)@.with_submission(domain_id, operator_id, number),
    {
        let latest = match self.latest_submitted_er.get(&(domain_id, operator_id)) {
            Some(height) => *height,
            None => 0,
        };
        if number > latest {
            self.latest_submitted_er.insert((domain_id, operator_id), number);
        }
    }

    /// Puts the receipt of block zero of a new domain into the tree, with no
    /// submitter.
    pub fn import_genesis_receipt(&mut self, domain_id: DomainId, genesis_receipt: ExecutionReceipt)
        requires
            genesis_receipt.encodable(),
        ensures
            final(self)@ == (BlockTreeView {
                block_tree: old(self)@.block_tree.insert(
                    (domain_id, genesis_receipt.domain_block_number),
                    genesis_receipt.spec_hash(),
                ),
                block_tree_nodes: old(self)@.block_tree_nodes.insert(
                    genesis_receipt.spec_hash(),
                    NodeView { execution_receipt: genesis_receipt, operator_ids: Seq::empty() },
                ),
                latest_confirmed_domain_block: old(self)@.latest_confirmed_domain_block.insert(
                    domain_id,
                    ConfirmedDomainBlock {
                        block_number: genesis_receipt.domain_block_number,
                        block_hash: genesis_receipt.domain_block_hash,
                        parent_block_receipt_hash: genesis_receipt.parent_domain_block_receipt_hash,
                        state_root: genesis_receipt.final_state_root,
                        extrinsics_root: genesis_receipt.extrinsics_root,
                    },
                ),
                ..old(self)@
            }),
    {
        let hash = genesis_receipt.hash();
        self.latest_confirmed_domain_block.insert(
            domain_id,
            ConfirmedDomainBlock {
                block_number: genesis_receipt.domain_block_number,
                block_hash: genesis_receipt.domain_block_hash,
                parent_block_receipt_hash: genesis_receipt.parent_domain_block_receipt_hash,
                state_root: genesis_receipt.final_state_root,
                extrinsics_root: genesis_receipt.extrinsics_root,
            },
        );
        self.block_tree.insert((domain_id, genesis_receipt.domain_block_number), hash);
        let node = BlockTreeNode { execution_receipt: genesis_receipt, operator_ids: Vec::new() };
        self.block_tree_nodes.insert(hash, node);
        proof {
            assert(self@.block_tree_nodes =~= old(self)@.block_tree_nodes.insert(
                hash,
                NodeView { execution_receipt: genesis_receipt, operator_ids: Seq::empty() },
            ));
            assert(self@.execution_inbox =~= old(self)@.execution_inbox);
        }
    }

    /// Adds `submitter` to the submitters of the node under `hash`.
    fn add_vote(&mut self, submitter: OperatorId, execution_receipt: &ExecutionReceipt, hash: H256)
        requires
            hash == execution_receipt.spec_hash(),
            old(self)@.block_tree_nodes.contains_key(hash),
        ensures
            final(self)@ == old(self)@.with_vote(submitter, *execution_receipt),
    {
        let mut node = self.block_tree_nodes.remove(&hash).unwrap();
        let ghost before = node@;
        if !contains_id(&node.operator_ids, submitter) {
            node.operator_ids.push(submitter);
        }
        self.block_tree_nodes.insert(hash, node);
        proof {
            assert(self@.execution_inbox =~= old(self)@.execution_inbox);
            if before.operator_ids.contains(submitter) {
                assert(self@.block_tree_nodes =~= old(self)@.block_tree_nodes);
            } else {
                assert(self@.block_tree_nodes =~= old(self)@.block_tree_nodes.insert(
                    hash,
                    NodeView { operator_ids: before.operator_ids.push(submitter), ..before },
                ));
            }
        }
    }

    /// Puts `execution_receipt` at the head of the domain, submitted by `submitter`.
    fn add_new_head(
        &mut self,
        domain_id: DomainId,
        submitter: OperatorId,
        execution_receipt: ExecutionReceipt,
        hash: H256,
    )
        requires
            hash == execution_receipt.spec_hash(),
        ensures
            final(self)@ == old(self)@.with_new_head(domain_id, submitter, execution_receipt),
    {
        let number = execution_receipt.domain_block_number;
        self.block_tree.insert((domain_id, number), hash);
        let node = BlockTreeNode { execution_receipt, operator_ids: vec![submitter] };
        assert(node.operator_ids@ =~= seq![submitter]);
        self.block_tree_nodes.insert(hash, node);
        self.head_receipt_number.insert(domain_id, number);
        self.head_receipt_extended.insert(domain_id, true);
        proof {
            assert(self@.execution_inbox =~= old(self)@.execution_inbox);
            assert(self@.block_tree_nodes =~= old(self)@.block_tree_nodes.insert(
                hash,
                NodeView { execution_receipt, operator_ids: seq![submitter] },
            ));
        }
    }

    /// Confirms the block at height `number` of the domain.
    fn confirm_domain_block(&mut self, domain_id: DomainId, number: DomainBlockNumber) -> (info:
        ConfirmedInfo)
        requires
            old(self)@.prunes(domain_id, number),
        ensures
            final(self)@ == old(self)@.after_confirm(domain_id, number),
            info@ == old(self)@.confirmed_info(domain_id, number),
    {
        let pruned = self.prune_receipt(domain_id, number);
        let node = match pruned {
            Ok(Some(node)) => node,
            _ => {
                proof {
                    assert(false);
                }
                return ConfirmedInfo {
                    domain_block_number: number,
                    operator_ids: Vec::new(),
                    rewards: 0,
                    invalid_bundle_authors: Vec::new(),
                    total_storage_fee: 0,
                    paid_bundle_storage_fees: Vec::new(),
                };
            },
        };
        let BlockTreeNode { execution_receipt, operator_ids } = node;
        let inbox_key = (domain_id, number, execution_receipt.consensus_block_number);
        let digests = match self.execution_inbox.remove(&inbox_key) {
            Some(digests) => digests,
            None => Vec::new(),
        };
        assert(digests@ == old(self)@.inbox_row(inbox_key));
        let (invalid_bundle_authors, paid_bundle_storage_fees) = settle_bundles(
            &mut self.inboxed_bundle_author,
            &digests,
            &execution_receipt.bundle_digests,
        );
        self.consensus_block_hash.remove(&(domain_id, execution_receipt.consensus_block_number));
        self.latest_confirmed_domain_block.insert(
            domain_id,
            ConfirmedDomainBlock {
                block_number: number,
                block_hash: execution_receipt.domain_block_hash,
                parent_block_receipt_hash: execution_receipt.parent_domain_block_receipt_hash,
                state_root: execution_receipt.final_state_root,
                extrinsics_root: execution_receipt.extrinsics_root,
            },
        );
        proof {
            assert(self@.execution_inbox =~= old(self)@.after_confirm(
                domain_id,
                number,
            ).execution_inbox);
            assert(self@.block_tree_nodes =~= old(self)@.after_confirm(
                domain_id,
                number,
            ).block_tree_nodes);
        }
        ConfirmedInfo {
            domain_block_number: number,
            operator_ids,
            rewards: execution_receipt.block_fees.domain_execution_fee,
            invalid_bundle_authors,
            total_storage_fee: execution_receipt.block_fees.consensus_storage_fee,
            paid_bundle_storage_fees,
        }
    }

    /// Takes an accepted receipt into the tree of the domain.
    ///
    /// A new head is added with its submitter, the head moves to it, and the block
    /// that is now `pruning_depth` blocks behind the head, if the tree holds it and
    /// it is not block zero, is confirmed: the confirmation is handed back. A receipt
    /// that is the current head gets the submitter added. Either way the submitter's
    /// latest submission is recorded. Nothing is changed, and `MissingDomainBlock` is
    /// the error, where the tree names a receipt that it does not hold.
    pub fn process_execution_receipt(
        &mut self,
        domain_id: DomainId,
        submitter: OperatorId,
        execution_receipt: ExecutionReceipt,
        receipt_type: AcceptedReceiptType,
        pruning_depth: DomainBlockNumber,
    ) -> (result: Result<Option<ConfirmedInfo>, Error>)
        requires
            execution_receipt.encodable(),
        ensures
            match result {
                Ok(confirmed) => {
                    &&& !old(self)@.process_fails(
                        domain_id,
                        submitter,
                        execution_receipt,
                        receipt_type,
                        pruning_depth,
                    )
                    &&& final(self)@ == old(self)@.after_process(
                        domain_id,
                        submitter,
                        execution_receipt,
                        receipt_type,
                        pruning_depth,
                    )
                    &&& match confirmed {
                        Some(info) => {
                            &&& old(self)@.process_confirms(
                                domain_id,
                                submitter,
                                execution_receipt,
                                receipt_type,
                                pruning_depth,
                            )
                            &&& info@ == old(self)@.with_receipt(
                                domain_id,
                                submitter,
                                execution_receipt,
                                receipt_type,
                            ).confirmed_info(
                                domain_id,
                                (execution_receipt.domain_block_number - pruning_depth) as u32,
                            )
                        },
                        None => !old(self)@.process_confirms(
                            domain_id,
                            submitter,
                            execution_receipt,
                            receipt_type,
                            pruning_depth,
                        ),
                    }
                },
                Err(e) => {
                    &&& e == Error::MissingDomainBlock
                    &&& old(self)@.process_fails(
                        domain_id,
                        submitter,
                        execution_receipt,
                        receipt_type,
                        pruning_depth,
                    )
                    &&& final(self)@ == old(self)@
                },
            },
    {
        let number = execution_receipt.domain_block_number;
        let hash = execution_receipt.hash();
        match receipt_type {
            AcceptedReceiptType::NewHead => {
                if number > pruning_depth && pruning_depth != 0 {
                    let missing = match self.block_tree.get(&(domain_id, number - pruning_depth)) {
                        Some(at_height) => !at_height.same_hash(&hash)
                            && !self.block_tree_nodes.contains_key(at_height),
                        None => false,
                    };
                    if missing {
                        return Err(Error::MissingDomainBlock);
                    }
                }
                self.add_new_head(domain_id, submitter, execution_receipt, hash);
                self.note_submission(domain_id, submitter, number);
                if number > pruning_depth {
                    let height = number - pruning_depth;
                    let holds = match self.block_tree.get(&(domain_id, height)) {
                        Some(at_height) => true,
                        None => false,
                    };
                    if holds {
                        let info = self.confirm_domain_block(domain_id, height);
                        return Ok(Some(info));
                    }
                }
                Ok(None)
            },
            AcceptedReceiptType::CurrentHead => {
                if !self.block_tree_nodes.contains_key(&hash) {
                    return Err(Error::MissingDomainBlock);
                }
                self.add_vote(submitter, &execution_receipt, hash);
                self.note_submission(domain_id, submitter, number);
                Ok(None)
            },
        }
    }
    /// Whether taking `execution_receipt` as `receipt_type`, after an old receipt at
    /// its height is pruned, fails because the tree names a receipt that it does not
    /// hold.
    pub fn submission_fails(
        &self,
        domain_id: DomainId,
        submitter: OperatorId,
        execution_receipt: &ExecutionReceipt,
        receipt_type: AcceptedReceiptType,
        pruning_depth: DomainBlockNumber,
    ) -> (fails: bool)
        requires
            execution_receipt.encodable(),
        ensures
            fails == self@.submission_fails(
                domain_id,
                submitter,
                *execution_receipt,
                receipt_type,
                pruning_depth,
            ),
    {
        let number = execution_receipt.domain_block_number;
        let hash = execution_receipt.hash();
        match receipt_type {
            AcceptedReceiptType::CurrentHead => !self.block_tree_nodes.contains_key(&hash),
            AcceptedReceiptType::NewHead => {
                let old_hash = match self.block_tree.get(&(domain_id, number)) {
                    Some(old_hash) => Some(*old_hash),
                    None => None,
                };
                let mut pruned: Option<H256> = None;
                if number != 0 {
                    match old_hash {
                        Some(old_hash) => {
                            if !self.block_tree_nodes.contains_key(&old_hash) {
                                return true;
                            }
                            pruned = Some(old_hash);
                        },
                        None => {},
                    }
                }
                if number > pruning_depth && pruning_depth != 0 {
                    match self.block_tree.get(&(domain_id, number - pruning_depth)) {
                        Some(at_height) => {
                            let held = self.block_tree_nodes.contains_key(at_height) && match pruned {
                                Some(old_hash) => !at_height.same_hash(&old_hash),
                                None => true,
                            };
                            !at_height.same_hash(&hash) && !held
                        },
                        None => false,
                    }
                } else {
                    false
                }
            },
        }
    }

    /// Whether taking `execution_receipt` as `receipt_type`, after an old receipt at
    /// its height is pruned, confirms a block. Asked of a submission that does not
    /// fail.
    pub fn submission_confirms(
        &self,
        domain_id: DomainId,
        submitter: OperatorId,
        execution_receipt: &ExecutionReceipt,
        receipt_type: AcceptedReceiptType,
        pruning_depth: DomainBlockNumber,
    ) -> (confirms: bool)
        requires
            execution_receipt.encodable(),
            !self@.submission_fails(
                domain_id,
                submitter,
                *execution_receipt,
                receipt_type,
                pruning_depth,
            ),
        ensures
            confirms == self@.submission_confirms(
                domain_id,
                submitter,
                *execution_receipt,
                receipt_type,
                pruning_depth,
            ),
    {
        let number = execution_receipt.domain_block_number;
        match receipt_type {
            AcceptedReceiptType::CurrentHead => false,
            AcceptedReceiptType::NewHead => {
                if number > pruning_depth {
                    if pruning_depth == 0 {
                        true
                    } else {
                        self.block_tree.contains_key(&(domain_id, number - pruning_depth))
                    }
                } else {
                    false
                }
            },
        }
    }
}

} // verus!
