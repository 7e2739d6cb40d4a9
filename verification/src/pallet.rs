//! The state of the chain's domains, and what can be read from it.

use crate::block_tree::{BlockTree, BlockTreeView};
use crate::bundle::{
    bundle_limit, calculate_max_bundle_weight_and_size, DomainBlockLimit, DomainBundleLimit,
};
use crate::bundle_storage_fund::{BundleStorageFund, BundleStorageFundView};
use crate::config::Config;
use crate::currency::{Currency, CurrencyView};
use crate::event::Event;
use crate::primitives::{
    AccountId, Balance, BlockNumber, DomainBlockNumber, DomainId, OperatorId, OperatorPublicKey,
    RuntimeId, Weight, H256,
};
use crate::receipt::ExecutionReceipt;
use crate::registry::{DomainRegistryError, PermissionedActionAllowedBy, Registry, RuntimeType};
use crate::staking::{Staking, StakingView};
use crate::table::Table;
use crate::tx_range::TxRangeState;
use crate::u256::{u256_max, U256};
use vstd::prelude::*;

verus! {

/// The root over no extrinsics.
pub open spec fn empty_extrinsics_root() -> H256 {
    H256 {
        w0: 0xb7b7_9775_2e0a_1703,
        w1: 0x9a13_1d39_054c_d8e3,
        w2: 0xc0d8_8687_e757_b162,
        w3: 0x1413_114c_cf9d_f282,
    }
}

/// The root over no extrinsics.
pub fn empty_extrinsic_root() -> (root: H256)
    ensures
        root == empty_extrinsics_root(),
{
    H256 {
        w0: 0xb7b7_9775_2e0a_1703,
        w1: 0x9a13_1d39_054c_d8e3,
        w2: 0xc0d8_8687_e757_b162,
        w3: 0x1413_114c_cf9d_f282,
    }
}

/// What is known of the consensus chain while a block is built.
pub struct System {
    /// The number of the block that is built.
    pub block_number: BlockNumber,
    /// The hash of its parent.
    pub parent_hash: H256,
    /// The hashes of earlier blocks, under their numbers.
    pub block_hash: Table<BlockNumber, H256>,
}

/// The knowledge of the consensus chain as a value.
pub struct SystemView {
    pub block_number: BlockNumber,
    pub parent_hash: H256,
    pub block_hash: Map<BlockNumber, H256>,
}

impl View for System {
    type V = SystemView;

    open spec fn view(&self) -> SystemView {
        SystemView {
            block_number: self.block_number,
            parent_hash: self.parent_hash,
            block_hash: self.block_hash@,
        }
    }
}

impl SystemView {
    /// The hash of the block with the number, the hash of zeros where none is on
    /// record.
    pub open spec fn hash_of_block(self, number: BlockNumber) -> H256 {
        if self.block_hash.contains_key(number) {
            self.block_hash[number]
        } else {
            H256 { w0: 0, w1: 0, w2: 0, w3: 0 }
        }
    }
}

impl System {
    /// The knowledge of the chain at its first block.
    pub fn new() -> (system: System)
        ensures
            system@.block_number == 0,
            system@.parent_hash == (H256 { w0: 0, w1: 0, w2: 0, w3: 0 }),
            system@.block_hash == Map::<BlockNumber, H256>::empty(),
    {
        System { block_number: 0, parent_hash: H256::zero(), block_hash: Table::new() }
    }

    /// The hash of the block with the number.
    pub fn hash_of_block(&self, number: BlockNumber) -> (hash: H256)
        ensures
            hash == self@.hash_of_block(number),
    {
        match self.block_hash.get(&number) {
            Some(hash) => *hash,
            None => H256::zero(),
        }
    }
}

/// What the election of a bundle producer of a domain goes by.
#[derive(Clone, Copy, Debug, PartialEq, Eq)]
pub struct BundleProducerElectionParams {
    pub total_domain_stake: Balance,
    pub bundle_slot_probability: (u64, u64),
}

/// What a domain starts from.
#[derive(Debug, PartialEq, Eq)]
pub struct DomainInstanceData {
    pub runtime_type: RuntimeType,
    /// The code of the runtime of the domain.
    pub runtime_code: Vec<u8>,
    pub domain_id: DomainId,
    /// The sum of the balances that accounts of the domain start with.
    pub total_issuance: Balance,
    /// The balances that accounts of the domain start with.
    pub initial_balances: Vec<(AccountId, Balance)>,
}

/// The state of the chain's domains.
pub struct Pallet {
    pub config: Config,
    pub system: System,
    pub currency: Currency,
    pub block_tree: BlockTree,
    pub staking: Staking,
    pub storage_fund: BundleStorageFund,
    pub registry: Registry,
    /// The hashes of the bundles taken in the current consensus block, by domain.
    pub successful_bundles: Table<DomainId, Vec<H256>>,
    /// The hashes of the fraud proofs taken in the current consensus block, by
    /// domain.
    pub successful_fraud_proofs: Table<DomainId, Vec<H256>>,
    pub domain_tx_range_state: Table<DomainId, TxRangeState>,
    /// Who may take a permissioned action.
    pub permissioned_action_allowed_by: Option<PermissionedActionAllowedBy>,
    /// What the calls told the subscribers, oldest first.
    pub events: Vec<Event>,
}

/// The state as a value.
pub struct PalletView {
    pub config: Config,
    pub system: SystemView,
    pub currency: CurrencyView,
    pub block_tree: BlockTreeView,
    pub staking: StakingView,
    pub storage_fund: BundleStorageFundView,
    pub registry: Registry,
    pub successful_bundles: Map<DomainId, Seq<H256>>,
    pub successful_fraud_proofs: Map<DomainId, Seq<H256>>,
    pub domain_tx_range_state: Map<DomainId, TxRangeState>,
    pub permissioned_action_allowed_by: Option<PermissionedActionAllowedBy>,
    pub events: Seq<Event>,
}

impl View for Pallet {
    type V = PalletView;

    open spec fn view(&self) -> PalletView {
        PalletView {
            config: self.config,
            system: self.system@,
            currency: self.currency@,
            block_tree: self.block_tree@,
            staking: self.staking@,
            storage_fund: self.storage_fund@,
            registry: self.registry,
            successful_bundles: self.successful_bundles@.map_values(|v: Vec<H256>| v@),
            successful_fraud_proofs: self.successful_fraud_proofs@.map_values(|v: Vec<H256>| v@),
            domain_tx_range_state: self.domain_tx_range_state@,
            permissioned_action_allowed_by: self.permissioned_action_allowed_by,
            events: self.events@,
        }
    }
}

/// A copy of `hashes`.
pub fn copy_hashes(hashes: &Vec<H256>) -> (copy: Vec<H256>)
    ensures
        copy@ == hashes@,
{
    let mut copy: Vec<H256> = Vec::new();
    let mut i: usize = 0;
    while i < hashes.len()
        invariant
            i <= hashes@.len(),
            copy@ == hashes@.take(i as int),
        decreases hashes@.len() - i,
    {
        copy.push(hashes[i]);
        assert(hashes@.take(i + 1) =~= hashes@.take(i as int).push(hashes@[i as int]));
        i = i + 1;
    }
    assert(hashes@.take(hashes@.len() as int) =~= hashes@);
    copy
}

/// A copy of `bytes`.
pub fn copy_bytes(bytes: &Vec<u8>) -> (copy: Vec<u8>)
    ensures
        copy@ == bytes@,
{
    let mut copy: Vec<u8> = Vec::new();
    crate::codec::put_bytes(&mut copy, bytes);
    assert(copy@ =~= bytes@);
    copy
}

/// A copy of `balances`.
pub fn copy_balances(balances: &Vec<(AccountId, Balance)>) -> (copy: Vec<(AccountId, Balance)>)
    ensures
        copy@ == balances@,
{
    let mut copy: Vec<(AccountId, Balance)> = Vec::new();
    let mut i: usize = 0;
    while i < balances.len()
        invariant
            i <= balances@.len(),
            copy@ == balances@.take(i as int),
        decreases balances@.len() - i,
    {
        copy.push((balances[i].0, balances[i].1));
        assert(balances@.take(i + 1) =~= balances@.take(i as int).push(balances@[i as int]));
        i = i + 1;
    }
    assert(balances@.take(balances@.len() as int) =~= balances@);
    copy
}

impl PalletView {
    /// The hashes of the bundles of the domain taken in the current consensus
    /// block.
    pub open spec fn bundles_of(self, domain_id: DomainId) -> Seq<H256> {
        if self.successful_bundles.contains_key(domain_id) {
            self.successful_bundles[domain_id]
        } else {
            Seq::empty()
        }
    }

    /// The hashes of the fraud proofs for the domain taken in the current consensus
    /// block.
    pub open spec fn fraud_proofs_of(self, domain_id: DomainId) -> Seq<H256> {
        if self.successful_fraud_proofs.contains_key(domain_id) {
            self.successful_fraud_proofs[domain_id]
        } else {
            Seq::empty()
        }
    }

    /// The first transaction range of a domain: the largest 256-bit number divided
    /// by the initial range of the configuration.
    pub open spec fn initial_tx_range(self) -> nat {
        u256_max() / (self.config.initial_domain_tx_range as nat)
    }

    /// The transaction range of the domain: the one on record, or the first one.
    pub open spec fn tx_range_of(self, domain_id: DomainId) -> nat {
        if self.domain_tx_range_state.contains_key(domain_id) {
            self.domain_tx_range_state[domain_id].tx_range@
        } else {
            self.initial_tx_range()
        }
    }

    /// The oldest receipt of the domain that is neither confirmed nor waiting to be
    /// pruned: the one after the latest confirmed block, if the tree holds it and it
    /// is not above the head.
    pub open spec fn oldest_unconfirmed(self, domain_id: DomainId) -> Option<DomainBlockNumber> {
        let number = if self.block_tree.latest_confirmed(domain_id) == u32::MAX {
            u32::MAX
        } else {
            (self.block_tree.latest_confirmed(domain_id) + 1) as u32
        };
        if self.block_tree.block_tree.contains_key((domain_id, number))
            && !self.block_tree.bad_er_pending_to_prune(domain_id, number) {
            Some(number)
        } else {
            None
        }
    }

    /// Whether the operator submitted a receipt for the domain that waits to be
    /// pruned: its latest receipt is above the head.
    pub open spec fn operator_pending_to_slash(
        self,
        domain_id: DomainId,
        operator_id: OperatorId,
    ) -> bool {
        let latest = self.block_tree.latest_submitted(domain_id, operator_id);
        latest != 0 && self.block_tree.head_receipt(domain_id) < latest
    }

    /// Whether the row of the inbox under `key` belongs to a block of the domain
    /// that is not confirmed and holds a bundle with extrinsics.
    pub open spec fn holds_extrinsics(
        self,
        domain_id: DomainId,
        key: (DomainId, DomainBlockNumber, BlockNumber),
    ) -> bool {
        &&& self.block_tree.execution_inbox.contains_key(key)
        &&& key.0 == domain_id
        &&& self.block_tree.latest_confirmed(domain_id) < key.1 <= self.block_tree.head_domain(
            domain_id,
        )
        &&& exists|i: int|
            0 <= i < self.block_tree.execution_inbox[key].len()
                && (#[trigger] self.block_tree.execution_inbox[key][i]).extrinsics_root
                != empty_extrinsics_root()
    }

    /// Whether a receipt of the domain that is not empty may still be challenged:
    /// the receipt of block zero is in the tree, or the inbox holds a bundle with
    /// extrinsics for a block of the domain that is not confirmed.
    pub open spec fn non_empty_er(self, domain_id: DomainId) -> bool {
        self.block_tree.block_tree.contains_key((domain_id, 0)) || exists|
            key: (DomainId, DomainBlockNumber, BlockNumber),
        | #[trigger]
            self.holds_extrinsics(domain_id, key)
    }
}

impl Pallet {
    /// The state of a chain without any domain.
    pub fn new(config: Config, storage_fee_per_byte: Balance) -> (pallet: Pallet)
        ensures
            pallet@.config == config,
            pallet@.block_tree == BlockTreeView::empty(),
            pallet@.staking == StakingView::empty(),
            pallet@.currency == CurrencyView::empty(),
            pallet@.system.block_number == 0,
            pallet@.system.parent_hash == (H256 { w0: 0, w1: 0, w2: 0, w3: 0 }),
            pallet@.system.block_hash == Map::<BlockNumber, H256>::empty(),
            pallet@.storage_fund.funds == Map::<OperatorId, Balance>::empty(),
            pallet@.storage_fund.noted_storage_fees == 0,
            pallet.registry.next_domain_id == 0,
            pallet.registry.next_runtime_id == 0,
            pallet.registry.next_evm_chain_id == 490000,
            pallet.registry.runtime_registry@.dom() == Set::<RuntimeId>::empty(),
            pallet.registry.domain_registry@.dom() == Set::<DomainId>::empty(),
            pallet.registry.scheduled_runtime_upgrades@.dom() == Set::<BlockNumber>::empty(),
            pallet@.storage_fund.storage_fee_per_byte == storage_fee_per_byte,
            pallet@.successful_bundles == Map::<DomainId, Seq<H256>>::empty(),
            pallet@.successful_fraud_proofs == Map::<DomainId, Seq<H256>>::empty(),
            pallet@.domain_tx_range_state == Map::<DomainId, TxRangeState>::empty(),
            pallet@.permissioned_action_allowed_by is None,
            pallet@.events == Seq::<Event>::empty(),
    {
        let pallet = Pallet {
            config,
            system: System::new(),
            currency: Currency::new(),
            block_tree: BlockTree::new(),
            staking: Staking::new(),
            storage_fund: BundleStorageFund::new(storage_fee_per_byte),
            registry: Registry::new(),
            successful_bundles: Table::new(),
            successful_fraud_proofs: Table::new(),
            domain_tx_range_state: Table::new(),
            permissioned_action_allowed_by: None,
            events: Vec::new(),
        };
        proof {
            assert(pallet@.successful_bundles =~= Map::<DomainId, Seq<H256>>::empty());
            assert(pallet@.successful_fraud_proofs =~= Map::<DomainId, Seq<H256>>::empty());
        }
        pallet
    }

    /// The hashes of the bundles of the domain taken in the current consensus
    /// block.
    pub fn successful_bundles(&self, domain_id: DomainId) -> (hashes: Vec<H256>)
        ensures
            hashes@ == self@.bundles_of(domain_id),
    {
        match self.successful_bundles.get(&domain_id) {
            Some(hashes) => copy_hashes(hashes),
            None => Vec::new(),
        }
    }

    /// The hashes of the fraud proofs for the domain taken in the current consensus
    /// block.
    pub fn successful_fraud_proofs(&self, domain_id: DomainId) -> (hashes: Vec<H256>)
        ensures
            hashes@ == self@.fraud_proofs_of(domain_id),
    {
        match self.successful_fraud_proofs.get(&domain_id) {
            Some(hashes) => copy_hashes(hashes),
            None => Vec::new(),
        }
    }

    /// The runtime of the domain, if the domain is registered.
    pub fn runtime_id(&self, domain_id: DomainId) -> (runtime_id: Option<RuntimeId>)
        ensures
            runtime_id == (if self.registry.domain_registry@.contains_key(domain_id) {
                Some(self.registry.domain_registry@[domain_id].domain_config.runtime_id)
            } else {
                None
            }),
    {
        match self.registry.domain_registry.get(&domain_id) {
            Some(domain) => Some(domain.domain_config.runtime_id),
            None => None,
        }
    }

    /// The code of the runtime of the domain, if the domain and its runtime are
    /// registered.
    pub fn domain_runtime_code(&self, domain_id: DomainId) -> (code: Option<Vec<u8>>)
        ensures
            match code {
                Some(code) => {
                    &&& self.registry.domain_registry@.contains_key(domain_id)
                    &&& self.registry.runtime_registry@.contains_key(
                        self.registry.domain_registry@[domain_id].domain_config.runtime_id,
                    )
                    &&& code@
                        == self.registry.runtime_registry@[self.registry.domain_registry@[domain_id].domain_config.runtime_id].raw_genesis.runtime_code@
                },
                None => !self.registry.domain_registry@.contains_key(domain_id)
                    || !self.registry.runtime_registry@.contains_key(
                    self.registry.domain_registry@[domain_id].domain_config.runtime_id,
                ),
            },
    {
        let runtime_id = match self.runtime_id(domain_id) {
            Some(runtime_id) => runtime_id,
            None => {
                return None;
            },
        };
        match self.registry.runtime_registry.get(&runtime_id) {
            Some(runtime) => Some(copy_bytes(&runtime.raw_genesis.runtime_code)),
            None => None,
        }
    }

    /// The number of the best block of the domain.
    pub fn domain_best_number(&self, domain_id: DomainId) -> (number: Option<DomainBlockNumber>)
        ensures
            number == Some(self@.block_tree.head_domain(domain_id)),
    {
        Some(self.block_tree.head_domain_number(domain_id))
    }

    /// What the domain starts from, with the block at which it was created. There
    /// is none where the domain or its runtime is not registered, or where the sum of
    /// the initial balances does not fit in a balance.
    pub fn domain_instance_data(&self, domain_id: DomainId) -> (data: Option<
        (DomainInstanceData, BlockNumber),
    >)
        ensures
            match data {
                Some((instance, created_at)) => {
                    let domain = self.registry.domain_registry@[domain_id];
                    let runtime = self.registry.runtime_registry@[domain.domain_config.runtime_id];
                    &&& self.registry.domain_registry@.contains_key(domain_id)
                    &&& self.registry.runtime_registry@.contains_key(domain.domain_config.runtime_id)
                    &&& instance.runtime_type == runtime.runtime_type
                    &&& instance.runtime_code@ == runtime.raw_genesis.runtime_code@
                    &&& instance.domain_id == domain_id
                    &&& Some(instance.total_issuance) == domain.domain_config.spec_total_issuance()
                    &&& instance.initial_balances@ == domain.domain_config.initial_balances@
                    &&& created_at == domain.created_at
                },
                None => {
                    ||| !self.registry.domain_registry@.contains_key(domain_id)
                    ||| !self.registry.runtime_registry@.contains_key(
                        self.registry.domain_registry@[domain_id].domain_config.runtime_id,
                    )
                    ||| self.registry.domain_registry@[domain_id].domain_config.spec_total_issuance()
                        is None
                },
            },
    {
        let domain = match self.registry.domain_registry.get(&domain_id) {
            Some(domain) => domain,
            None => {
                return None;
            },
        };
        let runtime = match self.registry.runtime_registry.get(&domain.domain_config.runtime_id) {
            Some(runtime) => runtime,
            None => {
                return None;
            },
        };
        let total_issuance = match domain.domain_config.total_issuance() {
            Some(total) => total,
            None => {
                return None;
            },
        };
        Some(
            (
                DomainInstanceData {
                    runtime_type: runtime.runtime_type,
                    runtime_code: copy_bytes(&runtime.raw_genesis.runtime_code),
                    domain_id,
                    total_issuance,
                    initial_balances: copy_balances(&domain.domain_config.initial_balances),
                },
                domain.created_at,
            ),
        )
    }

    /// The state root of block zero of the domain, if its receipt is in the tree.
    pub fn genesis_state_root(&self, domain_id: DomainId) -> (root: Option<H256>)
        ensures
            root == (if self@.block_tree.block_tree.contains_key((domain_id, 0))
                && self@.block_tree.block_tree_nodes.contains_key(
                self@.block_tree.block_tree[(domain_id, 0)],
            ) {
                Some(
                    self@.block_tree.block_tree_nodes[self@.block_tree.block_tree[(
                        domain_id,
                        0,
                    )]].execution_receipt.final_state_root,
                )
            } else {
                None
            }),
    {
        match self.block_tree.block_tree.get(&(domain_id, 0)) {
            Some(hash) => match self.block_tree.block_tree_nodes.get(hash) {
                Some(node) => Some(node.execution_receipt.final_state_root),
                None => None,
            },
            None => None,
        }
    }

    /// The first transaction range of a domain.
    pub fn initial_tx_range(&self) -> (range: U256)
        requires
            self.config.initial_domain_tx_range != 0,
        ensures
            range@ == self@.initial_tx_range(),
    {
        match U256::max_value().checked_div(U256::from_u64(self.config.initial_domain_tx_range)) {
            Some(range) => range,
            None => U256::max_value(),
        }
    }

    /// The transaction range of the domain.
    pub fn domain_tx_range(&self, domain_id: DomainId) -> (range: U256)
        requires
            self.config.initial_domain_tx_range != 0,
        ensures
            range@ == self@.tx_range_of(domain_id),
    {
        match self.domain_tx_range_state.get(&domain_id) {
            Some(state) => state.tx_range,
            None => self.initial_tx_range(),
        }
    }

    /// What the election of a bundle producer of the domain goes by, if the domain
    /// is registered and has a staking summary.
    pub fn bundle_producer_election_params(&self, domain_id: DomainId) -> (params: Option<
        BundleProducerElectionParams,
    >)
        ensures
            params == (if self.registry.domain_registry@.contains_key(domain_id)
                && self@.staking.domain_staking_summary.contains_key(domain_id) {
                Some(
                    BundleProducerElectionParams {
                        total_domain_stake: self@.staking.domain_staking_summary[domain_id].current_total_stake,
                        bundle_slot_probability: self.registry.domain_registry@[domain_id].domain_config.bundle_slot_probability,
                    },
                )
            } else {
                None
            }),
    {
        match (
            self.registry.domain_registry.get(&domain_id),
            self.staking.domain_staking_summary.get(&domain_id),
        ) {
            (Some(domain), Some(summary)) => Some(
                BundleProducerElectionParams {
                    total_domain_stake: summary.current_total_stake,
                    bundle_slot_probability: domain.domain_config.bundle_slot_probability,
                },
            ),
            _ => None,
        }
    }

    /// The signing key and the stake of the operator, if it is on record.
    pub fn operator(&self, operator_id: OperatorId) -> (operator: Option<
        (OperatorPublicKey, Balance),
    >)
        ensures
            operator == (if self@.staking.operators.contains_key(operator_id) {
                Some(
                    (
                        self@.staking.operators[operator_id].signing_key,
                        self@.staking.operators[operator_id].current_total_stake,
                    ),
                )
            } else {
                None
            }),
    {
        match self.staking.operators.get(&operator_id) {
            Some(operator) => Some((operator.signing_key, operator.current_total_stake)),
            None => None,
        }
    }

    /// The height of the head receipt of the domain.
    pub fn head_receipt_number(&self, domain_id: DomainId) -> (number: DomainBlockNumber)
        ensures
            number == self@.block_tree.head_receipt(domain_id),
    {
        self.block_tree.head_receipt_number(domain_id)
    }

    /// The oldest receipt of the domain that is neither confirmed nor waiting to be
    /// pruned, if there is one.
    pub fn oldest_unconfirmed_receipt_number(&self, domain_id: DomainId) -> (number: Option<
        DomainBlockNumber,
    >)
        ensures
            number == self@.oldest_unconfirmed(domain_id),
    {
        let confirmed = self.block_tree.latest_confirmed_domain_block_number(domain_id);
        let oldest = if confirmed == u32::MAX {
            u32::MAX
        } else {
            confirmed + 1
        };
        let exists = self.block_tree.block_tree.contains_key(&(domain_id, oldest));
        let pending = self.block_tree.is_bad_er_pending_to_prune(domain_id, oldest);
        if exists && !pending {
            Some(oldest)
        } else {
            None
        }
    }

    /// The number of the latest confirmed block of the domain. Block zero is
    /// confirmed from the start.
    pub fn latest_confirmed_domain_block_number(&self, domain_id: DomainId) -> (number:
        DomainBlockNumber)
        ensures
            number == self@.block_tree.latest_confirmed(domain_id),
    {
        self.block_tree.latest_confirmed_domain_block_number(domain_id)
    }

    /// The number and the hash of the latest confirmed block of the domain, if one
    /// is on record.
    pub fn latest_confirmed_domain_block(&self, domain_id: DomainId) -> (block: Option<
        (DomainBlockNumber, H256),
    >)
        ensures
            block == (if self@.block_tree.latest_confirmed_domain_block.contains_key(domain_id) {
                Some(
                    (
                        self@.block_tree.latest_confirmed_domain_block[domain_id].block_number,
                        self@.block_tree.latest_confirmed_domain_block[domain_id].block_hash,
                    ),
                )
            } else {
                None
            }),
    {
        match self.block_tree.latest_confirmed_domain_block.get(&domain_id) {
            Some(block) => Some((block.block_number, block.block_hash)),
            None => None,
        }
    }

    /// The limits of a block of the domain, if the domain is registered.
    pub fn domain_block_limit(&self, domain_id: DomainId) -> (limit: Option<DomainBlockLimit>)
        ensures
            limit == (if self.registry.domain_registry@.contains_key(domain_id) {
                Some(
                    DomainBlockLimit {
                        max_block_size: self.registry.domain_registry@[domain_id].domain_config.max_block_size,
                        max_block_weight: self.registry.domain_registry@[domain_id].domain_config.max_block_weight,
                    },
                )
            } else {
                None
            }),
    {
        match self.registry.domain_registry.get(&domain_id) {
            Some(domain) => Some(
                DomainBlockLimit {
                    max_block_size: domain.domain_config.max_block_size,
                    max_block_weight: domain.domain_config.max_block_weight,
                },
            ),
            None => None,
        }
    }

    /// The limits of a bundle of the domain: none where the domain is not
    /// registered, and an error where no limit can be calculated for it.
    pub fn domain_bundle_limit(&self, domain_id: DomainId) -> (result: Result<
        Option<DomainBundleLimit>,
        DomainRegistryError,
    >)
        ensures
            result == (if !self.registry.domain_registry@.contains_key(domain_id) {
                Ok::<Option<DomainBundleLimit>, DomainRegistryError>(None)
            } else {
                let config = self.registry.domain_registry@[domain_id].domain_config;
                match bundle_limit(
                    config.max_block_size,
                    config.max_block_weight,
                    self.config.consensus_slot_probability,
                    config.bundle_slot_probability,
                ) {
                    Some(limit) => Ok(Some(limit)),
                    None => Err(DomainRegistryError::BundleLimitCalculationOverflow),
                }
            }),
    {
        let domain = match self.registry.domain_registry.get(&domain_id) {
            Some(domain) => domain,
            None => {
                return Ok(None);
            },
        };
        match calculate_max_bundle_weight_and_size(
            domain.domain_config.max_block_size,
            domain.domain_config.max_block_weight,
            self.config.consensus_slot_probability,
            domain.domain_config.bundle_slot_probability,
        ) {
            Some(limit) => Ok(Some(limit)),
            None => Err(DomainRegistryError::BundleLimitCalculationOverflow),
        }
    }

    /// The receipt under the hash, if the tree holds it.
    pub fn execution_receipt(&self, receipt_hash: &H256) -> (receipt: Option<&ExecutionReceipt>)
        ensures
            match receipt {
                Some(receipt) => self@.block_tree.block_tree_nodes.contains_key(*receipt_hash)
                    && *receipt
                    == self@.block_tree.block_tree_nodes[*receipt_hash].execution_receipt,
                None => !self@.block_tree.block_tree_nodes.contains_key(*receipt_hash),
            },
    {
        match self.block_tree.block_tree_nodes.get(receipt_hash) {
            Some(node) => Some(&node.execution_receipt),
            None => None,
        }
    }

    /// The hash of the receipt of the domain at the height, if the tree holds one.
    pub fn receipt_hash(&self, domain_id: DomainId, domain_number: DomainBlockNumber) -> (hash:
        Option<H256>)
        ensures
            hash == (if self@.block_tree.block_tree.contains_key((domain_id, domain_number)) {
                Some(self@.block_tree.block_tree[(domain_id, domain_number)])
            } else {
                None
            }),
    {
        match self.block_tree.block_tree.get(&(domain_id, domain_number)) {
            Some(hash) => Some(*hash),
            None => None,
        }
    }

    /// Whether the receipt at `receipt_number` is a bad receipt that waits to be
    /// pruned.
    pub fn is_bad_er_pending_to_prune(
        &self,
        domain_id: DomainId,
        receipt_number: DomainBlockNumber,
    ) -> (pending: bool)
        ensures
            pending == self@.block_tree.bad_er_pending_to_prune(domain_id, receipt_number),
    {
        self.block_tree.is_bad_er_pending_to_prune(domain_id, receipt_number)
    }

    /// Whether the operator submitted a receipt for the domain that waits to be
    /// pruned.
    pub fn is_operator_pending_to_slash(&self, domain_id: DomainId, operator_id: OperatorId) -> (pending:
        bool)
        ensures
            pending == self@.operator_pending_to_slash(domain_id, operator_id),
    {
        let latest = match self.block_tree.latest_submitted_er.get(&(domain_id, operator_id)) {
            Some(number) => *number,
            None => 0,
        };
        if latest == 0 {
            return false;
        }
        self.block_tree.head_receipt_number(domain_id) < latest
    }

    /// The largest weight that submitting a bundle may take.
    pub fn max_submit_bundle_weight(&self) -> (weight: Weight)
        ensures
            weight == self.config.spec_max_submit_bundle_weight(),
    {
        self.config.max_submit_bundle_weight()
    }

    /// The largest weight that a staking epoch transition may take.
    pub fn max_staking_epoch_transition(&self) -> (weight: Weight)
        ensures
            weight == self.config.spec_max_staking_epoch_transition(),
    {
        self.config.max_staking_epoch_transition()
    }

    /// What is in the storage fund of the operator.
    pub fn storage_fund_account_balance(&self, operator_id: OperatorId) -> (balance: Balance)
        ensures
            balance == self@.storage_fund.balance(operator_id),
    {
        self.storage_fund.storage_fund_account_balance(operator_id)
    }

    /// Whether the account owns the domain.
    pub fn is_domain_owner(&self, domain_id: DomainId, account: AccountId) -> (r: bool)
        ensures
            r == (self.registry.domain_registry@.contains_key(domain_id)
                && self.registry.domain_registry@[domain_id].owner_account_id == account),
    {
        self.registry.is_domain_owner(domain_id, &account)
    }

    /// Whether a receipt of the domain that is not empty may still be challenged.
    pub fn non_empty_er_exists(&self, domain_id: DomainId) -> (r: bool)
        ensures
            r == self@.non_empty_er(domain_id),
    {
        if self.block_tree.block_tree.contains_key(&(domain_id, 0)) {
            return true;
        }
        let confirmed = self.block_tree.latest_confirmed_domain_block_number(domain_id);
        let head = self.block_tree.head_domain_number(domain_id);
        let n = self.block_tree.execution_inbox.len();
        let ghost keys = self.block_tree.execution_inbox.keys();
        let mut i: usize = 0;
        while i < n
            invariant
                i <= n,
                n == keys.len(),
                keys == self.block_tree.execution_inbox.keys(),
                confirmed == self@.block_tree.latest_confirmed(domain_id),
                head == self@.block_tree.head_domain(domain_id),
                forall|k: (DomainId, DomainBlockNumber, BlockNumber)|
                    keys.contains(k) <==> self.block_tree.execution_inbox@.contains_key(k),
                forall|j: int| 0 <= j < i ==> !self@.holds_extrinsics(domain_id, #[trigger] keys[j]),
            decreases n - i,
        {
            let key = self.block_tree.execution_inbox.key_at(i);
            if key.0 == domain_id && confirmed < key.1 && key.1 <= head {
                let digests = match self.block_tree.execution_inbox.get(key) {
                    Some(digests) => digests,
                    None => {
                        proof {
                            assert(false);
                        }
                        return false;
                    },
                };
                assert(digests@ == self@.block_tree.execution_inbox[*key]);
                let mut j: usize = 0;
                while j < digests.len()
                    invariant
                        j <= digests@.len(),
                        self@.block_tree.execution_inbox.contains_key(*key),
                        digests@ == self@.block_tree.execution_inbox[*key],
                        key.0 == domain_id,
                        self@.block_tree.latest_confirmed(domain_id) < key.1
                            <= self@.block_tree.head_domain(domain_id),
                        forall|m: int|
                            0 <= m < j ==> (#[trigger] digests@[m]).extrinsics_root
                                == empty_extrinsics_root(),
                    decreases digests@.len() - j,
                {
                    if !digests[j].extrinsics_root.same_hash(&empty_extrinsic_root()) {
                        assert(self@.block_tree.execution_inbox[*key][j as int].extrinsics_root
                            != empty_extrinsics_root());
                        assert(self@.holds_extrinsics(domain_id, *key));
                        return true;
                    }
                    j = j + 1;
                }
            }
            i = i + 1;
        }
        proof {
            assert forall|k: (DomainId, DomainBlockNumber, BlockNumber)|
                !self@.holds_extrinsics(domain_id, k) by {
                if self@.block_tree.execution_inbox.contains_key(k) {
                    assert(keys.contains(k));
                    let j = choose|j: int| 0 <= j < keys.len() && keys[j] == k;
                    assert(!self@.holds_extrinsics(domain_id, keys[j]));
                }
            }
        }
        false
    }
}

} // verus!
