//! The signed calls and the calls of the chain itself.

use crate::currency::HoldIdentifier;
use crate::error::{ensure_root, ensure_signed, DispatchError, Error, Origin};
use crate::event::Event;
use crate::nomination::{
    count_of, do_deregister_operator, do_nominate_operator, do_register_operator, do_unlock_funds,
    do_unlock_operator, do_withdraw_stake, storage_fee_deposit, storage_fee_part, Ledger,
};
use crate::pallet::{empty_extrinsic_root, empty_extrinsics_root, Pallet, PalletView};
use crate::primitives::{
    AccountId, Balance, BlockNumber, DomainId, OperatorId, RuntimeId, Share, Weight, H256,
};
use crate::receipt::{BlockFees, ExecutionReceipt, Transfers};
use crate::registry::{
    DomainConfig, DomainObject, DomainRegistryError, DomainRuntimeInfo, OperatorAllowList,
    PermissionedActionAllowedBy, RawGenesis, RuntimeObject, RuntimeType,
};
use crate::settlement::epoch_transition_weight;
use crate::staking::{OperatorConfig, StakingSummary, StakingSummaryView, StakingView};
use crate::table::{IdSet, Table};
use std::collections::BTreeMap;
use vstd::prelude::*;

verus! {

broadcast use vstd::std_specs::btree::group_btree_axioms;

/// Whether `receipt` is the receipt of block zero of a domain that starts from the
/// state root `state_root`, with the block hash `block_hash`.
pub open spec fn is_genesis_receipt(receipt: ExecutionReceipt, state_root: H256, block_hash: H256) -> bool {
    &&& receipt.domain_block_number == 0
    &&& receipt.domain_block_hash == block_hash
    &&& receipt.extrinsics_root == empty_extrinsics_root()
    &&& receipt.inherent_extrinsics_root == empty_extrinsics_root()
    &&& receipt.parent_domain_block_receipt_hash == (H256 { w0: 0, w1: 0, w2: 0, w3: 0 })
    &&& receipt.consensus_block_number == 0
    &&& receipt.consensus_block_hash == (H256 { w0: 0, w1: 0, w2: 0, w3: 0 })
    &&& receipt.bundle_digests@.len() == 0
    &&& receipt.final_state_root == state_root
    &&& receipt.execution_trace@.len() == 0
    &&& receipt.block_fees == (BlockFees { consensus_storage_fee: 0, domain_execution_fee: 0 })
    &&& receipt.transfers == (Transfers {
        transfers_in: 0,
        transfers_out: 0,
        rejected_transfers_claimed: 0,
        transfers_rejected: 0,
    })
}

/// The receipt of block zero of a domain that starts from the state root
/// `state_root`, with the block hash `block_hash`.
pub fn genesis_receipt(state_root: H256, block_hash: H256) -> (receipt: ExecutionReceipt)
    ensures
        is_genesis_receipt(receipt, state_root, block_hash),
        receipt.encodable(),
{
    ExecutionReceipt {
        domain_block_number: 0,
        domain_block_hash: block_hash,
        extrinsics_root: empty_extrinsic_root(),
        inherent_extrinsics_root: empty_extrinsic_root(),
        parent_domain_block_receipt_hash: H256::zero(),
        consensus_block_number: 0,
        consensus_block_hash: H256::zero(),
        bundle_digests: Vec::new(),
        final_state_root: state_root,
        execution_trace: Vec::new(),
        block_fees: BlockFees { consensus_storage_fee: 0, domain_execution_fee: 0 },
        transfers: Transfers {
            transfers_in: 0,
            transfers_out: 0,
            rejected_transfers_claimed: 0,
            transfers_rejected: 0,
        },
    }
}

impl PalletView {
    /// The staking ledger, the balances and the storage funds of the state.
    pub open spec fn ledger(self) -> Ledger {
        Ledger { staking: self.staking, currency: self.currency, storage_fund: self.storage_fund }
    }

    /// The state with the staking ledger, the balances and the storage funds of
    /// `ledger`.
    pub open spec fn with_ledger(self, ledger: Ledger) -> PalletView {
        PalletView {
            staking: ledger.staking,
            currency: ledger.currency,
            storage_fund: ledger.storage_fund,
            ..self
        }
    }

    /// The state with one more event.
    pub open spec fn with_event(self, event: Event) -> PalletView {
        PalletView { events: self.events.push(event), ..self }
    }

    /// Whether the domain allows the account to operate on it.
    pub open spec fn operator_allowed(self, domain_id: DomainId, who: AccountId) -> bool {
        self.registry.domain_registry@.contains_key(domain_id)
            && self.registry.domain_registry@[domain_id].domain_config.operator_allow_list.allows(
            who,
        )
    }

    /// Whether the account may take a permissioned action.
    pub open spec fn permissioned_action_allowed(self, who: AccountId) -> bool {
        match self.permissioned_action_allowed_by {
            Some(allowed_by) => allowed_by.allows(who),
            None => false,
        }
    }

    /// Whether a domain with the runtime takes a chain identifier: the runtime is of
    /// the EVM kind.
    pub open spec fn takes_evm_chain_id(self, runtime_id: RuntimeId) -> bool {
        self.registry.runtime_registry@.contains_key(runtime_id)
            && self.registry.runtime_registry@[runtime_id].runtime_type == RuntimeType::Evm
    }

    /// What a new domain with the runtime has for the kind of its runtime: the next
    /// chain identifier, where the runtime is of the EVM kind.
    pub open spec fn runtime_info_for(self, runtime_id: RuntimeId) -> DomainRuntimeInfo {
        if self.takes_evm_chain_id(runtime_id) {
            DomainRuntimeInfo::Evm { chain_id: self.registry.next_evm_chain_id }
        } else {
            DomainRuntimeInfo::AutoId
        }
    }

    /// Whether `after` is the state after the account `who` created a domain with
    /// the configuration at the block `created_at`: the domain has the next
    /// identifier and is in the registry; the receipt of its block zero, which starts
    /// from the state root `state_root` and has the block hash `block_hash`, is in
    /// the tree under its hash, with no submitter, and block zero is the latest
    /// confirmed block of the domain; the domain has a staking summary without
    /// operators, in epoch zero; and the deposit for a domain is held of the account.
    pub open spec fn instantiated(
        self,
        after: PalletView,
        who: AccountId,
        domain_config: DomainConfig,
        created_at: BlockNumber,
        state_root: H256,
        block_hash: H256,
    ) -> bool {
        let domain_id = self.registry.next_domain_id;
        let receipt_hash = after.registry.domain_registry@[domain_id].genesis_receipt_hash;
        &&& after.registry.next_domain_id == domain_id + 1
        &&& after.registry.domain_registry@ == self.registry.domain_registry@.insert(
            domain_id,
            DomainObject {
                owner_account_id: who,
                created_at,
                genesis_receipt_hash: receipt_hash,
                domain_config,
                domain_runtime_info: self.runtime_info_for(domain_config.runtime_id),
            },
        )
        &&& after.registry.runtime_registry == self.registry.runtime_registry
        &&& after.registry.scheduled_runtime_upgrades == self.registry.scheduled_runtime_upgrades
        &&& after.registry.next_runtime_id == self.registry.next_runtime_id
        &&& after.registry.next_evm_chain_id == (if self.takes_evm_chain_id(
            domain_config.runtime_id,
        ) {
            (self.registry.next_evm_chain_id + 1) as u64
        } else {
            self.registry.next_evm_chain_id
        })
        &&& after.block_tree.block_tree == self.block_tree.block_tree.insert(
            (domain_id, 0),
            receipt_hash,
        )
        &&& after.block_tree.block_tree_nodes.contains_key(receipt_hash)
        &&& is_genesis_receipt(
            after.block_tree.block_tree_nodes[receipt_hash].execution_receipt,
            state_root,
            block_hash,
        )
        &&& receipt_hash == after.block_tree.block_tree_nodes[receipt_hash].execution_receipt.spec_hash()
        &&& after.block_tree.block_tree_nodes[receipt_hash].operator_ids.len() == 0
        &&& after.block_tree.block_tree_nodes.remove(receipt_hash)
            == self.block_tree.block_tree_nodes.remove(receipt_hash)
        &&& after.block_tree.latest_confirmed(domain_id) == 0
        &&& after.block_tree.latest_confirmed_domain_block.contains_key(domain_id)
        &&& after.block_tree.latest_confirmed_domain_block[domain_id].state_root == state_root
        &&& after.block_tree.latest_confirmed_domain_block[domain_id].block_hash == block_hash
        &&& after.block_tree.latest_confirmed_domain_block.remove(domain_id)
            == self.block_tree.latest_confirmed_domain_block.remove(domain_id)
        &&& after.block_tree.head_receipt_number == self.block_tree.head_receipt_number
        &&& after.block_tree.head_domain_number == self.block_tree.head_domain_number
        &&& after.block_tree.execution_inbox == self.block_tree.execution_inbox
        &&& after.block_tree.inboxed_bundle_author == self.block_tree.inboxed_bundle_author
        &&& after.block_tree.consensus_block_hash == self.block_tree.consensus_block_hash
        &&& after.block_tree.latest_submitted_er == self.block_tree.latest_submitted_er
        &&& after.block_tree.head_receipt_extended == self.block_tree.head_receipt_extended
        &&& after == (PalletView {
            registry: after.registry,
            block_tree: after.block_tree,
            currency: self.currency.with_hold(
                HoldIdentifier::DomainInstantiation(domain_id),
                who,
                self.config.domain_instantiation_deposit,
            ),
            staking: StakingView {
                domain_staking_summary: self.staking.domain_staking_summary.insert(
                    domain_id,
                    StakingSummaryView {
                        current_epoch_index: 0,
                        current_total_stake: 0,
                        current_operators: Map::empty(),
                        next_operators: Seq::empty(),
                        current_epoch_rewards: Map::empty(),
                        rewarded: Seq::empty(),
                    },
                ),
                ..self.staking
            },
            ..self
        })
    }

    /// Why the account cannot create a domain with the configuration, if it cannot.
    pub open spec fn instantiate_error(self, who: AccountId, domain_config: DomainConfig) -> Option<
        DomainRegistryError,
    > {
        if domain_config.domain_name@.len() > self.config.max_domain_name_length {
            Some(DomainRegistryError::DomainNameTooLong)
        } else if !self.registry.runtime_registry@.contains_key(domain_config.runtime_id) {
            Some(DomainRegistryError::RuntimeNotFound)
        } else if domain_config.max_block_size > self.config.max_domain_block_size {
            Some(DomainRegistryError::ExceedMaxDomainBlockSize)
        } else if domain_config.max_block_weight.ref_time
            > self.config.max_domain_block_weight.ref_time {
            Some(DomainRegistryError::ExceedMaxDomainBlockWeight)
        } else if domain_config.target_bundles_per_block == 0
            || domain_config.target_bundles_per_block > self.config.max_bundles_per_block {
            Some(DomainRegistryError::InvalidBundlesPerBlock)
        } else if domain_config.bundle_slot_probability.0 == 0
            || domain_config.bundle_slot_probability.1 == 0
            || domain_config.bundle_slot_probability.0 > domain_config.bundle_slot_probability.1 {
            Some(DomainRegistryError::InvalidSlotProbability)
        } else if domain_config.initial_balances@.len() > self.config.max_initial_domain_accounts {
            Some(DomainRegistryError::MaxInitialDomainAccounts)
        } else if crate::registry::has_balance_below(
            domain_config.initial_balances@,
            self.config.min_initial_domain_account_balance,
        ) {
            Some(DomainRegistryError::MinInitialAccountBalance)
        } else if !self.currency.can_hold(
            HoldIdentifier::DomainInstantiation(self.registry.next_domain_id),
            who,
            self.config.domain_instantiation_deposit,
        ) {
            Some(DomainRegistryError::InsufficientFund)
        } else if self.registry.next_domain_id == u32::MAX {
            Some(DomainRegistryError::MaxDomainId)
        } else if self.takes_evm_chain_id(domain_config.runtime_id) && self.registry.next_evm_chain_id
            == u64::MAX {
            Some(DomainRegistryError::MaxEVMChainId)
        } else {
            None
        }
    }
}

impl Pallet {
    /// Registers a domain runtime on behalf of the chain.
    pub fn register_domain_runtime(
        &mut self,
        origin: Origin,
        runtime_name: String,
        runtime_type: RuntimeType,
        raw_genesis: RawGenesis,
    ) -> (result: Result<(), DispatchError>)
        ensures
            match result {
                Ok(()) => {
                    let runtime_id = old(self).registry.next_runtime_id;
                    &&& origin == Origin::Root
                    &&& runtime_id < u32::MAX
                    &&& final(self).registry.next_runtime_id == runtime_id + 1
                    &&& final(self).registry.runtime_registry@ == old(self).registry.runtime_registry@.insert(
                        runtime_id,
                        RuntimeObject {
                            runtime_name,
                            runtime_type,
                            raw_genesis,
                            created_at: old(self)@.system.block_number,
                            updated_at: old(self)@.system.block_number,
                        },
                    )
                    &&& final(self).registry.domain_registry == old(self).registry.domain_registry
                    &&& final(self).registry.scheduled_runtime_upgrades == old(self).registry.scheduled_runtime_upgrades
                    &&& final(self).registry.next_domain_id == old(self).registry.next_domain_id
                    &&& final(self).registry.next_evm_chain_id == old(self).registry.next_evm_chain_id
                    &&& final(self)@ == (PalletView {
                        registry: final(self).registry,
                        events: old(self)@.events.push(
                            Event::DomainRuntimeCreated { runtime_id, runtime_type },
                        ),
                        ..old(self)@
                    })
                },
                Err(e) => {
                    &&& final(self)@ == old(self)@
                    &&& e == (if origin != Origin::Root {
                        DispatchError::BadOrigin
                    } else {
                        DispatchError::Module(
                            Error::RuntimeRegistry(
                                crate::registry::RuntimeRegistryError::MaxRuntimeId,
                            ),
                        )
                    })
                    &&& origin == Origin::Root ==> old(self).registry.next_runtime_id == u32::MAX
                },
            },
    {
        match ensure_root(origin) {
            Ok(()) => {},
            Err(e) => {
                return Err(e);
            },
        }
        let block_number = self.system.block_number;
        let runtime_id = match self.registry.do_register_runtime(
            runtime_name,
            runtime_type,
            raw_genesis,
            block_number,
        ) {
            Ok(runtime_id) => runtime_id,
            Err(e) => {
                return Err(DispatchError::Module(Error::RuntimeRegistry(e)));
            },
        };
        self.events.push(Event::DomainRuntimeCreated { runtime_id, runtime_type });
        Ok(())
    }

    /// Schedules an upgrade of a domain runtime on behalf of the chain. The upgrade
    /// is applied when the block that is the configured delay after the block that is
    /// built begins.
    pub fn upgrade_domain_runtime(
        &mut self,
        origin: Origin,
        runtime_id: RuntimeId,
        raw_genesis: RawGenesis,
    ) -> (result: Result<(), DispatchError>)
        ensures
            match result {
                Ok(()) => {
                    let scheduled_at = (old(self)@.system.block_number + old(self)@.config.domain_runtime_upgrade_delay) as u32;
                    &&& origin == Origin::Root
                    &&& old(self).registry.runtime_registry@.contains_key(runtime_id)
                    &&& old(self)@.system.block_number + old(self)@.config.domain_runtime_upgrade_delay <= u32::MAX
                    &&& !old(self).registry.upgrade_scheduled(scheduled_at, runtime_id)
                    &&& final(self).registry.upgrade_scheduled(scheduled_at, runtime_id)
                    &&& final(self).registry.scheduled_runtime_upgrades@[scheduled_at]@[runtime_id].raw_genesis
                        == raw_genesis
                    &&& final(self).registry.runtime_registry == old(self).registry.runtime_registry
                    &&& final(self).registry.domain_registry == old(self).registry.domain_registry
                    &&& final(self)@ == (PalletView {
                        registry: final(self).registry,
                        events: old(self)@.events.push(
                            Event::DomainRuntimeUpgradeScheduled { runtime_id, scheduled_at },
                        ),
                        ..old(self)@
                    })
                },
                Err(e) => {
                    &&& final(self)@ == old(self)@
                    &&& e == (if origin != Origin::Root {
                        DispatchError::BadOrigin
                    } else if !old(self).registry.runtime_registry@.contains_key(runtime_id) {
                        DispatchError::Module(
                            Error::RuntimeRegistry(
                                crate::registry::RuntimeRegistryError::MissingRuntimeObject,
                            ),
                        )
                    } else if old(self)@.system.block_number + old(self)@.config.domain_runtime_upgrade_delay > u32::MAX {
                        DispatchError::Module(
                            Error::RuntimeRegistry(
                                crate::registry::RuntimeRegistryError::MaxScheduledBlockNumber,
                            ),
                        )
                    } else {
                        DispatchError::Module(
                            Error::RuntimeRegistry(
                                crate::registry::RuntimeRegistryError::RuntimeUpgradeAlreadyScheduled,
                            ),
                        )
                    })
                    &&& origin == Origin::Root && old(self).registry.runtime_registry@.contains_key(
                        runtime_id,
                    ) && old(self)@.system.block_number + old(self)@.config.domain_runtime_upgrade_delay
                        <= u32::MAX ==> old(self).registry.upgrade_scheduled(
                        (old(self)@.system.block_number + old(self)@.config.domain_runtime_upgrade_delay) as u32,
                        runtime_id,
                    )
                },
            },
    {
        match ensure_root(origin) {
            Ok(()) => {},
            Err(e) => {
                return Err(e);
            },
        }
        let block_number = self.system.block_number;
        let delay = self.config.domain_runtime_upgrade_delay;
        let scheduled_at = match self.registry.do_schedule_runtime_upgrade(
            runtime_id,
            raw_genesis,
            block_number,
            delay,
        ) {
            Ok(scheduled_at) => scheduled_at,
            Err(e) => {
                return Err(DispatchError::Module(Error::RuntimeRegistry(e)));
            },
        };
        self.events.push(Event::DomainRuntimeUpgradeScheduled { runtime_id, scheduled_at });
        Ok(())
    }

    /// Registers an operator of the signer on the domain with a deposit of `amount`,
    /// and tells of the part of the deposit that goes to the storage fund. Where the
    /// domain is in its first epoch, that epoch ends at once, so that the operator can
    /// produce bundles.
    pub fn register_operator(
        &mut self,
        origin: Origin,
        domain_id: DomainId,
        amount: Balance,
        config: OperatorConfig,
    ) -> (result: Result<(), DispatchError>)
        requires
            old(self).config.storage_fee_reserve <= 100,
        ensures
            match result {
                Ok(()) => {
                    let owner = origin->Signed_0;
                    let registered = old(self)@.with_ledger(
                        old(self)@.ledger().after_register(
                            old(self)@.config,
                            owner,
                            domain_id,
                            amount,
                            config,
                        ),
                    ).with_event(
                        Event::StorageFeeDeposited {
                            operator_id: old(self)@.staking.next_operator_id,
                            nominator_id: owner,
                            amount: storage_fee_part(old(self)@.config, amount),
                        },
                    ).with_event(
                        Event::OperatorRegistered {
                            operator_id: old(self)@.staking.next_operator_id,
                            domain_id,
                        },
                    );
                    &&& origin is Signed
                    &&& old(self)@.ledger().register_error(
                        old(self)@.config,
                        old(self)@.operator_allowed(domain_id, owner),
                        owner,
                        domain_id,
                        amount,
                        config,
                    ) is None
                    &&& final(self)@ == (if old(self)@.staking.current_epoch(domain_id) == Some(
                        0u32,
                    ) {
                        registered.with_epoch_ended(domain_id)
                    } else {
                        registered
                    })
                },
                Err(e) => {
                    &&& final(self)@ == old(self)@
                    &&& e == (match origin {
                        Origin::Signed(owner) => DispatchError::Module(
                            Error::Staking(
                                old(self)@.ledger().register_error(
                                    old(self)@.config,
                                    old(self)@.operator_allowed(domain_id, owner),
                                    owner,
                                    domain_id,
                                    amount,
                                    config,
                                ).unwrap(),
                            ),
                        ),
                        _ => DispatchError::BadOrigin,
                    })
                    &&& origin matches Origin::Signed(owner) ==> old(self)@.ledger().register_error(
                        old(self)@.config,
                        old(self)@.operator_allowed(domain_id, owner),
                        owner,
                        domain_id,
                        amount,
                        config,
                    ) is Some
                },
            },
    {
        let owner = match ensure_signed(origin) {
            Ok(owner) => owner,
            Err(e) => {
                return Err(e);
            },
        };
        let allowed = match self.registry.domain_registry.get(&domain_id) {
            Some(domain) => domain.domain_config.operator_allow_list.is_operator_allowed(&owner),
            None => false,
        };
        let (operator_id, current_epoch_index) = match do_register_operator(
            &mut self.staking,
            &mut self.currency,
            &mut self.storage_fund,
            &self.config,
            allowed,
            owner,
            domain_id,
            amount,
            config,
        ) {
            Ok(registered) => registered,
            Err(e) => {
                return Err(DispatchError::Module(Error::Staking(e)));
            },
        };
        self.events.push(
            Event::StorageFeeDeposited {
                operator_id,
                nominator_id: owner,
                amount: storage_fee_deposit(&self.config, amount),
            },
        );
        self.events.push(Event::OperatorRegistered { operator_id, domain_id });
        if current_epoch_index == 0 {
            match self.finalize_domain_epoch(domain_id) {
                Ok(_) => {},
                Err(_) => {
                    proof {
                        assert(false);
                    }
                },
            }
        }
        Ok(())
    }

    /// Nominates an operator with `amount` of the signer, and tells of the part of
    /// the amount that goes to the storage fund.
    pub fn nominate_operator(&mut self, origin: Origin, operator_id: OperatorId, amount: Balance) -> (result:
        Result<(), DispatchError>)
        requires
            old(self).config.storage_fee_reserve <= 100,
        ensures
            match result {
                Ok(()) => {
                    let nominator_id = origin->Signed_0;
                    &&& origin is Signed
                    &&& old(self)@.ledger().nominate_error(
                        old(self)@.config,
                        operator_id,
                        nominator_id,
                        amount,
                    ) is None
                    &&& final(self)@ == old(self)@.with_ledger(
                        old(self)@.ledger().after_nominate(
                            old(self)@.config,
                            operator_id,
                            nominator_id,
                            amount,
                        ),
                    ).with_event(
                        Event::StorageFeeDeposited {
                            operator_id,
                            nominator_id,
                            amount: storage_fee_part(old(self)@.config, amount),
                        },
                    ).with_event(Event::OperatorNominated { operator_id, nominator_id })
                },
                Err(e) => {
                    &&& final(self)@ == old(self)@
                    &&& match origin {
                        Origin::Signed(nominator_id) => {
                            let error = old(self)@.ledger().nominate_error(
                                old(self)@.config,
                                operator_id,
                                nominator_id,
                                amount,
                            );
                            error is Some && e == DispatchError::Module(
                                Error::Staking(error.unwrap()),
                            )
                        },
                        _ => e == DispatchError::BadOrigin,
                    }
                },
            },
    {
        let nominator_id = match ensure_signed(origin) {
            Ok(who) => who,
            Err(e) => {
                return Err(e);
            },
        };
        match do_nominate_operator(
            &mut self.staking,
            &mut self.currency,
            &mut self.storage_fund,
            &self.config,
            operator_id,
            nominator_id,
            amount,
        ) {
            Ok(()) => {},
            Err(e) => {
                return Err(DispatchError::Module(Error::Staking(e)));
            },
        }
        self.events.push(
            Event::StorageFeeDeposited {
                operator_id,
                nominator_id,
                amount: storage_fee_deposit(&self.config, amount),
            },
        );
        self.events.push(Event::OperatorNominated { operator_id, nominator_id });
        Ok(())
    }

    /// Creates a domain of the account `who` with the configuration, at the block
    /// `created_at`, and hands its identifier back. The domain starts from the state
    /// root `genesis_state_root`, and its block zero has the hash
    /// `genesis_block_hash`. The account locks up the deposit for a domain. Nothing
    /// is changed where the domain cannot be created.
    pub fn do_instantiate_domain(
        &mut self,
        domain_config: DomainConfig,
        who: AccountId,
        created_at: BlockNumber,
        genesis_state_root: H256,
        genesis_block_hash: H256,
    ) -> (result: Result<DomainId, DomainRegistryError>)
        ensures
            match result {
                Ok(domain_id) => {
                    &&& old(self)@.instantiate_error(who, domain_config) is None
                    &&& domain_id == old(self).registry.next_domain_id
                    &&& old(self)@.instantiated(
                        final(self)@,
                        who,
                        domain_config,
                        created_at,
                        genesis_state_root,
                        genesis_block_hash,
                    )
                },
                Err(e) => Some(e) == old(self)@.instantiate_error(who, domain_config) && final(self)@ == old(self)@,
            },
    {
        if domain_config.domain_name.len() > self.config.max_domain_name_length as usize {
            return Err(DomainRegistryError::DomainNameTooLong);
        }
        let runtime_type = match self.registry.runtime_registry.get(&domain_config.runtime_id) {
            Some(runtime) => runtime.runtime_type,
            None => {
                return Err(DomainRegistryError::RuntimeNotFound);
            },
        };
        if domain_config.max_block_size > self.config.max_domain_block_size {
            return Err(DomainRegistryError::ExceedMaxDomainBlockSize);
        }
        if domain_config.max_block_weight.ref_time > self.config.max_domain_block_weight.ref_time {
            return Err(DomainRegistryError::ExceedMaxDomainBlockWeight);
        }
        if domain_config.target_bundles_per_block == 0 || domain_config.target_bundles_per_block
            > self.config.max_bundles_per_block {
            return Err(DomainRegistryError::InvalidBundlesPerBlock);
        }
        let (numerator, denominator) = domain_config.bundle_slot_probability;
        if numerator == 0 || denominator == 0 || numerator > denominator {
            return Err(DomainRegistryError::InvalidSlotProbability);
        }
        if domain_config.initial_balances.len() > self.config.max_initial_domain_accounts as usize {
            return Err(DomainRegistryError::MaxInitialDomainAccounts);
        }
        if domain_config.has_initial_balance_below(self.config.min_initial_domain_account_balance) {
            return Err(DomainRegistryError::MinInitialAccountBalance);
        }
        let domain_id = self.registry.next_domain_id;
        let deposit = self.config.domain_instantiation_deposit;
        let hold = HoldIdentifier::domain_instantiation_id(domain_id);
        if !self.currency.can_hold(hold, &who, deposit) {
            return Err(DomainRegistryError::InsufficientFund);
        }
        if domain_id == u32::MAX {
            return Err(DomainRegistryError::MaxDomainId);
        }
        let domain_runtime_info = match runtime_type {
            RuntimeType::Evm => {
                let chain_id = self.registry.next_evm_chain_id;
                if chain_id == u64::MAX {
                    return Err(DomainRegistryError::MaxEVMChainId);
                }
                self.registry.next_evm_chain_id = chain_id + 1;
                DomainRuntimeInfo::Evm { chain_id }
            },
            RuntimeType::AutoId => DomainRuntimeInfo::AutoId,
        };
        let receipt = genesis_receipt(genesis_state_root, genesis_block_hash);
        let genesis_receipt_hash = receipt.hash();
        self.registry.domain_registry.insert(
            domain_id,
            DomainObject {
                owner_account_id: who,
                created_at,
                genesis_receipt_hash,
                domain_config,
                domain_runtime_info,
            },
        );
        self.registry.next_domain_id = domain_id + 1;
        self.currency.hold(hold, &who, deposit);
        let summary = StakingSummary {
            current_epoch_index: 0,
            current_total_stake: 0,
            current_operators: BTreeMap::new(),
            next_operators: IdSet::new(),
            current_epoch_rewards: Table::new(),
        };
        let ghost summary_view = summary@;
        proof {
            assert(summary_view.next_operators =~= Seq::<OperatorId>::empty());
            assert(summary_view.rewarded =~= Seq::<OperatorId>::empty());
        }
        self.staking.domain_staking_summary.insert(domain_id, summary);
        self.block_tree.import_genesis_receipt(domain_id, receipt);
        proof {
            assert(self@.staking.domain_staking_summary =~= old(self)@.staking.domain_staking_summary.insert(
                domain_id,
                StakingSummaryView {
                    current_epoch_index: 0,
                    current_total_stake: 0,
                    current_operators: Map::empty(),
                    next_operators: Seq::empty(),
                    current_epoch_rewards: Map::empty(),
                    rewarded: Seq::empty(),
                },
            ));
            assert(self@.staking.pending_slashes =~= old(self)@.staking.pending_slashes);
            assert(self@.staking.last_epoch_staking_distribution =~= old(self)@.staking.last_epoch_staking_distribution);
            assert(self@.staking.deposits =~= old(self)@.staking.deposits);
            assert(self@.staking.nominators =~= old(self)@.staking.nominators);
            assert(self@.staking.withdrawals =~= old(self)@.staking.withdrawals);
            assert(self@.successful_bundles =~= old(self)@.successful_bundles);
            assert(self@.successful_fraud_proofs =~= old(self)@.successful_fraud_proofs);
            assert(self@.block_tree.block_tree_nodes.remove(genesis_receipt_hash) =~= old(self)@.block_tree.block_tree_nodes.remove(genesis_receipt_hash));
            assert(self@.block_tree.latest_confirmed_domain_block.remove(domain_id) =~= old(self)@.block_tree.latest_confirmed_domain_block.remove(domain_id));
        }
        Ok(domain_id)
    }

    /// Creates a domain of the signer with the configuration. The domain starts
    /// from the state root `genesis_state_root`, and its block zero has the hash
    /// `genesis_block_hash`. The signer must be allowed to take permissioned actions,
    /// and locks up the deposit for a domain.
    pub fn instantiate_domain(
        &mut self,
        origin: Origin,
        domain_config: DomainConfig,
        genesis_state_root: H256,
        genesis_block_hash: H256,
    ) -> (result: Result<(), DispatchError>)
        ensures
            match result {
                Ok(()) => {
                    let who = origin->Signed_0;
                    &&& origin is Signed
                    &&& old(self)@.permissioned_action_allowed(who)
                    &&& old(self)@.instantiate_error(who, domain_config) is None
                    &&& old(self)@.instantiated(
                        (PalletView { events: old(self)@.events, ..final(self)@ }),
                        who,
                        domain_config,
                        old(self)@.system.block_number,
                        genesis_state_root,
                        genesis_block_hash,
                    )
                    &&& final(self)@.events == old(self)@.events.push(
                        Event::DomainInstantiated { domain_id: old(self).registry.next_domain_id },
                    )
                },
                Err(e) => {
                    &&& final(self)@ == old(self)@
                    &&& match origin {
                        Origin::Signed(who) => if !old(self)@.permissioned_action_allowed(who) {
                            e == DispatchError::Module(Error::PermissionedActionNotAllowed)
                        } else {
                            let error = old(self)@.instantiate_error(who, domain_config);
                            error is Some && e == DispatchError::Module(
                                Error::DomainRegistry(error.unwrap()),
                            )
                        },
                        _ => e == DispatchError::BadOrigin,
                    }
                },
            },
    {
        let who = match ensure_signed(origin) {
            Ok(who) => who,
            Err(e) => {
                return Err(e);
            },
        };
        let allowed = match &self.permissioned_action_allowed_by {
            Some(allowed_by) => allowed_by.is_allowed(&who),
            None => false,
        };
        if !allowed {
            return Err(DispatchError::Module(Error::PermissionedActionNotAllowed));
        }
        let created_at = self.system.block_number;
        let domain_id = match self.do_instantiate_domain(
            domain_config,
            who,
            created_at,
            genesis_state_root,
            genesis_block_hash,
        ) {
            Ok(domain_id) => domain_id,
            Err(e) => {
                return Err(DispatchError::Module(Error::DomainRegistry(e)));
            },
        };
        let ghost instantiated = self@;
        self.events.push(Event::DomainInstantiated { domain_id });
        proof {
            assert((PalletView { events: old(self)@.events, ..self@ }) == instantiated);
        }
        Ok(())
    }

    /// Deregisters an operator of the signer.
    pub fn deregister_operator(&mut self, origin: Origin, operator_id: OperatorId) -> (result: Result<
        (),
        DispatchError,
    >)
        ensures
            match result {
                Ok(()) => {
                    let who = origin->Signed_0;
                    &&& origin is Signed
                    &&& old(self)@.staking.deregister_error(who, operator_id) is None
                    &&& final(self)@ == (PalletView {
                        staking: old(self)@.staking.after_deregister(
                            operator_id,
                            old(self)@.block_tree,
                            old(self)@.config.stake_withdrawal_locking_period,
                        ),
                        ..old(self)@
                    }).with_event(Event::OperatorDeregistered { operator_id })
                },
                Err(e) => {
                    &&& final(self)@ == old(self)@
                    &&& match origin {
                        Origin::Signed(who) => {
                            let error = old(self)@.staking.deregister_error(who, operator_id);
                            error is Some && e == DispatchError::Module(
                                Error::Staking(error.unwrap()),
                            )
                        },
                        _ => e == DispatchError::BadOrigin,
                    }
                },
            },
    {
        let who = match ensure_signed(origin) {
            Ok(who) => who,
            Err(e) => {
                return Err(e);
            },
        };
        match do_deregister_operator(
            &mut self.staking,
            &self.block_tree,
            &self.config,
            who,
            operator_id,
        ) {
            Ok(()) => {},
            Err(e) => {
                return Err(DispatchError::Module(Error::Staking(e)));
            },
        }
        self.events.push(Event::OperatorDeregistered { operator_id });
        Ok(())
    }

    /// Withdraws `shares` of the signer from an operator.
    pub fn withdraw_stake(&mut self, origin: Origin, operator_id: OperatorId, shares: Share) -> (result:
        Result<(), DispatchError>)
        ensures
            match result {
                Ok(()) => {
                    let who = origin->Signed_0;
                    &&& origin is Signed
                    &&& old(self)@.staking.withdraw_error(
                        old(self)@.config,
                        operator_id,
                        who,
                        shares,
                    ) is None
                    &&& final(self)@ == (PalletView {
                        staking: old(self)@.staking.after_withdraw(
                            old(self)@.config,
                            operator_id,
                            who,
                            shares,
                            old(self)@.block_tree,
                        ),
                        ..old(self)@
                    }).with_event(Event::WithdrewStake { operator_id, nominator_id: who })
                },
                Err(e) => {
                    &&& final(self)@ == old(self)@
                    &&& match origin {
                        Origin::Signed(who) => {
                            let error = old(self)@.staking.withdraw_error(
                                old(self)@.config,
                                operator_id,
                                who,
                                shares,
                            );
                            error is Some && e == DispatchError::Module(
                                Error::Staking(error.unwrap()),
                            )
                        },
                        _ => e == DispatchError::BadOrigin,
                    }
                },
            },
    {
        let who = match ensure_signed(origin) {
            Ok(who) => who,
            Err(e) => {
                return Err(e);
            },
        };
        match do_withdraw_stake(
            &mut self.staking,
            &self.block_tree,
            &self.config,
            operator_id,
            who,
            shares,
        ) {
            Ok(()) => {},
            Err(e) => {
                return Err(DispatchError::Module(Error::Staking(e)));
            },
        }
        self.events.push(Event::WithdrewStake { operator_id, nominator_id: who });
        Ok(())
    }

    /// Unlocks what the signer withdrew from an operator, once the locking period of
    /// the withdrawal is over.
    pub fn unlock_funds(&mut self, origin: Origin, operator_id: OperatorId) -> (result: Result<
        (),
        DispatchError,
    >)
        ensures
            match result {
                Ok(()) => {
                    let who = origin->Signed_0;
                    let amount = old(self)@.ledger().unlocked_amount(operator_id, who);
                    &&& origin is Signed
                    &&& old(self)@.staking.unlock_funds_error(
                        operator_id,
                        who,
                        old(self)@.block_tree,
                    ) is None
                    &&& final(self)@ == old(self)@.with_ledger(
                        old(self)@.ledger().after_unlock_funds(operator_id, who),
                    ).with_event(Event::FundsUnlocked { operator_id, nominator_id: who, amount })
                },
                Err(e) => {
                    &&& final(self)@ == old(self)@
                    &&& match origin {
                        Origin::Signed(who) => {
                            let error = old(self)@.staking.unlock_funds_error(
                                operator_id,
                                who,
                                old(self)@.block_tree,
                            );
                            error is Some && e == DispatchError::Module(
                                Error::Staking(error.unwrap()),
                            )
                        },
                        _ => e == DispatchError::BadOrigin,
                    }
                },
            },
    {
        let nominator_id = match ensure_signed(origin) {
            Ok(who) => who,
            Err(e) => {
                return Err(e);
            },
        };
        let unlocked_funds = match do_unlock_funds(
            &mut self.staking,
            &mut self.currency,
            &self.block_tree,
            operator_id,
            nominator_id,
        ) {
            Ok(amount) => amount,
            Err(e) => {
                return Err(DispatchError::Module(Error::Staking(e)));
            },
        };
        self.events.push(Event::FundsUnlocked { operator_id, nominator_id, amount: unlocked_funds });
        Ok(())
    }

    /// Unlocks a deregistered operator once its locking period is over. Anybody who
    /// signs may do so. Hands back the weight that the call took, which goes by the
    /// number of accounts that were paid out.
    pub fn unlock_operator(&mut self, origin: Origin, operator_id: OperatorId) -> (result: Result<
        Weight,
        DispatchError,
    >)
        ensures
            match result {
                Ok(weight) => {
                    let paid = count_of(old(self)@.staking.nominators_of(operator_id).len());
                    &&& origin is Signed
                    &&& old(self)@.staking.unlock_operator_error(operator_id, old(self)@.block_tree)
                        is None
                    &&& final(self)@ == old(self)@.with_ledger(
                        old(self)@.ledger().after_unlock_operator(operator_id),
                    ).with_event(Event::OperatorUnlocked { operator_id })
                    &&& weight == old(self)@.config.weights.unlock_operator.spec_at(
                        if paid <= old(self)@.config.max_nominators {
                            paid
                        } else {
                            old(self)@.config.max_nominators
                        },
                    )
                },
                Err(e) => {
                    &&& final(self)@ == old(self)@
                    &&& if origin is Signed {
                        let error = old(self)@.staking.unlock_operator_error(
                            operator_id,
                            old(self)@.block_tree,
                        );
                        error is Some && e == DispatchError::Module(Error::Staking(error.unwrap()))
                    } else {
                        e == DispatchError::BadOrigin
                    }
                },
            },
    {
        match ensure_signed(origin) {
            Ok(_) => {},
            Err(e) => {
                return Err(e);
            },
        }
        let nominator_count = match do_unlock_operator(
            &mut self.staking,
            &mut self.currency,
            &mut self.storage_fund,
            &self.block_tree,
            operator_id,
        ) {
            Ok(paid) => paid,
            Err(e) => {
                return Err(DispatchError::Module(Error::Staking(e)));
            },
        };
        self.events.push(Event::OperatorUnlocked { operator_id });
        let counted = if nominator_count <= self.config.max_nominators {
            nominator_count
        } else {
            self.config.max_nominators
        };
        Ok(self.config.weights.unlock_operator.at(counted))
    }

    /// Sets the operator allow list of a domain of the signer. Operators that are
    /// registered on the domain stay registered, whatever the new list allows.
    pub fn update_domain_operator_allow_list(
        &mut self,
        origin: Origin,
        domain_id: DomainId,
        operator_allow_list: OperatorAllowList,
    ) -> (result: Result<(), DispatchError>)
        ensures
            match result {
                Ok(()) => {
                    let who = origin->Signed_0;
                    &&& origin is Signed
                    &&& old(self).registry.domain_registry@.contains_key(domain_id)
                    &&& old(self).registry.domain_registry@[domain_id].owner_account_id == who
                    &&& final(self).registry.domain_registry@ == old(self).registry.domain_registry@.insert(
                        domain_id,
                        DomainObject {
                            domain_config: DomainConfig {
                                operator_allow_list,
                                ..old(self).registry.domain_registry@[domain_id].domain_config
                            },
                            ..old(self).registry.domain_registry@[domain_id]
                        },
                    )
                    &&& final(self).registry.runtime_registry == old(self).registry.runtime_registry
                    &&& final(self).registry.scheduled_runtime_upgrades == old(self).registry.scheduled_runtime_upgrades
                    &&& final(self).registry.next_runtime_id == old(self).registry.next_runtime_id
                    &&& final(self).registry.next_evm_chain_id == old(self).registry.next_evm_chain_id
                    &&& final(self).registry.next_domain_id == old(self).registry.next_domain_id
                    &&& final(self)@ == (PalletView {
                        registry: final(self).registry,
                        events: old(self)@.events.push(
                            Event::DomainOperatorAllowListUpdated { domain_id },
                        ),
                        ..old(self)@
                    })
                },
                Err(e) => {
                    &&& final(self)@ == old(self)@
                    &&& match origin {
                        Origin::Signed(who) => if !old(self).registry.domain_registry@.contains_key(
                            domain_id,
                        ) {
                            e == DispatchError::Module(
                                Error::DomainRegistry(DomainRegistryError::DomainNotFound),
                            )
                        } else {
                            old(self).registry.domain_registry@[domain_id].owner_account_id != who
                                && e == DispatchError::Module(
                                Error::DomainRegistry(DomainRegistryError::NotDomainOwner),
                            )
                        },
                        _ => e == DispatchError::BadOrigin,
                    }
                },
            },
    {
        let who = match ensure_signed(origin) {
            Ok(who) => who,
            Err(e) => {
                return Err(e);
            },
        };
        match self.registry.do_update_domain_allow_list(who, domain_id, operator_allow_list) {
            Ok(()) => {},
            Err(e) => {
                return Err(DispatchError::Module(Error::DomainRegistry(e)));
            },
        }
        self.events.push(Event::DomainOperatorAllowListUpdated { domain_id });
        Ok(())
    }

    /// Ends the current staking epoch of a domain on behalf of the chain. Hands back
    /// the weight that the transition took, and in no case more than the largest
    /// weight of a transition.
    pub fn force_staking_epoch_transition(&mut self, origin: Origin, domain_id: DomainId) -> (result:
        Result<Weight, DispatchError>)
        ensures
            match result {
                Ok(weight) => {
                    &&& origin == Origin::Root
                    &&& old(self)@.epoch_ledger().epoch_error(domain_id) is None
                    &&& final(self)@ == old(self)@.with_epoch_ended(domain_id).with_event(
                        Event::ForceDomainEpochTransition {
                            domain_id,
                            completed_epoch_index: old(self)@.epoch_result(
                                domain_id,
                            ).completed_epoch_index,
                        },
                    )
                    &&& weight == epoch_transition_weight(
                        old(self)@.config,
                        old(self)@.epoch_result(domain_id),
                    ).spec_min(old(self)@.config.spec_max_staking_epoch_transition())
                },
                Err(e) => {
                    &&& final(self)@ == old(self)@
                    &&& if origin == Origin::Root {
                        let error = old(self)@.epoch_ledger().epoch_error(domain_id);
                        error is Some && e == DispatchError::Module(
                            Error::StakingEpoch(error.unwrap()),
                        )
                    } else {
                        e == DispatchError::BadOrigin
                    }
                },
            },
    {
        match ensure_root(origin) {
            Ok(()) => {},
            Err(e) => {
                return Err(e);
            },
        }
        let epoch_transition_res = match self.finalize_domain_epoch(domain_id) {
            Ok(transition) => transition,
            Err(e) => {
                return Err(DispatchError::Module(Error::StakingEpoch(e)));
            },
        };
        self.events.push(
            Event::ForceDomainEpochTransition {
                domain_id,
                completed_epoch_index: epoch_transition_res.completed_epoch_index,
            },
        );
        let actual_weight = self.actual_epoch_transition_weight(epoch_transition_res).min(
            self.max_staking_epoch_transition(),
        );
        Ok(actual_weight)
    }

    /// Sets who may take a permissioned action, on behalf of the chain.
    pub fn set_permissioned_action_allowed_by(
        &mut self,
        origin: Origin,
        permissioned_action_allowed_by: PermissionedActionAllowedBy,
    ) -> (result: Result<(), DispatchError>)
        ensures
            match result {
                Ok(()) => origin == Origin::Root && final(self)@ == (PalletView {
                    permissioned_action_allowed_by: Some(permissioned_action_allowed_by),
                    ..old(self)@
                }),
                Err(e) => origin != Origin::Root && e == DispatchError::BadOrigin && final(self)@
                    == old(self)@,
            },
    {
        match ensure_root(origin) {
            Ok(()) => {},
            Err(e) => {
                return Err(e);
            },
        }
        self.permissioned_action_allowed_by = Some(permissioned_action_allowed_by);
        Ok(())
    }
}

} // verus!
