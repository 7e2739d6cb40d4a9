//! The registries of domain runtimes and of domains.

use crate::primitives::{AccountId, Balance, BlockNumber, DomainId, RuntimeId, Weight, H256};
use crate::table::Table;
use vstd::prelude::*;

verus! {

/// The first chain identifier that is given to a runtime of the EVM kind.
pub struct StartingEVMChainId;

impl StartingEVMChainId {
    /// The first chain identifier.
    pub fn get() -> (id: u64)
        ensures
            id == 490000,
    {
        490000
    }
}

/// What can go wrong in the runtime registry.
#[derive(Clone, Copy, Debug, PartialEq, Eq, Structural)]
pub enum RuntimeRegistryError {
    /// No more runtime identifiers are left.
    MaxRuntimeId,
    /// No runtime has the identifier.
    MissingRuntimeObject,
    /// The runtime has an upgrade scheduled at that block already.
    RuntimeUpgradeAlreadyScheduled,
    /// The block of the upgrade cannot be numbered.
    MaxScheduledBlockNumber,
}

/// What can go wrong in the domain registry.
#[derive(Clone, Copy, Debug, PartialEq, Eq, Structural)]
pub enum DomainRegistryError {
    /// The name of the domain is too long.
    DomainNameTooLong,
    /// No runtime has the identifier that the domain names.
    RuntimeNotFound,
    /// The blocks of the domain may be larger than the chain allows.
    ExceedMaxDomainBlockSize,
    /// The blocks of the domain may be heavier than the chain allows.
    ExceedMaxDomainBlockWeight,
    /// The target of bundles in a block is zero or above what the chain allows.
    InvalidBundlesPerBlock,
    /// The bundle slot probability is not above zero and at most one.
    InvalidSlotProbability,
    /// More accounts start with a balance than the chain allows.
    MaxInitialDomainAccounts,
    /// An account starts with a balance below the least that the chain allows.
    MinInitialAccountBalance,
    /// The creator cannot spend the deposit, or no more can be held of it.
    InsufficientFund,
    /// No more domain identifiers are left.
    MaxDomainId,
    /// No more chain identifiers are left for a runtime of the EVM kind.
    MaxEVMChainId,
    /// No domain has the identifier.
    DomainNotFound,
    /// The account does not own the domain.
    NotDomainOwner,
    /// No bundle limit can be calculated for the domain.
    BundleLimitCalculationOverflow,
}

/// The kinds of domain runtime.
#[derive(Clone, Copy, Debug, PartialEq, Eq, Structural)]
pub enum RuntimeType {
    Evm,
    AutoId,
}

/// The state that a runtime starts from.
#[derive(Debug, PartialEq, Eq)]
pub struct RawGenesis {
    /// The code of the runtime.
    pub runtime_code: Vec<u8>,
    /// The other entries of the state, as keys and values.
    pub storage: Vec<(Vec<u8>, Vec<u8>)>,
}

/// A registered runtime.
#[derive(Debug, PartialEq, Eq)]
pub struct RuntimeObject {
    pub runtime_name: String,
    pub runtime_type: RuntimeType,
    pub raw_genesis: RawGenesis,
    pub created_at: BlockNumber,
    pub updated_at: BlockNumber,
}

/// The accounts that may register an operator on a domain.
#[derive(Debug, PartialEq, Eq)]
pub enum OperatorAllowList {
    Anyone,
    Operators(Vec<AccountId>),
}

/// The accounts that may take a permissioned action.
#[derive(Debug, PartialEq, Eq)]
pub enum PermissionedActionAllowedBy {
    Accounts(Vec<AccountId>),
    Anyone,
}

/// Whether `who` is one of `accounts`.
pub fn contains_account(accounts: &Vec<AccountId>, who: &AccountId) -> (r: bool)
    ensures
        r == accounts@.contains(*who),
{
    let mut i: usize = 0;
    while i < accounts.len()
        invariant
            i <= accounts@.len(),
            forall|j: int| 0 <= j < i ==> accounts@[j] != *who,
        decreases accounts@.len() - i,
    {
        if accounts[i].same_hash(who) {
            return true;
        }
        i = i + 1;
    }
    false
}

impl OperatorAllowList {
    /// Whether the list allows the account.
    pub open spec fn allows(self, who: AccountId) -> bool {
        match self {
            OperatorAllowList::Anyone => true,
            OperatorAllowList::Operators(accounts) => accounts@.contains(who),
        }
    }

    /// Whether the list allows the account.
    pub fn is_operator_allowed(&self, who: &AccountId) -> (r: bool)
        ensures
            r == self.allows(*who),
    {
        match self {
            OperatorAllowList::Anyone => true,
            OperatorAllowList::Operators(accounts) => contains_account(accounts, who),
        }
    }
}

impl PermissionedActionAllowedBy {
    /// Whether the account may take a permissioned action.
    pub open spec fn allows(self, who: AccountId) -> bool {
        match self {
            PermissionedActionAllowedBy::Anyone => true,
            PermissionedActionAllowedBy::Accounts(accounts) => accounts@.contains(who),
        }
    }

    /// Whether the account may take a permissioned action.
    pub fn is_allowed(&self, who: &AccountId) -> (r: bool)
        ensures
            r == self.allows(*who),
    {
        match self {
            PermissionedActionAllowedBy::Anyone => true,
            PermissionedActionAllowedBy::Accounts(accounts) => contains_account(accounts, who),
        }
    }
}

/// What the creator of a domain sets.
#[derive(Debug, PartialEq, Eq)]
pub struct DomainConfig {
    pub domain_name: Vec<u8>,
    pub runtime_id: RuntimeId,
    pub max_block_size: u32,
    pub max_block_weight: Weight,
    /// The probability that a slot holds a bundle of the domain, as a fraction.
    pub bundle_slot_probability: (u64, u64),
    pub target_bundles_per_block: u32,
    pub operator_allow_list: OperatorAllowList,
    /// The balances that accounts of the domain start with.
    pub initial_balances: Vec<(AccountId, Balance)>,
}

/// The sum of the first `k` balances, if it fits in a balance.
pub open spec fn issuance(balances: Seq<(AccountId, Balance)>, k: int) -> Option<Balance>
    decreases k,
{
    if k <= 0 {
        Some(0u128)
    } else {
        match issuance(balances, k - 1) {
            Some(sum) => if sum + balances[k - 1].1 > u128::MAX {
                None
            } else {
                Some((sum + balances[k - 1].1) as u128)
            },
            None => None,
        }
    }
}

/// Whether one of `balances` is below `least`.
pub open spec fn has_balance_below(balances: Seq<(AccountId, Balance)>, least: Balance) -> bool {
    exists|i: int| 0 <= i < balances.len() && (#[trigger] balances[i]).1 < least
}

impl DomainConfig {
    /// Whether one of the initial balances is below `least`.
    pub fn has_initial_balance_below(&self, least: Balance) -> (r: bool)
        ensures
            r == has_balance_below(self.initial_balances@, least),
    {
        let mut i: usize = 0;
        while i < self.initial_balances.len()
            invariant
                i <= self.initial_balances@.len(),
                forall|j: int| 0 <= j < i ==> (#[trigger] self.initial_balances@[j]).1 >= least,
            decreases self.initial_balances@.len() - i,
        {
            if self.initial_balances[i].1 < least {
                return true;
            }
            i = i + 1;
        }
        false
    }

    /// The sum of the initial balances, if it fits in a balance.
    pub open spec fn spec_total_issuance(self) -> Option<Balance> {
        issuance(self.initial_balances@, self.initial_balances@.len() as int)
    }

    /// The sum of the initial balances, if it fits in a balance.
    pub fn total_issuance(&self) -> (total: Option<Balance>)
        ensures
            total == self.spec_total_issuance(),
    {
        let mut sum: Balance = 0;
        let mut i: usize = 0;
        while i < self.initial_balances.len()
            invariant
                i <= self.initial_balances@.len(),
                issuance(self.initial_balances@, i as int) == Some(sum),
            decreases self.initial_balances@.len() - i,
        {
            match sum.checked_add(self.initial_balances[i].1) {
                Some(next) => {
                    sum = next;
                },
                None => {
                    proof {
                        lemma_issuance_overflow(
                            self.initial_balances@,
                            i + 1,
                            self.initial_balances@.len() as int,
                        );
                    }
                    return None;
                },
            }
            i = i + 1;
        }
        Some(sum)
    }
}

/// Once a sum of balances does not fit, no longer sum does.
pub proof fn lemma_issuance_overflow(balances: Seq<(AccountId, Balance)>, k: int, n: int)
    requires
        0 <= k <= n,
        issuance(balances, k) is None,
    ensures
        issuance(balances, n) is None,
    decreases n - k,
{
    if k < n {
        lemma_issuance_overflow(balances, k, n - 1);
    }
}

/// What a domain has for the kind of its runtime.
#[derive(Clone, Copy, Debug, PartialEq, Eq, Structural)]
pub enum DomainRuntimeInfo {
    /// The chain identifier of a domain with a runtime of the EVM kind.
    Evm { chain_id: u64 },
    AutoId,
}

/// A domain.
#[derive(Debug, PartialEq, Eq)]
pub struct DomainObject {
    /// The account that created the domain.
    pub owner_account_id: AccountId,
    /// The consensus block at which the domain was created.
    pub created_at: BlockNumber,
    /// The hash of the receipt of block zero of the domain.
    pub genesis_receipt_hash: H256,
    pub domain_config: DomainConfig,
    pub domain_runtime_info: DomainRuntimeInfo,
}

/// The runtime upgrades that wait for a block, under the runtime they are for.
pub struct ScheduledRuntimeUpgrade {
    pub raw_genesis: RawGenesis,
}

/// The tables of the two registries.
pub struct Registry {
    pub next_runtime_id: RuntimeId,
    /// The next chain identifier for a runtime of the EVM kind.
    pub next_evm_chain_id: u64,
    pub runtime_registry: Table<RuntimeId, RuntimeObject>,
    /// The upgrades scheduled for each block, under the runtime they are for.
    pub scheduled_runtime_upgrades: Table<BlockNumber, Table<RuntimeId, ScheduledRuntimeUpgrade>>,
    pub next_domain_id: DomainId,
    pub domain_registry: Table<DomainId, DomainObject>,
}

/// The runtimes after the first `k` of the upgrades in `ids` are applied at the block
/// `at`, one after the other: each runtime on record starts from the state of its
/// upgrade and is updated at `at`.
pub open spec fn upgraded_runtimes(
    runtimes: Map<RuntimeId, RuntimeObject>,
    upgrades: Map<RuntimeId, ScheduledRuntimeUpgrade>,
    ids: Seq<RuntimeId>,
    at: BlockNumber,
    k: int,
) -> Map<RuntimeId, RuntimeObject>
    decreases k,
{
    if k <= 0 {
        runtimes
    } else {
        let before = upgraded_runtimes(runtimes, upgrades, ids, at, k - 1);
        let id = ids[k - 1];
        if before.contains_key(id) {
            before.insert(
                id,
                RuntimeObject { raw_genesis: upgrades[id].raw_genesis, updated_at: at, ..before[id] },
            )
        } else {
            before
        }
    }
}

impl Registry {
    /// Registries without any runtime or domain.
    pub fn new() -> (registry: Registry)
        ensures
            registry.next_runtime_id == 0,
            registry.next_evm_chain_id == 490000,
            registry.runtime_registry@ == Map::<RuntimeId, RuntimeObject>::empty(),
            registry.scheduled_runtime_upgrades@ == Map::<
                BlockNumber,
                Table<RuntimeId, ScheduledRuntimeUpgrade>,
            >::empty(),
            registry.next_domain_id == 0,
            registry.domain_registry@ == Map::<DomainId, DomainObject>::empty(),
    {
        Registry {
            next_runtime_id: 0,
            next_evm_chain_id: StartingEVMChainId::get(),
            runtime_registry: Table::new(),
            scheduled_runtime_upgrades: Table::new(),
            next_domain_id: 0,
            domain_registry: Table::new(),
        }
    }

    /// Whether an upgrade of the runtime is scheduled for the block.
    pub open spec fn upgrade_scheduled(self, at: BlockNumber, runtime_id: RuntimeId) -> bool {
        self.scheduled_runtime_upgrades@.contains_key(at)
            && self.scheduled_runtime_upgrades@[at]@.contains_key(runtime_id)
    }

    /// Registers a runtime under the next runtime identifier and hands the
    /// identifier back. Nothing is changed where no identifier is left.
    pub fn do_register_runtime(
        &mut self,
        runtime_name: String,
        runtime_type: RuntimeType,
        raw_genesis: RawGenesis,
        at: BlockNumber,
    ) -> (result: Result<RuntimeId, RuntimeRegistryError>)
        ensures
            match result {
                Ok(runtime_id) => {
                    &&& old(self).next_runtime_id < u32::MAX
                    &&& runtime_id == old(self).next_runtime_id
                    &&& final(self).next_runtime_id == runtime_id + 1
                    &&& final(self).runtime_registry@ == old(self).runtime_registry@.insert(
                        runtime_id,
                        RuntimeObject {
                            runtime_name,
                            runtime_type,
                            raw_genesis,
                            created_at: at,
                            updated_at: at,
                        },
                    )
                    &&& final(self).next_evm_chain_id == old(self).next_evm_chain_id
                    &&& final(self).scheduled_runtime_upgrades == old(
                        self,
                    ).scheduled_runtime_upgrades
                    &&& final(self).next_domain_id == old(self).next_domain_id
                    &&& final(self).domain_registry == old(self).domain_registry
                },
                Err(e) => {
                    &&& e == RuntimeRegistryError::MaxRuntimeId
                    &&& old(self).next_runtime_id == u32::MAX
                    &&& *final(self) == *old(self)
                },
            },
    {
        let runtime_id = self.next_runtime_id;
        if runtime_id == u32::MAX {
            return Err(RuntimeRegistryError::MaxRuntimeId);
        }
        self.runtime_registry.insert(
            runtime_id,
            RuntimeObject { runtime_name, runtime_type, raw_genesis, created_at: at, updated_at: at },
        );
        self.next_runtime_id = runtime_id + 1;
        Ok(runtime_id)
    }

    /// Schedules an upgrade of the runtime for the block `delay` blocks after
    /// `current_block_number`, and hands the number of that block back.
    pub fn do_schedule_runtime_upgrade(
        &mut self,
        runtime_id: RuntimeId,
        raw_genesis: RawGenesis,
        current_block_number: BlockNumber,
        delay: BlockNumber,
    ) -> (result: Result<BlockNumber, RuntimeRegistryError>)
        ensures
            match result {
                Ok(scheduled_at) => {
                    &&& old(self).runtime_registry@.contains_key(runtime_id)
                    &&& scheduled_at == current_block_number + delay
                    &&& !old(self).upgrade_scheduled(scheduled_at, runtime_id)
                    &&& final(self).scheduled_runtime_upgrades@.contains_key(scheduled_at)
                    &&& final(self).scheduled_runtime_upgrades@[scheduled_at]@ == (if old(
                        self,
                    ).scheduled_runtime_upgrades@.contains_key(scheduled_at) {
                        old(self).scheduled_runtime_upgrades@[scheduled_at]@
                    } else {
                        Map::<RuntimeId, ScheduledRuntimeUpgrade>::empty()
                    }).insert(runtime_id, ScheduledRuntimeUpgrade { raw_genesis })
                    &&& final(self).scheduled_runtime_upgrades@.remove(scheduled_at) == old(
                        self,
                    ).scheduled_runtime_upgrades@.remove(scheduled_at)
                    &&& final(self).runtime_registry == old(self).runtime_registry
                    &&& final(self).next_runtime_id == old(self).next_runtime_id
                    &&& final(self).next_evm_chain_id == old(self).next_evm_chain_id
                    &&& final(self).next_domain_id == old(self).next_domain_id
                    &&& final(self).domain_registry == old(self).domain_registry
                },
                Err(e) => {
                    &&& *final(self) == *old(self)
                    &&& e == (if !old(self).runtime_registry@.contains_key(runtime_id) {
                        RuntimeRegistryError::MissingRuntimeObject
                    } else if current_block_number + delay > u32::MAX {
                        RuntimeRegistryError::MaxScheduledBlockNumber
                    } else {
                        RuntimeRegistryError::RuntimeUpgradeAlreadyScheduled
                    })
                    &&& old(self).runtime_registry@.contains_key(runtime_id) && current_block_number
                        + delay <= u32::MAX ==> old(self).upgrade_scheduled(
                        (current_block_number + delay) as u32,
                        runtime_id,
                    )
                },
            },
    {
        if !self.runtime_registry.contains_key(&runtime_id) {
            return Err(RuntimeRegistryError::MissingRuntimeObject);
        }
        let scheduled_at = match current_block_number.checked_add(delay) {
            Some(at) => at,
            None => {
                return Err(RuntimeRegistryError::MaxScheduledBlockNumber);
            },
        };
        let already = match self.scheduled_runtime_upgrades.get(&scheduled_at) {
            Some(upgrades) => upgrades.contains_key(&runtime_id),
            None => false,
        };
        if already {
            return Err(RuntimeRegistryError::RuntimeUpgradeAlreadyScheduled);
        }
        let mut upgrades = match self.scheduled_runtime_upgrades.remove(&scheduled_at) {
            Some(upgrades) => upgrades,
            None => Table::new(),
        };
        upgrades.insert(runtime_id, ScheduledRuntimeUpgrade { raw_genesis });
        self.scheduled_runtime_upgrades.insert(scheduled_at, upgrades);
        proof {
            assert(self.scheduled_runtime_upgrades@.remove(scheduled_at) =~= old(
                self,
            ).scheduled_runtime_upgrades@.remove(scheduled_at));
        }
        Ok(scheduled_at)
    }

    /// Sets the operator allow list of the domain, on behalf of its owner.
    pub fn do_update_domain_allow_list(
        &mut self,
        who: AccountId,
        domain_id: DomainId,
        updated_operator_allow_list: OperatorAllowList,
    ) -> (result: Result<(), DomainRegistryError>)
        ensures
            match result {
                Ok(()) => {
                    &&& old(self).domain_registry@.contains_key(domain_id)
                    &&& old(self).domain_registry@[domain_id].owner_account_id == who
                    &&& final(self).domain_registry@ == old(self).domain_registry@.insert(
                        domain_id,
                        DomainObject {
                            domain_config: DomainConfig {
                                operator_allow_list: updated_operator_allow_list,
                                ..old(self).domain_registry@[domain_id].domain_config
                            },
                            ..old(self).domain_registry@[domain_id]
                        },
                    )
                    &&& final(self).runtime_registry == old(self).runtime_registry
                    &&& final(self).scheduled_runtime_upgrades == old(
                        self,
                    ).scheduled_runtime_upgrades
                    &&& final(self).next_runtime_id == old(self).next_runtime_id
                    &&& final(self).next_evm_chain_id == old(self).next_evm_chain_id
                    &&& final(self).next_domain_id == old(self).next_domain_id
                },
                Err(e) => {
                    &&& *final(self) == *old(self)
                    &&& e == (if !old(self).domain_registry@.contains_key(domain_id) {
                        DomainRegistryError::DomainNotFound
                    } else {
                        DomainRegistryError::NotDomainOwner
                    })
                    &&& old(self).domain_registry@.contains_key(domain_id) ==> old(
                        self,
                    ).domain_registry@[domain_id].owner_account_id != who
                },
            },
    {
        let owned = match self.domain_registry.get(&domain_id) {
            Some(domain) => domain.owner_account_id.same_hash(&who),
            None => {
                return Err(DomainRegistryError::DomainNotFound);
            },
        };
        if !owned {
            return Err(DomainRegistryError::NotDomainOwner);
        }
        let mut domain = self.domain_registry.remove(&domain_id).unwrap();
        domain.domain_config.operator_allow_list = updated_operator_allow_list;
        self.domain_registry.insert(domain_id, domain);
        proof {
            assert(self.domain_registry@ =~= old(self).domain_registry@.insert(
                domain_id,
                DomainObject {
                    domain_config: DomainConfig {
                        operator_allow_list: updated_operator_allow_list,
                        ..old(self).domain_registry@[domain_id].domain_config
                    },
                    ..old(self).domain_registry@[domain_id]
                },
            ));
        }
        Ok(())
    }

    /// Whether the account owns the domain.
    pub fn is_domain_owner(&self, domain_id: DomainId, who: &AccountId) -> (r: bool)
        ensures
            r == (self.domain_registry@.contains_key(domain_id)
                && self.domain_registry@[domain_id].owner_account_id == *who),
    {
        match self.domain_registry.get(&domain_id) {
            Some(domain) => domain.owner_account_id.same_hash(who),
            None => false,
        }
    }
    /// Applies the runtime upgrades that are scheduled for the block `at`, in the
    /// order in which they are walked, and takes them off the schedule. Hands back
    /// the runtimes that the upgrades are for, in that order.
    pub fn do_upgrade_runtimes(&mut self, at: BlockNumber) -> (upgraded: Vec<RuntimeId>)
        ensures
            final(self).next_runtime_id == old(self).next_runtime_id,
            final(self).next_evm_chain_id == old(self).next_evm_chain_id,
            final(self).next_domain_id == old(self).next_domain_id,
            final(self).domain_registry == old(self).domain_registry,
            final(self).scheduled_runtime_upgrades@ == old(self).scheduled_runtime_upgrades@.remove(
                at,
            ),
            if old(self).scheduled_runtime_upgrades@.contains_key(at) {
                let upgrades = old(self).scheduled_runtime_upgrades@[at];
                &&& upgraded@ == upgrades.keys()
                &&& final(self).runtime_registry@ == upgraded_runtimes(
                    old(self).runtime_registry@,
                    upgrades@,
                    upgrades.keys(),
                    at,
                    upgrades.keys().len() as int,
                )
            } else {
                upgraded@.len() == 0 && final(self).runtime_registry == old(self).runtime_registry
            },
    {
        let mut upgraded: Vec<RuntimeId> = Vec::new();
        let mut upgrades = match self.scheduled_runtime_upgrades.remove(&at) {
            Some(upgrades) => upgrades,
            None => {
                return upgraded;
            },
        };
        let ghost all = upgrades@;
        let ghost ids = upgrades.keys();
        let ghost runtimes = self.runtime_registry@;
        let n = upgrades.len();
        assert(upgraded@ =~= ids.take(0));
        assert(ids.skip(0) =~= ids);
        loop
            invariant
                upgraded@.len() <= ids.len(),
                upgraded@ == ids.take(upgraded@.len() as int),
                upgrades.keys() == ids.skip(upgraded@.len() as int),
                ids.no_duplicates(),
                forall|k: RuntimeId| #[trigger]
                    upgrades@.contains_key(k) ==> all.contains_key(k) && upgrades@[k] == all[k],
                self.runtime_registry@ == upgraded_runtimes(
                    runtimes,
                    all,
                    ids,
                    at,
                    upgraded@.len() as int,
                ),
                self.next_runtime_id == old(self).next_runtime_id,
                self.next_evm_chain_id == old(self).next_evm_chain_id,
                self.next_domain_id == old(self).next_domain_id,
                self.domain_registry == old(self).domain_registry,
                self.scheduled_runtime_upgrades@ == old(self).scheduled_runtime_upgrades@.remove(at),
            ensures
                upgraded@ == ids,
                self.runtime_registry@ == upgraded_runtimes(runtimes, all, ids, at, ids.len() as int),
                self.next_runtime_id == old(self).next_runtime_id,
                self.next_evm_chain_id == old(self).next_evm_chain_id,
                self.next_domain_id == old(self).next_domain_id,
                self.domain_registry == old(self).domain_registry,
                self.scheduled_runtime_upgrades@ == old(self).scheduled_runtime_upgrades@.remove(at),
            decreases upgrades.keys().len(),
        {
            let ghost done = upgraded@.len() as int;
            match upgrades.pop_first() {
                Some((runtime_id, upgrade)) => {
                    proof {
                        assert(runtime_id == ids.skip(done)[0]);
                        assert(runtime_id == ids[done]);
                        assert(upgrades.keys() =~= ids.skip(done + 1));
                    }
                    match self.runtime_registry.remove(&runtime_id) {
                        Some(runtime) => {
                            self.runtime_registry.insert(
                                runtime_id,
                                RuntimeObject {
                                    runtime_name: runtime.runtime_name,
                                    runtime_type: runtime.runtime_type,
                                    raw_genesis: upgrade.raw_genesis,
                                    created_at: runtime.created_at,
                                    updated_at: at,
                                },
                            );
                            proof {
                                let before = upgraded_runtimes(runtimes, all, ids, at, done);
                                assert(self.runtime_registry@ =~= before.insert(
                                    runtime_id,
                                    RuntimeObject {
                                        raw_genesis: all[runtime_id].raw_genesis,
                                        updated_at: at,
                                        ..before[runtime_id]
                                    },
                                ));
                            }
                        },
                        None => {
                            proof {
                                let before = upgraded_runtimes(runtimes, all, ids, at, done);
                                assert(self.runtime_registry@ =~= before);
                            }
                        },
                    }
                    upgraded.push(runtime_id);
                    proof {
                        assert(upgraded@ =~= ids.take(done + 1));
                    }
                },
                None => {
                    proof {
                        assert(ids.skip(done).len() == 0);
                        assert(upgraded@ =~= ids);
                    }
                    break ;
                },
            }
        }
        upgraded
    }
}

} // verus!
