use pallet_domains::bundle::{DomainBlockLimit, DomainBundleLimit};
use pallet_domains::bundle_storage_fund::{share_of_fee, total_paid_size, BundleStorageFund, Error as FundError};
use pallet_domains::config::{Config, ConfirmWeight, LinearWeight, WeightInfo, MAX_BUNLDE_PER_BLOCK};
use pallet_domains::currency::{Currency, HoldIdentifier};
use pallet_domains::error::{DispatchError, Error, Origin};
use pallet_domains::event::Event;
use pallet_domains::pallet::{BundleProducerElectionParams, Pallet};
use pallet_domains::primitives::{Weight, H256};
use pallet_domains::registry::{
    DomainConfig, DomainRegistryError, DomainRuntimeInfo, OperatorAllowList,
    PermissionedActionAllowedBy, RawGenesis, Registry, RuntimeRegistryError, RuntimeType, StartingEVMChainId,
};
use pallet_domains::staking::OperatorConfig;
use pallet_domains::table::{IdSet, Table};
use pallet_domains::tx_range::TxRangeState;
use pallet_domains::u256::U256;

fn weight(n: u64) -> Weight {
    Weight { ref_time: n, proof_size: n }
}

fn linear(base: u64, per_item: u64) -> LinearWeight {
    LinearWeight { base: weight(base), per_item: weight(per_item) }
}

fn config() -> Config {
    Config {
        confirmation_depth_k: 100,
        domain_runtime_upgrade_delay: 10,
        block_tree_pruning_depth: 8,
        consensus_slot_probability: (1, 6),
        max_domain_block_size: 6_000_000,
        max_domain_block_weight: Weight { ref_time: 6_000_000, proof_size: 6_000_000 },
        max_bundles_per_block: 10,
        max_domain_name_length: 12,
        domain_instantiation_deposit: 100,
        initial_domain_tx_range: 3,
        domain_tx_range_adjustment_interval: 2,
        min_operator_stake: 100,
        min_nominator_stake: 1,
        stake_withdrawal_locking_period: 5,
        stake_epoch_duration: 10,
        treasury_account: H256::from_low_u64(999),
        max_pending_staking_operation: 3,
        max_nominators: 2,
        max_initial_domain_accounts: 5,
        min_initial_domain_account_balance: 1,
        bundle_longevity: 5,
        storage_fee_reserve: 20,
        weights: WeightInfo {
            submit_bundle: weight(1000),
            submit_fraud_proof: weight(2000),
            handle_bad_receipt: linear(100, 10),
            confirm_domain_block: ConfirmWeight {
                base: weight(200),
                per_operator: weight(20),
                per_invalid_bundle_author: weight(30),
            },
            operator_reward_tax_and_restake: linear(300, 3),
            finalize_slashed_operators: linear(400, 4),
            finalize_domain_epoch_staking: linear(500, 5),
            unlock_operator: linear(600, 6),
        },
    }
}

fn owner() -> H256 {
    H256::from_low_u64(1)
}

fn raw_genesis(code: u8) -> RawGenesis {
    RawGenesis { runtime_code: vec![code; 3], storage: vec![(vec![1], vec![2])] }
}

fn domain_config() -> DomainConfig {
    DomainConfig {
        domain_name: b"evm-domain".to_vec(),
        runtime_id: 0,
        max_block_size: 600,
        max_block_weight: Weight { ref_time: 6_000, proof_size: 77 },
        bundle_slot_probability: (1, 1),
        target_bundles_per_block: 6,
        operator_allow_list: OperatorAllowList::Anyone,
        initial_balances: vec![(H256::from_low_u64(50), 7), (H256::from_low_u64(51), 8)],
    }
}

fn chain() -> Pallet {
    let mut pallet = Pallet::new(config(), 2);
    pallet
        .set_permissioned_action_allowed_by(Origin::Root, PermissionedActionAllowedBy::Anyone)
        .unwrap();
    pallet
        .register_domain_runtime(Origin::Root, String::from("evm"), RuntimeType::Evm, raw_genesis(1))
        .unwrap();
    pallet.currency.mint_into(&owner(), 1_000_000);
    pallet.system.block_number = 4;
    pallet
        .instantiate_domain(
            Origin::Signed(owner()),
            domain_config(),
            H256::from_low_u64(77),
            H256::from_low_u64(78),
        )
        .unwrap();
    pallet
}

#[test]
fn runtimes_are_registered_and_upgraded() {
    assert_eq!(StartingEVMChainId::get(), 490000);
    let mut pallet = chain();
    assert_eq!(pallet.registry.next_evm_chain_id, 490001);
    assert_eq!(
        pallet.registry.domain_registry.get(&0).unwrap().domain_runtime_info,
        DomainRuntimeInfo::Evm { chain_id: 490000 }
    );
    assert_eq!(
        pallet.events[0],
        Event::DomainRuntimeCreated { runtime_id: 0, runtime_type: RuntimeType::Evm }
    );
    assert_eq!(
        pallet.register_domain_runtime(Origin::Signed(owner()), String::from("x"), RuntimeType::Evm, raw_genesis(1)),
        Err(DispatchError::BadOrigin)
    );
    assert_eq!(pallet.domain_runtime_code(0), Some(vec![1, 1, 1]));
    assert_eq!(pallet.domain_runtime_code(3), None);
    let refused = |error: RuntimeRegistryError| Err(DispatchError::Module(Error::RuntimeRegistry(error)));
    assert_eq!(
        pallet.upgrade_domain_runtime(Origin::Root, 5, raw_genesis(2)),
        refused(RuntimeRegistryError::MissingRuntimeObject)
    );
    assert_eq!(
        pallet.upgrade_domain_runtime(Origin::Unsigned, 0, raw_genesis(2)),
        Err(DispatchError::BadOrigin)
    );
    pallet.upgrade_domain_runtime(Origin::Root, 0, raw_genesis(2)).unwrap();
    assert_eq!(
        pallet.events.last(),
        Some(&Event::DomainRuntimeUpgradeScheduled { runtime_id: 0, scheduled_at: 14 })
    );
    assert_eq!(
        pallet.upgrade_domain_runtime(Origin::Root, 0, raw_genesis(3)),
        refused(RuntimeRegistryError::RuntimeUpgradeAlreadyScheduled)
    );
    pallet.system.block_number = u32::MAX - 3;
    assert_eq!(
        pallet.upgrade_domain_runtime(Origin::Root, 0, raw_genesis(3)),
        refused(RuntimeRegistryError::MaxScheduledBlockNumber)
    );
    pallet.system.block_number = 13;
    assert_eq!(pallet.on_initialize(13), (Weight::zero(), vec![]));
    assert_eq!(pallet.domain_runtime_code(0), Some(vec![1, 1, 1]));
    pallet.system.block_number = 14;
    let events = pallet.events.len();
    pallet.on_initialize(14);
    assert_eq!(pallet.events[events..].to_vec(), vec![Event::DomainRuntimeUpgraded { runtime_id: 0 }]);
    assert_eq!(pallet.domain_runtime_code(0), Some(vec![2, 2, 2]));
    let runtime = pallet.registry.runtime_registry.get(&0).unwrap();
    assert_eq!((runtime.created_at, runtime.updated_at), (0, 14));
    assert_eq!(runtime.runtime_name, "evm");
    assert!(pallet.registry.scheduled_runtime_upgrades.get(&14).is_none());
    pallet.registry.next_runtime_id = u32::MAX;
    assert_eq!(
        pallet.register_domain_runtime(Origin::Root, String::from("x"), RuntimeType::AutoId, raw_genesis(1)),
        refused(RuntimeRegistryError::MaxRuntimeId)
    );
}

#[test]
fn upgrades_of_one_block_are_applied_together() {
    let mut registry = Registry::new();
    for name in ["a", "b", "c"] {
        registry.do_register_runtime(String::from(name), RuntimeType::Evm, raw_genesis(0), 1).unwrap();
    }
    assert_eq!(registry.do_schedule_runtime_upgrade(2, raw_genesis(22), 3, 4), Ok(7));
    assert_eq!(registry.do_schedule_runtime_upgrade(0, raw_genesis(20), 5, 2), Ok(7));
    assert_eq!(registry.do_schedule_runtime_upgrade(1, raw_genesis(21), 5, 3), Ok(8));
    assert_eq!(registry.do_upgrade_runtimes(6), vec![]);
    assert_eq!(registry.do_upgrade_runtimes(7), vec![2, 0]);
    assert_eq!(registry.runtime_registry.get(&0).unwrap().raw_genesis, raw_genesis(20));
    assert_eq!(registry.runtime_registry.get(&1).unwrap().raw_genesis, raw_genesis(0));
    assert_eq!(registry.runtime_registry.get(&2).unwrap().raw_genesis, raw_genesis(22));
    assert_eq!(registry.runtime_registry.get(&2).unwrap().updated_at, 7);
    assert_eq!(registry.do_upgrade_runtimes(7), vec![]);
    assert_eq!(registry.do_upgrade_runtimes(8), vec![1]);
}

#[test]
fn domain_data_can_be_read() {
    let mut pallet = chain();
    let (instance, created_at) = pallet.domain_instance_data(0).unwrap();
    assert_eq!(created_at, 4);
    assert_eq!(instance.runtime_type, RuntimeType::Evm);
    assert_eq!(instance.runtime_code, vec![1, 1, 1]);
    assert_eq!(instance.domain_id, 0);
    assert_eq!(instance.total_issuance, 15);
    assert_eq!(instance.initial_balances, domain_config().initial_balances);
    assert!(pallet.domain_instance_data(1).is_none());
    assert_eq!(
        pallet.domain_block_limit(0),
        Some(DomainBlockLimit { max_block_size: 600, max_block_weight: Weight { ref_time: 6000, proof_size: 77 } })
    );
    assert_eq!(pallet.domain_block_limit(1), None);
    assert_eq!(
        pallet.domain_bundle_limit(0),
        Ok(Some(DomainBundleLimit { max_bundle_size: 100, max_bundle_weight: Weight { ref_time: 1000, proof_size: 77 } }))
    );
    assert_eq!(pallet.domain_bundle_limit(1), Ok(None));
    assert_eq!(
        pallet.bundle_producer_election_params(0),
        Some(BundleProducerElectionParams { total_domain_stake: 0, bundle_slot_probability: (1, 1) })
    );
    assert_eq!(pallet.bundle_producer_election_params(1), None);
    assert_eq!(pallet.domain_best_number(0), Some(0));
    assert!(pallet.non_empty_er_exists(0));
    assert!(!pallet.non_empty_er_exists(1));
    assert_eq!(pallet.oldest_unconfirmed_receipt_number(0), None);
    assert!(!pallet.is_operator_pending_to_slash(0, 0));
    assert!(!pallet.is_bad_er_pending_to_prune(0, 0));
    assert!(pallet.is_bad_er_pending_to_prune(0, 1));
    // A domain whose initial balances do not add up has no instance data.
    let mut rich = domain_config();
    rich.initial_balances = vec![(H256::from_low_u64(50), u128::MAX), (H256::from_low_u64(51), 1)];
    assert_eq!(rich.total_issuance(), None);
    pallet.instantiate_domain(Origin::Signed(owner()), rich, H256::zero(), H256::zero()).unwrap();
    assert!(pallet.domain_instance_data(1).is_none());
    // And one with a slot probability that the chain cannot share out has no limit.
    let mut domain = pallet.registry.domain_registry.remove(&1).unwrap();
    domain.domain_config.bundle_slot_probability = (1, 7);
    pallet.registry.domain_registry.insert(1, domain);
    assert_eq!(pallet.domain_bundle_limit(1), Err(DomainRegistryError::BundleLimitCalculationOverflow));
}

#[test]
fn allow_list_is_set_by_the_owner() {
    let mut pallet = chain();
    let list = || OperatorAllowList::Operators(vec![H256::from_low_u64(3)]);
    assert!(list().is_operator_allowed(&H256::from_low_u64(3)));
    assert!(!list().is_operator_allowed(&H256::from_low_u64(4)));
    assert!(OperatorAllowList::Anyone.is_operator_allowed(&H256::from_low_u64(4)));
    assert!(PermissionedActionAllowedBy::Accounts(vec![owner()]).is_allowed(&owner()));
    assert!(!PermissionedActionAllowedBy::Accounts(vec![]).is_allowed(&owner()));
    assert_eq!(
        pallet.update_domain_operator_allow_list(Origin::Signed(H256::from_low_u64(3)), 0, list()),
        Err(DispatchError::Module(Error::DomainRegistry(DomainRegistryError::NotDomainOwner)))
    );
    assert_eq!(
        pallet.update_domain_operator_allow_list(Origin::Signed(owner()), 1, list()),
        Err(DispatchError::Module(Error::DomainRegistry(DomainRegistryError::DomainNotFound)))
    );
    assert_eq!(pallet.update_domain_operator_allow_list(Origin::Root, 0, list()), Err(DispatchError::BadOrigin));
    pallet.update_domain_operator_allow_list(Origin::Signed(owner()), 0, list()).unwrap();
    assert_eq!(pallet.events.last(), Some(&Event::DomainOperatorAllowListUpdated { domain_id: 0 }));
    assert_eq!(pallet.registry.domain_registry.get(&0).unwrap().domain_config.operator_allow_list, list());
    pallet.currency.mint_into(&H256::from_low_u64(3), 1000);
    let config = OperatorConfig { signing_key: H256::from_low_u64(5), minimum_nominator_stake: 1, nomination_tax: 0 };
    assert!(pallet.register_operator(Origin::Signed(owner()), 0, 500, config).is_err());
    assert_eq!(pallet.register_operator(Origin::Signed(H256::from_low_u64(3)), 0, 500, config), Ok(()));
}

#[test]
fn tx_range_upkeep() {
    let mut pallet = chain();
    let third = U256 {
        w0: 0x5555_5555_5555_5555,
        w1: 0x5555_5555_5555_5555,
        w2: 0x5555_5555_5555_5555,
        w3: 0x5555_5555_5555_5555,
    };
    assert_eq!(pallet.initial_tx_range(), third);
    assert_eq!(pallet.domain_tx_range(0), third);
    pallet.note_domain_bundle(0);
    pallet.note_domain_bundle(0);
    pallet.note_domain_bundle(9);
    assert_eq!(
        pallet.domain_tx_range_state.get(&0),
        Some(&TxRangeState { tx_range: third, interval_blocks: 0, interval_bundles: 2 })
    );
    pallet.update_domain_tx_range();
    assert_eq!(
        pallet.domain_tx_range_state.get(&0),
        Some(&TxRangeState { tx_range: third, interval_blocks: 1, interval_bundles: 2 })
    );
    // The domain 9 is not registered: nothing is counted for it.
    assert_eq!(
        pallet.domain_tx_range_state.get(&9),
        Some(&TxRangeState { tx_range: third, interval_blocks: 0, interval_bundles: 1 })
    );
    pallet.note_domain_bundle(0);
    pallet.update_domain_tx_range();
    // Three bundles in two blocks, where twelve were due: the range falls to a
    // quarter.
    let twelfth = U256 {
        w0: 0x5555_5555_5555_5555,
        w1: 0x5555_5555_5555_5555,
        w2: 0x5555_5555_5555_5555,
        w3: 0x1555_5555_5555_5555,
    };
    assert_eq!(
        pallet.domain_tx_range_state.get(&0),
        Some(&TxRangeState { tx_range: twelfth, interval_blocks: 0, interval_bundles: 0 })
    );
    assert_eq!(pallet.domain_tx_range(0), twelfth);
}

#[test]
fn storage_fund_is_charged_and_refunded() {
    let mut fund = BundleStorageFund::new(3);
    assert_eq!(fund.charge_bundle_storage_fee(4, 0), Ok(()));
    assert_eq!(fund.charge_bundle_storage_fee(4, 1), Err(FundError::BundleStorageFeePayment));
    fund.deposit(4, 100);
    assert!(fund.can_charge(4, 33));
    assert!(!fund.can_charge(4, 34));
    assert!(!fund.can_charge(5, 1));
    assert_eq!(fund.charge_bundle_storage_fee(4, 34), Err(FundError::BundleStorageFeePayment));
    assert_eq!(fund.storage_fund_account_balance(4), 100);
    assert_eq!(fund.charge_bundle_storage_fee(4, 30), Ok(()));
    assert_eq!(fund.storage_fund_account_balance(4), 10);
    assert_eq!(fund.noted_storage_fees, 90);
    assert_eq!(fund.close(4), 10);
    assert_eq!(fund.storage_fund_account_balance(4), 0);
    assert_eq!(share_of_fee(100, 1, 3), 33);
    assert_eq!(share_of_fee(100, 3, 3), 100);
    assert_eq!(share_of_fee(100, 1, 0), 0);
    assert_eq!(share_of_fee(u128::MAX, u32::MAX, u32::MAX as u64), u128::MAX);
    assert_eq!(total_paid_size(&vec![(1, 5), (2, 7), (1, 1)]), 13);

    let mut pallet = chain();
    pallet.currency.mint_into(&H256::from_low_u64(3), 1000);
    let config = OperatorConfig { signing_key: H256::from_low_u64(5), minimum_nominator_stake: 1, nomination_tax: 0 };
    pallet.register_operator(Origin::Signed(H256::from_low_u64(3)), 0, 500, config).unwrap();
    assert_eq!(pallet.storage_fund_account_balance(0), 100);
    // A fee of 100 for bundles of 10, 20 and 30 bytes, the second by an operator
    // that is not on record: its part and what is lost to rounding go to the
    // treasury.
    pallet.refund_storage_fee(100, &vec![(0, 10), (8, 20), (0, 30)]);
    assert_eq!(pallet.storage_fund_account_balance(0), 100 + 16 + 50);
    assert_eq!(pallet.storage_fund_account_balance(8), 0);
    assert_eq!(pallet.currency.balance(&H256::from_low_u64(999)), 34);
    pallet.refund_storage_fee(0, &vec![(0, 10)]);
    assert_eq!(pallet.storage_fund_account_balance(0), 166);
}

#[test]
fn ledger_of_balances() {
    let mut currency = Currency::new();
    let who = H256::from_low_u64(1);
    let other = H256::from_low_u64(2);
    let hold = HoldIdentifier::staking_staked(3);
    assert_eq!(currency.balance(&who), 0);
    currency.mint_into(&who, 100);
    currency.mint_into(&who, u128::MAX);
    assert_eq!(currency.balance(&who), u128::MAX);
    currency.withdraw(&who, u128::MAX - 100);
    assert!(currency.can_hold(hold, &who, 100));
    assert!(!currency.can_hold(hold, &who, 101));
    currency.hold(hold, &who, 60);
    assert_eq!((currency.balance(&who), currency.balance_on_hold(hold, &who)), (40, 60));
    assert_eq!(currency.balance_on_hold(HoldIdentifier::storage_fund_withdrawal(3), &who), 0);
    assert_eq!(currency.balance_on_hold(HoldIdentifier::staking_staked(4), &who), 0);
    assert!(currency.can_release(hold, &who, 60));
    assert!(!currency.can_release(hold, &who, 61));
    currency.release(hold, &who, 10);
    assert_eq!((currency.balance(&who), currency.balance_on_hold(hold, &who)), (50, 50));
    // Stake is taken from one account and held on another, and paid out of it.
    let pool = H256::from_low_u64(77);
    currency.take_on_hold(&who, hold, &pool, 30);
    assert_eq!((currency.balance(&who), currency.balance_on_hold(hold, &pool)), (20, 30));
    assert_eq!(currency.balance_on_hold(hold, &who), 50);
    currency.mint_on_hold(hold, &pool, 7);
    currency.pay_from_hold(hold, &pool, &other, 12);
    assert_eq!((currency.balance(&other), currency.balance_on_hold(hold, &pool)), (12, 25));
    currency.pay_from_hold(hold, &pool, &who, 25);
    assert_eq!((currency.balance(&who), currency.balance_on_hold(hold, &pool)), (45, 0));
    currency.withdraw(&other, 12);
    currency.mint_on_hold(hold, &who, 9);
    currency.slash_hold(hold, &who, &other);
    assert_eq!((currency.balance(&other), currency.balance_on_hold(hold, &who)), (59, 0));
    currency.mint_on_hold(hold, &who, u128::MAX);
    currency.mint_on_hold(hold, &who, 1);
    assert_eq!(currency.balance_on_hold(hold, &who), u128::MAX);
}

#[test]
fn tables_and_sets() {
    let mut table: Table<u32, &str> = Table::new();
    assert_eq!(table.len(), 0);
    table.insert(3, "c");
    table.insert(1, "a");
    table.insert(3, "C");
    assert_eq!(table.len(), 2);
    assert_eq!(table.get(&3), Some(&"C"));
    assert_eq!(table.get(&2), None);
    assert!(table.contains_key(&1));
    assert_eq!((*table.key_at(0), *table.key_at(1)), (3, 1));
    assert_eq!(table.remove(&3), Some("C"));
    assert_eq!(table.remove(&3), None);
    assert_eq!(*table.key_at(0), 1);
    table.insert(9, "i");
    assert_eq!(table.pop_first(), Some((1, "a")));
    assert_eq!(table.pop_first(), Some((9, "i")));
    assert_eq!(table.pop_first(), None);
    table.insert(9, "i");
    table.clear();
    assert_eq!(table.len(), 0);
    let mut set = IdSet::new();
    set.insert(5);
    set.insert(6);
    set.insert(5);
    assert_eq!(set.len(), 2);
    assert!(set.contains(6));
    assert_eq!((set.get(0), set.get(1)), (5, 6));
    set.remove(5);
    assert_eq!(set.get(0), 6);
    assert!(!set.contains(5));
    set.remove(6);
    assert_eq!(set.len(), 0);
    assert_eq!(MAX_BUNLDE_PER_BLOCK, 100);
}
