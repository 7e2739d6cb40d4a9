use pallet_domains::config::{Config, ConfirmWeight, LinearWeight, WeightInfo};
use pallet_domains::currency::HoldIdentifier;
use pallet_domains::error::{DispatchError, Error, Origin};
use pallet_domains::event::Event;
use pallet_domains::pallet::Pallet;
use pallet_domains::primitives::{Weight, H256};
use pallet_domains::registry::{
    DomainConfig, DomainRegistryError, OperatorAllowList, PermissionedActionAllowedBy, RawGenesis,
    RuntimeType,
};
use pallet_domains::staking::{
    stake_account, Deposit, Error as StakingError, OperatorConfig, OperatorStatus, SharePrice,
    Withdrawal,
};
use pallet_domains::staking_epoch::Error as EpochError;

const DOMAIN: u32 = 0;

fn weight(n: u64) -> Weight {
    Weight { ref_time: n, proof_size: n }
}

fn linear(base: u64, per_item: u64) -> LinearWeight {
    LinearWeight { base: weight(base), per_item: weight(per_item) }
}

fn config() -> Config {
    Config {
        confirmation_depth_k: 100,
        domain_runtime_upgrade_delay: 10,
        block_tree_pruning_depth: 8,
        consensus_slot_probability: (1, 6),
        max_domain_block_size: 6_000_000,
        max_domain_block_weight: Weight { ref_time: 6_000_000, proof_size: 6_000_000 },
        max_bundles_per_block: 10,
        max_domain_name_length: 12,
        domain_instantiation_deposit: 100,
        initial_domain_tx_range: 3,
        domain_tx_range_adjustment_interval: 100,
        min_operator_stake: 100,
        min_nominator_stake: 1,
        stake_withdrawal_locking_period: 5,
        stake_epoch_duration: 10,
        treasury_account: treasury(),
        max_pending_staking_operation: 3,
        max_nominators: 2,
        max_initial_domain_accounts: 5,
        min_initial_domain_account_balance: 1,
        bundle_longevity: 5,
        storage_fee_reserve: 20,
        weights: WeightInfo {
            submit_bundle: weight(1000),
            submit_fraud_proof: weight(2000),
            handle_bad_receipt: linear(100, 10),
            confirm_domain_block: ConfirmWeight {
                base: weight(200),
                per_operator: weight(20),
                per_invalid_bundle_author: weight(30),
            },
            operator_reward_tax_and_restake: linear(300, 3),
            finalize_slashed_operators: linear(400, 4),
            finalize_domain_epoch_staking: linear(500, 5),
            unlock_operator: linear(600, 6),
        },
    }
}

fn treasury() -> H256 {
    H256::from_low_u64(999)
}

fn owner() -> H256 {
    H256::from_low_u64(1)
}

fn nominator() -> H256 {
    H256::from_low_u64(2)
}

fn domain_config() -> DomainConfig {
    DomainConfig {
        domain_name: b"evm-domain".to_vec(),
        runtime_id: 0,
        max_block_size: 6_000_000,
        max_block_weight: Weight { ref_time: 6_000_000, proof_size: 6_000_000 },
        bundle_slot_probability: (1, 1),
        target_bundles_per_block: 6,
        operator_allow_list: OperatorAllowList::Anyone,
        initial_balances: vec![],
    }
}

fn operator_config(key: u64) -> OperatorConfig {
    OperatorConfig {
        signing_key: H256::from_low_u64(key),
        minimum_nominator_stake: 10,
        nomination_tax: 5,
    }
}

/// A chain with one domain, and with one operator of `owner` on it.
fn chain() -> Pallet {
    let mut pallet = Pallet::new(config(), 1);
    pallet
        .set_permissioned_action_allowed_by(Origin::Root, PermissionedActionAllowedBy::Anyone)
        .unwrap();
    pallet
        .register_domain_runtime(
            Origin::Root,
            String::from("evm"),
            RuntimeType::Evm,
            RawGenesis { runtime_code: vec![1, 2, 3], storage: vec![] },
        )
        .unwrap();
    pallet.currency.mint_into(&owner(), 1_000_000);
    pallet.currency.mint_into(&nominator(), 10_000);
    pallet
        .instantiate_domain(
            Origin::Signed(owner()),
            domain_config(),
            H256::from_low_u64(77),
            H256::from_low_u64(78),
        )
        .unwrap();
    pallet.register_operator(Origin::Signed(owner()), DOMAIN, 1000, operator_config(11)).unwrap();
    pallet
}

fn confirm(pallet: &mut Pallet, number: u32) {
    pallet.block_tree.head_domain_number.insert(DOMAIN, number);
}

fn staked(pallet: &Pallet, operator_id: u64) -> u128 {
    pallet
        .currency
        .balance_on_hold(HoldIdentifier::staking_staked(operator_id), &stake_account(operator_id))
}

fn stake_due(pallet: &Pallet, operator_id: u64) -> u128 {
    match pallet.staking.operators.get(&operator_id) {
        Some(operator) => {
            operator.current_total_stake + operator.deposits_in_epoch + operator.pending_withdrawals
        }
        None => 0,
    }
}

#[test]
fn registration_stakes_and_funds() {
    let pallet = chain();
    assert_eq!(pallet.currency.balance(&owner()), 1_000_000 - 100 - 1000);
    assert_eq!(
        pallet.currency.balance_on_hold(HoldIdentifier::domain_instantiation_id(DOMAIN), &owner()),
        100
    );
    assert_eq!(staked(&pallet, 0), 800);
    assert_eq!(stake_due(&pallet, 0), 800);
    assert_eq!(
        pallet.currency.balance_on_hold(HoldIdentifier::staking_staked(0), &owner()),
        0
    );
    assert_eq!(pallet.storage_fund_account_balance(0), 200);
    // The first epoch ended with the registration.
    let summary = pallet.staking.domain_staking_summary.get(&DOMAIN).unwrap();
    assert_eq!(summary.current_epoch_index, 1);
    assert_eq!(summary.current_total_stake, 800);
    assert_eq!(summary.current_operators.get(&0), Some(&800));
    assert!(summary.next_operators.contains(0));
    let operator = *pallet.staking.operators.get(&0).unwrap();
    assert_eq!(operator.current_total_stake, 800);
    assert_eq!(operator.current_total_shares, 800);
    assert_eq!(operator.deposits_in_epoch, 0);
    assert_eq!(operator.status, OperatorStatus::Registered);
    assert_eq!(pallet.operator(0), Some((H256::from_low_u64(11), 800)));
    assert_eq!(pallet.operator(1), None);
    assert_eq!(
        pallet.staking.operator_epoch_share_price.get(&(0, DOMAIN, 0)),
        Some(&SharePrice { total_stake: 0, total_shares: 0 })
    );
    assert_eq!(
        pallet.staking.deposit_of(0, &owner()),
        Some(Deposit { shares: 0, pending_amount: 800, pending_epoch: 0 })
    );
    assert_eq!(
        pallet.events[pallet.events.len() - 2..].to_vec(),
        vec![
            Event::StorageFeeDeposited { operator_id: 0, nominator_id: owner(), amount: 200 },
            Event::OperatorRegistered { operator_id: 0, domain_id: DOMAIN },
        ]
    );
    assert_eq!(pallet.staking.operator_id_owner.get(&0), Some(&owner()));
    assert_eq!(pallet.staking.operator_signing_key.get(&H256::from_low_u64(11)), Some(&0));
    assert_eq!(pallet.staking.next_operator_id, 1);
}

fn staking_error(error: StakingError) -> Result<(), DispatchError> {
    Err(DispatchError::Module(Error::Staking(error)))
}

#[test]
fn registration_is_refused() {
    let mut pallet = chain();
    let register = |pallet: &mut Pallet, origin: Origin, domain: u32, amount: u128, config: OperatorConfig| {
        let events = pallet.events.len();
        let balance = pallet.currency.balance(&owner());
        let result = pallet.register_operator(origin, domain, amount, config);
        assert_eq!(pallet.events.len(), events);
        assert_eq!(pallet.currency.balance(&owner()), balance);
        assert_eq!(pallet.staking.next_operator_id, 1);
        result
    };
    assert_eq!(register(&mut pallet, Origin::Root, DOMAIN, 1000, operator_config(12)), Err(DispatchError::BadOrigin));
    assert_eq!(
        register(&mut pallet, Origin::Signed(owner()), 7, 1000, operator_config(12)),
        staking_error(StakingError::DomainNotInitialized)
    );
    assert_eq!(
        register(&mut pallet, Origin::Signed(owner()), DOMAIN, 1000, operator_config(11)),
        staking_error(StakingError::DuplicateOperatorSigningKey)
    );
    let mut taxed = operator_config(12);
    taxed.nomination_tax = 100;
    assert_eq!(
        register(&mut pallet, Origin::Signed(owner()), DOMAIN, 1000, taxed),
        staking_error(StakingError::InvalidNominationTax)
    );
    let mut low = operator_config(12);
    low.minimum_nominator_stake = 0;
    assert_eq!(
        register(&mut pallet, Origin::Signed(owner()), DOMAIN, 1000, low),
        staking_error(StakingError::MinimumNominatorStake)
    );
    assert_eq!(
        register(&mut pallet, Origin::Signed(owner()), DOMAIN, 99, operator_config(12)),
        staking_error(StakingError::MinimumOperatorStake)
    );
    assert_eq!(
        register(&mut pallet, Origin::Signed(owner()), DOMAIN, 2_000_000, operator_config(12)),
        staking_error(StakingError::InsufficientBalance)
    );
    pallet
        .update_domain_operator_allow_list(
            Origin::Signed(owner()),
            DOMAIN,
            OperatorAllowList::Operators(vec![nominator()]),
        )
        .unwrap();
    assert_eq!(
        register(&mut pallet, Origin::Signed(owner()), DOMAIN, 1000, operator_config(12)),
        staking_error(StakingError::OperatorNotAllowed)
    );
    pallet.staking.next_operator_id = u64::MAX;
    let result = pallet.register_operator(Origin::Signed(nominator()), DOMAIN, 1000, operator_config(12));
    assert_eq!(result, staking_error(StakingError::MaximumOperatorId));
}

#[test]
fn nomination_waits_for_the_end_of_the_epoch() {
    let mut pallet = chain();
    pallet.nominate_operator(Origin::Signed(nominator()), 0, 500).unwrap();
    assert_eq!(pallet.currency.balance(&nominator()), 9_500);
    assert_eq!(staked(&pallet, 0), 1200);
    assert_eq!(stake_due(&pallet, 0), 1200);
    assert_eq!(pallet.storage_fund_account_balance(0), 300);
    assert_eq!(
        pallet.staking.deposit_of(0, &nominator()),
        Some(Deposit { shares: 0, pending_amount: 400, pending_epoch: 1 })
    );
    let operator = *pallet.staking.operators.get(&0).unwrap();
    assert_eq!(operator.deposits_in_epoch, 400);
    assert_eq!(operator.current_total_stake, 800);
    assert_eq!(pallet.staking.nominators_count(0), 1);
    assert_eq!(pallet.staking.pending_operations(DOMAIN), 1);
    assert_eq!(
        pallet.events[pallet.events.len() - 2..].to_vec(),
        vec![
            Event::StorageFeeDeposited { operator_id: 0, nominator_id: nominator(), amount: 100 },
            Event::OperatorNominated { operator_id: 0, nominator_id: nominator() },
        ]
    );
    // More in the same epoch adds up.
    pallet.nominate_operator(Origin::Signed(nominator()), 0, 50).unwrap();
    assert_eq!(
        pallet.staking.deposit_of(0, &nominator()),
        Some(Deposit { shares: 0, pending_amount: 440, pending_epoch: 1 })
    );
    assert_eq!(pallet.staking.nominators_count(0), 1);
    let weight = pallet.force_staking_epoch_transition(Origin::Root, DOMAIN).unwrap();
    assert_eq!(weight, Weight { ref_time: 300 + 400 + 500 + 5, proof_size: 300 + 400 + 500 + 5 });
    assert_eq!(
        pallet.events.last(),
        Some(&Event::ForceDomainEpochTransition { domain_id: DOMAIN, completed_epoch_index: 1 })
    );
    let operator = *pallet.staking.operators.get(&0).unwrap();
    assert_eq!(operator.current_total_stake, 1240);
    assert_eq!(operator.current_total_shares, 1240);
    assert_eq!(operator.deposits_in_epoch, 0);
    assert_eq!(pallet.staking.pending_operations(DOMAIN), 0);
    assert_eq!(
        pallet.staking.operator_epoch_share_price.get(&(0, DOMAIN, 1)),
        Some(&SharePrice { total_stake: 800, total_shares: 800 })
    );
    // The pending balance turns into shares when the deposit is next touched.
    pallet.nominate_operator(Origin::Signed(nominator()), 0, 100).unwrap();
    assert_eq!(
        pallet.staking.deposit_of(0, &nominator()),
        Some(Deposit { shares: 440, pending_amount: 80, pending_epoch: 2 })
    );
}

#[test]
fn nomination_is_refused() {
    let mut pallet = chain();
    let nominate = |pallet: &mut Pallet, origin: Origin, operator_id: u64, amount: u128| {
        pallet.nominate_operator(origin, operator_id, amount)
    };
    assert_eq!(nominate(&mut pallet, Origin::Unsigned, 0, 500), Err(DispatchError::BadOrigin));
    assert_eq!(
        nominate(&mut pallet, Origin::Signed(nominator()), 5, 500),
        staking_error(StakingError::UnknownOperator)
    );
    // Eight of the ten are staked, which is below the least stake of ten.
    assert_eq!(
        nominate(&mut pallet, Origin::Signed(nominator()), 0, 10),
        staking_error(StakingError::MinimumNominatorStake)
    );
    assert_eq!(
        nominate(&mut pallet, Origin::Signed(nominator()), 0, 10_001),
        staking_error(StakingError::InsufficientBalance)
    );
    // The owner may add less than a nominator has to bring.
    assert_eq!(nominate(&mut pallet, Origin::Signed(owner()), 0, 5), Ok(()));
    assert_eq!(pallet.staking.nominators_count(0), 0);
    for account in [3u64, 4] {
        pallet.currency.mint_into(&H256::from_low_u64(account), 1000);
        assert_eq!(nominate(&mut pallet, Origin::Signed(H256::from_low_u64(account)), 0, 100), Ok(()));
    }
    assert_eq!(pallet.staking.nominators_count(0), 2);
    assert_eq!(
        nominate(&mut pallet, Origin::Signed(nominator()), 0, 500),
        staking_error(StakingError::MaximumNominators)
    );
    assert_eq!(
        nominate(&mut pallet, Origin::Signed(H256::from_low_u64(3)), 0, 100),
        staking_error(StakingError::TooManyPendingStakingOperation)
    );
    pallet.force_staking_epoch_transition(Origin::Root, DOMAIN).unwrap();
    // A deposit whose epoch is over but has no price on record cannot be added to.
    pallet.staking.operator_epoch_share_price.remove(&(0, DOMAIN, 1));
    assert_eq!(
        nominate(&mut pallet, Origin::Signed(H256::from_low_u64(3)), 0, 100),
        staking_error(StakingError::MissingOperatorEpochSharePrice)
    );
    pallet.deregister_operator(Origin::Signed(owner()), 0).unwrap();
    assert_eq!(
        nominate(&mut pallet, Origin::Signed(H256::from_low_u64(4)), 0, 100),
        staking_error(StakingError::OperatorNotRegistered)
    );
}

#[test]
fn rewards_raise_the_share_price() {
    let mut pallet = chain();
    pallet.nominate_operator(Origin::Signed(nominator()), 0, 500).unwrap();
    pallet.force_staking_epoch_transition(Origin::Root, DOMAIN).unwrap();
    // 1200 staked for 1200 shares. A reward of 301 among the one operator.
    pallet.staking.do_reward_operators(DOMAIN, &vec![0], 301);
    pallet.staking.do_reward_operators(DOMAIN, &vec![0, 7], 3);
    let summary = pallet.staking.domain_staking_summary.get(&DOMAIN).unwrap();
    assert_eq!(summary.current_epoch_rewards.get(&0), Some(&302));
    assert_eq!(summary.current_epoch_rewards.get(&7), Some(&1));
    let events = pallet.events.len();
    pallet.force_staking_epoch_transition(Origin::Root, DOMAIN).unwrap();
    assert_eq!(
        pallet.events[events..].to_vec(),
        vec![
            Event::OperatorRewarded { operator_id: 0, reward: 302 },
            Event::OperatorTaxCollected { operator_id: 0, tax: 15 },
            Event::ForceDomainEpochTransition { domain_id: DOMAIN, completed_epoch_index: 2 },
        ]
    );
    // The tax of 15 is a twentieth of 302, rounded down; the other 287 raise the
    // stake of the pool to 1487 for its 1200 shares. At that price the tax buys
    // 15 * 1200 / 1487 = 12 shares.
    assert_eq!(
        pallet.staking.operator_epoch_share_price.get(&(0, DOMAIN, 2)),
        Some(&SharePrice { total_stake: 1487, total_shares: 1200 })
    );
    let operator = *pallet.staking.operators.get(&0).unwrap();
    assert_eq!(operator.current_total_stake, 1502);
    assert_eq!(operator.current_total_shares, 1212);
    // The tax waits in the deposit of the owner for the price of the epoch.
    assert_eq!(
        pallet.staking.deposit_of(0, &owner()),
        Some(Deposit { shares: 800, pending_amount: 15, pending_epoch: 2 })
    );
    // The whole reward is held with the stake.
    assert_eq!(staked(&pallet, 0), 1200 + 302);
    assert_eq!(stake_due(&pallet, 0), 1502);
    let summary = pallet.staking.domain_staking_summary.get(&DOMAIN).unwrap();
    assert_eq!(summary.current_total_stake, 1502);
    assert_eq!(summary.current_epoch_rewards.len(), 0);
    assert_eq!(summary.current_epoch_index, 3);
}

#[test]
fn withdrawal_and_unlocking() {
    let mut pallet = chain();
    pallet.nominate_operator(Origin::Signed(nominator()), 0, 500).unwrap();
    pallet.force_staking_epoch_transition(Origin::Root, DOMAIN).unwrap();
    pallet.staking.do_reward_operators(DOMAIN, &vec![0], 300);
    pallet.force_staking_epoch_transition(Origin::Root, DOMAIN).unwrap();
    // 1500 staked for 1212 shares.
    let operator = *pallet.staking.operators.get(&0).unwrap();
    assert_eq!((operator.current_total_stake, operator.current_total_shares), (1500, 1212));
    assert_eq!(
        pallet.withdraw_stake(Origin::Signed(nominator()), 0, 0),
        staking_error(StakingError::ZeroWithdrawShares)
    );
    assert_eq!(
        pallet.withdraw_stake(Origin::Signed(nominator()), 9, 1),
        staking_error(StakingError::UnknownOperator)
    );
    assert_eq!(
        pallet.withdraw_stake(Origin::Signed(H256::from_low_u64(5)), 0, 1),
        staking_error(StakingError::UnknownNominator)
    );
    assert_eq!(
        pallet.withdraw_stake(Origin::Signed(nominator()), 0, 401),
        staking_error(StakingError::InsufficientShares)
    );
    assert_eq!(pallet.withdraw_stake(Origin::Root, 0, 1), Err(DispatchError::BadOrigin));
    confirm(&mut pallet, 3);
    pallet.withdraw_stake(Origin::Signed(nominator()), 0, 100).unwrap();
    assert_eq!(
        pallet.events.last(),
        Some(&Event::WithdrewStake { operator_id: 0, nominator_id: nominator() })
    );
    assert_eq!(
        pallet.staking.deposit_of(0, &nominator()),
        Some(Deposit { shares: 300, pending_amount: 0, pending_epoch: 1 })
    );
    assert_eq!(
        pallet.staking.withdrawal_of(0, &nominator()),
        Some(Withdrawal {
            pending_shares: 100,
            pending_epoch: 3,
            amount: 0,
            unlock_at_domain_block_number: 8,
        })
    );
    assert_eq!(pallet.staking.operators.get(&0).unwrap().withdrawals_in_epoch, 100);
    // Nothing can be unlocked while the shares wait for the end of the epoch.
    confirm(&mut pallet, 8);
    assert_eq!(
        pallet.unlock_funds(Origin::Signed(nominator()), 0),
        staking_error(StakingError::MissingWithdrawal)
    );
    pallet.force_staking_epoch_transition(Origin::Root, DOMAIN).unwrap();
    // The 100 shares stood for 100 * 1500 / 1212 = 123.
    let operator = *pallet.staking.operators.get(&0).unwrap();
    assert_eq!((operator.current_total_stake, operator.current_total_shares), (1377, 1112));
    assert_eq!(operator.pending_withdrawals, 123);
    assert_eq!(staked(&pallet, 0), 1500);
    assert_eq!(stake_due(&pallet, 0), 1500);
    confirm(&mut pallet, 7);
    assert_eq!(
        pallet.unlock_funds(Origin::Signed(nominator()), 0),
        staking_error(StakingError::UnlockPeriodNotComplete)
    );
    assert_eq!(
        pallet.unlock_funds(Origin::Signed(owner()), 0),
        staking_error(StakingError::MissingWithdrawal)
    );
    assert_eq!(
        pallet.unlock_funds(Origin::Signed(nominator()), 4),
        staking_error(StakingError::UnknownOperator)
    );
    confirm(&mut pallet, 8);
    let balance = pallet.currency.balance(&nominator());
    pallet.unlock_funds(Origin::Signed(nominator()), 0).unwrap();
    assert_eq!(
        pallet.events.last(),
        Some(&Event::FundsUnlocked { operator_id: 0, nominator_id: nominator(), amount: 123 })
    );
    assert_eq!(pallet.currency.balance(&nominator()), balance + 123);
    assert_eq!(staked(&pallet, 0), 1377);
    assert_eq!(stake_due(&pallet, 0), 1377);
    assert_eq!(pallet.staking.operators.get(&0).unwrap().pending_withdrawals, 0);
    assert_eq!(pallet.staking.withdrawal_of(0, &nominator()), None);
    assert_eq!(
        pallet.unlock_funds(Origin::Signed(nominator()), 0),
        staking_error(StakingError::MissingWithdrawal)
    );
}

#[test]
fn deregistration_and_unlocking_of_an_operator() {
    let mut pallet = chain();
    pallet.nominate_operator(Origin::Signed(nominator()), 0, 500).unwrap();
    pallet.force_staking_epoch_transition(Origin::Root, DOMAIN).unwrap();
    pallet.staking.do_reward_operators(DOMAIN, &vec![0], 300);
    pallet.force_staking_epoch_transition(Origin::Root, DOMAIN).unwrap();
    confirm(&mut pallet, 3);
    pallet.withdraw_stake(Origin::Signed(nominator()), 0, 100).unwrap();
    pallet.force_staking_epoch_transition(Origin::Root, DOMAIN).unwrap();
    assert_eq!(
        pallet.deregister_operator(Origin::Signed(nominator()), 0),
        staking_error(StakingError::NotOperatorOwner)
    );
    assert_eq!(
        pallet.deregister_operator(Origin::Signed(owner()), 3),
        staking_error(StakingError::UnknownOperator)
    );
    assert_eq!(
        pallet.unlock_operator(Origin::Signed(nominator()), 0),
        Err(DispatchError::Module(Error::Staking(StakingError::OperatorNotDeregistered)))
    );
    confirm(&mut pallet, 5);
    pallet.deregister_operator(Origin::Signed(owner()), 0).unwrap();
    assert_eq!(pallet.events.last(), Some(&Event::OperatorDeregistered { operator_id: 0 }));
    assert_eq!(
        pallet.staking.operators.get(&0).unwrap().status,
        OperatorStatus::Deregistered {
            domain_id: DOMAIN,
            epoch_index: 4,
            unlock_at_domain_block_number: 10,
        }
    );
    assert!(!pallet.staking.domain_staking_summary.get(&DOMAIN).unwrap().next_operators.contains(0));
    assert_eq!(
        pallet.deregister_operator(Origin::Signed(owner()), 0),
        staking_error(StakingError::OperatorNotRegistered)
    );
    assert_eq!(
        pallet.withdraw_stake(Origin::Signed(nominator()), 0, 1),
        staking_error(StakingError::OperatorNotRegistered)
    );
    confirm(&mut pallet, 9);
    assert_eq!(
        pallet.unlock_operator(Origin::Signed(nominator()), 0),
        Err(DispatchError::Module(Error::Staking(StakingError::UnlockPeriodNotComplete)))
    );
    assert_eq!(pallet.unlock_operator(Origin::Unsigned, 0), Err(DispatchError::BadOrigin));
    assert_eq!(
        pallet.unlock_operator(Origin::Signed(nominator()), 6),
        Err(DispatchError::Module(Error::Staking(StakingError::UnknownOperator)))
    );
    confirm(&mut pallet, 10);
    let owner_before = pallet.currency.balance(&owner());
    let nominator_before = pallet.currency.balance(&nominator());
    let weight = pallet.unlock_operator(Origin::Signed(nominator()), 0).unwrap();
    assert_eq!(weight, Weight { ref_time: 600 + 2 * 6, proof_size: 600 + 2 * 6 });
    assert_eq!(pallet.events.last(), Some(&Event::OperatorUnlocked { operator_id: 0 }));
    // 1377 staked for 1112 shares, and 123 withdrawn: 1500 are held. The owner has
    // its 800 shares of the first epoch and the 12 of its tax: 812 * 1377 / 1112 =
    // 1005. The nominator has 300 shares, worth 371, and 123 that it withdrew. The
    // one that is left of the stake goes to the owner with what was in the storage
    // fund.
    assert_eq!(pallet.currency.balance(&owner()), owner_before + 1005 + 1 + 300);
    assert_eq!(pallet.currency.balance(&nominator()), nominator_before + 371 + 123);
    assert_eq!(staked(&pallet, 0), 0);
    assert_eq!(stake_due(&pallet, 0), 0);
    assert_eq!(pallet.storage_fund_account_balance(0), 0);
    assert!(pallet.staking.operators.get(&0).is_none());
    assert!(pallet.staking.operator_id_owner.get(&0).is_none());
    assert!(pallet.staking.operator_signing_key.get(&H256::from_low_u64(11)).is_none());
    assert_eq!(pallet.staking.deposit_of(0, &nominator()), None);
    assert_eq!(pallet.staking.withdrawal_of(0, &nominator()), None);
    assert_eq!(pallet.staking.nominators_count(0), 0);
}

#[test]
fn slashed_stake_goes_to_the_treasury() {
    let mut pallet = chain();
    pallet.nominate_operator(Origin::Signed(nominator()), 0, 500).unwrap();
    pallet.force_staking_epoch_transition(Origin::Root, DOMAIN).unwrap();
    assert_eq!(pallet.staking.do_slash_operators(&vec![0, 0, 9]), vec![0]);
    let summary = pallet.staking.domain_staking_summary.get(&DOMAIN).unwrap();
    assert_eq!(summary.current_total_stake, 0);
    assert!(summary.current_operators.get(&0).is_none());
    assert!(!summary.next_operators.contains(0));
    assert_eq!(pallet.staking.operators.get(&0).unwrap().status, OperatorStatus::PendingSlash);
    assert_eq!(pallet.currency.balance(&treasury()), 0);
    assert_eq!(staked(&pallet, 0), 1200);
    let weight = pallet.force_staking_epoch_transition(Origin::Root, DOMAIN).unwrap();
    // Two accounts lost their stake, and no operator was settled.
    assert_eq!(weight, Weight { ref_time: 300 + 400 + 2 * 4 + 500, proof_size: 300 + 400 + 2 * 4 + 500 });
    assert_eq!(pallet.currency.balance(&treasury()), 1200);
    assert_eq!(staked(&pallet, 0), 0);
    assert_eq!(stake_due(&pallet, 0), 0);
    let operator = *pallet.staking.operators.get(&0).unwrap();
    assert_eq!(operator.status, OperatorStatus::Slashed);
    assert_eq!((operator.current_total_stake, operator.current_total_shares), (0, 0));
    assert_eq!(pallet.staking.deposit_of(0, &nominator()), None);
    assert!(pallet.staking.pending_slashes.get(&DOMAIN).is_none());
    assert_eq!(pallet.staking.domain_staking_summary.get(&DOMAIN).unwrap().current_total_stake, 0);
}

#[test]
fn epoch_cannot_end_without_a_summary() {
    let mut pallet = chain();
    assert_eq!(
        pallet.force_staking_epoch_transition(Origin::Root, 4),
        Err(DispatchError::Module(Error::StakingEpoch(EpochError::DomainNotInitialized)))
    );
    assert_eq!(
        pallet.force_staking_epoch_transition(Origin::Signed(owner()), DOMAIN),
        Err(DispatchError::BadOrigin)
    );
    let mut summary = pallet.staking.domain_staking_summary.remove(&DOMAIN).unwrap();
    summary.current_epoch_index = u32::MAX;
    pallet.staking.domain_staking_summary.insert(DOMAIN, summary);
    assert_eq!(
        pallet.force_staking_epoch_transition(Origin::Root, DOMAIN),
        Err(DispatchError::Module(Error::StakingEpoch(EpochError::MaximumEpochIndex)))
    );
}

#[test]
fn domains_are_instantiated_by_those_allowed() {
    let mut pallet = Pallet::new(config(), 1);
    pallet.currency.mint_into(&owner(), 150);
    let instantiate = |pallet: &mut Pallet, origin: Origin, config: DomainConfig| {
        pallet.instantiate_domain(origin, config, H256::from_low_u64(1), H256::from_low_u64(2))
    };
    let refused = |error: DomainRegistryError| Err(DispatchError::Module(Error::DomainRegistry(error)));
    assert_eq!(
        instantiate(&mut pallet, Origin::Signed(owner()), domain_config()),
        Err(DispatchError::Module(Error::PermissionedActionNotAllowed))
    );
    assert_eq!(
        pallet.set_permissioned_action_allowed_by(
            Origin::Signed(owner()),
            PermissionedActionAllowedBy::Anyone
        ),
        Err(DispatchError::BadOrigin)
    );
    pallet
        .set_permissioned_action_allowed_by(
            Origin::Root,
            PermissionedActionAllowedBy::Accounts(vec![owner()]),
        )
        .unwrap();
    assert_eq!(
        instantiate(&mut pallet, Origin::Signed(nominator()), domain_config()),
        Err(DispatchError::Module(Error::PermissionedActionNotAllowed))
    );
    assert_eq!(instantiate(&mut pallet, Origin::Root, domain_config()), Err(DispatchError::BadOrigin));
    assert_eq!(
        instantiate(&mut pallet, Origin::Signed(owner()), domain_config()),
        refused(DomainRegistryError::RuntimeNotFound)
    );
    pallet
        .register_domain_runtime(
            Origin::Root,
            String::from("evm"),
            RuntimeType::Evm,
            RawGenesis { runtime_code: vec![1, 2, 3], storage: vec![] },
        )
        .unwrap();
    let mut config = domain_config();
    config.domain_name = b"a name too long".to_vec();
    assert_eq!(instantiate(&mut pallet, Origin::Signed(owner()), config), refused(DomainRegistryError::DomainNameTooLong));
    let mut config = domain_config();
    config.max_block_size += 1;
    assert_eq!(
        instantiate(&mut pallet, Origin::Signed(owner()), config),
        refused(DomainRegistryError::ExceedMaxDomainBlockSize)
    );
    let mut config = domain_config();
    config.max_block_weight.ref_time += 1;
    assert_eq!(
        instantiate(&mut pallet, Origin::Signed(owner()), config),
        refused(DomainRegistryError::ExceedMaxDomainBlockWeight)
    );
    for target in [0, 11] {
        let mut config = domain_config();
        config.target_bundles_per_block = target;
        assert_eq!(
            instantiate(&mut pallet, Origin::Signed(owner()), config),
            refused(DomainRegistryError::InvalidBundlesPerBlock)
        );
    }
    for probability in [(0, 1), (1, 0), (2, 1)] {
        let mut config = domain_config();
        config.bundle_slot_probability = probability;
        assert_eq!(
            instantiate(&mut pallet, Origin::Signed(owner()), config),
            refused(DomainRegistryError::InvalidSlotProbability)
        );
    }
    let mut config = domain_config();
    config.initial_balances = (0..6).map(|i| (H256::from_low_u64(i), 5)).collect();
    assert_eq!(
        instantiate(&mut pallet, Origin::Signed(owner()), config),
        refused(DomainRegistryError::MaxInitialDomainAccounts)
    );
    let mut config = domain_config();
    config.initial_balances = vec![(H256::from_low_u64(1), 5), (H256::from_low_u64(2), 0)];
    assert_eq!(
        instantiate(&mut pallet, Origin::Signed(owner()), config),
        refused(DomainRegistryError::MinInitialAccountBalance)
    );
    assert_eq!(instantiate(&mut pallet, Origin::Signed(owner()), domain_config()), Ok(()));
    assert_eq!(pallet.events.last(), Some(&Event::DomainInstantiated { domain_id: 0 }));
    assert_eq!(pallet.currency.balance(&owner()), 50);
    assert_eq!(
        instantiate(&mut pallet, Origin::Signed(owner()), domain_config()),
        refused(DomainRegistryError::InsufficientFund)
    );
    pallet.currency.mint_into(&owner(), 1000);
    pallet.registry.next_evm_chain_id = u64::MAX;
    assert_eq!(
        instantiate(&mut pallet, Origin::Signed(owner()), domain_config()),
        refused(DomainRegistryError::MaxEVMChainId)
    );
    pallet.registry.next_evm_chain_id = 490001;
    pallet.registry.next_domain_id = u32::MAX;
    assert_eq!(
        instantiate(&mut pallet, Origin::Signed(owner()), domain_config()),
        refused(DomainRegistryError::MaxDomainId)
    );
    assert!(pallet.is_domain_owner(0, owner()));
    assert!(!pallet.is_domain_owner(0, nominator()));
    assert!(!pallet.is_domain_owner(1, owner()));
    assert_eq!(pallet.runtime_id(0), Some(0));
    assert_eq!(pallet.runtime_id(1), None);
    assert_eq!(pallet.head_receipt_number(0), 0);
    assert_eq!(pallet.latest_confirmed_domain_block(0).unwrap().0, 0);
    assert_eq!(pallet.genesis_state_root(0), Some(H256::from_low_u64(1)));
    assert_eq!(pallet.genesis_state_root(1), None);
}

#[test]
fn deposits_of_an_epoch_must_fit() {
    let mut pallet = chain();
    let rich = H256::from_low_u64(70);
    let richer = H256::from_low_u64(71);
    pallet.currency.mint_into(&rich, u128::MAX);
    pallet.currency.mint_into(&richer, u128::MAX);
    pallet.nominate_operator(Origin::Signed(rich), 0, u128::MAX).unwrap();
    let fee = u128::MAX / 5;
    assert_eq!(staked(&pallet, 0), 800 + (u128::MAX - fee));
    assert_eq!(pallet.storage_fund_account_balance(0), 200 + fee);
    assert_eq!(
        pallet.nominate_operator(Origin::Signed(richer), 0, u128::MAX),
        staking_error(StakingError::BalanceOverflow)
    );
    assert_eq!(pallet.currency.balance(&richer), u128::MAX);
    assert_eq!(pallet.staking.nominators_count(0), 1);
}

#[test]
fn withdrawn_stake_is_held_until_it_is_unlocked() {
    let mut pallet = chain();
    pallet.nominate_operator(Origin::Signed(nominator()), 0, 500).unwrap();
    pallet.force_staking_epoch_transition(Origin::Root, DOMAIN).unwrap();
    pallet.staking.do_reward_operators(DOMAIN, &vec![0], 300);
    pallet.force_staking_epoch_transition(Origin::Root, DOMAIN).unwrap();
    // 1500 staked for 1212 shares. Two accounts withdraw 100 shares each.
    confirm(&mut pallet, 3);
    pallet.withdraw_stake(Origin::Signed(nominator()), 0, 100).unwrap();
    pallet.withdraw_stake(Origin::Signed(owner()), 0, 100).unwrap();
    assert_eq!(pallet.staking.operators.get(&0).unwrap().withdrawals_in_epoch, 200);
    assert_eq!((staked(&pallet, 0), stake_due(&pallet, 0)), (1500, 1500));
    pallet.force_staking_epoch_transition(Origin::Root, DOMAIN).unwrap();
    // The 200 shares stood for 200 * 1500 / 1212 = 247.
    let operator = *pallet.staking.operators.get(&0).unwrap();
    assert_eq!((operator.current_total_stake, operator.current_total_shares), (1253, 1012));
    assert_eq!(operator.pending_withdrawals, 247);
    assert_eq!((staked(&pallet, 0), stake_due(&pallet, 0)), (1500, 1500));
    // Each account unlocks what its own 100 shares stood for: 123.
    confirm(&mut pallet, 8);
    let owner_before = pallet.currency.balance(&owner());
    let nominator_before = pallet.currency.balance(&nominator());
    pallet.unlock_funds(Origin::Signed(nominator()), 0).unwrap();
    pallet.unlock_funds(Origin::Signed(owner()), 0).unwrap();
    assert_eq!(
        pallet.events.last(),
        Some(&Event::FundsUnlocked { operator_id: 0, nominator_id: owner(), amount: 123 })
    );
    assert_eq!(pallet.currency.balance(&owner()), owner_before + 123);
    assert_eq!(pallet.currency.balance(&nominator()), nominator_before + 123);
    assert_eq!(pallet.staking.operators.get(&0).unwrap().pending_withdrawals, 1);
    assert_eq!((staked(&pallet, 0), stake_due(&pallet, 0)), (1254, 1254));
    // When the operator is unlocked, the owner has 712 shares, worth 712 * 1253 /
    // 1012 = 881, and the nominator 300, worth 371. The two that are left of the
    // 1254 that are held go to the owner, with the 300 of the storage fund.
    pallet.deregister_operator(Origin::Signed(owner()), 0).unwrap();
    confirm(&mut pallet, 13);
    let owner_before = pallet.currency.balance(&owner());
    let nominator_before = pallet.currency.balance(&nominator());
    pallet.unlock_operator(Origin::Signed(owner()), 0).unwrap();
    assert_eq!(pallet.currency.balance(&nominator()), nominator_before + 371);
    assert_eq!(pallet.currency.balance(&owner()), owner_before + 881 + 2 + 300);
    assert_eq!((staked(&pallet, 0), stake_due(&pallet, 0)), (0, 0));
}

#[test]
fn a_reward_is_granted_as_far_as_the_stake_has_room() {
    let mut pallet = chain();
    let rich = H256::from_low_u64(70);
    pallet.currency.mint_into(&rich, u128::MAX);
    pallet.nominate_operator(Origin::Signed(rich), 0, u128::MAX).unwrap();
    let fee = u128::MAX / 5;
    assert_eq!(staked(&pallet, 0), 800 + (u128::MAX - fee));
    pallet.staking.do_reward_operators(DOMAIN, &vec![0], u128::MAX);
    let events = pallet.events.len();
    pallet.force_staking_epoch_transition(Origin::Root, DOMAIN).unwrap();
    let granted = fee - 800;
    assert_eq!(
        pallet.events[events..events + 2].to_vec(),
        vec![
            Event::OperatorRewarded { operator_id: 0, reward: granted },
            Event::OperatorTaxCollected { operator_id: 0, tax: granted / 20 },
        ]
    );
    assert_eq!(pallet.staking.operators.get(&0).unwrap().current_total_stake, u128::MAX);
    assert_eq!((staked(&pallet, 0), stake_due(&pallet, 0)), (u128::MAX, u128::MAX));
}

#[test]
fn a_deposit_must_fit_on_top_of_the_stake_that_is_held() {
    let mut pallet = chain();
    let rich = H256::from_low_u64(70);
    pallet.currency.mint_into(&rich, u128::MAX);
    // The stake of the next operator is held already, by whatever means.
    pallet.currency.mint_on_hold(HoldIdentifier::staking_staked(1), &stake_account(1), u128::MAX);
    assert_eq!(
        pallet.register_operator(Origin::Signed(rich), DOMAIN, 5000, operator_config(12)),
        staking_error(StakingError::BalanceOverflow)
    );
    assert_eq!(pallet.currency.balance(&rich), u128::MAX);
    assert_eq!(pallet.staking.next_operator_id, 1);
}

#[test]
fn the_stake_of_each_operator_is_held_on_an_account_of_its_own() {
    assert_ne!(stake_account(0), stake_account(1));
    assert_ne!(stake_account(0), H256::from_low_u64(0));
    assert_eq!(stake_account(7).w0, 7);
    let mut pallet = chain();
    pallet.currency.mint_into(&nominator(), 5000);
    pallet.register_operator(Origin::Signed(nominator()), DOMAIN, 2000, operator_config(12)).unwrap();
    assert_eq!((staked(&pallet, 0), stake_due(&pallet, 0)), (800, 800));
    assert_eq!((staked(&pallet, 1), stake_due(&pallet, 1)), (1600, 1600));
    pallet.nominate_operator(Origin::Signed(owner()), 1, 100).unwrap();
    assert_eq!((staked(&pallet, 0), stake_due(&pallet, 0)), (800, 800));
    assert_eq!((staked(&pallet, 1), stake_due(&pallet, 1)), (1680, 1680));
}

#[test]
fn a_reward_of_a_slashed_operator_goes_to_the_treasury_with_its_stake() {
    let mut pallet = chain();
    pallet.nominate_operator(Origin::Signed(nominator()), 0, 500).unwrap();
    pallet.force_staking_epoch_transition(Origin::Root, DOMAIN).unwrap();
    pallet.staking.do_reward_operators(DOMAIN, &vec![0], 100);
    assert_eq!(pallet.staking.do_slash_operators(&vec![0]), vec![0]);
    let events = pallet.events.len();
    pallet.force_staking_epoch_transition(Origin::Root, DOMAIN).unwrap();
    assert_eq!(
        pallet.events[events..events + 2].to_vec(),
        vec![
            Event::OperatorRewarded { operator_id: 0, reward: 100 },
            Event::OperatorTaxCollected { operator_id: 0, tax: 5 },
        ]
    );
    assert_eq!(pallet.currency.balance(&treasury()), 1300);
    assert_eq!((staked(&pallet, 0), stake_due(&pallet, 0)), (0, 0));
    assert_eq!(pallet.staking.operators.get(&0).unwrap().status, OperatorStatus::Slashed);
    assert_eq!(pallet.staking.deposit_of(0, &owner()), None);
}

#[test]
fn a_reward_of_a_deregistered_operator_is_paid_out_when_it_is_unlocked() {
    let mut pallet = chain();
    pallet.nominate_operator(Origin::Signed(nominator()), 0, 500).unwrap();
    pallet.force_staking_epoch_transition(Origin::Root, DOMAIN).unwrap();
    // 1200 staked for 1200 shares: 800 of the owner, 400 of the nominator.
    confirm(&mut pallet, 5);
    pallet.deregister_operator(Origin::Signed(owner()), 0).unwrap();
    pallet.staking.do_reward_operators(DOMAIN, &vec![0], 120);
    pallet.force_staking_epoch_transition(Origin::Root, DOMAIN).unwrap();
    // The tax of 6 waits in the deposit of the owner; the other 114 raise the stake.
    let operator = *pallet.staking.operators.get(&0).unwrap();
    assert_eq!((operator.current_total_stake, operator.current_total_shares), (1314, 1200));
    assert_eq!(operator.deposits_in_epoch, 6);
    assert_eq!((staked(&pallet, 0), stake_due(&pallet, 0)), (1320, 1320));
    assert_eq!(
        pallet.staking.deposit_of(0, &owner()),
        Some(Deposit { shares: 800, pending_amount: 6, pending_epoch: 2 })
    );
    confirm(&mut pallet, 10);
    let owner_before = pallet.currency.balance(&owner());
    let nominator_before = pallet.currency.balance(&nominator());
    pallet.unlock_operator(Origin::Signed(owner()), 0).unwrap();
    // The owner has 800 * 1314 / 1200 = 876 and the 6 of its tax, the nominator
    // 400 * 1314 / 1200 = 438. Nothing is left of the 1320 that were held.
    assert_eq!(pallet.currency.balance(&owner()), owner_before + 876 + 6 + 300);
    assert_eq!(pallet.currency.balance(&nominator()), nominator_before + 438);
    assert_eq!((staked(&pallet, 0), stake_due(&pallet, 0)), (0, 0));
}

#[test]
fn rewards_are_given_in_the_order_of_the_operators() {
    let mut pallet = chain();
    pallet.currency.mint_into(&nominator(), 5000);
    pallet.register_operator(Origin::Signed(nominator()), DOMAIN, 2000, operator_config(12)).unwrap();
    pallet.force_staking_epoch_transition(Origin::Root, DOMAIN).unwrap();
    // The later operator is rewarded first.
    pallet.staking.do_reward_operators(DOMAIN, &vec![1], 40);
    pallet.staking.do_reward_operators(DOMAIN, &vec![0], 60);
    let events = pallet.events.len();
    pallet.force_staking_epoch_transition(Origin::Root, DOMAIN).unwrap();
    assert_eq!(
        pallet.events[events..events + 4].to_vec(),
        vec![
            Event::OperatorRewarded { operator_id: 0, reward: 60 },
            Event::OperatorTaxCollected { operator_id: 0, tax: 3 },
            Event::OperatorRewarded { operator_id: 1, reward: 40 },
            Event::OperatorTaxCollected { operator_id: 1, tax: 2 },
        ]
    );
    let summary = pallet.staking.domain_staking_summary.get(&DOMAIN).unwrap();
    assert_eq!((summary.next_operators.get(0), summary.next_operators.get(1)), (0, 1));
}
