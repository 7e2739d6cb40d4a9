//! What happens at the boundaries of a consensus block, and the upkeep of the
//! transaction ranges.

use crate::event::Event;
use crate::pallet::{Pallet, PalletView};
use crate::primitives::{BlockNumber, DomainId, RuntimeId, Weight, H256};
use crate::registry::upgraded_runtimes;
use crate::staking::{ElectionParamsView, StakingView};
use crate::tx_range::TxRangeState;
use vstd::prelude::*;

verus! {

/// The consensus block hashes after the hash `hash` of the block `number` is put on
/// record for the first `k` of `domains`.
pub open spec fn archived(
    hashes: Map<(DomainId, BlockNumber), H256>,
    domains: Seq<DomainId>,
    number: BlockNumber,
    hash: H256,
    k: int,
) -> Map<(DomainId, BlockNumber), H256>
    decreases k,
{
    if k <= 0 {
        hashes
    } else {
        archived(hashes, domains, number, hash, k - 1).insert((domains[k - 1], number), hash)
    }
}

/// The events that tell of the upgrade of the first `k` of `runtimes`.
pub open spec fn upgrade_events(runtimes: Seq<RuntimeId>, k: int) -> Seq<Event>
    decreases k,
{
    if k <= 0 {
        Seq::empty()
    } else {
        upgrade_events(runtimes, k - 1).push(
            Event::DomainRuntimeUpgraded { runtime_id: runtimes[k - 1] },
        )
    }
}

impl Pallet {
    /// Begins the consensus block `block_number`: applies the runtime upgrades that
    /// are scheduled for it, puts the hash of the parent block on record for every
    /// domain that had a bundle taken in that block, and forgets the bundles and the
    /// fraud proofs of that block. Hands back the weight of it, and the domains that
    /// had a bundle taken, which are to be told that they had.
    pub fn on_initialize(&mut self, block_number: BlockNumber) -> (result: (Weight, Vec<DomainId>))
        requires
            block_number >= 1,
        ensures
            result.0 == (Weight { ref_time: 0, proof_size: 0 }),
            result.1@ == old(self).successful_bundles.keys(),
            final(self)@.successful_bundles == Map::<DomainId, Seq<H256>>::empty(),
            final(self)@.successful_fraud_proofs == Map::<DomainId, Seq<H256>>::empty(),
            final(self)@.block_tree == (crate::block_tree::BlockTreeView {
                consensus_block_hash: archived(
                    old(self)@.block_tree.consensus_block_hash,
                    old(self).successful_bundles.keys(),
                    (block_number - 1) as u32,
                    old(self)@.system.hash_of_block((block_number - 1) as u32),
                    old(self).successful_bundles.keys().len() as int,
                ),
                ..old(self)@.block_tree
            }),
            final(self).registry.scheduled_runtime_upgrades@ == old(self).registry.scheduled_runtime_upgrades@.remove(block_number),
            final(self).registry.domain_registry == old(self).registry.domain_registry,
            final(self).registry.next_runtime_id == old(self).registry.next_runtime_id,
            final(self).registry.next_domain_id == old(self).registry.next_domain_id,
            final(self).registry.next_evm_chain_id == old(self).registry.next_evm_chain_id,
            if old(self).registry.scheduled_runtime_upgrades@.contains_key(block_number) {
                let upgrades = old(self).registry.scheduled_runtime_upgrades@[block_number];
                &&& final(self).registry.runtime_registry@ == upgraded_runtimes(
                    old(self).registry.runtime_registry@,
                    upgrades@,
                    upgrades.keys(),
                    block_number,
                    upgrades.keys().len() as int,
                )
                &&& final(self)@.events == old(self)@.events + upgrade_events(
                    upgrades.keys(),
                    upgrades.keys().len() as int,
                )
            } else {
                final(self).registry.runtime_registry == old(self).registry.runtime_registry
                    && final(self)@.events == old(self)@.events
            },
            final(self)@ == (PalletView {
                registry: final(self).registry,
                block_tree: final(self)@.block_tree,
                successful_bundles: Map::empty(),
                successful_fraud_proofs: Map::empty(),
                events: final(self)@.events,
                ..old(self)@
            }),
    {
        let upgraded = self.registry.do_upgrade_runtimes(block_number);
        let ghost events_before = self.events@;
        let mut i: usize = 0;
        while i < upgraded.len()
            invariant
                i <= upgraded@.len(),
                self.events@ == events_before + upgrade_events(upgraded@, i as int),
                self@ == (PalletView { registry: self.registry, events: self.events@, ..old(self)@ }),
                self.successful_bundles == old(self).successful_bundles,
                self.registry.scheduled_runtime_upgrades@ == old(self).registry.scheduled_runtime_upgrades@.remove(block_number),
                self.registry.domain_registry == old(self).registry.domain_registry,
                self.registry.next_runtime_id == old(self).registry.next_runtime_id,
                self.registry.next_domain_id == old(self).registry.next_domain_id,
                self.registry.next_evm_chain_id == old(self).registry.next_evm_chain_id,
                if old(self).registry.scheduled_runtime_upgrades@.contains_key(block_number) {
                    let upgrades = old(self).registry.scheduled_runtime_upgrades@[block_number];
                    &&& upgraded@ == upgrades.keys()
                    &&& self.registry.runtime_registry@ == upgraded_runtimes(
                        old(self).registry.runtime_registry@,
                        upgrades@,
                        upgrades.keys(),
                        block_number,
                        upgrades.keys().len() as int,
                    )
                } else {
                    upgraded@.len() == 0 && self.registry.runtime_registry == old(self).registry.runtime_registry
                },
            decreases upgraded@.len() - i,
        {
            self.events.push(Event::DomainRuntimeUpgraded { runtime_id: upgraded[i] });
            proof {
                assert(self.events@ =~= events_before + upgrade_events(upgraded@, i + 1));
            }
            i = i + 1;
        }
        proof {
            assert(events_before + upgrade_events(upgraded@, 0) =~= events_before);
        }
        let parent_number = block_number - 1;
        let parent_hash = self.system.hash_of_block(parent_number);
        let mut notified: Vec<DomainId> = Vec::new();
        let ghost domains = self.successful_bundles.keys();
        let ghost hashes = self.block_tree.consensus_block_hash@;
        let ghost tree = self@.block_tree;
        let ghost upgraded_state = self@;
        let n = self.successful_bundles.len();
        let mut j: usize = 0;
        while j < n
            invariant
                j <= n,
                n == domains.len(),
                domains == self.successful_bundles.keys(),
                notified@ == domains.take(j as int),
                self@.block_tree == (crate::block_tree::BlockTreeView {
                    consensus_block_hash: archived(hashes, domains, parent_number, parent_hash, j as int),
                    ..tree
                }),
                self@ == (PalletView { block_tree: self@.block_tree, ..upgraded_state }),
                self.registry == upgraded_state.registry,
                self.successful_bundles == old(self).successful_bundles,
            decreases n - j,
        {
            let domain_id = *self.successful_bundles.key_at(j);
            self.block_tree.consensus_block_hash.insert((domain_id, parent_number), parent_hash);
            notified.push(domain_id);
            proof {
                assert(notified@ =~= domains.take(j + 1));
                assert(self@.block_tree.block_tree_nodes =~= tree.block_tree_nodes);
                assert(self@.block_tree.execution_inbox =~= tree.execution_inbox);
            }
            j = j + 1;
        }
        proof {
            assert(domains.take(n as int) =~= domains);
        }
        self.successful_bundles.clear();
        self.successful_fraud_proofs.clear();
        proof {
            assert(self@.successful_bundles =~= Map::<DomainId, Seq<H256>>::empty());
            assert(self@.successful_fraud_proofs =~= Map::<DomainId, Seq<H256>>::empty());
        }
        (Weight::zero(), notified)
    }

    /// Ends the consensus block: forgets the stake of epochs that ended in the
    /// block, and which head receipts were extended in it.
    pub fn on_finalize(&mut self)
        ensures
            final(self)@ == (PalletView {
                staking: StakingView {
                    last_epoch_staking_distribution: Map::empty(),
                    ..old(self)@.staking
                },
                block_tree: crate::block_tree::BlockTreeView {
                    head_receipt_extended: Map::empty(),
                    ..old(self)@.block_tree
                },
                ..old(self)@
            }),
    {
        self.staking.last_epoch_staking_distribution.clear();
        self.block_tree.head_receipt_extended.clear();
        proof {
            assert(self@.staking.last_epoch_staking_distribution =~= Map::<
                DomainId,
                ElectionParamsView,
            >::empty());
            assert(self@.staking.domain_staking_summary =~= old(self)@.staking.domain_staking_summary);
            assert(self@.staking.pending_slashes =~= old(self)@.staking.pending_slashes);
            assert(self@.staking.deposits =~= old(self)@.staking.deposits);
            assert(self@.staking.nominators =~= old(self)@.staking.nominators);
            assert(self@.staking.withdrawals =~= old(self)@.staking.withdrawals);
            assert(self@.block_tree.block_tree_nodes =~= old(self)@.block_tree.block_tree_nodes);
            assert(self@.block_tree.execution_inbox =~= old(self)@.block_tree.execution_inbox);
            assert(self@.successful_bundles =~= old(self)@.successful_bundles);
            assert(self@.successful_fraud_proofs =~= old(self)@.successful_fraud_proofs);
        }
    }

    /// Counts a bundle of the domain in the current adjustment interval of its
    /// transaction range. A domain without a range on record gets the first range.
    pub fn note_domain_bundle(&mut self, domain_id: DomainId)
        requires
            old(self).config.initial_domain_tx_range != 0,
            old(self)@.domain_tx_range_state.contains_key(domain_id) ==> old(self)@.domain_tx_range_state[domain_id].interval_bundles < u64::MAX,
        ensures
            final(self)@.domain_tx_range_state.dom() == old(self)@.domain_tx_range_state.dom().insert(
                domain_id,
            ),
            forall|d: DomainId|
                d != domain_id && old(self)@.domain_tx_range_state.contains_key(d) ==> (
                #[trigger] final(self)@.domain_tx_range_state[d]) == old(self)@.domain_tx_range_state[d],
            if old(self)@.domain_tx_range_state.contains_key(domain_id) {
                final(self)@.domain_tx_range_state[domain_id] == (TxRangeState {
                    interval_bundles: (old(self)@.domain_tx_range_state[domain_id].interval_bundles
                        + 1) as u64,
                    ..old(self)@.domain_tx_range_state[domain_id]
                })
            } else {
                &&& final(self)@.domain_tx_range_state[domain_id].tx_range@ == old(self)@.initial_tx_range()
                &&& final(self)@.domain_tx_range_state[domain_id].interval_blocks == 0
                &&& final(self)@.domain_tx_range_state[domain_id].interval_bundles == 1
            },
            final(self)@ == (PalletView {
                domain_tx_range_state: final(self)@.domain_tx_range_state,
                ..old(self)@
            }),
    {
        let state = match self.domain_tx_range_state.get(&domain_id) {
            Some(state) => {
                let mut state = *state;
                state.on_bundle();
                state
            },
            None => TxRangeState {
                tx_range: self.initial_tx_range(),
                interval_blocks: 0,
                interval_bundles: 1,
            },
        };
        self.domain_tx_range_state.insert(domain_id, state);
    }

    /// Counts a block for every domain with a transaction range on record that is
    /// registered, and recalculates the range of each whose adjustment interval ends
    /// with the block. The bundles expected in an interval are the target of
    /// bundles in a block of the domain, times the blocks of the interval.
    pub fn update_domain_tx_range(&mut self)
        requires
            forall|d: DomainId| #[trigger]
                old(self)@.domain_tx_range_state.contains_key(d) ==> old(self)@.domain_tx_range_state[d].interval_blocks < u64::MAX,
            forall|d: DomainId|
                old(self)@.domain_tx_range_state.contains_key(d) && #[trigger] old(
                    self,
                ).registry.domain_registry@.contains_key(d) ==> old(
                    self,
                ).config.domain_tx_range_adjustment_interval * old(
                    self,
                ).registry.domain_registry@[d].domain_config.target_bundles_per_block <= u64::MAX,
        ensures
            final(self)@.domain_tx_range_state.dom() == old(self)@.domain_tx_range_state.dom(),
            forall|d: DomainId| #[trigger]
                old(self)@.domain_tx_range_state.contains_key(d) ==> if old(self).registry.domain_registry@.contains_key(d) {
                    old(self)@.domain_tx_range_state[d].block_step(
                        final(self)@.domain_tx_range_state[d],
                        old(self).config.domain_tx_range_adjustment_interval,
                        old(self).registry.domain_registry@[d].domain_config.target_bundles_per_block,
                    )
                } else {
                    final(self)@.domain_tx_range_state[d] == old(self)@.domain_tx_range_state[d]
                },
            final(self)@ == (PalletView {
                domain_tx_range_state: final(self)@.domain_tx_range_state,
                ..old(self)@
            }),
    {
        let n = self.domain_tx_range_state.len();
        let ghost keys = self.domain_tx_range_state.keys();
        let ghost before = self.domain_tx_range_state@;
        let interval = self.config.domain_tx_range_adjustment_interval;
        let mut i: usize = 0;
        while i < n
            invariant
                i <= n,
                n == keys.len(),
                keys == self.domain_tx_range_state.keys(),
                keys.no_duplicates(),
                forall|d: DomainId| keys.contains(d) <==> before.contains_key(d),
                before == old(self)@.domain_tx_range_state,
                interval == self.config.domain_tx_range_adjustment_interval,
                self.registry == old(self).registry,
                forall|d: DomainId|
                    before.contains_key(d) && #[trigger] self.registry.domain_registry@.contains_key(
                        d,
                    ) ==> interval
                        * self.registry.domain_registry@[d].domain_config.target_bundles_per_block
                        <= u64::MAX,
                self.domain_tx_range_state@.dom() == before.dom(),
                self@ == (PalletView {
                    domain_tx_range_state: self.domain_tx_range_state@,
                    ..old(self)@
                }),
                forall|d: DomainId| #[trigger]
                    before.contains_key(d) ==> before[d].interval_blocks < u64::MAX,
                forall|j: int|
                    0 <= j < i ==> if self.registry.domain_registry@.contains_key(
                        #[trigger] keys[j],
                    ) {
                        before[keys[j]].block_step(
                            self.domain_tx_range_state@[keys[j]],
                            interval,
                            self.registry.domain_registry@[keys[j]].domain_config.target_bundles_per_block,
                        )
                    } else {
                        self.domain_tx_range_state@[keys[j]] == before[keys[j]]
                    },
                forall|j: int|
                    i <= j < n ==> self.domain_tx_range_state@[#[trigger] keys[j]] == before[keys[j]],
            decreases n - i,
        {
            let domain_id = *self.domain_tx_range_state.key_at(i);
            let target = match self.registry.domain_registry.get(&domain_id) {
                Some(domain) => Some(domain.domain_config.target_bundles_per_block),
                None => None,
            };
            match target {
                Some(target_bundles_per_block) => {
                    let mut state = match self.domain_tx_range_state.get(&domain_id) {
                        Some(state) => *state,
                        None => {
                            proof {
                                assert(false);
                            }
                            TxRangeState::default()
                        },
                    };
                    assert(keys[i as int] == domain_id);
                    assert(state == before[domain_id]);
                    assert(before.contains_key(domain_id));
                    assert(self.registry.domain_registry@.contains_key(domain_id));
                    assert(interval * target_bundles_per_block <= u64::MAX);
                    state.on_block(interval, target_bundles_per_block);
                    self.domain_tx_range_state.insert(domain_id, state);
                    proof {
                        assert(self.domain_tx_range_state@.dom() =~= before.dom());
                        assert forall|j: int| 0 <= j < n && j != i implies keys[j] != domain_id by {
                            assert(keys[j] != keys[i as int]);
                        }
                    }
                },
                None => {},
            }
            i = i + 1;
        }
        proof {
            assert forall|d: DomainId| #[trigger]
                before.contains_key(d) implies if self.registry.domain_registry@.contains_key(d) {
                before[d].block_step(
                    self.domain_tx_range_state@[d],
                    interval,
                    self.registry.domain_registry@[d].domain_config.target_bundles_per_block,
                )
            } else {
                self.domain_tx_range_state@[d] == before[d]
            } by {
                assert(keys.contains(d));
                let j = choose|j: int| 0 <= j < keys.len() && keys[j] == d;
                assert(keys[j] == d);
            }
        }
    }
}

} // verus!
