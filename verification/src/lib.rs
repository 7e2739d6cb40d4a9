//! On-chain bookkeeping for execution domains: chains whose blocks are proposed by
//! staked operators and confirmed by a consensus chain.
//!
//! The state of all domains is one value, [`pallet::Pallet`]. Operators submit
//! bundles, each with an execution receipt; the receipts of a domain form its block
//! tree ([`block_tree`]), in which a block is confirmed once it lies a configured
//! depth behind the head. A fraud proof ([`fraud_proof`]) takes a bad receipt out of
//! the tree and lowers the head. Operators and their nominators stake on a domain
//! ([`staking`], [`nomination`]); confirmations reward them, bad receipts and invalid
//! bundles get them slashed, and stake changes take effect when a staking epoch
//! ends ([`staking_epoch`]). The stake of an operator is held on an account of its
//! own ([`staking::stake_account`]).
//!
//! Every call either succeeds as a whole or leaves the state as it was. What a call
//! does is stated over the state as a value ([`pallet::PalletView`]); [`laws`] holds
//! what follows for every state of the block tree, [`tree_laws`] the order that
//! every tree is kept in, and [`stake_laws`] that what is held as the stake of an
//! operator is what its record says.
//!
//! Hashes, tries and signatures are computed by `sp-core` and `sp-runtime`
//! ([`hashing`], [`u256`]). Proofs of time, signatures of the random function and
//! what a fraud proof holds are verified outside and come in as what was found
//! ([`admission::ProofChecks`], [`unsigned::Evidence`]).

pub mod admission;
pub mod block_tree;
pub mod bundle;
pub mod bundle_storage_fund;
pub mod calls;
pub mod codec;
pub mod config;
pub mod currency;
pub mod dispatch;
pub mod error;
pub mod event;
pub mod fraud_proof;
pub mod hashing;
pub mod hooks;
pub mod laws;
pub mod nomination;
pub mod pallet;
pub mod primitives;
pub mod receipt;
pub mod registry;
pub mod settlement;
pub mod stake_laws;
pub mod staking;
pub mod staking_epoch;
pub mod table;
pub mod tree_laws;
pub mod tx_range;
pub mod u256;
pub mod unbuffered_io;
pub mod unsigned;
pub mod validity;
