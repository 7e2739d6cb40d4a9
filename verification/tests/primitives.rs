use pallet_domains::bundle::{calculate_max_bundle_weight_and_size, check_threshold, DomainBundleLimit};
use pallet_domains::codec::{put_byte_string, put_bytes, put_compact_len, put_le};
use pallet_domains::config::{mul_saturating, ConfirmWeight, LinearWeight};
use pallet_domains::hashing::{extrinsics_root, hash_bytes, signature_verifies};
use pallet_domains::pallet::empty_extrinsic_root;
use pallet_domains::primitives::{add_saturating, Weight, H256};
use pallet_domains::staking::{mul_div, SharePrice};
use pallet_domains::u256::U256;
use parity_scale_codec::{Compact, Encode};
use sp_core::Pair;

fn hex(text: &str) -> Vec<u8> {
    (0..text.len()).step_by(2).map(|i| u8::from_str_radix(&text[i..i + 2], 16).unwrap()).collect()
}

#[test]
fn compact_lengths_are_encoded_as_the_codec_does() {
    for n in [
        0u32,
        1,
        63,
        64,
        65,
        255,
        16383,
        16384,
        16385,
        65535,
        (1 << 30) - 1,
        1 << 30,
        (1 << 30) + 1,
        u32::MAX,
    ] {
        let mut out = vec![0xaa];
        put_compact_len(&mut out, n);
        let mut expected = vec![0xaa];
        expected.extend(Compact(n).encode());
        assert_eq!(out, expected, "length {n}");
    }
}

#[test]
fn numbers_are_encoded_little_endian() {
    let mut out = Vec::new();
    put_le(&mut out, 0x0403_0201, 4);
    assert_eq!(out, vec![1, 2, 3, 4]);
    let mut out = Vec::new();
    put_le(&mut out, 0x1234_5678_9abc_def0_1122_3344_5566_7788, 16);
    assert_eq!(out, 0x1234_5678_9abc_def0_1122_3344_5566_7788u128.encode());
    let mut out = Vec::new();
    put_le(&mut out, 0x1_0000_0001, 4);
    assert_eq!(out, vec![1, 0, 0, 0]);
    let mut out = vec![7];
    put_le(&mut out, 5, 0);
    assert_eq!(out, vec![7]);
}

#[test]
fn byte_strings_are_encoded_as_the_codec_does() {
    for bytes in [vec![], vec![1u8], vec![9u8; 63], vec![9u8; 64], vec![3u8; 20000]] {
        let mut out = Vec::new();
        put_byte_string(&mut out, &bytes);
        assert_eq!(out, bytes.encode());
    }
    let mut out = vec![1];
    put_bytes(&mut out, &vec![2, 3]);
    assert_eq!(out, vec![1, 2, 3]);
}

#[test]
fn hash_keeps_its_bytes() {
    let mut bytes = [0u8; 32];
    for (i, byte) in bytes.iter_mut().enumerate() {
        *byte = i as u8 + 1;
    }
    let hash = H256::from_bytes(&bytes);
    assert_eq!(hash.w0, 0x0807_0605_0403_0201);
    assert_eq!(hash.w3, 0x201f_1e1d_1c1b_1a19);
    assert_eq!(hash.to_bytes(), bytes.to_vec());
    assert!(H256::zero().is_zero());
    assert!(!hash.is_zero());
    assert!(hash.same_hash(&H256::from_bytes(&bytes)));
    assert!(!hash.same_hash(&H256::from_low_u64(1)));
    assert_eq!(H256::from_low_u64(0x0102).to_bytes()[..3], [2, 1, 0]);
}

#[test]
fn blake2_of_known_inputs() {
    assert_eq!(
        hash_bytes(&vec![]).to_bytes(),
        hex("0e5751c026e543b2e8ab2eb06099daa1d1e5df47778f7787faab45cdf12fe3a8")
    );
    let data = b"abc".to_vec();
    assert_eq!(
        hash_bytes(&data).to_bytes(),
        hex("bddd813c634239723171ef3fee98579b94964e3bb1cb3e427262c8c068d52319")
    );
    assert_eq!(
        hash_bytes(&data).to_bytes(),
        <sp_core::Blake2Hasher as sp_core::Hasher>::hash(&data).0.to_vec()
    );
    assert_ne!(hash_bytes(&data), hash_bytes(&vec![]));
    assert_ne!(hash_bytes(&data).to_bytes(), data);
}

#[test]
fn root_over_no_extrinsics_is_the_empty_root() {
    assert_eq!(extrinsics_root(&vec![]), empty_extrinsic_root());
    assert_eq!(
        empty_extrinsic_root().to_bytes(),
        hex("03170a2e7597b7b7e3d84c05391d139a62b157e78786d8c082f29dcf4c111314")
    );
    let one = extrinsics_root(&vec![vec![1, 2, 3]]);
    let other = extrinsics_root(&vec![vec![1, 2, 4]]);
    let two = extrinsics_root(&vec![vec![1, 2, 3], vec![]]);
    assert_ne!(one, empty_extrinsic_root());
    assert_ne!(one, other);
    assert_ne!(one, two);
    assert_eq!(one, extrinsics_root(&vec![vec![1, 2, 3]]));
}

#[test]
fn signatures_are_verified() {
    let pair = sp_core::sr25519::Pair::from_seed(&[3; 32]);
    let public = H256::from_bytes(&pair.public().0);
    let message = H256::from_low_u64(0xfeed);
    let signature = pair.sign(&message.to_bytes()).0.to_vec();
    assert!(signature_verifies(&signature, &message, &public));
    assert!(!signature_verifies(&signature, &H256::from_low_u64(0xfeee), &public));
    let other = sp_core::sr25519::Pair::from_seed(&[4; 32]);
    assert!(!signature_verifies(&signature, &message, &H256::from_bytes(&other.public().0)));
    assert!(!signature_verifies(&signature[..63].to_vec(), &message, &public));
    assert!(!signature_verifies(&vec![], &message, &public));
}

#[test]
fn u256_arithmetic() {
    let two_64 = U256 { w0: 0, w1: 1, w2: 0, w3: 0 };
    assert_eq!(U256::from_u64(u64::MAX).checked_mul(U256::from_u64(2)), Some(U256 {
        w0: u64::MAX - 1,
        w1: 1,
        w2: 0,
        w3: 0
    }));
    assert_eq!(two_64.checked_mul(two_64), Some(U256 { w0: 0, w1: 0, w2: 1, w3: 0 }));
    let two_128 = U256 { w0: 0, w1: 0, w2: 1, w3: 0 };
    assert_eq!(two_128.checked_mul(two_128), None);
    assert_eq!(two_128.saturating_mul(two_128), U256::max_value());
    assert_eq!(two_128.saturating_mul(two_64), U256 { w0: 0, w1: 0, w2: 0, w3: 1 });
    assert_eq!(U256::max_value().checked_div(U256::zero()), None);
    assert_eq!(U256::from_u64(7).checked_div(U256::from_u64(2)), Some(U256::from_u64(3)));
    assert_eq!(
        U256::max_value().checked_div(U256::from_u64(2)),
        Some(U256 { w0: u64::MAX, w1: u64::MAX, w2: u64::MAX, w3: u64::MAX >> 1 })
    );
    assert_eq!(U256::from_u128(u128::MAX), U256 { w0: u64::MAX, w1: u64::MAX, w2: 0, w3: 0 });
    assert_eq!(U256::from_u128(u128::MAX).to_u128(), Some(u128::MAX));
    assert_eq!(two_128.to_u128(), None);
    assert!(U256::from_u64(1).lt(&two_64));
    assert!(!two_64.lt(&U256::from_u64(u64::MAX)));
    assert!(two_64.le(&two_64));
    assert!(U256::zero().is_zero());
    assert_eq!(U256::from_u64(5).clamp(U256::from_u64(7), U256::from_u64(9)), U256::from_u64(7));
    assert_eq!(U256::from_u64(10).clamp(U256::from_u64(7), U256::from_u64(9)), U256::from_u64(9));
    assert_eq!(U256::from_u64(8).clamp(U256::from_u64(7), U256::from_u64(9)), U256::from_u64(8));
}

#[test]
fn weights_saturate() {
    let a = Weight { ref_time: u64::MAX - 1, proof_size: 5 };
    let b = Weight { ref_time: 7, proof_size: 6 };
    assert_eq!(a.saturating_add(b), Weight { ref_time: u64::MAX, proof_size: 11 });
    let host = |w: Weight| sp_runtime::Weight::from_parts(w.ref_time, w.proof_size);
    assert_eq!(host(a.saturating_add(b)), host(a).saturating_add(host(b)));
    assert_eq!(host(a.min(b)), host(a).min(host(b)));
    assert_eq!(host(a.max(b)), host(a).max(host(b)));
    assert_eq!(a.all_lte(b), host(a).all_lte(host(b)));
    assert_eq!(b.all_lte(a.max(b)), host(b).all_lte(host(a).max(host(b))));
    assert_eq!(a.min(b), Weight { ref_time: 7, proof_size: 5 });
    assert_eq!(a.max(b), Weight { ref_time: u64::MAX - 1, proof_size: 6 });
    assert!(!a.all_lte(b));
    assert!(Weight::zero().all_lte(b));
    assert_eq!(Weight::from_parts(1, 2), Weight { ref_time: 1, proof_size: 2 });
    assert_eq!(add_saturating(u64::MAX, 1), u64::MAX);
    assert_eq!(mul_saturating(1 << 40, 1 << 40), u64::MAX);
    assert_eq!(mul_saturating(3, 4), 12);
    let linear = LinearWeight { base: Weight::from_parts(10, 20), per_item: Weight::from_parts(3, 0) };
    assert_eq!(linear.at(4), Weight::from_parts(22, 20));
    let confirm = ConfirmWeight {
        base: Weight::from_parts(1, 1),
        per_operator: Weight::from_parts(10, 0),
        per_invalid_bundle_author: Weight::from_parts(0, 100),
    };
    assert_eq!(confirm.at(2, 3), Weight::from_parts(21, 301));
}

#[test]
fn bundle_limit_is_the_block_limit_shared_out() {
    let block = Weight::from_parts(6000, 77);
    assert_eq!(
        calculate_max_bundle_weight_and_size(600, block, (1, 6), (1, 1)),
        Some(DomainBundleLimit { max_bundle_size: 100, max_bundle_weight: Weight::from_parts(1000, 77) })
    );
    assert_eq!(
        calculate_max_bundle_weight_and_size(601, block, (1, 6), (1, 2)),
        Some(DomainBundleLimit { max_bundle_size: 200, max_bundle_weight: Weight::from_parts(2000, 77) })
    );
    // Less than one bundle is expected in a block.
    assert_eq!(calculate_max_bundle_weight_and_size(600, block, (1, 6), (1, 7)), None);
    assert_eq!(calculate_max_bundle_weight_and_size(600, block, (1, 6), (1, 0)), None);
    assert_eq!(calculate_max_bundle_weight_and_size(600, block, (0, 6), (1, 1)), None);
    assert_eq!(calculate_max_bundle_weight_and_size(600, block, (1, u64::MAX), (2, 1)), None);
}

#[test]
fn election_threshold() {
    // With a probability of one the operator with all the stake is always elected,
    // but for the largest output.
    assert!(check_threshold(0, 10, 10, (1, 1)));
    assert!(check_threshold(u128::MAX - 1, 10, 10, (1, 1)));
    assert!(!check_threshold(u128::MAX, 10, 10, (1, 1)));
    // Half of the stake: elected below half of the range.
    assert!(check_threshold(u128::MAX / 2 - 1, 5, 10, (1, 1)));
    assert!(!check_threshold(u128::MAX / 2 + 1, 5, 10, (1, 1)));
    // A probability of a half halves the range again.
    assert!(check_threshold(u128::MAX / 4 - 1, 5, 10, (1, 2)));
    assert!(!check_threshold(u128::MAX / 4 + 1, 5, 10, (1, 2)));
    assert!(!check_threshold(0, 0, 10, (1, 1)));
    assert!(!check_threshold(0, 5, 10, (1, 0)));
    assert!(!check_threshold(0, 5, 10, (2, 1)));
    assert!(!check_threshold(0, 5, 10, (0, 1)));
}

#[test]
fn share_prices() {
    assert_eq!(mul_div(10, 3, 4), 7);
    assert_eq!(mul_div(u128::MAX, u128::MAX, 1), u128::MAX);
    assert_eq!(mul_div(u128::MAX, 6, 3), u128::MAX);
    assert_eq!(mul_div(u128::MAX, 3, 6), u128::MAX / 2);
    assert_eq!(mul_div(5, 5, 0), 0);
    let price = SharePrice { total_stake: 1500, total_shares: 1000 };
    assert_eq!(price.stake_to_share(300), 200);
    assert_eq!(price.share_to_stake(200), 300);
    assert_eq!(price.stake_to_share(1), 0);
    assert_eq!(price.share_to_stake(1), 1);
    let fresh = SharePrice { total_stake: 0, total_shares: 0 };
    assert_eq!(fresh.stake_to_share(77), 77);
    assert_eq!(fresh.share_to_stake(77), 77);
}

#[test]
fn identifiers_stand_in_ascending_order() {
    let mut set = pallet_domains::table::IdSet::new();
    for id in [5u64, 1, 9, 5, 3, 0, 9] {
        set.insert(id);
    }
    let ids: Vec<u64> = (0..set.len()).map(|i| set.get(i)).collect();
    assert_eq!(ids, vec![0, 1, 3, 5, 9]);
    set.remove(3);
    set.insert(4);
    let ids: Vec<u64> = (0..set.len()).map(|i| set.get(i)).collect();
    assert_eq!(ids, vec![0, 1, 4, 5, 9]);
    assert!(set.contains(4) && !set.contains(3));

    let mut table: pallet_domains::table::Table<u64, u8> = pallet_domains::table::Table::new();
    table.insert_ascending(7, 1);
    table.insert_ascending(2, 2);
    table.insert_ascending(7, 3);
    table.insert_ascending(4, 4);
    let keys: Vec<u64> = (0..table.len()).map(|i| *table.key_at(i)).collect();
    assert_eq!(keys, vec![2, 4, 7]);
    assert_eq!(table.get(&7), Some(&3));
}
