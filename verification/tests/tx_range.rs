use pallet_domains::tx_range::{calculate_tx_range, TxRangeState};
use pallet_domains::u256::U256;

#[test]
fn tx_range_converges() {
    let first = calculate_tx_range(U256::from_u64(1000), 24, 6);
    assert_eq!(first, U256::from_u64(4000));
    let second = calculate_tx_range(first, 1, 6);
    assert_eq!(second, U256::from_u64(1000));
}

#[test]
fn tx_range_unchanged_without_bundles() {
    let cur = U256::from_u64(12345);
    assert_eq!(calculate_tx_range(cur, 0, 6), cur);
    assert_eq!(calculate_tx_range(cur, 6, 0), cur);
}

#[test]
fn tx_range_scales_within_bounds() {
    assert_eq!(calculate_tx_range(U256::from_u64(1000), 9, 6), U256::from_u64(1500));
    assert_eq!(calculate_tx_range(U256::from_u64(1000), 3, 6), U256::from_u64(500));
}

#[test]
fn tx_range_unchanged_when_product_overflows() {
    let cur = U256::max_value();
    assert_eq!(calculate_tx_range(cur, 2, 3), cur);
}

#[test]
fn tx_range_upper_bound_saturates() {
    // A quarter of the largest value, plus one: four times the range does not fit.
    let cur = U256 { w0: 0, w1: 0, w2: 0, w3: 0x4000_0000_0000_0000 };
    let next = calculate_tx_range(cur, 3, 2);
    assert_eq!(next, U256 { w0: 0, w1: 0, w2: 0, w3: 0x6000_0000_0000_0000 });
}

#[test]
fn tx_range_state_counts_bundles() {
    let mut state = TxRangeState::default();
    state.on_bundle();
    state.on_bundle();
    assert_eq!(state.interval_bundles, 2);
    assert_eq!(state.interval_blocks, 0);
}

#[test]
fn tx_range_state_adjusts_at_the_end_of_an_interval() {
    let mut state = TxRangeState { tx_range: U256::from_u64(1000), interval_blocks: 0, interval_bundles: 0 };
    for _ in 0..9 {
        state.on_bundle();
    }
    state.on_block(3, 2);
    assert_eq!(
        state,
        TxRangeState { tx_range: U256::from_u64(1000), interval_blocks: 1, interval_bundles: 9 }
    );
    state.on_block(3, 2);
    assert_eq!(state.interval_blocks, 2);
    state.on_block(3, 2);
    // Nine bundles where six were due.
    assert_eq!(
        state,
        TxRangeState { tx_range: U256::from_u64(1500), interval_blocks: 0, interval_bundles: 0 }
    );
    // An interval without bundles leaves the range.
    state.on_block(1, 2);
    assert_eq!(state.tx_range, U256::from_u64(1500));
}

#[test]
fn tx_range_stays_within_a_factor_of_four() {
    for cur in [0u64, 1, 3, 4, 5, 1000, u64::MAX] {
        for actual in [0u64, 1, 5, 6, 7, 1000] {
            for expected in [0u64, 1, 6, 1000] {
                let cur = U256::from_u64(cur);
                let next = calculate_tx_range(cur, actual, expected);
                let low = cur.checked_div(U256::from_u64(4)).unwrap();
                let high = cur.saturating_mul(U256::from_u64(4));
                assert!(low.le(&next) && next.le(&high));
                if actual == 0 || expected == 0 {
                    assert_eq!(next, cur);
                }
            }
        }
    }
}
