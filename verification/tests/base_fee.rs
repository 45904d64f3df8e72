use simple_v2_sandwicher::base_fee::{next_base_fee, try_next_base_fee, ParentBlock};

fn parent(base_fee_per_gas: u64, gas_used: u64, gas_limit: u64) -> ParentBlock {
    ParentBlock { base_fee_per_gas, gas_used, gas_limit }
}

#[test]
fn base_fee_unchanged_at_target() {
    assert_eq!(next_base_fee(&parent(1_000_000_000, 15_000_000, 30_000_000)), 1_000_000_000);
}

#[test]
fn base_fee_full_block_raises_by_an_eighth() {
    assert_eq!(next_base_fee(&parent(1_000_000_000, 30_000_000, 30_000_000)), 1_125_000_000);
}

#[test]
fn base_fee_empty_block_lowers_by_an_eighth() {
    assert_eq!(next_base_fee(&parent(1_000_000_000, 0, 30_000_000)), 875_000_000);
}

#[test]
fn base_fee_rises_by_at_least_one() {
    assert_eq!(next_base_fee(&parent(7, 15_000_001, 30_000_000)), 8);
}

#[test]
fn base_fee_partial_increase() {
    // 1e9 * 7.5M / 15M / 8 = 62.5M, rounded down
    assert_eq!(next_base_fee(&parent(1_000_000_000, 22_500_000, 30_000_000)), 1_062_500_000);
}

#[test]
fn base_fee_monotone_in_gas_used() {
    let mut last = 0u64;
    for used in (0..=30_000_000u64).step_by(1_000_000) {
        let fee = next_base_fee(&parent(123_456_789, used, 30_000_000));
        assert!(fee >= last);
        last = fee;
    }
}

#[test]
fn base_fee_undefined_without_target() {
    assert_eq!(try_next_base_fee(&parent(10, 5, 1)), None);
    assert_eq!(try_next_base_fee(&parent(10, 0, 1)), Some(10));
}

#[test]
fn base_fee_undefined_beyond_64_bits() {
    assert_eq!(try_next_base_fee(&parent(u64::MAX, 2, 2)), None);
    assert_eq!(try_next_base_fee(&parent(1_000_000_000, 30_000_000, 30_000_000)), Some(1_125_000_000));
}

#[test]
fn base_fee_rises_with_parent_fee() {
    for &(used, limit) in &[(10_000_000u64, 30_000_000u64), (15_000_000, 30_000_000), (29_000_000, 30_000_000)] {
        let low = next_base_fee(&ParentBlock { base_fee_per_gas: 1_000, gas_used: used, gas_limit: limit });
        let high = next_base_fee(&ParentBlock { base_fee_per_gas: 1_001, gas_used: used, gas_limit: limit });
        assert!(low <= high);
    }
    let below = |fee: u64| next_base_fee(&ParentBlock { base_fee_per_gas: fee, gas_used: 0, gas_limit: 30_000_000 });
    assert_eq!((below(8), below(9), below(16)), (7, 8, 14));
}
