use state::{Address, PoolState, PoolStateV2, PoolStateV3, Protocol, StateManager, U256};

fn v2_pool(address: Address, reserve0: u64, reserve1: u64) -> PoolStateV2 {
    PoolStateV2 {
        address,
        token0: Address::zero(),
        token1: Address::zero(),
        reserve0: U256::from_u64(reserve0),
        reserve1: U256::from_u64(reserve1),
    }
}

fn v3_pool(address: Address, sqrt_price_x96: u128, liquidity: u128, tick: i32) -> PoolStateV3 {
    PoolStateV3 {
        address,
        token0: Address::zero(),
        token1: Address::zero(),
        sqrt_price_x96: U256::from_u128(sqrt_price_x96),
        liquidity,
        tick,
    }
}

#[test]
fn test_state_manager_v2_operations() {
    let mut manager = StateManager::new();

    let pool_address = Address::new(0xabcd, 20);
    let pool = v2_pool(pool_address, 1000, 2000);

    // Insert
    manager.update_v2(pool);
    assert_eq!(manager.pool_count(), 1);

    // Retrieve
    let retrieved = manager.get_v2(&pool_address);
    assert!(retrieved.is_some());
    assert_eq!(retrieved.unwrap().reserve0, U256::from_u64(1000));

    // Update
    let updated_pool = PoolStateV2 { reserve0: U256::from_u64(1500), ..pool };
    manager.update_v2(updated_pool);
    assert_eq!(manager.pool_count(), 1);

    let retrieved = manager.get_v2(&pool_address).unwrap();
    assert_eq!(retrieved.reserve0, U256::from_u64(1500));
}

#[test]
fn test_v2_swap_simulation() {
    let pool = PoolStateV2 {
        address: Address::zero(),
        token0: Address::zero(),
        token1: Address::zero(),
        reserve0: U256::from_u128(1_000_000_000_000_000_000),
        reserve1: U256::from_u128(3_000_000_000),
    };

    let amount_in = U256::from_u128(100_000_000_000_000_000);
    let amount_out = pool.simulate_swap(amount_in, true);

    assert!(amount_out.to_u128().unwrap() > 250_000_000);
    assert!(amount_out.to_u128().unwrap() < 300_000_000);
}

#[test]
fn v2_insert_read_round_trip() {
    let mut manager = StateManager::new();
    let address = Address::new(7, 11);
    let pool = v2_pool(address, 123, 456);
    manager.update_v2(pool);
    assert_eq!(manager.get_v2(&address), Some(pool));
    assert_eq!(manager.get(&address), Some(PoolState::V2(pool)));
}

#[test]
fn v3_insert_read_round_trip() {
    let mut manager = StateManager::new();
    let address = Address::new(9, 13);
    let pool = v3_pool(address, 1 << 96, 500_000, 42);
    manager.update_v3(pool.clone());
    assert_eq!(manager.get_v3(&address), Some(pool.clone()));
    assert_eq!(manager.get(&address), Some(PoolState::V3(pool)));
}

#[test]
fn overwrite_replaces_whole_entry() {
    let mut manager = StateManager::new();
    let address = Address::new(21, 1);
    let first = v2_pool(address, 1000, 2000);
    let second = PoolStateV2 {
        token0: Address::new(0, 5),
        reserve0: U256::from_u64(30),
        ..first
    };
    manager.update_v2(first);
    manager.update_v2(second);
    // The second write wins in full: no field of the first survives.
    assert_eq!(manager.get_v2(&address), Some(second));
    assert_eq!(manager.pool_count(), 1);
}

#[test]
fn cross_variant_read_is_absent() {
    let mut manager = StateManager::new();
    let address = Address::new(3, 4);
    manager.update_v2(v2_pool(address, 10, 20));
    assert_eq!(manager.get_v3(&address), None);

    let other = Address::new(30, 40);
    manager.update_v3(v3_pool(other, 77, 88, -5));
    assert_eq!(manager.get_v2(&other), None);
}

#[test]
fn cross_variant_overwrite_is_permitted() {
    let mut manager = StateManager::new();
    let address = Address::new(15, 16);
    manager.update_v2(v2_pool(address, 10, 20));
    let replacement = v3_pool(address, 99, 1, 0);
    manager.update_v3(replacement.clone());
    assert_eq!(manager.get_v2(&address), None);
    assert_eq!(manager.get_v3(&address), Some(replacement));
    assert_eq!(manager.pool_count(), 1);
}

#[test]
fn count_tracks_distinct_addresses() {
    let mut manager = StateManager::new();
    assert_eq!(manager.pool_count(), 0);
    for i in 0..5u32 {
        manager.update_v2(v2_pool(Address::new(100, i), 1, 2));
    }
    assert_eq!(manager.pool_count(), 5);
    // Re-inserting at an already-used address does not raise the count.
    manager.update_v2(v2_pool(Address::new(100, 3), 9, 9));
    assert_eq!(manager.pool_count(), 5);
}

#[test]
fn clear_resets_the_store() {
    let mut manager = StateManager::new();
    let address = Address::new(51, 52);
    manager.update_v2(v2_pool(address, 6, 7));
    manager.update_v3(v3_pool(Address::new(53, 54), 8, 9, 10));
    manager.clear();
    assert_eq!(manager.pool_count(), 0);
    assert_eq!(manager.get(&address), None);
    assert_eq!(manager.get_v2(&address), None);
}

#[test]
fn default_store_is_empty() {
    let manager = StateManager::default();
    assert_eq!(manager.pool_count(), 0);
    assert_eq!(manager.get(&Address::zero()), None);
}

#[test]
fn swap_formula_exact_values() {
    let pool = v2_pool(Address::zero(), 1000, 2000);
    // (10 * 997 * 2000) / (1000 * 1000 + 10 * 997) = 19940000 / 1009970 = 19
    let out = pool.simulate_swap(U256::from_u64(10), true);
    assert_eq!(out, U256::from_u64(19));
    // Other direction: (10 * 997 * 1000) / (2000 * 1000 + 10 * 997) = 9970000 / 2009970 = 4
    let out = pool.simulate_swap(U256::from_u64(10), false);
    assert_eq!(out, U256::from_u64(4));
}

#[test]
fn swap_zero_denominator_yields_zero() {
    let pool = v2_pool(Address::zero(), 0, 5);
    let out = pool.simulate_swap(U256::from_u64(0), true);
    assert!(out.is_zero());
}

#[test]
fn swap_zero_input_yields_zero() {
    let pool = v2_pool(Address::zero(), 1000, 2000);
    let out = pool.simulate_swap(U256::from_u64(0), true);
    assert_eq!(out, U256::from_u64(0));
}

#[test]
fn u256_conversions_round_trip() {
    let small = U256::from_u64(997);
    assert_eq!(small.to_u128(), Some(997));
    assert!(!small.is_zero());
    assert!(U256::from_u64(0).is_zero());

    let wide = U256::from_u128(u128::MAX);
    assert_eq!(wide.to_u128(), Some(u128::MAX));

    let oversized = U256 { limb0: 0, limb1: 0, limb2: 1, limb3: 0 };
    assert_eq!(oversized.to_u128(), None);
}

#[test]
fn protocol_labels_are_distinct() {
    assert_eq!(Protocol::UniswapV2, Protocol::UniswapV2);
    assert_ne!(Protocol::UniswapV2, Protocol::UniswapV3);
}
