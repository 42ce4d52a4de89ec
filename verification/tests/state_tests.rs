use amm::config::Config;
use amm::error::ErrorCode;
use amm::pool::Pool;

fn fresh_config() -> Config {
    Config { owner: 0, fee_to: 0, fee: 0 }
}

fn fresh_pool() -> Pool {
    Pool { token0: 0, token1: 0, k_last: 0 }
}

#[test]
fn config_initialize_stores_fields() {
    let mut config = fresh_config();
    assert_eq!(config.initialize(7, 11, 30), Ok(()));
    assert_eq!(config.owner, 7);
    assert_eq!(config.fee_to, 11);
    assert_eq!(config.fee, 30);
}

#[test]
fn config_initialize_rejects_high_fee() {
    let mut config = fresh_config();
    assert_eq!(config.initialize(7, 11, 10000), Err(ErrorCode::InvalidFee));
    assert_eq!(config.initialize(7, 11, 20000), Err(ErrorCode::InvalidFee));
    assert_eq!(config.initialize(7, 11, 9999), Ok(()));
}

#[test]
fn config_set_fee_bounds() {
    let mut config = fresh_config();
    config.initialize(7, 11, 30).unwrap();
    assert_eq!(config.set_fee(10000), Err(ErrorCode::InvalidFee));
    assert_eq!(config.fee, 30);
    assert_eq!(config.set_fee(25), Ok(()));
    assert_eq!(config.fee, 25);
}

#[test]
fn config_set_fee_to_updates() {
    let mut config = fresh_config();
    config.initialize(7, 11, 30).unwrap();
    assert_eq!(config.set_fee_to(13), Ok(()));
    assert_eq!(config.fee_to, 13);
    assert_eq!(config.owner, 7);
    assert_eq!(config.fee, 30);
}

#[test]
fn pool_initialize_canonical_order() {
    let mut pool = fresh_pool();
    assert_eq!(pool.initialize(3, 9), Ok(()));
    assert_eq!(pool.token0, 3);
    assert_eq!(pool.token1, 9);
    assert_eq!(pool.k_last, 0);
}

#[test]
fn pool_initialize_rejects_equal_tokens() {
    let mut pool = fresh_pool();
    assert_eq!(pool.initialize(5, 5), Err(ErrorCode::InvalidMintOrder));
}

#[test]
fn pool_initialize_rejects_reversed_tokens() {
    let mut pool = fresh_pool();
    assert_eq!(pool.initialize(9, 3), Err(ErrorCode::InvalidMintOrder));
}

#[test]
fn pool_update_k_last_product() {
    let mut pool = fresh_pool();
    pool.initialize(1, 2).unwrap();
    pool.update_k_last(30_000, 40_000);
    assert_eq!(pool.k_last, 1_200_000_000u128);
    pool.update_k_last(u64::MAX, u64::MAX);
    assert_eq!(pool.k_last, (u64::MAX as u128) * (u64::MAX as u128));
}

#[test]
fn event_records_carry_fields() {
    let minted = amm::events::LiquidityMinted { liquidity: 90 };
    assert_eq!(minted.liquidity, 90);
    let swapped = amm::events::SwapEvent {
        owner: 1,
        input_amount: 1000,
        output_amount: 906,
        vault_src: 3,
        vault_des: 9,
    };
    assert_eq!(swapped, swapped.clone());
    assert_eq!(swapped.output_amount, 906);
}
