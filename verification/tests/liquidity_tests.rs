use amm::error::ErrorCode;
use amm::fee::mint_fee;
use amm::liquidity::{
    add_liquidity, calculate_liquidity_amounts, calculate_removed_amounts, quote,
    remove_liquidity,
};
use amm::pool::Pool;

fn pool_with_k_last(k_last: u128) -> Pool {
    Pool { token0: 1, token1: 2, k_last }
}

#[test]
fn quote_matches_ratio() {
    assert_eq!(quote(100, 1000, 2000), Ok(200));
}

#[test]
fn quote_rounds_down() {
    assert_eq!(quote(7, 3, 2), Ok(4));
}

#[test]
fn quote_rejects_zero_amount() {
    assert_eq!(quote(0, 1000, 2000), Err(ErrorCode::InsufficientAmount));
}

#[test]
fn quote_rejects_empty_reserves() {
    assert_eq!(quote(100, 0, 2000), Err(ErrorCode::InsufficientReserves));
    assert_eq!(quote(100, 1000, 0), Err(ErrorCode::InsufficientReserves));
}

#[test]
fn calculate_amounts_first_deposit_passthrough() {
    assert_eq!(calculate_liquidity_amounts(0, 0, 500, 700, 0, 0), Ok((500, 700)));
}

#[test]
fn calculate_amounts_cuts_second_side() {
    // quote(100, 1000, 2000) = 200 <= 300, so the deposit is (100, 200).
    assert_eq!(calculate_liquidity_amounts(1000, 2000, 100, 300, 0, 0), Ok((100, 200)));
}

#[test]
fn calculate_amounts_cuts_first_side() {
    // quote(100, 1000, 2000) = 200 > 150; quote(150, 2000, 1000) = 75 <= 100.
    assert_eq!(calculate_liquidity_amounts(1000, 2000, 100, 150, 0, 0), Ok((75, 150)));
}

#[test]
fn calculate_amounts_respects_minimums() {
    assert_eq!(
        calculate_liquidity_amounts(1000, 2000, 100, 300, 0, 201),
        Err(ErrorCode::InsufficientAmount)
    );
    assert_eq!(
        calculate_liquidity_amounts(1000, 2000, 100, 150, 76, 0),
        Err(ErrorCode::InsufficientAmount)
    );
}

#[test]
fn first_deposit_liquidity_is_geometric_mean() {
    let mut pool = pool_with_k_last(0);
    let out = add_liquidity(&mut pool, 0, 0, 1_000_000, 4_000_000, 0, 0, 0).unwrap();
    assert_eq!(out.amount0, 1_000_000);
    assert_eq!(out.amount1, 4_000_000);
    assert_eq!(out.liquidity, 2_000_000);
    assert_eq!(out.fee_liquidity, 0);
    assert_eq!(pool.k_last, 4_000_000_000_000u128);
}

#[test]
fn first_deposit_rounds_geometric_mean_down() {
    let mut pool = pool_with_k_last(0);
    let out = add_liquidity(&mut pool, 0, 0, 10, 12, 0, 0, 0).unwrap();
    // floor(sqrt(120)) = 10
    assert_eq!(out.liquidity, 10);
}

#[test]
fn add_liquidity_proportional_share() {
    let mut pool = pool_with_k_last(2_000_000);
    let out = add_liquidity(&mut pool, 1000, 2000, 100, 300, 0, 0, 1000).unwrap();
    assert_eq!((out.amount0, out.amount1), (100, 200));
    // min(100 * 1000 / 1000, 200 * 1000 / 2000) = 100
    assert_eq!(out.liquidity, 100);
    assert_eq!(out.fee_liquidity, 0);
    assert_eq!(pool.k_last, 1100u128 * 2200u128);
}

#[test]
fn add_liquidity_rejects_zero_mint() {
    let mut pool = pool_with_k_last(0);
    assert_eq!(
        add_liquidity(&mut pool, 0, 0, 1, 0, 0, 0, 0),
        Err(ErrorCode::InsufficientLiquidityMinted)
    );
    assert_eq!(pool.k_last, 0);
}

#[test]
fn remove_liquidity_proportional() {
    let mut pool = pool_with_k_last(1000 * 2000);
    let out = remove_liquidity(&mut pool, 100, 1000, 1000, 2000, 0, 0).unwrap();
    assert_eq!((out.amount0, out.amount1), (100, 200));
    assert_eq!(out.fee_liquidity, 0);
    assert_eq!(pool.k_last, 900u128 * 1800u128);
}

#[test]
fn remove_liquidity_zero_token0_side() {
    let mut pool = pool_with_k_last(1_000_000);
    // floor(500 * 1 / 1000) = 0 while floor(500 * 1_000_000 / 1000) > 0.
    assert_eq!(
        remove_liquidity(&mut pool, 500, 1000, 1, 1_000_000, 0, 0),
        Err(ErrorCode::InsufficientLiquidityBurned)
    );
    assert_eq!(pool.k_last, 1_000_000u128);
}

#[test]
fn remove_liquidity_zero_token1_side() {
    let mut pool = pool_with_k_last(1_000_000);
    assert_eq!(
        remove_liquidity(&mut pool, 500, 1000, 1_000_000, 1, 0, 0),
        Err(ErrorCode::InsufficientLiquidityBurned)
    );
}

#[test]
fn remove_liquidity_respects_minimums() {
    let mut pool = pool_with_k_last(1000 * 2000);
    assert_eq!(
        remove_liquidity(&mut pool, 100, 1000, 1000, 2000, 101, 0),
        Err(ErrorCode::InsufficientAmount)
    );
    assert_eq!(
        remove_liquidity(&mut pool, 100, 1000, 1000, 2000, 0, 201),
        Err(ErrorCode::InsufficientAmount)
    );
}

#[test]
fn removed_amounts_direct() {
    assert_eq!(calculate_removed_amounts(250, 1000, 4000, 8000, 0, 0), Ok((1000, 2000)));
}

#[test]
fn mint_fee_zero_without_baseline() {
    let pool = pool_with_k_last(0);
    assert_eq!(mint_fee(&pool, 5000, 5000, 1000), 0);
}

#[test]
fn mint_fee_zero_without_growth() {
    // No growth, or shrinkage, over several reserve/supply combinations.
    for &(r0, r1, supply) in
        &[(100u64, 100u64, 1000u64), (250, 400, 1), (1, 1, u64::MAX), (7, 13, 12345)] {
        let pool = pool_with_k_last((r0 as u128) * (r1 as u128));
        assert_eq!(mint_fee(&pool, r0, r1, supply), 0);
        let bigger = pool_with_k_last((r0 as u128) * (r1 as u128) * 4);
        assert_eq!(mint_fee(&bigger, r0, r1, supply), 0);
    }
}

#[test]
fn mint_fee_growth_value() {
    // Baseline 100 x 100, reserves doubled: 1000 * (200 - 100) / (200 * 5 + 100) = 90.
    let pool = pool_with_k_last(10_000);
    assert_eq!(mint_fee(&pool, 200, 200, 1000), 90);
}

#[test]
fn round_trip_returns_no_more_than_deposit() {
    // Baseline 10_000 x 10_000 grew to 10_000 x 40_000: the deposit first
    // accrues protocol fee, then the whole minted liquidity is withdrawn.
    let mut pool = pool_with_k_last(100_000_000);
    let fee = mint_fee(&pool, 10_000, 40_000, 20_000);
    assert_eq!(fee, 1818); // 20_000 * (20_000 - 10_000) / (20_000 * 5 + 10_000)
    let out = add_liquidity(&mut pool, 10_000, 40_000, 1000, 4000, 0, 0, 20_000).unwrap();
    assert_eq!(out.fee_liquidity, 1818);
    assert_eq!((out.amount0, out.amount1), (1000, 4000));
    assert_eq!(out.liquidity, 2000);
    let supply_after = 20_000 + out.fee_liquidity + out.liquidity;
    let back =
        remove_liquidity(&mut pool, out.liquidity, supply_after, 11_000, 44_000, 0, 0).unwrap();
    // The second accrual mints nothing: the baseline matches the reserves.
    assert_eq!(back.fee_liquidity, 0);
    assert!(back.amount0 <= out.amount0);
    assert!(back.amount1 <= out.amount1);
    assert_eq!((back.amount0, back.amount1), (923, 3694));
}

#[test]
fn round_trip_on_fresh_pool_is_exact() {
    let mut pool = pool_with_k_last(0);
    let out = add_liquidity(&mut pool, 0, 0, 1_000_000, 4_000_000, 0, 0, 0).unwrap();
    let back =
        remove_liquidity(&mut pool, out.liquidity, out.liquidity, 1_000_000, 4_000_000, 0, 0)
            .unwrap();
    assert_eq!((back.amount0, back.amount1), (1_000_000, 4_000_000));
    assert_eq!(back.fee_liquidity, 0);
}
