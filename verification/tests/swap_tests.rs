use amm::config::Config;
use amm::error::ErrorCode;
use amm::swap::{get_amount_in, get_amount_out, swap, swap_exact_input, swap_exact_output};

fn config_with_fee(fee: u64) -> Config {
    let mut config = Config { owner: 0, fee_to: 0, fee: 0 };
    config.initialize(1, 2, fee).unwrap();
    config
}

#[test]
fn get_amount_out_scenario() {
    // in_with_fee = 1000 * 9970; numerator = 9_970_000 * 10000;
    // denominator = 10000 * 10000 + 9_970_000; floor = 906.
    let config = config_with_fee(30);
    assert_eq!(get_amount_out(&config, 1000, 10_000, 10_000), Ok(906));
}

#[test]
fn get_amount_out_rejects_empty_reserves() {
    let config = config_with_fee(30);
    assert_eq!(get_amount_out(&config, 1000, 0, 10_000), Err(ErrorCode::InsufficientLiquidity));
    assert_eq!(get_amount_out(&config, 1000, 10_000, 0), Err(ErrorCode::InsufficientLiquidity));
}

#[test]
fn get_amount_out_fee_monotone_sample() {
    let low = config_with_fee(30);
    let high = config_with_fee(50);
    let out_low = get_amount_out(&low, 1000, 10_000, 10_000).unwrap();
    let out_high = get_amount_out(&high, 1000, 10_000, 10_000).unwrap();
    assert_eq!(out_low, 906);
    assert_eq!(out_high, 904);
    assert!(out_high <= out_low);
}

#[test]
fn get_amount_in_scenario() {
    // numerator = 10000 * 906 * 10000; denominator = 9094 * 9970;
    // floor(999.26...) + 1 = 1000.
    let config = config_with_fee(30);
    assert_eq!(get_amount_in(&config, 906, 10_000, 10_000), Ok(1000));
}

#[test]
fn get_amount_in_rejects_empty_reserves() {
    let config = config_with_fee(30);
    assert_eq!(get_amount_in(&config, 100, 0, 10_000), Err(ErrorCode::InsufficientLiquidity));
    assert_eq!(get_amount_in(&config, 100, 10_000, 0), Err(ErrorCode::InsufficientLiquidity));
}

#[test]
fn get_amount_in_rejects_draining_output() {
    let config = config_with_fee(30);
    assert_eq!(get_amount_in(&config, 10_000, 10_000, 10_000), Err(ErrorCode::InsufficientLiquidity));
    assert_eq!(get_amount_in(&config, 10_001, 10_000, 10_000), Err(ErrorCode::InsufficientLiquidity));
}

#[test]
fn swap_rejects_zero_output() {
    assert_eq!(swap(10, 0, 100, 100), Err(ErrorCode::InsufficientOutputAmount));
}

#[test]
fn swap_rejects_zero_input() {
    assert_eq!(swap(0, 10, 100, 100), Err(ErrorCode::InsufficientInputAmount));
}

#[test]
fn swap_rejects_draining_destination_vault() {
    assert_eq!(swap(10, 100, 100, 100), Err(ErrorCode::InsufficientLiquidity));
    assert_eq!(swap(10, 99, 100, 100), Ok(()));
}

#[test]
fn swap_rejects_whole_balance() {
    assert_eq!(swap(100, 10, 100, 100), Err(ErrorCode::InsufficientUserBalance));
    assert_eq!(swap(99, 10, 100, 100), Ok(()));
}

#[test]
fn swap_exact_input_quotes_and_validates() {
    let config = config_with_fee(30);
    assert_eq!(swap_exact_input(&config, 1000, 900, 10_000, 10_000, 2000), Ok(906));
}

#[test]
fn swap_exact_input_rejects_min_output() {
    let config = config_with_fee(30);
    assert_eq!(
        swap_exact_input(&config, 1000, 907, 10_000, 10_000, 2000),
        Err(ErrorCode::InsufficientOutputAmount)
    );
}

#[test]
fn swap_exact_input_rejects_whole_balance() {
    let config = config_with_fee(30);
    assert_eq!(
        swap_exact_input(&config, 1000, 900, 10_000, 10_000, 1000),
        Err(ErrorCode::InsufficientUserBalance)
    );
}

#[test]
fn swap_exact_output_quotes_and_validates() {
    let config = config_with_fee(30);
    assert_eq!(swap_exact_output(&config, 906, 1000, 10_000, 10_000, 2000), Ok(1000));
}

#[test]
fn swap_exact_output_rejects_max_input() {
    let config = config_with_fee(30);
    assert_eq!(
        swap_exact_output(&config, 906, 999, 10_000, 10_000, 2000),
        Err(ErrorCode::InsufficientInputAmount)
    );
}

#[test]
fn swap_exact_output_rejects_empty_pool() {
    let config = config_with_fee(30);
    assert_eq!(
        swap_exact_output(&config, 906, 1000, 0, 10_000, 2000),
        Err(ErrorCode::InsufficientLiquidity)
    );
}
