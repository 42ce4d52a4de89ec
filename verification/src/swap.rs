use vstd::prelude::*;

verus! {

use crate::config::Config;
use crate::constant::BASIS_POINTS;
use crate::error::ErrorCode;
use crate::math::trunc_u64;

/// The output of an exact-in trade before any validation: the input less
/// the fee, priced against the constant product,
/// `floor(in_with_fee * reserve_out / (reserve_in * BASIS_POINTS + in_with_fee))`
/// where `in_with_fee = amount_in * (BASIS_POINTS - fee)`.
pub open spec fn spec_amount_out(
    amount_in: int,
    reserve_in: int,
    reserve_out: int,
    fee: int,
) -> int {
    let amount_in_with_fee = amount_in * (BASIS_POINTS - fee);
    amount_in_with_fee * reserve_out / (reserve_in * BASIS_POINTS + amount_in_with_fee)
}

/// The input an exact-out trade must pay:
/// `floor(reserve_in * amount_out * BASIS_POINTS /
///        ((reserve_out - amount_out) * (BASIS_POINTS - fee))) + 1`,
/// biased up by one so truncation can never underpay the pool.
pub open spec fn spec_amount_in(
    amount_out: int,
    reserve_in: int,
    reserve_out: int,
    fee: int,
) -> int {
    let numerator = reserve_in * amount_out * BASIS_POINTS;
    let denominator = (reserve_out - amount_out) * (BASIS_POINTS - fee);
    numerator / denominator + 1
}

/// The quoted output for an exact-in trade, or `InsufficientLiquidity`
/// against an empty reserve.
pub open spec fn spec_get_amount_out(
    amount_in: u64,
    reserve_in: u64,
    reserve_out: u64,
    fee: u64,
) -> Result<u64, ErrorCode> {
    if reserve_in == 0 || reserve_out == 0 {
        Err(ErrorCode::InsufficientLiquidity)
    } else {
        Ok(spec_amount_out(amount_in as int, reserve_in as int, reserve_out as int, fee as int)
            as u64)
    }
}

/// The charged input for an exact-out trade. An empty reserve is rejected,
/// and so is an output that would take the whole destination reserve or
/// more, before the pricing formula is evaluated.
pub open spec fn spec_get_amount_in(
    amount_out: u64,
    reserve_in: u64,
    reserve_out: u64,
    fee: u64,
) -> Result<u64, ErrorCode> {
    if reserve_in == 0 || reserve_out == 0 {
        Err(ErrorCode::InsufficientLiquidity)
    } else if amount_out >= reserve_out {
        Err(ErrorCode::InsufficientLiquidity)
    } else {
        Ok(trunc_u64(
            spec_amount_in(amount_out as int, reserve_in as int, reserve_out as int, fee as int),
        ) as u64)
    }
}

/// Quotes the output amount an exact-in trade receives for `amount_in`,
/// applying the configured fee. The quote is always strictly below the
/// destination reserve.
pub fn get_amount_out(config: &Config, amount_in: u64, reserve_in: u64, reserve_out: u64) -> (r:
    Result<u64, ErrorCode>)
    requires
        config.wf(),
        reserve_in > 0 && reserve_out > 0 ==> amount_in * (BASIS_POINTS - config.fee) * reserve_out
            <= u128::MAX,
    ensures
        r == spec_get_amount_out(amount_in, reserve_in, reserve_out, config.fee),
        r matches Ok(v) ==> v < reserve_out,
{
    if !(reserve_in > 0 && reserve_out > 0) {
        return Err(ErrorCode::InsufficientLiquidity);
    }
    proof {
        lemma_amount_out_in_range(
            amount_in as int,
            reserve_in as int,
            reserve_out as int,
            config.fee as int,
        );
        assert(amount_in * (BASIS_POINTS - config.fee) <= u128::MAX && reserve_in * BASIS_POINTS
            + amount_in * (BASIS_POINTS - config.fee) <= u128::MAX) by (nonlinear_arith)
            requires
                reserve_in <= u64::MAX,
                amount_in <= u64::MAX,
                0 <= BASIS_POINTS - config.fee <= 10000,
                BASIS_POINTS == 10000,
                u64::MAX == 0xffff_ffff_ffff_ffff,
                u128::MAX == 0xffff_ffff_ffff_ffff_ffff_ffff_ffff_ffff,
        ;
    }
    let amount_in_with_fee = (amount_in as u128) * ((BASIS_POINTS - config.fee) as u128);
    let numerator = amount_in_with_fee * (reserve_out as u128);
    let denominator = (reserve_in as u128) * (BASIS_POINTS as u128) + amount_in_with_fee;
    let amount_out = numerator / denominator;
    Ok(amount_out as u64)
}

/// The exact-in price fits the amount width: with a nonempty source
/// reserve it is nonnegative and strictly below the destination reserve.
proof fn lemma_amount_out_in_range(amount_in: int, reserve_in: int, reserve_out: int, fee: int)
    requires
        0 < reserve_in,
        0 < reserve_out,
        0 <= amount_in,
        0 <= fee < BASIS_POINTS,
    ensures
        0 <= spec_amount_out(amount_in, reserve_in, reserve_out, fee) < reserve_out,
{
    let amount_in_with_fee = amount_in * (BASIS_POINTS - fee);
    let n = amount_in_with_fee * reserve_out;
    let d = reserve_in * BASIS_POINTS + amount_in_with_fee;
    assert(0 <= amount_in_with_fee && 0 <= n && 0 < d && n < d * reserve_out)
        by (nonlinear_arith)
        requires
            0 < reserve_in,
            0 < reserve_out,
            0 <= amount_in,
            0 < BASIS_POINTS - fee,
            amount_in_with_fee == amount_in * (BASIS_POINTS - fee),
            n == amount_in_with_fee * reserve_out,
            d == reserve_in * BASIS_POINTS + amount_in_with_fee,
            BASIS_POINTS == 10000,
    ;
    vstd::arithmetic::div_mod::lemma_div_pos_is_pos(n, d);
    vstd::arithmetic::div_mod::lemma_multiply_divide_lt(n, d, reserve_out);
}

/// Quotes the input amount an exact-out trade must pay to receive
/// `amount_out`, applying the configured fee.
pub fn get_amount_in(config: &Config, amount_out: u64, reserve_in: u64, reserve_out: u64) -> (r:
    Result<u64, ErrorCode>)
    requires
        config.wf(),
        reserve_in > 0 && amount_out < reserve_out ==> reserve_in * amount_out * BASIS_POINTS
            < u128::MAX,
    ensures
        r == spec_get_amount_in(amount_out, reserve_in, reserve_out, config.fee),
{
    if !(reserve_in > 0 && reserve_out > 0) {
        return Err(ErrorCode::InsufficientLiquidity);
    }
    if amount_out >= reserve_out {
        return Err(ErrorCode::InsufficientLiquidity);
    }
    proof {
        assert(reserve_in * amount_out <= u64::MAX * u64::MAX && (reserve_out - amount_out) * (
        BASIS_POINTS - config.fee) <= u128::MAX && u64::MAX * u64::MAX < u128::MAX)
            by (nonlinear_arith)
            requires
                reserve_in <= u64::MAX,
                amount_out < reserve_out <= u64::MAX,
                0 <= BASIS_POINTS - config.fee <= 10000,
                BASIS_POINTS == 10000,
                u64::MAX == 0xffff_ffff_ffff_ffff,
                u128::MAX == 0xffff_ffff_ffff_ffff_ffff_ffff_ffff_ffff,
        ;
    }
    let numerator = (reserve_in as u128) * (amount_out as u128) * (BASIS_POINTS as u128);
    let denominator = ((reserve_out - amount_out) as u128) * ((BASIS_POINTS - config.fee) as u128);
    proof {
        let n = numerator as int;
        let d = denominator as int;
        assert(0 < d) by (nonlinear_arith)
            requires
                0 < (reserve_out - amount_out) as int,
                0 < (BASIS_POINTS - config.fee) as int,
                d == ((reserve_out - amount_out) as int) * ((BASIS_POINTS - config.fee) as int),
        ;
        vstd::arithmetic::div_mod::lemma_div_nonincreasing(n, d);
        vstd::arithmetic::div_mod::lemma_div_pos_is_pos(n, d);
    }
    let amount_in = numerator / denominator + 1;
    proof {
        crate::math::lemma_trunc_u64(amount_in);
    }
    Ok(#[verifier::truncate] (amount_in as u64))
}

/// Raising the fee rate never raises the quoted output of an exact-in
/// trade: for fixed amounts and reserves, `spec_amount_out` is
/// non-increasing in the fee. (It is not strictly decreasing: with one
/// unit in against one-unit reserves, fees of 0 and 1 both quote 0.)
pub proof fn lemma_amount_out_fee_monotone(
    amount_in: u64,
    reserve_in: u64,
    reserve_out: u64,
    fee_low: u64,
    fee_high: u64,
)
    requires
        reserve_in > 0,
        reserve_out > 0,
        fee_low <= fee_high < BASIS_POINTS,
    ensures
        spec_amount_out(amount_in as int, reserve_in as int, reserve_out as int, fee_high as int)
            <= spec_amount_out(
            amount_in as int,
            reserve_in as int,
            reserve_out as int,
            fee_low as int,
        ),
{
    let with_fee_low = amount_in * (BASIS_POINTS - fee_low);
    let with_fee_high = amount_in * (BASIS_POINTS - fee_high);
    let base = reserve_in * BASIS_POINTS;
    let n_low = with_fee_low * reserve_out;
    let d_low = base + with_fee_low;
    let n_high = with_fee_high * reserve_out;
    let d_high = base + with_fee_high;
    assert(0 <= with_fee_high <= with_fee_low && 0 < base && 0 <= n_high && n_high * d_low
        <= n_low * d_high) by (nonlinear_arith)
        requires
            0 < reserve_in,
            0 < reserve_out,
            0 <= amount_in,
            0 < BASIS_POINTS - fee_high <= BASIS_POINTS - fee_low,
            BASIS_POINTS == 10000,
            with_fee_low == amount_in * (BASIS_POINTS - fee_low),
            with_fee_high == amount_in * (BASIS_POINTS - fee_high),
            base == reserve_in * BASIS_POINTS,
            n_low == with_fee_low * reserve_out,
            d_low == base + with_fee_low,
            n_high == with_fee_high * reserve_out,
            d_high == base + with_fee_high,
    ;
    crate::math::lemma_div_cross(n_low, d_low, n_high, d_high);
}

/// The checks shared by both swap directions, in the order the swap engine
/// applies them: a zero output, a zero input, an output that would not
/// leave the destination vault strictly positive, and an input the trader's
/// balance does not strictly cover are each rejected.
pub open spec fn spec_swap(
    input_amount: u64,
    output_amount: u64,
    reserve_out: u64,
    user_balance: u64,
) -> Result<(), ErrorCode> {
    if output_amount == 0 {
        Err(ErrorCode::InsufficientOutputAmount)
    } else if input_amount == 0 {
        Err(ErrorCode::InsufficientInputAmount)
    } else if output_amount >= reserve_out {
        Err(ErrorCode::InsufficientLiquidity)
    } else if input_amount >= user_balance {
        Err(ErrorCode::InsufficientUserBalance)
    } else {
        Ok(())
    }
}

/// Validates a swap against the destination reserve and the trader's
/// balance of the source token. On `Ok` the caller transfers `input_amount`
/// to the source vault and `output_amount` out of the destination vault;
/// the fee-accrual baseline `k_last` is deliberately left untouched.
pub fn swap(input_amount: u64, output_amount: u64, reserve_out: u64, user_balance: u64) -> (r:
    Result<(), ErrorCode>)
    ensures
        r == spec_swap(input_amount, output_amount, reserve_out, user_balance),
        r is Ok ==> 0 < output_amount < reserve_out && 0 < input_amount < user_balance,
{
    if !(output_amount > 0) {
        return Err(ErrorCode::InsufficientOutputAmount);
    }
    if !(input_amount > 0) {
        return Err(ErrorCode::InsufficientInputAmount);
    }
    if !(output_amount < reserve_out) {
        return Err(ErrorCode::InsufficientLiquidity);
    }
    if !(input_amount < user_balance) {
        return Err(ErrorCode::InsufficientUserBalance);
    }
    Ok(())
}

/// The whole exact-in operation: quote, then slippage bound, then the
/// shared validation.
pub open spec fn spec_swap_exact_input(
    input_amount: u64,
    min_output_amount: u64,
    reserve_in: u64,
    reserve_out: u64,
    user_balance: u64,
    fee: u64,
) -> Result<u64, ErrorCode> {
    match spec_get_amount_out(input_amount, reserve_in, reserve_out, fee) {
        Err(e) => Err(e),
        Ok(amount_out) => if amount_out < min_output_amount {
            Err(ErrorCode::InsufficientOutputAmount)
        } else {
            match spec_swap(input_amount, amount_out, reserve_out, user_balance) {
                Err(e) => Err(e),
                Ok(_) => Ok(amount_out),
            }
        },
    }
}

/// The whole exact-out operation: quote, then input bound, then the shared
/// validation.
pub open spec fn spec_swap_exact_output(
    output_amount: u64,
    max_input_amount: u64,
    reserve_in: u64,
    reserve_out: u64,
    user_balance: u64,
    fee: u64,
) -> Result<u64, ErrorCode> {
    match spec_get_amount_in(output_amount, reserve_in, reserve_out, fee) {
        Err(e) => Err(e),
        Ok(amount_in) => if amount_in > max_input_amount {
            Err(ErrorCode::InsufficientInputAmount)
        } else {
            match spec_swap(amount_in, output_amount, reserve_out, user_balance) {
                Err(e) => Err(e),
                Ok(_) => Ok(amount_in),
            }
        },
    }
}

/// Swaps an exact input for at least `min_output_amount`. On `Ok` the
/// returned output amount is what the caller moves out of the destination
/// vault in exchange for `input_amount`.
pub fn swap_exact_input(
    config: &Config,
    input_amount: u64,
    min_output_amount: u64,
    reserve_in: u64,
    reserve_out: u64,
    user_balance: u64,
) -> (r: Result<u64, ErrorCode>)
    requires
        config.wf(),
        reserve_in > 0 && reserve_out > 0 ==> input_amount * (BASIS_POINTS - config.fee)
            * reserve_out <= u128::MAX,
    ensures
        r == spec_swap_exact_input(
            input_amount,
            min_output_amount,
            reserve_in,
            reserve_out,
            user_balance,
            config.fee,
        ),
{
    let amount_out = match get_amount_out(config, input_amount, reserve_in, reserve_out) {
        Ok(v) => v,
        Err(e) => {
            return Err(e);
        },
    };
    if !(amount_out >= min_output_amount) {
        return Err(ErrorCode::InsufficientOutputAmount);
    }
    match swap(input_amount, amount_out, reserve_out, user_balance) {
        Ok(_) => Ok(amount_out),
        Err(e) => Err(e),
    }
}

/// Swaps for an exact output of at most `max_input_amount`. On `Ok` the
/// returned input amount is what the caller moves into the source vault in
/// exchange for `output_amount`.
pub fn swap_exact_output(
    config: &Config,
    output_amount: u64,
    max_input_amount: u64,
    reserve_in: u64,
    reserve_out: u64,
    user_balance: u64,
) -> (r: Result<u64, ErrorCode>)
    requires
        config.wf(),
        reserve_in > 0 && output_amount < reserve_out ==> reserve_in * output_amount * BASIS_POINTS
            < u128::MAX,
    ensures
        r == spec_swap_exact_output(
            output_amount,
            max_input_amount,
            reserve_in,
            reserve_out,
            user_balance,
            config.fee,
        ),
{
    let amount_in = match get_amount_in(config, output_amount, reserve_in, reserve_out) {
        Ok(v) => v,
        Err(e) => {
            return Err(e);
        },
    };
    if !(amount_in <= max_input_amount) {
        return Err(ErrorCode::InsufficientInputAmount);
    }
    match swap(amount_in, output_amount, reserve_out, user_balance) {
        Ok(_) => Ok(amount_in),
        Err(e) => Err(e),
    }
}

} // verus!
