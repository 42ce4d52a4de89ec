use vstd::prelude::*;

verus! {

use crate::error::ErrorCode;
use crate::fee::{mint_fee, spec_mint_fee};
use crate::math::{
    floor_sqrt, isqrt_u128, lemma_floor_sqrt_agrees, lemma_floor_sqrt_is_floor_sqrt,
    lemma_trunc_u64, trunc_u64,
};
use crate::pool::Pool;

/// The amount of the other token that matches `amount0` at the current
/// reserve ratio: `floor(amount0 * reserve1 / reserve0)`, narrowed to the
/// 64-bit amount width. A zero amount or an empty reserve is rejected.
pub open spec fn spec_quote(amount0: u64, reserve0: u64, reserve1: u64) -> Result<u64, ErrorCode> {
    if amount0 == 0 {
        Err(ErrorCode::InsufficientAmount)
    } else if reserve0 == 0 || reserve1 == 0 {
        Err(ErrorCode::InsufficientReserves)
    } else {
        Ok(trunc_u64(amount0 * reserve1 / (reserve0 as int)) as u64)
    }
}

/// Given an amount of one token and the pair's reserves, returns the
/// equivalent amount of the other token at the current ratio.
pub fn quote(amount0: u64, reserve0: u64, reserve1: u64) -> (r: Result<u64, ErrorCode>)
    ensures
        r == spec_quote(amount0, reserve0, reserve1),
{
    if !(amount0 > 0) {
        return Err(ErrorCode::InsufficientAmount);
    }
    if !(reserve0 > 0 && reserve1 > 0) {
        return Err(ErrorCode::InsufficientReserves);
    }
    proof {
        assert(amount0 * reserve1 <= u64::MAX * u64::MAX) by (nonlinear_arith)
            requires
                amount0 <= u64::MAX,
                reserve1 <= u64::MAX,
        ;
    }
    let q = (amount0 as u128) * (reserve1 as u128) / (reserve0 as u128);
    proof {
        lemma_trunc_u64(q);
    }
    Ok(#[verifier::truncate] (q as u64))
}

/// The deposit the liquidity engine accepts for the desired amounts. On a
/// fresh pool the desired amounts are taken as they are; otherwise the
/// deposit is cut down to the reserve ratio, and rejected when the cut
/// falls below the given minimum or above the desired amount.
pub open spec fn spec_calculate_liquidity_amounts(
    reserve0: u64,
    reserve1: u64,
    amount0_desired: u64,
    amount1_desired: u64,
    amount0_min: u64,
    amount1_min: u64,
) -> Result<(u64, u64), ErrorCode> {
    if reserve0 == 0 && reserve1 == 0 {
        Ok((amount0_desired, amount1_desired))
    } else {
        match spec_quote(amount0_desired, reserve0, reserve1) {
            Err(e) => Err(e),
            Ok(amount1_optimal) => if amount1_optimal <= amount1_desired {
                if amount1_optimal >= amount1_min {
                    Ok((amount0_desired, amount1_optimal))
                } else {
                    Err(ErrorCode::InsufficientAmount)
                }
            } else {
                match spec_quote(amount1_desired, reserve1, reserve0) {
                    Err(e) => Err(e),
                    Ok(amount0_optimal) => if amount0_optimal > amount0_desired {
                        Err(ErrorCode::InsufficientAmount)
                    } else if amount0_optimal < amount0_min {
                        Err(ErrorCode::InsufficientAmount)
                    } else {
                        Ok((amount0_optimal, amount1_desired))
                    },
                }
            },
        }
    }
}

/// Determines the actual deposit for the desired amounts and slippage
/// bounds. An accepted deposit never exceeds the desired amounts.
pub fn calculate_liquidity_amounts(
    reserve0: u64,
    reserve1: u64,
    amount0_desired: u64,
    amount1_desired: u64,
    amount0_min: u64,
    amount1_min: u64,
) -> (r: Result<(u64, u64), ErrorCode>)
    ensures
        r == spec_calculate_liquidity_amounts(
            reserve0,
            reserve1,
            amount0_desired,
            amount1_desired,
            amount0_min,
            amount1_min,
        ),
        r matches Ok((amount0, amount1))
            ==> amount0 <= amount0_desired && amount1 <= amount1_desired,
{
    if reserve0 == 0 && reserve1 == 0 {
        return Ok((amount0_desired, amount1_desired));
    }
    let amount1_optimal = match quote(amount0_desired, reserve0, reserve1) {
        Ok(v) => v,
        Err(e) => {
            return Err(e);
        },
    };
    if amount1_optimal <= amount1_desired {
        if !(amount1_optimal >= amount1_min) {
            return Err(ErrorCode::InsufficientAmount);
        }
        return Ok((amount0_desired, amount1_optimal));
    }
    let amount0_optimal = match quote(amount1_desired, reserve1, reserve0) {
        Ok(v) => v,
        Err(e) => {
            return Err(e);
        },
    };
    if !(amount0_optimal <= amount0_desired) {
        return Err(ErrorCode::InsufficientAmount);
    }
    if !(amount0_optimal >= amount0_min) {
        return Err(ErrorCode::InsufficientAmount);
    }
    Ok((amount0_optimal, amount1_desired))
}

/// The withdrawal the liquidity engine grants for burning `liquidity`
/// shares out of `lp_supply`: the proportional share of each reserve,
/// rounded down. A withdrawal below a minimum is rejected, and so is one
/// in which either side rounds down to nothing.
pub open spec fn spec_calculate_removed_amounts(
    liquidity: u64,
    lp_supply: u64,
    reserve0: u64,
    reserve1: u64,
    amount0_min: u64,
    amount1_min: u64,
) -> Result<(u64, u64), ErrorCode>
    recommends
        lp_supply > 0,
{
    let amount0 = trunc_u64(liquidity * reserve0 / (lp_supply as int)) as u64;
    let amount1 = trunc_u64(liquidity * reserve1 / (lp_supply as int)) as u64;
    if amount0 < amount0_min || amount1 < amount1_min {
        Err(ErrorCode::InsufficientAmount)
    } else if amount0 == 0 || amount1 == 0 {
        Err(ErrorCode::InsufficientLiquidityBurned)
    } else {
        Ok((amount0, amount1))
    }
}

/// Computes the amounts of both tokens returned for burning `liquidity`
/// shares. Burning at most the whole supply never returns more than a
/// reserve holds.
pub fn calculate_removed_amounts(
    liquidity: u64,
    lp_supply: u64,
    reserve0: u64,
    reserve1: u64,
    amount0_min: u64,
    amount1_min: u64,
) -> (r: Result<(u64, u64), ErrorCode>)
    requires
        lp_supply > 0,
    ensures
        r == spec_calculate_removed_amounts(
            liquidity,
            lp_supply,
            reserve0,
            reserve1,
            amount0_min,
            amount1_min,
        ),
        liquidity <= lp_supply ==> (r matches Ok((amount0, amount1))
            ==> amount0 <= reserve0 && amount1 <= reserve1),
{
    proof {
        assert(liquidity * reserve0 <= u64::MAX * u64::MAX && liquidity * reserve1 <= u64::MAX
            * u64::MAX) by (nonlinear_arith)
            requires
                liquidity <= u64::MAX,
                reserve0 <= u64::MAX,
                reserve1 <= u64::MAX,
        ;
    }
    let q0 = (liquidity as u128) * (reserve0 as u128) / (lp_supply as u128);
    let q1 = (liquidity as u128) * (reserve1 as u128) / (lp_supply as u128);
    proof {
        lemma_trunc_u64(q0);
        lemma_trunc_u64(q1);
        if liquidity <= lp_supply {
            lemma_removed_amount_bounded(liquidity as int, lp_supply as int, reserve0 as int);
            lemma_removed_amount_bounded(liquidity as int, lp_supply as int, reserve1 as int);
        }
    }
    let amount0 = #[verifier::truncate] (q0 as u64);
    let amount1 = #[verifier::truncate] (q1 as u64);
    if amount0 < amount0_min || amount1 < amount1_min {
        return Err(ErrorCode::InsufficientAmount);
    }
    if amount0 == 0 || amount1 == 0 {
        return Err(ErrorCode::InsufficientLiquidityBurned);
    }
    Ok((amount0, amount1))
}

/// Everything one deposit asks of the token ledger: mint `fee_liquidity`
/// shares to the fee recipient, transfer `amount0` and `amount1` from the
/// depositor into the vaults, and mint `liquidity` shares to the depositor.
#[derive(Clone, Copy, Debug, PartialEq, Eq, Structural)]
pub struct AddLiquidityResult {
    pub fee_liquidity: u64,
    pub amount0: u64,
    pub amount1: u64,
    pub liquidity: u64,
}

/// Everything one withdrawal asks of the token ledger: mint `fee_liquidity`
/// shares to the fee recipient, burn the withdrawer's shares, and transfer
/// `amount0` and `amount1` from the vaults back to the withdrawer.
#[derive(Clone, Copy, Debug, PartialEq, Eq, Structural)]
pub struct RemoveLiquidityResult {
    pub fee_liquidity: u64,
    pub amount0: u64,
    pub amount1: u64,
}

/// The deposit a liquidity addition settles on, and the shares it mints:
/// the accepted amounts (`spec_calculate_liquidity_amounts`), with the
/// first deposit minting the geometric mean of the amounts and any later
/// one the smaller proportional share of the supply. A deposit whose share
/// computation rounds down to nothing is rejected.
pub open spec fn spec_add_liquidity(
    reserve0: u64,
    reserve1: u64,
    amount0_desired: u64,
    amount1_desired: u64,
    amount0_min: u64,
    amount1_min: u64,
    lp_supply: u64,
) -> Result<(u64, u64, u64), ErrorCode> {
    match spec_calculate_liquidity_amounts(
        reserve0,
        reserve1,
        amount0_desired,
        amount1_desired,
        amount0_min,
        amount1_min,
    ) {
        Err(e) => Err(e),
        Ok((amount0, amount1)) => {
            let liquidity = if lp_supply == 0 {
                floor_sqrt(amount0 * amount1)
            } else {
                trunc_u64(
                    vstd::math::min(
                        amount0 * lp_supply / (reserve0 as int),
                        amount1 * lp_supply / (reserve1 as int),
                    ),
                )
            };
            if liquidity > 0 {
                Ok((amount0, amount1, liquidity as u64))
            } else {
                Err(ErrorCode::InsufficientLiquidityMinted)
            }
        },
    }
}

/// One whole liquidity deposit: the fee accrual runs first against the
/// pre-deposit reserves and supply, the deposit amounts and minted shares
/// follow `spec_add_liquidity`, and on success the fee-accrual baseline is
/// refreshed to the product of the post-deposit reserves. A rejected
/// deposit leaves the pool untouched and asks no effect at all.
pub fn add_liquidity(
    pool: &mut Pool,
    reserve0: u64,
    reserve1: u64,
    amount0_desired: u64,
    amount1_desired: u64,
    amount0_min: u64,
    amount1_min: u64,
    lp_supply: u64,
) -> (r: Result<AddLiquidityResult, ErrorCode>)
    requires
        reserve0 + amount0_desired <= u64::MAX,
        reserve1 + amount1_desired <= u64::MAX,
        lp_supply > 0 ==> reserve0 > 0 || reserve1 > 0,
    ensures
        r matches Ok(out) ==> {
            &&& spec_add_liquidity(
                reserve0,
                reserve1,
                amount0_desired,
                amount1_desired,
                amount0_min,
                amount1_min,
                lp_supply,
            ) == Ok::<(u64, u64, u64), ErrorCode>((out.amount0, out.amount1, out.liquidity))
            &&& out.fee_liquidity == spec_mint_fee(
                old(pool).k_last as int,
                reserve0 as int,
                reserve1 as int,
                lp_supply as int,
            )
            &&& out.amount0 <= amount0_desired
            &&& out.amount1 <= amount1_desired
            &&& out.liquidity > 0
            &&& lp_supply == 0 ==> out.liquidity == floor_sqrt(out.amount0 * out.amount1)
            &&& final(pool).k_last == (reserve0 + out.amount0) * (reserve1 + out.amount1)
            &&& final(pool).token0 == old(pool).token0
            &&& final(pool).token1 == old(pool).token1
        },
        r matches Err(e) ==> spec_add_liquidity(
            reserve0,
            reserve1,
            amount0_desired,
            amount1_desired,
            amount0_min,
            amount1_min,
            lp_supply,
        ) == Err::<(u64, u64, u64), ErrorCode>(e) && *final(pool) == *old(pool),
{
    let fee_liquidity = mint_fee(pool, reserve0, reserve1, lp_supply);
    let (amount0, amount1) = match calculate_liquidity_amounts(
        reserve0,
        reserve1,
        amount0_desired,
        amount1_desired,
        amount0_min,
        amount1_min,
    ) {
        Ok(v) => v,
        Err(e) => {
            return Err(e);
        },
    };
    let liquidity: u64;
    if lp_supply == 0 {
        proof {
            assert(amount0 * amount1 <= u64::MAX * u64::MAX && u64::MAX * u64::MAX < u128::MAX)
                by (nonlinear_arith)
                requires
                    amount0 <= u64::MAX,
                    amount1 <= u64::MAX,
                    u64::MAX == 0xffff_ffff_ffff_ffff,
                    u128::MAX == 0xffff_ffff_ffff_ffff_ffff_ffff_ffff_ffff,
            ;
        }
        let product = (amount0 as u128) * (amount1 as u128);
        let root = isqrt_u128(product);
        proof {
            lemma_floor_sqrt_agrees(product as int, root as int);
            assert(root <= u64::MAX) by (nonlinear_arith)
                requires
                    0 <= root,
                    root * root <= product,
                    product <= u64::MAX * u64::MAX,
                    u64::MAX == 0xffff_ffff_ffff_ffff,
            ;
        }
        liquidity = root as u64;
    } else {
        assert(reserve0 > 0 && reserve1 > 0);
        proof {
            assert(amount0 * lp_supply <= u64::MAX * u64::MAX && amount1 * lp_supply <= u64::MAX
                * u64::MAX && u64::MAX * u64::MAX < u128::MAX) by (nonlinear_arith)
                requires
                    amount0 <= u64::MAX,
                    amount1 <= u64::MAX,
                    lp_supply <= u64::MAX,
                    u64::MAX == 0xffff_ffff_ffff_ffff,
                    u128::MAX == 0xffff_ffff_ffff_ffff_ffff_ffff_ffff_ffff,
            ;
        }
        let q0 = (amount0 as u128) * (lp_supply as u128) / (reserve0 as u128);
        let q1 = (amount1 as u128) * (lp_supply as u128) / (reserve1 as u128);
        let smaller = if q0 <= q1 {
            q0
        } else {
            q1
        };
        proof {
            lemma_trunc_u64(smaller);
        }
        liquidity = #[verifier::truncate] (smaller as u64);
    }
    if liquidity == 0 {
        return Err(ErrorCode::InsufficientLiquidityMinted);
    }
    pool.update_k_last(reserve0 + amount0, reserve1 + amount1);
    Ok(AddLiquidityResult { fee_liquidity, amount0, amount1, liquidity })
}

/// One whole liquidity withdrawal: the fee accrual runs first against the
/// pre-withdrawal reserves and supply, the returned amounts follow
/// `spec_calculate_removed_amounts`, and on success the fee-accrual
/// baseline is refreshed to the product of the post-withdrawal reserves.
/// A rejected withdrawal leaves the pool untouched and asks no effect at
/// all. Burning more shares than the ledger holds is impossible, so the
/// supply bounds the burned amount.
pub fn remove_liquidity(
    pool: &mut Pool,
    liquidity: u64,
    lp_supply: u64,
    reserve0: u64,
    reserve1: u64,
    amount0_min: u64,
    amount1_min: u64,
) -> (r: Result<RemoveLiquidityResult, ErrorCode>)
    requires
        lp_supply > 0,
        liquidity <= lp_supply,
    ensures
        r matches Ok(out) ==> {
            &&& spec_calculate_removed_amounts(
                liquidity,
                lp_supply,
                reserve0,
                reserve1,
                amount0_min,
                amount1_min,
            ) == Ok::<(u64, u64), ErrorCode>((out.amount0, out.amount1))
            &&& out.fee_liquidity == spec_mint_fee(
                old(pool).k_last as int,
                reserve0 as int,
                reserve1 as int,
                lp_supply as int,
            )
            &&& out.amount0 <= reserve0
            &&& out.amount1 <= reserve1
            &&& out.amount0 > 0
            &&& out.amount1 > 0
            &&& final(pool).k_last == (reserve0 - out.amount0) * (reserve1 - out.amount1)
            &&& final(pool).token0 == old(pool).token0
            &&& final(pool).token1 == old(pool).token1
        },
        r matches Err(e) ==> spec_calculate_removed_amounts(
            liquidity,
            lp_supply,
            reserve0,
            reserve1,
            amount0_min,
            amount1_min,
        ) == Err::<(u64, u64), ErrorCode>(e) && *final(pool) == *old(pool),
{
    let fee_liquidity = mint_fee(pool, reserve0, reserve1, lp_supply);
    let (amount0, amount1) = match calculate_removed_amounts(
        liquidity,
        lp_supply,
        reserve0,
        reserve1,
        amount0_min,
        amount1_min,
    ) {
        Ok(v) => v,
        Err(e) => {
            return Err(e);
        },
    };
    pool.update_k_last(reserve0 - amount0, reserve1 - amount1);
    Ok(RemoveLiquidityResult { fee_liquidity, amount0, amount1 })
}

/// A deposit followed at once by the withdrawal of its whole minted
/// liquidity (no swap in between) never returns more than was deposited;
/// on the first deposit into an empty pool it returns exactly the deposit.
/// The withdrawal runs against the supply grown by the deposit's own fee
/// accrual and minted shares, and triggers no fee accrual of its own,
/// because the baseline recorded by the deposit equals the product of the
/// unchanged reserves.
pub proof fn lemma_add_remove_round_trip(
    k_last: u128,
    reserve0: u64,
    reserve1: u64,
    amount0_desired: u64,
    amount1_desired: u64,
    amount0_min: u64,
    amount1_min: u64,
    lp_supply: u64,
    amount0: u64,
    amount1: u64,
    liquidity: u64,
    fee_liquidity: u64,
    remove0_min: u64,
    remove1_min: u64,
    removed0: u64,
    removed1: u64,
)
    requires
        lp_supply == 0 ==> reserve0 == 0 && reserve1 == 0,
        lp_supply > 0 ==> reserve0 > 0 || reserve1 > 0,
        reserve0 + amount0_desired <= u64::MAX,
        reserve1 + amount1_desired <= u64::MAX,
        spec_add_liquidity(
            reserve0,
            reserve1,
            amount0_desired,
            amount1_desired,
            amount0_min,
            amount1_min,
            lp_supply,
        ) == Ok::<(u64, u64, u64), ErrorCode>((amount0, amount1, liquidity)),
        fee_liquidity == spec_mint_fee(
            k_last as int,
            reserve0 as int,
            reserve1 as int,
            lp_supply as int,
        ),
        lp_supply + fee_liquidity + liquidity <= u64::MAX,
        spec_calculate_removed_amounts(
            liquidity,
            (lp_supply + fee_liquidity + liquidity) as u64,
            (reserve0 + amount0) as u64,
            (reserve1 + amount1) as u64,
            remove0_min,
            remove1_min,
        ) == Ok::<(u64, u64), ErrorCode>((removed0, removed1)),
    ensures
        removed0 <= amount0,
        removed1 <= amount1,
        lp_supply == 0 ==> removed0 == amount0 && removed1 == amount1,
        spec_mint_fee(
            (reserve0 + amount0) * (reserve1 + amount1),
            (reserve0 + amount0) as int,
            (reserve1 + amount1) as int,
            (lp_supply + fee_liquidity + liquidity) as int,
        ) == 0,
{
    let supply_after = lp_supply + fee_liquidity + liquidity;
    lemma_round_trip_no_second_accrual(
        (reserve0 + amount0) as int,
        (reserve1 + amount1) as int,
        supply_after,
    );
    if lp_supply == 0 {
        let product = amount0 * amount1;
        lemma_floor_sqrt_is_floor_sqrt(product);
        assert(product <= u64::MAX * u64::MAX) by (nonlinear_arith)
            requires
                amount0 <= u64::MAX,
                amount1 <= u64::MAX,
                product == amount0 * amount1,
        ;
        assert(floor_sqrt(product) <= u64::MAX) by (nonlinear_arith)
            requires
                0 <= floor_sqrt(product),
                floor_sqrt(product) * floor_sqrt(product) <= product,
                product <= u64::MAX * u64::MAX,
                u64::MAX == 0xffff_ffff_ffff_ffff,
        ;
        assert(liquidity as int == floor_sqrt(product) && liquidity > 0);
        lemma_floor_sqrt_agrees(0, 0);
        if k_last != 0 {
            lemma_floor_sqrt_is_floor_sqrt(k_last as int);
        }
        assert(fee_liquidity == 0);
        vstd::arithmetic::div_mod::lemma_div_multiples_vanish(
            amount0 as int,
            liquidity as int,
        );
        vstd::arithmetic::div_mod::lemma_div_multiples_vanish(
            amount1 as int,
            liquidity as int,
        );
        assert(removed0 == amount0 && removed1 == amount1);
    } else {
        assert(reserve0 > 0 && reserve1 > 0);
        let s = lp_supply as int;
        let q0 = amount0 * s / (reserve0 as int);
        let q1 = amount1 * s / (reserve1 as int);
        let m = vstd::math::min(q0, q1);
        vstd::arithmetic::div_mod::lemma_div_pos_is_pos(amount0 * s, reserve0 as int);
        vstd::arithmetic::div_mod::lemma_div_pos_is_pos(amount1 * s, reserve1 as int);
        assert(liquidity as int == trunc_u64(m) && liquidity > 0);
        vstd::arithmetic::div_mod::lemma_fundamental_div_mod(m, 0x1_0000_0000_0000_0000);
        vstd::arithmetic::div_mod::lemma_div_pos_is_pos(m, 0x1_0000_0000_0000_0000);
        assert(liquidity <= q0 && liquidity <= q1);
        lemma_round_trip_side(
            liquidity as int,
            lp_supply as int,
            fee_liquidity as int,
            reserve0 as int,
            amount0 as int,
            removed0 as int,
        );
        lemma_round_trip_side(
            liquidity as int,
            lp_supply as int,
            fee_liquidity as int,
            reserve1 as int,
            amount1 as int,
            removed1 as int,
        );
    }
}

/// One side of the round trip on an established pool: when the burned
/// shares are at most the proportional quotient that minted them, the
/// withdrawal returns at most the deposit of that side.
proof fn lemma_round_trip_side(
    liquidity: int,
    lp_supply: int,
    fee_liquidity: int,
    reserve: int,
    amount: int,
    removed: int,
)
    requires
        0 < lp_supply,
        0 < liquidity,
        0 <= fee_liquidity,
        0 < reserve,
        0 <= amount,
        liquidity <= amount * lp_supply / reserve,
        removed == trunc_u64(
            liquidity * (reserve + amount) / (lp_supply + fee_liquidity + liquidity),
        ),
        reserve + amount <= u64::MAX,
    ensures
        removed <= amount,
{
    let supply_after = lp_supply + fee_liquidity + liquidity;
    let q = amount * lp_supply / reserve;
    vstd::arithmetic::div_mod::lemma_fundamental_div_mod(amount * lp_supply, reserve);
    vstd::arithmetic::div_mod::lemma_mod_division_less_than_divisor(amount * lp_supply, reserve);
    assert(liquidity * (reserve + amount) <= amount * supply_after) by (nonlinear_arith)
        requires
            amount * lp_supply == reserve * q + (amount * lp_supply) % reserve,
            0 <= (amount * lp_supply) % reserve,
            0 < liquidity <= q,
            0 < reserve,
            0 <= amount,
            0 <= fee_liquidity,
            supply_after == lp_supply + fee_liquidity + liquidity,
    ;
    lemma_removed_amount_bounded(liquidity, supply_after, reserve + amount);
    vstd::arithmetic::div_mod::lemma_div_is_ordered(
        liquidity * (reserve + amount),
        amount * supply_after,
        supply_after,
    );
    vstd::arithmetic::div_mod::lemma_div_multiples_vanish(amount, supply_after);
    assert(amount * supply_after == supply_after * amount) by (nonlinear_arith);
}

/// After a liquidity change refreshes the baseline to the product of the
/// reserves, an accrual against those same reserves mints nothing.
pub proof fn lemma_round_trip_no_second_accrual(reserve0: int, reserve1: int, lp_supply: int)
    requires
        0 <= reserve0,
        0 <= reserve1,
    ensures
        spec_mint_fee(reserve0 * reserve1, reserve0, reserve1, lp_supply) == 0,
{
}

/// Burning no more than the whole supply returns no more than the reserve:
/// `liquidity * reserve / lp_supply <= reserve`.
proof fn lemma_removed_amount_bounded(liquidity: int, lp_supply: int, reserve: int)
    requires
        0 < lp_supply,
        0 <= liquidity <= lp_supply,
        0 <= reserve,
    ensures
        liquidity * reserve / lp_supply <= reserve,
{
    assert(liquidity * reserve <= lp_supply * reserve) by (nonlinear_arith)
        requires
            0 <= liquidity <= lp_supply,
            0 <= reserve,
    ;
    vstd::arithmetic::div_mod::lemma_div_is_ordered(
        liquidity * reserve,
        lp_supply * reserve,
        lp_supply,
    );
    vstd::arithmetic::div_mod::lemma_div_multiples_vanish(reserve, lp_supply);
    assert(lp_supply * reserve == reserve * lp_supply) by (nonlinear_arith);
}

} // verus!
