use vstd::prelude::*;

verus! {

use crate::math::{floor_sqrt, lemma_floor_sqrt_agrees, isqrt_u128};
use crate::pool::Pool;

/// How many liquidity shares the fee-accrual engine mints to the fee
/// recipient, given the baseline `k_last` and the reserves and share supply
/// observed before the caller's own liquidity change. Nothing is minted
/// without a baseline or without growth of the invariant; otherwise the
/// minted shares dilute existing holders by roughly one sixth of the growth
/// of the reserve value since the last accrual.
pub open spec fn spec_mint_fee(k_last: int, reserve0: int, reserve1: int, lp_supply: int) -> int {
    if k_last == 0 {
        0
    } else {
        let root_k = floor_sqrt(reserve0 * reserve1);
        let root_k_last = floor_sqrt(k_last);
        if root_k <= root_k_last {
            0
        } else {
            lp_supply * (root_k - root_k_last) / (root_k * 5 + root_k_last)
        }
    }
}

/// Computes the protocol-fee liquidity for the current reserves and share
/// supply. The caller mints exactly this many shares to the fee recipient
/// through the token ledger; a zero result means no accrual. The result
/// never exceeds a fifth of the supply, so it always fits the share width.
pub fn mint_fee(pool: &Pool, reserve0: u64, reserve1: u64, lp_supply: u64) -> (liquidity: u64)
    ensures
        liquidity == spec_mint_fee(
            pool.k_last as int,
            reserve0 as int,
            reserve1 as int,
            lp_supply as int,
        ),
        pool.k_last == 0 ==> liquidity == 0,
        pool.k_last != 0 && floor_sqrt(reserve0 * reserve1) <= floor_sqrt(pool.k_last as int)
            ==> liquidity == 0,
        5 * liquidity <= lp_supply,
{
    let k_last = pool.k_last;
    if k_last == 0 {
        return 0;
    }
    proof {
        assert(reserve0 * reserve1 <= u64::MAX * u64::MAX) by (nonlinear_arith)
            requires
                reserve0 <= u64::MAX,
                reserve1 <= u64::MAX,
        ;
    }
    let k = (reserve0 as u128) * (reserve1 as u128);
    let root_k = isqrt_u128(k);
    let root_k_last = isqrt_u128(k_last);
    proof {
        lemma_floor_sqrt_agrees(k as int, root_k as int);
        lemma_floor_sqrt_agrees(k_last as int, root_k_last as int);
    }
    if root_k <= root_k_last {
        return 0;
    }
    proof {
        assert(root_k < 0x1_0000_0000_0000_0000) by (nonlinear_arith)
            requires
                root_k * root_k <= k,
                k < 0x1_0000_0000_0000_0000_0000_0000_0000_0000,
                root_k >= 0,
        ;
        assert(lp_supply * (root_k - root_k_last)
            < 0x1_0000_0000_0000_0000_0000_0000_0000_0000) by (nonlinear_arith)
            requires
                lp_supply < 0x1_0000_0000_0000_0000,
                0 <= root_k - root_k_last < 0x1_0000_0000_0000_0000,
        ;
    }
    let numerator = (lp_supply as u128) * (root_k - root_k_last);
    let denominator = root_k * 5 + root_k_last;
    let liquidity = numerator / denominator;
    proof {
        let n = numerator as int;
        let d = denominator as int;
        let q = n / d;
        vstd::arithmetic::div_mod::lemma_fundamental_div_mod(n, d);
        vstd::arithmetic::div_mod::lemma_mod_division_less_than_divisor(n, d);
        assert(q * 5 <= lp_supply) by (nonlinear_arith)
            requires
                n == d * q + n % d,
                0 <= n % d < d,
                n == lp_supply * (root_k - root_k_last),
                d == root_k * 5 + root_k_last,
                0 <= root_k_last < root_k,
                0 <= lp_supply,
        ;
    }
    liquidity as u64
}

} // verus!
