use vstd::prelude::*;

verus! {

use crate::error::ErrorCode;

/// One record per unordered token pair. The tokens are held in canonical
/// order (`token0 < token1` over the plain integer identifiers under which
/// the external storage collaborator files them), so each pair has exactly
/// one pool. `k_last` is the product of the reserves as observed right after
/// the most recent liquidity change; it is the baseline against which the
/// fee-accrual engine measures invariant growth.
pub struct Pool {
    pub token0: u64,
    pub token1: u64,
    pub k_last: u128,
}

impl Pool {
    /// The pool invariant: the tokens stand in canonical order.
    pub open spec fn wf(&self) -> bool {
        self.token0 < self.token1
    }

    /// Stores the pair, rejecting tokens out of canonical order, and clears
    /// the fee-accrual baseline. On rejection nothing changes.
    pub fn initialize(&mut self, token0: u64, token1: u64) -> (r: Result<(), ErrorCode>)
        ensures
            r is Ok <==> token0 < token1,
            token0 < token1 ==> r == Ok::<(), ErrorCode>(())
                && final(self).token0 == token0
                && final(self).token1 == token1
                && final(self).k_last == 0,
            token0 >= token1 ==> r == Err::<(), ErrorCode>(ErrorCode::InvalidMintOrder)
                && *final(self) == *old(self),
            r is Ok ==> final(self).wf(),
    {
        if !(token0 < token1) {
            return Err(ErrorCode::InvalidMintOrder);
        }
        self.token0 = token0;
        self.token1 = token1;
        self.k_last = 0;
        Ok(())
    }

    /// Records the product of the reserves as the new fee-accrual baseline.
    /// The product of two 64-bit reserves always fits the 128-bit field.
    pub fn update_k_last(&mut self, reserve0: u64, reserve1: u64)
        ensures
            final(self).k_last == reserve0 * reserve1,
            final(self).token0 == old(self).token0,
            final(self).token1 == old(self).token1,
    {
        proof {
            assert(reserve0 * reserve1 <= u64::MAX * u64::MAX) by (nonlinear_arith)
                requires
                    reserve0 <= u64::MAX,
                    reserve1 <= u64::MAX,
            ;
        }
        self.k_last = (reserve0 as u128) * (reserve1 as u128);
    }
}

} // verus!
