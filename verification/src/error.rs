use vstd::prelude::*;

verus! {

/// Every failure the core can report. All are synchronous validation or
/// precondition failures; none is retryable, and the first violated check
/// aborts the whole operation before any effect is proposed.
#[derive(Clone, Copy, Debug, PartialEq, Eq, Structural)]
pub enum ErrorCode {
    /// A fee rate at or above `BASIS_POINTS` was supplied.
    InvalidFee,
    /// The two tokens of a new pool were not in canonical order.
    InvalidMintOrder,
    /// A deposit or withdrawal amount fell outside its slippage bound.
    InsufficientAmount,
    /// A quote was requested against an empty reserve.
    InsufficientReserves,
    /// A deposit would mint zero liquidity shares.
    InsufficientLiquidityMinted,
    /// A withdrawal would return zero of one token for the burned shares.
    InsufficientLiquidityBurned,
    /// A swap touched an empty reserve or would drain the destination vault.
    InsufficientLiquidity,
    /// A swap's output amount is zero or below the requested minimum.
    InsufficientOutputAmount,
    /// A swap's input amount is zero or above the allowed maximum.
    InsufficientInputAmount,
    /// The trader's balance does not cover the swap input.
    InsufficientUserBalance,
}

} // verus!
