use vstd::prelude::*;

verus! {

/// The records the operations hand to the external notification sink, one
/// per observable effect, in operation order. Delivery is fire-and-forget
/// and out of the core's scope; the core only fixes what each record
/// carries. Identities are the plain integer keys of the external storage
/// collaborator, as everywhere in the library.
///
/// A new pool was created for the ordered pair of token mints.
#[derive(Clone, Copy, Debug, PartialEq, Eq, Structural)]
pub struct PoolCreated {
    pub pool: u64,
    pub mint0: u64,
    pub mint1: u64,
}

/// The singleton configuration was created.
#[derive(Clone, Copy, Debug, PartialEq, Eq, Structural)]
pub struct ConfigInitialized {
    pub owner: u64,
    pub fee_to: u64,
    pub fee: u64,
}

/// The fee recipient changed.
#[derive(Clone, Copy, Debug, PartialEq, Eq, Structural)]
pub struct FeeToSet {
    pub old_fee_to: u64,
    pub new_fee_to: u64,
}

/// The fee rate changed.
#[derive(Clone, Copy, Debug, PartialEq, Eq, Structural)]
pub struct FeeSet {
    pub old_fee: u64,
    pub new_fee: u64,
}

/// The fee accrual minted protocol-fee liquidity shares.
#[derive(Clone, Copy, Debug, PartialEq, Eq, Structural)]
pub struct LiquidityMinted {
    pub liquidity: u64,
}

/// A deposit was accepted and its shares minted.
#[derive(Clone, Copy, Debug, PartialEq, Eq, Structural)]
pub struct LiquidityAdded {
    pub user: u64,
    pub amount0: u64,
    pub amount1: u64,
    pub liquidity: u64,
}

/// A withdrawal was accepted and its shares burned.
#[derive(Clone, Copy, Debug, PartialEq, Eq, Structural)]
pub struct LiquidityRemoved {
    pub user: u64,
    pub amount0: u64,
    pub amount1: u64,
    pub liquidity: u64,
}

/// A swap moved `input_amount` into the source vault and `output_amount`
/// out of the destination vault.
#[derive(Clone, Copy, Debug, PartialEq, Eq, Structural)]
pub struct SwapEvent {
    pub owner: u64,
    pub input_amount: u64,
    pub output_amount: u64,
    pub vault_src: u64,
    pub vault_des: u64,
}

} // verus!
