use vstd::prelude::*;

verus! {

use crate::constant::BASIS_POINTS;
use crate::error::ErrorCode;

/// Per-deployment configuration: the owner identity authorized to change the
/// fee settings, the identity that receives protocol-fee liquidity shares,
/// and the fee rate in basis points. Identities are the plain integer keys
/// under which the external storage collaborator files them.
pub struct Config {
    pub owner: u64,
    pub fee_to: u64,
    pub fee: u64,
}

impl Config {
    /// The configuration invariant: the fee rate is a proper fraction of the
    /// basis-point base. Every write enforces it.
    pub open spec fn wf(&self) -> bool {
        self.fee < BASIS_POINTS
    }

    /// Stores all fields, rejecting a fee rate at or above `BASIS_POINTS`.
    /// On rejection nothing changes.
    pub fn initialize(&mut self, owner: u64, fee_to: u64, fee: u64) -> (r: Result<(), ErrorCode>)
        ensures
            fee < BASIS_POINTS ==> r == Ok::<(), ErrorCode>(())
                && final(self).owner == owner
                && final(self).fee_to == fee_to
                && final(self).fee == fee,
            fee >= BASIS_POINTS ==> r == Err::<(), ErrorCode>(ErrorCode::InvalidFee)
                && *final(self) == *old(self),
            r is Ok ==> final(self).wf(),
    {
        if !(fee < BASIS_POINTS) {
            return Err(ErrorCode::InvalidFee);
        }
        self.owner = owner;
        self.fee_to = fee_to;
        self.fee = fee;
        Ok(())
    }

    /// Updates the fee rate under the same bound as `initialize`.
    /// On rejection nothing changes.
    pub fn set_fee(&mut self, fee: u64) -> (r: Result<(), ErrorCode>)
        ensures
            fee < BASIS_POINTS ==> r == Ok::<(), ErrorCode>(())
                && final(self).fee == fee
                && final(self).owner == old(self).owner
                && final(self).fee_to == old(self).fee_to,
            fee >= BASIS_POINTS ==> r == Err::<(), ErrorCode>(ErrorCode::InvalidFee)
                && *final(self) == *old(self),
            r is Ok ==> final(self).wf(),
    {
        if !(fee < BASIS_POINTS) {
            return Err(ErrorCode::InvalidFee);
        }
        self.fee = fee;
        Ok(())
    }

    /// Updates the fee recipient unconditionally; authorization of the caller
    /// is the external collaborator's concern.
    pub fn set_fee_to(&mut self, fee_to: u64) -> (r: Result<(), ErrorCode>)
        ensures
            r == Ok::<(), ErrorCode>(()),
            final(self).fee_to == fee_to,
            final(self).owner == old(self).owner,
            final(self).fee == old(self).fee,
    {
        self.fee_to = fee_to;
        Ok(())
    }
}

} // verus!
