use vstd::prelude::*;

verus! {

/// Fee rates are expressed in basis points relative to this base:
/// a rate of `BASIS_POINTS` would be 100%.
pub const BASIS_POINTS: u64 = 10000;

} // verus!
