use vstd::prelude::*;

verus! {

/// The escrow of one loan request, as an operation finds it.
#[derive(Clone, Copy, Debug, PartialEq, Eq, Structural)]
pub struct CollateralVaultState {
    /// All the vault holds, in smallest units of the collateral asset.
    pub balance: u64,
}

} // verus!
