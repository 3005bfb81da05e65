use vstd::prelude::*;
use crate::identity::{Identity, LoanKey};

verus! {

/// One end of a transfer.
#[derive(Clone, Copy, Debug, PartialEq, Eq, Structural)]
pub enum Account {
    /// A party's own account.
    Wallet(Identity),
    /// The escrow that holds the collateral of the given loan request.
    CollateralVault(LoanKey),
    /// The protocol's fee account.
    ProtocolVault,
}

/// A transfer of the collateral asset that the caller is to perform.
#[derive(Clone, Copy, Debug, PartialEq, Eq, Structural)]
pub struct NativeTransfer {
    pub from: Account,
    pub to: Account,
    pub amount: u64,
}

/// A stable-coin transfer that the caller is to perform, signed by
/// `authority`.
#[derive(Clone, Copy, Debug, PartialEq, Eq, Structural)]
pub struct StableTransfer {
    pub from: Account,
    pub to: Account,
    pub authority: Identity,
    pub amount: u64,
}

} // verus!
