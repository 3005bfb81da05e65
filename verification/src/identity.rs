use vstd::prelude::*;

verus! {

/// A 256-bit identifier of a party, a stable-coin or an authority, held as
/// two 128-bit halves. Two identities are the same party exactly when both
/// halves agree.
#[derive(Clone, Copy, Debug, PartialEq, Eq, Hash, Structural)]
pub struct Identity {
    pub hi: u128,
    pub lo: u128,
}

/// The identity of a loan request: the borrower together with the number the
/// borrower gave the loan. The registry refers to a loan request by this
/// pair, and the loan's collateral vault is found from it as well.
#[derive(Clone, Copy, Debug, PartialEq, Eq, Hash, Structural)]
pub struct LoanKey {
    pub borrower: Identity,
    pub loan_id: u64,
}

} // verus!
