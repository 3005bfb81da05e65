use vstd::prelude::*;
use crate::identity::{Identity, LoanKey};

verus! {

/// The record of one loan, from the borrower's request to its settlement.
#[derive(Clone, Copy, Debug, PartialEq, Eq, Structural)]
pub struct LoanRequestState {
    pub loan_id: u64,
    /// Who asked for the loan.
    pub borrower: Identity,
    /// Who funded the loan; unset until then.
    pub lender: Option<Identity>,
    /// The principal, in smallest stable-coin units.
    pub loan_amount: u64,
    /// The collateral posted, in smallest units of the collateral asset.
    pub collateral: u64,
    /// How many days the borrower has to repay, counted from the funding.
    pub duration_days: u64,
    /// The repayment deadline in seconds; set once, when the loan is funded.
    pub repayment_time: Option<i64>,
}

impl LoanRequestState {
    /// The lender and the deadline are set together, by the funding.
    pub open spec fn wf(&self) -> bool {
        self.lender is Some <==> self.repayment_time is Some
    }

    /// Whether a lender has funded the loan.
    pub open spec fn is_funded(&self) -> bool {
        self.lender is Some
    }

    pub open spec fn spec_key(&self) -> LoanKey {
        LoanKey { borrower: self.borrower, loan_id: self.loan_id }
    }

    /// The pair by which the registry and the vault know this loan.
    pub fn key(&self) -> (k: LoanKey)
        ensures
            k == self.spec_key(),
    {
        LoanKey { borrower: self.borrower, loan_id: self.loan_id }
    }
}

} // verus!
