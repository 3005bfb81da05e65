use vstd::prelude::*;
use crate::errors::ErrorCode;
use crate::helpers::{calculate_repayment_time, check_usdc_mint_address, repayment_deadline};
use crate::identity::Identity;
use crate::state::config::ConfigState;
use crate::state::loan_request::LoanRequestState;
use crate::transfers::{Account, StableTransfer};

verus! {

/// What the funding of a loan works on: the lender who offers the principal,
/// the stable-coin it is offered in, the loan, and the configuration.
pub struct FundLoan {
    /// The caller.
    pub lender: Identity,
    pub config: ConfigState,
    pub loan_request: LoanRequestState,
    /// The stable-coin in which the lender offers the principal.
    pub usdc_mint: Identity,
}

/// Why the funding of `loan` at `now` is refused, if it is: the first of the
/// checks that fails.
pub open spec fn funding_refusal(
    loan: LoanRequestState,
    accepted_mint: Identity,
    offered_mint: Identity,
    now: i64,
) -> Option<ErrorCode> {
    if loan.lender is Some {
        Some(ErrorCode::AlreadyFunded)
    } else if accepted_mint != offered_mint {
        Some(ErrorCode::IncorrectMintAddress)
    } else if repayment_deadline(now as int, loan.duration_days as int) > i64::MAX {
        Some(ErrorCode::Overflow)
    } else {
        None
    }
}

/// `loan` as its funding by `lender` at `now` leaves it.
pub open spec fn funded(loan: LoanRequestState, lender: Identity, now: i64) -> LoanRequestState {
    LoanRequestState {
        lender: Some(lender),
        repayment_time: Some(repayment_deadline(now as int, loan.duration_days as int) as i64),
        ..loan
    }
}

impl FundLoan {
    /// The payment of the principal, from the lender to the borrower.
    pub open spec fn principal_payment(&self) -> StableTransfer {
        StableTransfer {
            from: Account::Wallet(self.lender),
            to: Account::Wallet(self.loan_request.borrower),
            authority: self.lender,
            amount: self.loan_request.loan_amount,
        }
    }

    /// Funds the loan at the instant `now`: the caller becomes its lender
    /// and the repayment deadline is set, `duration_days` days ahead. The
    /// answer is the payment of the principal that the caller has to carry
    /// out. On refusal nothing changes.
    pub fn fund_loan(&mut self, now: i64) -> (r: Result<StableTransfer, ErrorCode>)
        ensures
            final(self).lender == old(self).lender,
            final(self).config == old(self).config,
            final(self).usdc_mint == old(self).usdc_mint,
            match funding_refusal(
                old(self).loan_request,
                old(self).config.usdc_mint,
                old(self).usdc_mint,
                now,
            ) {
                Some(refusal) => r == Err::<StableTransfer, ErrorCode>(refusal) && final(self).loan_request == old(self).loan_request,
                None => r == Ok::<StableTransfer, ErrorCode>(old(self).principal_payment())
                    && final(self).loan_request == funded(
                    old(self).loan_request,
                    old(self).lender,
                    now,
                ),
            },
    {
        self.verify_not_funded()?;
        self.verify_usdc_mint()?;
        let repayment_time = calculate_repayment_time(now, self.loan_request.duration_days)?;
        self.update_loan_request_with_lender();
        self.update_repayment_time(repayment_time);
        Ok(self.transfer_usdc_funds(self.loan_request.loan_amount))
    }

    /// A loan takes one lender only.
    fn verify_not_funded(&self) -> (r: Result<(), ErrorCode>)
        ensures
            self.loan_request.lender is None ==> r == Ok::<(), ErrorCode>(()),
            self.loan_request.lender is Some ==> r == Err::<(), ErrorCode>(
                ErrorCode::AlreadyFunded,
            ),
    {
        if self.loan_request.lender.is_none() {
            Ok(())
        } else {
            Err(ErrorCode::AlreadyFunded)
        }
    }

    /// The stable-coin offered must be the accepted one.
    fn verify_usdc_mint(&self) -> (r: Result<(), ErrorCode>)
        ensures
            self.config.usdc_mint == self.usdc_mint ==> r == Ok::<(), ErrorCode>(()),
            self.config.usdc_mint != self.usdc_mint ==> r == Err::<(), ErrorCode>(
                ErrorCode::IncorrectMintAddress,
            ),
    {
        check_usdc_mint_address(self.config.usdc_mint, self.usdc_mint)
    }

    /// Records the caller as the loan's lender.
    fn update_loan_request_with_lender(&mut self)
        ensures
            *final(self) == (FundLoan {
                loan_request: LoanRequestState {
                    lender: Some(old(self).lender),
                    ..old(self).loan_request
                },
                ..*old(self)
            }),
    {
        self.loan_request.lender = Some(self.lender);
    }

    /// Records the repayment deadline.
    fn update_repayment_time(&mut self, repayment_time: i64)
        ensures
            *final(self) == (FundLoan {
                loan_request: LoanRequestState {
                    repayment_time: Some(repayment_time),
                    ..old(self).loan_request
                },
                ..*old(self)
            }),
    {
        self.loan_request.repayment_time = Some(repayment_time);
    }

    /// The payment of `amount` in stable-coin from the lender to the
    /// borrower, signed by the lender.
    fn transfer_usdc_funds(&self, amount: u64) -> (payment: StableTransfer)
        ensures
            payment == (StableTransfer {
                from: Account::Wallet(self.lender),
                to: Account::Wallet(self.loan_request.borrower),
                authority: self.lender,
                amount,
            }),
    {
        StableTransfer {
            from: Account::Wallet(self.lender),
            to: Account::Wallet(self.loan_request.borrower),
            authority: self.lender,
            amount,
        }
    }
}

/// A loan is funded once: whoever tries to fund a loan that a funding has
/// gone through on, at whatever time and in whatever stable-coin, is refused
/// with `AlreadyFunded`.
pub proof fn lemma_funding_happens_once(
    loan: LoanRequestState,
    lender: Identity,
    now: i64,
    accepted_mint: Identity,
    offered_mint: Identity,
    later: i64,
)
    ensures
        funding_refusal(funded(loan, lender, now), accepted_mint, offered_mint, later) == Some(
            ErrorCode::AlreadyFunded,
        ),
        funded(loan, lender, now).wf(),
{
}

/// A loan that has a lender is never funded again, and a refused funding
/// leaves the lender and the deadline as they were.
pub proof fn lemma_funded_loan_refuses_funding(
    loan: LoanRequestState,
    accepted_mint: Identity,
    offered_mint: Identity,
    now: i64,
)
    requires
        loan.lender is Some,
    ensures
        funding_refusal(loan, accepted_mint, offered_mint, now) == Some(ErrorCode::AlreadyFunded),
{
}

} // verus!
