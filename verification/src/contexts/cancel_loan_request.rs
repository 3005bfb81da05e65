use vstd::prelude::*;
use crate::errors::ErrorCode;
use crate::helpers::check_right_borrower;
use crate::identity::Identity;
use crate::state::collateral_vault::CollateralVaultState;
use crate::state::loan_registry::LoanRegistryState;
use crate::state::loan_request::LoanRequestState;
use crate::state::page_chain::{holds, reference_count, well_paged};
use crate::transfers::{Account, NativeTransfer};

verus! {

/// What a cancellation works on: the borrower who withdraws, the loan with
/// its vault, and the registry.
pub struct CancelLoanRequest {
    /// The caller.
    pub borrower: Identity,
    pub loan_request: LoanRequestState,
    pub collateral_vault: CollateralVaultState,
    pub loan_registry: LoanRegistryState,
}

impl CancelLoanRequest {
    /// Why the cancellation is refused, if it is: the first of the checks
    /// that fails.
    pub open spec fn refusal(&self) -> Option<ErrorCode> {
        if self.borrower != self.loan_request.borrower {
            Some(ErrorCode::NotRightBorrower)
        } else if self.loan_request.lender is Some {
            Some(ErrorCode::AlreadyFunded)
        } else if !holds(self.loan_registry@, self.loan_request.spec_key()) {
            Some(ErrorCode::NotFoundInRegistry)
        } else {
            None
        }
    }

    /// The return of all the vault holds to the borrower.
    pub open spec fn refund(&self) -> NativeTransfer {
        NativeTransfer {
            from: Account::CollateralVault(self.loan_request.spec_key()),
            to: Account::Wallet(self.borrower),
            amount: self.collateral_vault.balance,
        }
    }

    /// Withdraws a loan request that no lender has funded.
    ///
    /// On success the loan leaves the registry, the vault is left with
    /// nothing, and the answer is the transfer that the caller has to carry
    /// out: all the vault held, back to the borrower. With it the loan and
    /// its vault cease to exist. On refusal nothing changes: the loan, its
    /// vault and the registry stay as they were.
    pub fn cancel_loan_request(&mut self) -> (r: Result<NativeTransfer, ErrorCode>)
        requires
            old(self).loan_registry.wf(),
        ensures
            final(self).loan_registry.wf(),
            well_paged(final(self).loan_registry@),
            final(self).loan_registry.spec_total_loans() == reference_count(
                final(self).loan_registry@,
            ),
            match old(self).refusal() {
                Some(refusal) => r == Err::<NativeTransfer, ErrorCode>(refusal) && *final(self)
                    == *old(self),
                None => {
                    &&& r == Ok::<NativeTransfer, ErrorCode>(old(self).refund())
                    &&& final(self).borrower == old(self).borrower
                    &&& final(self).loan_request == old(self).loan_request
                    &&& final(self).collateral_vault.balance == 0
                    &&& LoanRegistryState::delists(
                        old(self).loan_registry,
                        final(self).loan_registry,
                        old(self).loan_request.spec_key(),
                    )
                },
            },
    {
        proof {
            self.loan_registry.lemma_wf();
        }
        check_right_borrower(self.borrower, self.loan_request.borrower)?;
        self.check_loan_funded()?;
        let refund = NativeTransfer {
            from: Account::CollateralVault(self.loan_request.key()),
            to: Account::Wallet(self.borrower),
            amount: self.collateral_vault.balance,
        };
        self.remove_from_loan_registry()?;
        self.collateral_vault.balance = 0;
        Ok(refund)
    }

    /// A loan that has a lender can no longer be withdrawn.
    fn check_loan_funded(&self) -> (r: Result<(), ErrorCode>)
        ensures
            self.loan_request.lender is None ==> r == Ok::<(), ErrorCode>(()),
            self.loan_request.lender is Some ==> r == Err::<(), ErrorCode>(
                ErrorCode::AlreadyFunded,
            ),
    {
        if self.loan_request.lender.is_some() {
            return Err(ErrorCode::AlreadyFunded);
        }
        Ok(())
    }

    /// Takes the loan out of the registry.
    fn remove_from_loan_registry(&mut self) -> (r: Result<(), ErrorCode>)
        requires
            old(self).loan_registry.wf(),
        ensures
            final(self).loan_registry.wf(),
            well_paged(final(self).loan_registry@),
            final(self).loan_registry.spec_total_loans() == reference_count(
                final(self).loan_registry@,
            ),
            final(self).borrower == old(self).borrower,
            final(self).loan_request == old(self).loan_request,
            final(self).collateral_vault == old(self).collateral_vault,
            holds(old(self).loan_registry@, old(self).loan_request.spec_key()) ==> r == Ok::<
                (),
                ErrorCode,
            >(()) && LoanRegistryState::delists(
                old(self).loan_registry,
                final(self).loan_registry,
                old(self).loan_request.spec_key(),
            ),
            !holds(old(self).loan_registry@, old(self).loan_request.spec_key()) ==> r == Err::<
                (),
                ErrorCode,
            >(ErrorCode::NotFoundInRegistry) && *final(self) == *old(self),
    {
        let key = self.loan_request.key();
        self.loan_registry.remove(key)
    }
}

/// A loan that has a lender cannot be withdrawn: the cancellation by its
/// borrower is refused with `AlreadyFunded`, which leaves the loan, its
/// vault and the registry as they were.
pub proof fn lemma_funded_loan_cannot_be_cancelled(context: &CancelLoanRequest)
    requires
        context.borrower == context.loan_request.borrower,
        context.loan_request.lender is Some,
    ensures
        context.refusal() == Some(ErrorCode::AlreadyFunded),
{
}

} // verus!
