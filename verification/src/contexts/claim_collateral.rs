use vstd::prelude::*;
use crate::constants::CLAIM_FEE_DIVISOR;
use crate::errors::ErrorCode;
use crate::helpers::check_deadline_is_expired;
use crate::identity::Identity;
use crate::state::collateral_vault::CollateralVaultState;
use crate::state::loan_registry::LoanRegistryState;
use crate::state::loan_request::LoanRequestState;
use crate::state::page_chain::{holds, reference_count, well_paged};
use crate::transfers::{Account, NativeTransfer};

verus! {

/// What a default claim works on: the lender who claims, the loan with its
/// vault, and the registry.
pub struct ClaimCollateral {
    /// The caller.
    pub lender: Identity,
    pub loan_request: LoanRequestState,
    pub collateral_vault: CollateralVaultState,
    pub loan_registry: LoanRegistryState,
}

/// The transfers that settle a defaulted loan. With them the loan and its
/// vault cease to exist.
#[derive(Clone, Copy, Debug, PartialEq, Eq, Structural)]
pub struct ClaimSettlement {
    /// The lender's share, from the vault to the lender.
    pub lender_payment: NativeTransfer,
    /// The protocol's fee, from the vault to the protocol vault.
    pub fee_payment: NativeTransfer,
}

/// The protocol's part of a claimed collateral: a tenth, rounded down.
pub open spec fn claim_fee(total: int) -> int {
    total / (CLAIM_FEE_DIVISOR as int)
}

/// The lender's part of a claimed collateral: all but the fee.
pub open spec fn claim_lender_share(total: int) -> int {
    total - claim_fee(total)
}

impl ClaimCollateral {
    /// Why the caller may not claim at `now`, if so: the caller is not the
    /// loan's lender, the loan has no deadline, or the deadline has not
    /// passed.
    pub open spec fn default_refusal(&self, now: i64) -> Option<ErrorCode> {
        let loan = self.loan_request;
        if loan.lender != Some(self.lender) {
            Some(ErrorCode::UnauthorizedLender)
        } else if loan.repayment_time is None {
            Some(ErrorCode::NotFunded)
        } else if now <= loan.repayment_time->Some_0 {
            Some(ErrorCode::LoanIsNotExpired)
        } else {
            None
        }
    }

    /// Why the claim at `now` is refused, if it is: the first of the checks
    /// that fails.
    pub open spec fn refusal(&self, now: i64) -> Option<ErrorCode> {
        if self.default_refusal(now) is Some {
            self.default_refusal(now)
        } else if self.collateral_vault.balance == 0 {
            Some(ErrorCode::NoCollateral)
        } else if !holds(self.loan_registry@, self.loan_request.spec_key()) {
            Some(ErrorCode::NotFoundInRegistry)
        } else {
            None
        }
    }

    /// The transfers that split `total` between the lender and the protocol.
    pub open spec fn split(&self, total: u64) -> ClaimSettlement {
        ClaimSettlement {
            lender_payment: NativeTransfer {
                from: Account::CollateralVault(self.loan_request.spec_key()),
                to: Account::Wallet(self.lender),
                amount: claim_lender_share(total as int) as u64,
            },
            fee_payment: NativeTransfer {
                from: Account::CollateralVault(self.loan_request.spec_key()),
                to: Account::ProtocolVault,
                amount: claim_fee(total as int) as u64,
            },
        }
    }

    /// Claims the collateral of a loan whose deadline has passed, at the
    /// instant `now`.
    ///
    /// On success the loan leaves the registry, the vault is left with
    /// nothing, and the answer holds the transfers that the caller has to
    /// carry out: a tenth of the vault's balance to the protocol, the rest
    /// to the lender. On refusal nothing changes.
    pub fn claim_collateral(&mut self, now: i64) -> (r: Result<ClaimSettlement, ErrorCode>)
        requires
            old(self).loan_registry.wf(),
        ensures
            final(self).loan_registry.wf(),
            well_paged(final(self).loan_registry@),
            final(self).loan_registry.spec_total_loans() == reference_count(
                final(self).loan_registry@,
            ),
            match old(self).refusal(now) {
                Some(refusal) => r == Err::<ClaimSettlement, ErrorCode>(refusal) && *final(self)
                    == *old(self),
                None => {
                    &&& r == Ok::<ClaimSettlement, ErrorCode>(
                        old(self).split(old(self).collateral_vault.balance),
                    )
                    &&& r->Ok_0.lender_payment.amount + r->Ok_0.fee_payment.amount == old(
                        self,
                    ).collateral_vault.balance
                    &&& final(self).lender == old(self).lender
                    &&& final(self).loan_request == old(self).loan_request
                    &&& final(self).collateral_vault.balance == 0
                    &&& LoanRegistryState::delists(
                        old(self).loan_registry,
                        final(self).loan_registry,
                        old(self).loan_request.spec_key(),
                    )
                },
            },
    {
        proof {
            self.loan_registry.lemma_wf();
        }
        self.ensure_loan_defaulted(now)?;
        let collateral_amount = self.get_collateral()?;
        let settlement = self.transfer_collateral(collateral_amount)?;
        self.remove_from_loan_registry()?;
        self.collateral_vault.balance = 0;
        Ok(settlement)
    }

    /// The caller must be the loan's lender, and the loan's deadline must
    /// lie strictly before `now`.
    pub fn ensure_loan_defaulted(&self, now: i64) -> (r: Result<(), ErrorCode>)
        ensures
            match self.default_refusal(now) {
                Some(refusal) => r == Err::<(), ErrorCode>(refusal),
                None => r == Ok::<(), ErrorCode>(()),
            },
    {
        match self.loan_request.lender {
            Some(funded_lender) => {
                if funded_lender != self.lender {
                    return Err(ErrorCode::UnauthorizedLender);
                }
            },
            None => {
                return Err(ErrorCode::UnauthorizedLender);
            },
        }
        match self.loan_request.repayment_time {
            Some(repayment_time) => check_deadline_is_expired(now, repayment_time),
            None => Err(ErrorCode::NotFunded),
        }
    }

    /// All the vault holds; an empty vault is refused with `NoCollateral`.
    pub fn get_collateral(&self) -> (r: Result<u64, ErrorCode>)
        ensures
            self.collateral_vault.balance > 0 ==> r == Ok::<u64, ErrorCode>(
                self.collateral_vault.balance,
            ),
            self.collateral_vault.balance == 0 ==> r == Err::<u64, ErrorCode>(
                ErrorCode::NoCollateral,
            ),
    {
        let vault_balance: u64 = self.collateral_vault.balance;
        if vault_balance > 0 {
            Ok(vault_balance)
        } else {
            Err(ErrorCode::NoCollateral)
        }
    }

    /// Splits `total_amount` of collateral: a tenth, rounded down, goes to
    /// the protocol and the rest to the lender, both out of the loan's
    /// vault. The two parts make up the whole, so this always succeeds.
    pub fn transfer_collateral(&self, total_amount: u64) -> (r: Result<
        ClaimSettlement,
        ErrorCode,
    >)
        ensures
            r == Ok::<ClaimSettlement, ErrorCode>(self.split(total_amount)),
            r->Ok_0.fee_payment.amount == claim_fee(total_amount as int),
            r->Ok_0.lender_payment.amount == claim_lender_share(total_amount as int),
            r->Ok_0.lender_payment.amount + r->Ok_0.fee_payment.amount == total_amount,
    {
        let fee: u64 = total_amount / CLAIM_FEE_DIVISOR;
        let lender_amount: u64 = total_amount - fee;
        let vault = Account::CollateralVault(self.loan_request.key());
        Ok(
            ClaimSettlement {
                lender_payment: NativeTransfer {
                    from: vault,
                    to: Account::Wallet(self.lender),
                    amount: lender_amount,
                },
                fee_payment: NativeTransfer {
                    from: vault,
                    to: Account::ProtocolVault,
                    amount: fee,
                },
            },
        )
    }

    /// Takes the loan out of the registry.
    fn remove_from_loan_registry(&mut self) -> (r: Result<(), ErrorCode>)
        requires
            old(self).loan_registry.wf(),
        ensures
            final(self).loan_registry.wf(),
            well_paged(final(self).loan_registry@),
            final(self).loan_registry.spec_total_loans() == reference_count(
                final(self).loan_registry@,
            ),
            final(self).lender == old(self).lender,
            final(self).loan_request == old(self).loan_request,
            final(self).collateral_vault == old(self).collateral_vault,
            holds(old(self).loan_registry@, old(self).loan_request.spec_key()) ==> r == Ok::<
                (),
                ErrorCode,
            >(()) && LoanRegistryState::delists(
                old(self).loan_registry,
                final(self).loan_registry,
                old(self).loan_request.spec_key(),
            ),
            !holds(old(self).loan_registry@, old(self).loan_request.spec_key()) ==> r == Err::<
                (),
                ErrorCode,
            >(ErrorCode::NotFoundInRegistry) && *final(self) == *old(self),
    {
        let key = self.loan_request.key();
        self.loan_registry.remove(key)
    }
}

} // verus!
