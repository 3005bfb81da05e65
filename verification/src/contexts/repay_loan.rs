use vstd::prelude::*;
use crate::constants::{REPAYMENT_FEE_PERCENT, REPAYMENT_LENDER_PERCENT};
use crate::errors::ErrorCode;
use crate::helpers::{
    check_balance, check_deadline_is_not_expired, check_right_borrower, check_usdc_mint_address,
};
use crate::identity::Identity;
use crate::state::collateral_vault::CollateralVaultState;
use crate::state::config::ConfigState;
use crate::state::loan_registry::LoanRegistryState;
use crate::state::loan_request::LoanRequestState;
use crate::state::page_chain::{holds, reference_count, well_paged};
use crate::transfers::{Account, NativeTransfer, StableTransfer};

verus! {

/// What a repayment works on: the borrower who pays and what the borrower
/// holds in stable-coin, the stable-coin offered, the loan with its vault,
/// the configuration and the registry.
pub struct RepayLoan {
    /// The caller.
    pub borrower: Identity,
    /// What the caller holds in stable-coin, in smallest units.
    pub borrower_usdc_balance: u64,
    pub loan_request: LoanRequestState,
    pub collateral_vault: CollateralVaultState,
    pub config: ConfigState,
    pub loan_registry: LoanRegistryState,
    /// The stable-coin in which the caller repays.
    pub usdc_mint: Identity,
}

/// The transfers that settle a repaid loan. With them the loan and its vault
/// cease to exist.
#[derive(Clone, Copy, Debug, PartialEq, Eq, Structural)]
pub struct RepaySettlement {
    /// Principal and interest, from the borrower to the lender.
    pub lender_payment: StableTransfer,
    /// The protocol's fee, from the borrower to the protocol vault.
    pub fee_payment: StableTransfer,
    /// All the vault holds, back to the borrower.
    pub collateral_release: NativeTransfer,
}

/// Whether the amounts due on `loan_amount` can be computed in 64 bits.
pub open spec fn repayment_computable(loan_amount: int) -> bool {
    loan_amount * REPAYMENT_LENDER_PERCENT <= u64::MAX
}

/// What the lender receives: 104% of the principal, rounded down.
pub open spec fn lender_amount(loan_amount: int) -> int {
    loan_amount * REPAYMENT_LENDER_PERCENT / 100
}

/// What the protocol receives: 1% of the principal, rounded down.
pub open spec fn repayment_fee(loan_amount: int) -> int {
    loan_amount * REPAYMENT_FEE_PERCENT / 100
}

/// What the borrower pays in all.
pub open spec fn total_due(loan_amount: int) -> int {
    lender_amount(loan_amount) + repayment_fee(loan_amount)
}

impl RepayLoan {
    /// Why the repayment at `now` is refused, if it is: the first of the
    /// checks that fails.
    pub open spec fn refusal(&self, now: i64) -> Option<ErrorCode> {
        let loan = self.loan_request;
        if self.borrower != loan.borrower {
            Some(ErrorCode::NotRightBorrower)
        } else if loan.lender is None || loan.repayment_time is None {
            Some(ErrorCode::NotFunded)
        } else if now >= loan.repayment_time->Some_0 {
            Some(ErrorCode::LoanExpired)
        } else if self.config.usdc_mint != self.usdc_mint {
            Some(ErrorCode::IncorrectMintAddress)
        } else if !repayment_computable(loan.loan_amount as int) {
            Some(ErrorCode::CalculationError)
        } else if self.borrower_usdc_balance < total_due(loan.loan_amount as int) {
            Some(ErrorCode::InsufficientBalance)
        } else if !holds(self.loan_registry@, loan.spec_key()) {
            Some(ErrorCode::NotFoundInRegistry)
        } else {
            None
        }
    }

    /// The transfers of a repayment that is not refused.
    pub open spec fn settlement(&self) -> RepaySettlement {
        let loan = self.loan_request;
        RepaySettlement {
            lender_payment: StableTransfer {
                from: Account::Wallet(self.borrower),
                to: Account::Wallet(loan.lender->Some_0),
                authority: self.borrower,
                amount: lender_amount(loan.loan_amount as int) as u64,
            },
            fee_payment: StableTransfer {
                from: Account::Wallet(self.borrower),
                to: Account::ProtocolVault,
                authority: self.borrower,
                amount: repayment_fee(loan.loan_amount as int) as u64,
            },
            collateral_release: NativeTransfer {
                from: Account::CollateralVault(loan.spec_key()),
                to: Account::Wallet(self.borrower),
                amount: self.collateral_vault.balance,
            },
        }
    }

    /// Repays the loan at the instant `now`, before its deadline.
    ///
    /// On success the loan leaves the registry, the vault is left with
    /// nothing, and the answer holds the transfers that the caller has to
    /// carry out: 104% of the principal to the lender, 1% to the protocol,
    /// and all the collateral back to the borrower. On refusal nothing
    /// changes.
    pub fn repay_loan(&mut self, now: i64) -> (r: Result<RepaySettlement, ErrorCode>)
        requires
            old(self).loan_registry.wf(),
        ensures
            final(self).loan_registry.wf(),
            well_paged(final(self).loan_registry@),
            final(self).loan_registry.spec_total_loans() == reference_count(
                final(self).loan_registry@,
            ),
            match old(self).refusal(now) {
                Some(refusal) => r == Err::<RepaySettlement, ErrorCode>(refusal) && *final(self)
                    == *old(self),
                None => {
                    &&& r == Ok::<RepaySettlement, ErrorCode>(old(self).settlement())
                    &&& final(self).borrower == old(self).borrower
                    &&& final(self).borrower_usdc_balance == old(self).borrower_usdc_balance
                    &&& final(self).loan_request == old(self).loan_request
                    &&& final(self).config == old(self).config
                    &&& final(self).usdc_mint == old(self).usdc_mint
                    &&& final(self).collateral_vault.balance == 0
                    &&& LoanRegistryState::delists(
                        old(self).loan_registry,
                        final(self).loan_registry,
                        old(self).loan_request.spec_key(),
                    )
                },
            },
    {
        proof {
            self.loan_registry.lemma_wf();
        }
        check_right_borrower(self.borrower, self.loan_request.borrower)?;
        let lender: Identity = match self.loan_request.lender {
            Some(lender) => lender,
            None => {
                return Err(ErrorCode::NotFunded);
            },
        };
        let repayment_time: i64 = match self.loan_request.repayment_time {
            Some(repayment_time) => repayment_time,
            None => {
                return Err(ErrorCode::NotFunded);
            },
        };
        check_deadline_is_not_expired(now, repayment_time)?;
        check_usdc_mint_address(self.config.usdc_mint, self.usdc_mint)?;
        let (lender_amount, fee, total_amount) = self.calculate_repayment_amounts()?;
        check_balance(self.borrower_usdc_balance, total_amount)?;
        let settlement = self.transfer_tokens(lender, lender_amount, fee);
        self.remove_from_loan_registry()?;
        self.collateral_vault.balance = 0;
        Ok(settlement)
    }

    /// What the lender receives, what the protocol receives, and their sum.
    /// Fails with `CalculationError` exactly when 104 times the principal
    /// leaves 64 bits.
    pub fn calculate_repayment_amounts(&self) -> (r: Result<(u64, u64, u64), ErrorCode>)
        ensures
            repayment_computable(self.loan_request.loan_amount as int) ==> r == Ok::<
                (u64, u64, u64),
                ErrorCode,
            >(
                (
                    lender_amount(self.loan_request.loan_amount as int) as u64,
                    repayment_fee(self.loan_request.loan_amount as int) as u64,
                    total_due(self.loan_request.loan_amount as int) as u64,
                ),
            ),
            !repayment_computable(self.loan_request.loan_amount as int) ==> r == Err::<
                (u64, u64, u64),
                ErrorCode,
            >(ErrorCode::CalculationError),
            r is Ok ==> {
                &&& r->Ok_0.0 == lender_amount(self.loan_request.loan_amount as int)
                &&& r->Ok_0.1 == repayment_fee(self.loan_request.loan_amount as int)
                &&& r->Ok_0.2 == total_due(self.loan_request.loan_amount as int)
            },
    {
        let loan_amount: u64 = self.loan_request.loan_amount;
        let lender_amount: u64 = match loan_amount.checked_mul(REPAYMENT_LENDER_PERCENT) {
            Some(scaled) => scaled / 100,
            None => {
                return Err(ErrorCode::CalculationError);
            },
        };
        let fee: u64 = match loan_amount.checked_mul(REPAYMENT_FEE_PERCENT) {
            Some(scaled) => scaled / 100,
            None => {
                return Err(ErrorCode::CalculationError);
            },
        };
        match lender_amount.checked_add(fee) {
            Some(total_amount) => Ok((lender_amount, fee, total_amount)),
            None => Err(ErrorCode::CalculationError),
        }
    }

    /// The transfers of the settlement: `lender_amount` to `lender` and
    /// `fee` to the protocol, both from the borrower, and the vault's
    /// balance back to the borrower.
    fn transfer_tokens(&self, lender: Identity, lender_amount: u64, fee: u64) -> (settlement:
        RepaySettlement)
        ensures
            settlement == (RepaySettlement {
                lender_payment: StableTransfer {
                    from: Account::Wallet(self.borrower),
                    to: Account::Wallet(lender),
                    authority: self.borrower,
                    amount: lender_amount,
                },
                fee_payment: StableTransfer {
                    from: Account::Wallet(self.borrower),
                    to: Account::ProtocolVault,
                    authority: self.borrower,
                    amount: fee,
                },
                collateral_release: NativeTransfer {
                    from: Account::CollateralVault(self.loan_request.spec_key()),
                    to: Account::Wallet(self.borrower),
                    amount: self.collateral_vault.balance,
                },
            }),
    {
        RepaySettlement {
            lender_payment: StableTransfer {
                from: Account::Wallet(self.borrower),
                to: Account::Wallet(lender),
                authority: self.borrower,
                amount: lender_amount,
            },
            fee_payment: StableTransfer {
                from: Account::Wallet(self.borrower),
                to: Account::ProtocolVault,
                authority: self.borrower,
                amount: fee,
            },
            collateral_release: NativeTransfer {
                from: Account::CollateralVault(self.loan_request.key()),
                to: Account::Wallet(self.borrower),
                amount: self.collateral_vault.balance,
            },
        }
    }

    /// Takes the loan out of the registry.
    fn remove_from_loan_registry(&mut self) -> (r: Result<(), ErrorCode>)
        requires
            old(self).loan_registry.wf(),
        ensures
            final(self).loan_registry.wf(),
            well_paged(final(self).loan_registry@),
            final(self).loan_registry.spec_total_loans() == reference_count(
                final(self).loan_registry@,
            ),
            final(self).borrower == old(self).borrower,
            final(self).borrower_usdc_balance == old(self).borrower_usdc_balance,
            final(self).loan_request == old(self).loan_request,
            final(self).collateral_vault == old(self).collateral_vault,
            final(self).config == old(self).config,
            final(self).usdc_mint == old(self).usdc_mint,
            holds(old(self).loan_registry@, old(self).loan_request.spec_key()) ==> r == Ok::<
                (),
                ErrorCode,
            >(()) && LoanRegistryState::delists(
                old(self).loan_registry,
                final(self).loan_registry,
                old(self).loan_request.spec_key(),
            ),
            !holds(old(self).loan_registry@, old(self).loan_request.spec_key()) ==> r == Err::<
                (),
                ErrorCode,
            >(ErrorCode::NotFoundInRegistry) && *final(self) == *old(self),
    {
        let key = self.loan_request.key();
        self.loan_registry.remove(key)
    }
}

} // verus!
