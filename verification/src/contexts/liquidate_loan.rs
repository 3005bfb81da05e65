use vstd::prelude::*;
use crate::constants::{
    LIQUIDATION_FEE_DENOMINATOR, LIQUIDATION_FEE_NUMERATOR, LIQUIDATION_THRESHOLD_PERCENT,
    UNIT_SCALE,
};
use crate::errors::ErrorCode;
use crate::identity::Identity;
use crate::state::collateral_vault::CollateralVaultState;
use crate::state::loan_registry::LoanRegistryState;
use crate::state::loan_request::LoanRequestState;
use crate::state::page_chain::{holds, reference_count, well_paged};
use crate::transfers::{Account, NativeTransfer};

verus! {

/// What a liquidation works on: the lender who asks for it, the loan with
/// its vault, the registry, and the balance that the vault has to keep for
/// as long as it exists.
pub struct LiquidateLoan {
    /// The caller.
    pub lender: Identity,
    pub loan_request: LoanRequestState,
    pub collateral_vault: CollateralVaultState,
    pub loan_registry: LoanRegistryState,
    /// The least balance that the vault has to keep while it is open; zero
    /// where its storage asks for none.
    pub rent_reserve: u64,
}

/// The transfers that settle a liquidated loan. With them the loan and its
/// vault cease to exist.
#[derive(Clone, Copy, Debug, PartialEq, Eq, Structural)]
pub struct LiquidationSettlement {
    /// The protocol's fee, from the vault to the protocol vault.
    pub fee_payment: NativeTransfer,
    /// All the vault holds beyond the fee, the reserve included, from the
    /// vault to the lender.
    pub lender_payment: NativeTransfer,
}

/// Whether collateral of `balance` smallest units, at `sol_price` for a
/// whole unit, is worth less than 110% of `loan_amount`.
pub open spec fn liquidatable(balance: int, sol_price: int, loan_amount: int) -> bool {
    balance * sol_price * 100 < loan_amount * LIQUIDATION_THRESHOLD_PERCENT * UNIT_SCALE
}

/// The protocol's part of `net` liquidated collateral: two parts in 110,
/// rounded down.
pub open spec fn liquidation_fee(net: int) -> int {
    net * LIQUIDATION_FEE_NUMERATOR / (LIQUIDATION_FEE_DENOMINATOR as int)
}

/// Why `total_collateral` cannot be distributed over a reserve of
/// `rent_reserve`, if so: the reserve is more than the whole, or twice what
/// lies above it leaves 64 bits.
pub open spec fn distribution_refusal(total_collateral: u64, rent_reserve: u64) -> Option<
    ErrorCode,
> {
    if total_collateral < rent_reserve || (total_collateral - rent_reserve)
        * LIQUIDATION_FEE_NUMERATOR > u64::MAX {
        Some(ErrorCode::CalculationError)
    } else {
        None
    }
}

impl LiquidateLoan {
    /// Why the liquidation at a price of `sol_price` is refused, if it is:
    /// the first of the checks that fails.
    pub open spec fn refusal(&self, sol_price: u64) -> Option<ErrorCode> {
        let loan = self.loan_request;
        if loan.lender != Some(self.lender) {
            Some(ErrorCode::NotRightLender)
        } else if !liquidatable(
            self.collateral_vault.balance as int,
            sol_price as int,
            loan.loan_amount as int,
        ) {
            Some(ErrorCode::CannotLiquidateYet)
        } else if distribution_refusal(self.collateral_vault.balance, self.rent_reserve)
            is Some {
            distribution_refusal(self.collateral_vault.balance, self.rent_reserve)
        } else if !holds(self.loan_registry@, loan.spec_key()) {
            Some(ErrorCode::NotFoundInRegistry)
        } else {
            None
        }
    }

    /// The transfers of a liquidation that is not refused.
    pub open spec fn settlement(&self) -> LiquidationSettlement {
        let fee = liquidation_fee(self.collateral_vault.balance - self.rent_reserve);
        LiquidationSettlement {
            fee_payment: NativeTransfer {
                from: Account::CollateralVault(self.loan_request.spec_key()),
                to: Account::ProtocolVault,
                amount: fee as u64,
            },
            lender_payment: NativeTransfer {
                from: Account::CollateralVault(self.loan_request.spec_key()),
                to: Account::Wallet(self.lender),
                amount: (self.collateral_vault.balance - fee) as u64,
            },
        }
    }

    /// Liquidates a loan whose collateral, at `sol_price` for one whole
    /// unit, is worth less than 110% of the principal.
    ///
    /// On success the loan leaves the registry, the vault is left with
    /// nothing, and the answer holds the transfers that the caller has to
    /// carry out: two parts in 110 of the collateral above the reserve to
    /// the protocol, and all the rest of the vault to the lender. On refusal
    /// nothing changes.
    pub fn liquidate_loan(&mut self, sol_price: u64) -> (r: Result<
        LiquidationSettlement,
        ErrorCode,
    >)
        requires
            old(self).loan_registry.wf(),
        ensures
            final(self).loan_registry.wf(),
            well_paged(final(self).loan_registry@),
            final(self).loan_registry.spec_total_loans() == reference_count(
                final(self).loan_registry@,
            ),
            match old(self).refusal(sol_price) {
                Some(refusal) => r == Err::<LiquidationSettlement, ErrorCode>(refusal) && *final(self) == *old(self),
                None => {
                    &&& r == Ok::<LiquidationSettlement, ErrorCode>(old(self).settlement())
                    &&& r->Ok_0.lender_payment.amount + r->Ok_0.fee_payment.amount == old(
                        self,
                    ).collateral_vault.balance
                    &&& final(self).lender == old(self).lender
                    &&& final(self).loan_request == old(self).loan_request
                    &&& final(self).rent_reserve == old(self).rent_reserve
                    &&& final(self).collateral_vault.balance == 0
                    &&& LoanRegistryState::delists(
                        old(self).loan_registry,
                        final(self).loan_registry,
                        old(self).loan_request.spec_key(),
                    )
                },
            },
    {
        proof {
            self.loan_registry.lemma_wf();
        }
        self.check_lender()?;
        self.ensure_liquidate_eligible(sol_price)?;
        let (_lender_net, protocol_fee) = Self::calculate_distribution(
            self.collateral_vault.balance,
            self.rent_reserve,
        )?;
        let settlement = self.transfer_fee(protocol_fee);
        self.remove_from_loan_registry()?;
        self.collateral_vault.balance = 0;
        Ok(settlement)
    }

    /// Only the loan's lender may liquidate it.
    fn check_lender(&self) -> (r: Result<(), ErrorCode>)
        ensures
            self.loan_request.lender == Some(self.lender) ==> r == Ok::<(), ErrorCode>(()),
            self.loan_request.lender != Some(self.lender) ==> r == Err::<(), ErrorCode>(
                ErrorCode::NotRightLender,
            ),
    {
        match self.loan_request.lender {
            Some(funded_lender) => {
                if funded_lender == self.lender {
                    Ok(())
                } else {
                    Err(ErrorCode::NotRightLender)
                }
            },
            None => Err(ErrorCode::NotRightLender),
        }
    }

    /// The vault's balance, at `sol_price` for one whole unit, must be
    /// worth less than 110% of the principal. The comparison is exact: no
    /// product is rounded and none wraps.
    pub fn ensure_liquidate_eligible(&self, sol_price: u64) -> (r: Result<(), ErrorCode>)
        ensures
            liquidatable(
                self.collateral_vault.balance as int,
                sol_price as int,
                self.loan_request.loan_amount as int,
            ) ==> r == Ok::<(), ErrorCode>(()),
            !liquidatable(
                self.collateral_vault.balance as int,
                sol_price as int,
                self.loan_request.loan_amount as int,
            ) ==> r == Err::<(), ErrorCode>(ErrorCode::CannotLiquidateYet),
    {
        let balance: u64 = self.collateral_vault.balance;
        let loan_amount: u64 = self.loan_request.loan_amount;
        assert(balance * sol_price <= u64::MAX * u64::MAX) by (nonlinear_arith)
            requires
                0 <= balance <= u64::MAX,
                0 <= sol_price <= u64::MAX,
        ;
        assert(loan_amount * LIQUIDATION_THRESHOLD_PERCENT * UNIT_SCALE <= u64::MAX * 110
            * 1_000_000_000) by (nonlinear_arith)
            requires
                0 <= loan_amount <= u64::MAX,
                LIQUIDATION_THRESHOLD_PERCENT == 110,
                UNIT_SCALE == 1_000_000_000,
        ;
        let worth: u128 = (balance as u128) * (sol_price as u128);
        let threshold: u128 = (loan_amount as u128) * (LIQUIDATION_THRESHOLD_PERCENT as u128) * (
        UNIT_SCALE as u128);
        let eligible: bool = match worth.checked_mul(100) {
            Some(scaled_worth) => scaled_worth < threshold,
            None => false,
        };
        if eligible {
            Ok(())
        } else {
            Err(ErrorCode::CannotLiquidateYet)
        }
    }

    /// What the lender and the protocol receive of `total_collateral` above
    /// a reserve of `rent_reserve`: the protocol two parts in 110, rounded
    /// down, the lender the rest; where nothing lies above the reserve,
    /// both receive nothing. Fails with `CalculationError` where the reserve
    /// is more than the whole, or twice the net amount leaves 64 bits.
    pub fn calculate_distribution(total_collateral: u64, rent_reserve: u64) -> (r: Result<
        (u64, u64),
        ErrorCode,
    >)
        ensures
            match distribution_refusal(total_collateral, rent_reserve) {
                Some(refusal) => r == Err::<(u64, u64), ErrorCode>(refusal),
                None => {
                    &&& r is Ok
                    &&& r->Ok_0.1 == liquidation_fee(total_collateral - rent_reserve)
                    &&& r->Ok_0.0 == total_collateral - rent_reserve - liquidation_fee(
                        total_collateral - rent_reserve,
                    )
                    &&& r->Ok_0.0 + r->Ok_0.1 == total_collateral - rent_reserve
                    &&& r->Ok_0.1 <= r->Ok_0.0
                },
            },
    {
        let collateral_net: u64 = match total_collateral.checked_sub(rent_reserve) {
            Some(collateral_net) => collateral_net,
            None => {
                return Err(ErrorCode::CalculationError);
            },
        };
        let protocol_fee: u64 = match collateral_net.checked_mul(LIQUIDATION_FEE_NUMERATOR) {
            Some(doubled) => doubled / LIQUIDATION_FEE_DENOMINATOR,
            None => {
                return Err(ErrorCode::CalculationError);
            },
        };
        let lender_net: u64 = collateral_net - protocol_fee;
        Ok((lender_net, protocol_fee))
    }

    /// The transfers of the settlement: `fee` to the protocol, and what the
    /// vault then still holds to the lender.
    fn transfer_fee(&self, fee: u64) -> (settlement: LiquidationSettlement)
        requires
            fee <= self.collateral_vault.balance,
        ensures
            settlement == (LiquidationSettlement {
                fee_payment: NativeTransfer {
                    from: Account::CollateralVault(self.loan_request.spec_key()),
                    to: Account::ProtocolVault,
                    amount: fee,
                },
                lender_payment: NativeTransfer {
                    from: Account::CollateralVault(self.loan_request.spec_key()),
                    to: Account::Wallet(self.lender),
                    amount: (self.collateral_vault.balance - fee) as u64,
                },
            }),
    {
        let vault = Account::CollateralVault(self.loan_request.key());
        LiquidationSettlement {
            fee_payment: NativeTransfer { from: vault, to: Account::ProtocolVault, amount: fee },
            lender_payment: NativeTransfer {
                from: vault,
                to: Account::Wallet(self.lender),
                amount: self.collateral_vault.balance - fee,
            },
        }
    }

    /// Takes the loan out of the registry.
    fn remove_from_loan_registry(&mut self) -> (r: Result<(), ErrorCode>)
        requires
            old(self).loan_registry.wf(),
        ensures
            final(self).loan_registry.wf(),
            well_paged(final(self).loan_registry@),
            final(self).loan_registry.spec_total_loans() == reference_count(
                final(self).loan_registry@,
            ),
            final(self).lender == old(self).lender,
            final(self).loan_request == old(self).loan_request,
            final(self).collateral_vault == old(self).collateral_vault,
            final(self).rent_reserve == old(self).rent_reserve,
            holds(old(self).loan_registry@, old(self).loan_request.spec_key()) ==> r == Ok::<
                (),
                ErrorCode,
            >(()) && LoanRegistryState::delists(
                old(self).loan_registry,
                final(self).loan_registry,
                old(self).loan_request.spec_key(),
            ),
            !holds(old(self).loan_registry@, old(self).loan_request.spec_key()) ==> r == Err::<
                (),
                ErrorCode,
            >(ErrorCode::NotFoundInRegistry) && *final(self) == *old(self),
    {
        let key = self.loan_request.key();
        self.loan_registry.remove(key)
    }
}

} // verus!
