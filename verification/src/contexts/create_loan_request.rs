use vstd::prelude::*;
use crate::constants::{COLLATERAL_RATIO_PERCENT, UNIT_SCALE};
use crate::errors::ErrorCode;
use crate::identity::{Identity, LoanKey};
use crate::state::collateral_vault::CollateralVaultState;
use crate::state::loan_registry::LoanRegistryState;
use crate::state::loan_request::LoanRequestState;
use crate::state::page_chain::{holds, reference_count, well_paged};
use crate::transfers::{Account, NativeTransfer};

verus! {

/// What the creation of a loan request works on: the borrower who asks, the
/// records to fill for the new loan and its vault, and the registry.
pub struct CreateLoanRequest {
    /// The caller.
    pub borrower: Identity,
    /// Written by a successful creation.
    pub loan_request: LoanRequestState,
    /// Written by a successful creation.
    pub collateral_vault: CollateralVaultState,
    pub loan_registry: LoanRegistryState,
}

/// Whether the collateral required for `loan_amount` at `sol_price` can be
/// computed: both products fit in 64 bits and the price is not zero.
pub open spec fn collateral_computable(loan_amount: int, sol_price: int) -> bool {
    &&& loan_amount * COLLATERAL_RATIO_PERCENT * UNIT_SCALE <= u64::MAX
    &&& 100 * sol_price <= u64::MAX
    &&& sol_price > 0
}

/// The least collateral, in smallest units, accepted for a principal of
/// `loan_amount` when one whole unit of collateral is worth `sol_price`:
/// 150% of the principal's worth, rounded down.
pub open spec fn required_collateral(loan_amount: int, sol_price: int) -> int {
    (loan_amount * COLLATERAL_RATIO_PERCENT * UNIT_SCALE) / (100 * sol_price)
}

/// Why `collateral` is not accepted for a principal of `loan_amount` at
/// `sol_price`, if so: the required amount cannot be computed, or the
/// collateral is below it.
pub open spec fn collateral_refusal(loan_amount: u64, collateral: u64, sol_price: u64) -> Option<
    ErrorCode,
> {
    if !collateral_computable(loan_amount as int, sol_price as int) {
        Some(ErrorCode::CalculationError)
    } else if collateral < required_collateral(loan_amount as int, sol_price as int) {
        Some(ErrorCode::InsufficientCollateral)
    } else {
        None
    }
}

/// Why a creation is refused, if it is: the first of the checks that fails.
pub open spec fn creation_refusal(
    loan_amount: u64,
    collateral: u64,
    sol_price: u64,
    total_loans: u64,
) -> Option<ErrorCode> {
    if collateral_refusal(loan_amount, collateral, sol_price) is Some {
        collateral_refusal(loan_amount, collateral, sol_price)
    } else if total_loans == u64::MAX {
        Some(ErrorCode::CalculationError)
    } else {
        None
    }
}

impl CreateLoanRequest {
    /// The key under which a loan numbered `loan_id` of this borrower is
    /// known.
    pub open spec fn new_key(&self, loan_id: u64) -> LoanKey {
        LoanKey { borrower: self.borrower, loan_id }
    }

    /// Opens a loan request of the calling borrower and lists it in the
    /// registry.
    ///
    /// On success the loan record is written, unfunded; the vault is opened
    /// with the collateral as its balance; the loan is the registry's newest
    /// reference; and the answer is the deposit that the caller has to carry
    /// out, from the borrower into the vault. On refusal nothing changes.
    pub fn create_loan_request(
        &mut self,
        loan_id: u64,
        loan_amount: u64,
        collateral: u64,
        duration_days: u64,
        sol_price: u64,
    ) -> (r: Result<NativeTransfer, ErrorCode>)
        requires
            old(self).loan_registry.wf(),
            !holds(old(self).loan_registry@, old(self).new_key(loan_id)),
        ensures
            final(self).loan_registry.wf(),
            well_paged(final(self).loan_registry@),
            final(self).loan_registry.spec_total_loans() == reference_count(
                final(self).loan_registry@,
            ),
            r is Ok ==> collateral >= required_collateral(loan_amount as int, sol_price as int),
            match creation_refusal(
                loan_amount,
                collateral,
                sol_price,
                old(self).loan_registry.spec_total_loans(),
            ) {
                Some(refusal) => r == Err::<NativeTransfer, ErrorCode>(refusal) && *final(self)
                    == *old(self),
                None => {
                    &&& r == Ok::<NativeTransfer, ErrorCode>(
                        (NativeTransfer {
                            from: Account::Wallet(old(self).borrower),
                            to: Account::CollateralVault(old(self).new_key(loan_id)),
                            amount: collateral,
                        }),
                    )
                    &&& final(self).borrower == old(self).borrower
                    &&& final(self).loan_request == (LoanRequestState {
                        loan_id,
                        borrower: old(self).borrower,
                        lender: None,
                        loan_amount,
                        collateral,
                        duration_days,
                        repayment_time: None,
                    })
                    &&& final(self).collateral_vault == (CollateralVaultState {
                        balance: collateral,
                    })
                    &&& LoanRegistryState::enlists(
                        old(self).loan_registry,
                        final(self).loan_registry,
                        old(self).new_key(loan_id),
                    )
                },
            },
    {
        proof {
            self.loan_registry.lemma_wf();
        }
        let required = Self::calculate_required_collateral(loan_amount, sol_price)?;
        Self::verify_collateral(collateral, required)?;
        let key = LoanKey { borrower: self.borrower, loan_id };
        self.update_loan_registry(key)?;
        self.initialize_loan_request(loan_id, loan_amount, collateral, duration_days);
        self.initialize_collateral_vault(collateral);
        Ok(self.transfer_collateral_to_vault(collateral))
    }

    /// Opens a loan request as `create_loan_request` does, for any key: a
    /// loan that the registry lists already under the same key is not opened
    /// a second time. The collateral is judged first, so collateral short of
    /// the required amount is refused whatever the key.
    ///
    /// The answer is `Ok(None)`, and nothing changes, where the collateral
    /// is accepted and the key is listed already; else it is that of
    /// `create_loan_request`.
    pub fn try_create_loan_request(
        &mut self,
        loan_id: u64,
        loan_amount: u64,
        collateral: u64,
        duration_days: u64,
        sol_price: u64,
    ) -> (r: Result<Option<NativeTransfer>, ErrorCode>)
        requires
            old(self).loan_registry.wf(),
        ensures
            final(self).loan_registry.wf(),
            well_paged(final(self).loan_registry@),
            final(self).loan_registry.spec_total_loans() == reference_count(
                final(self).loan_registry@,
            ),
            r is Ok ==> collateral >= required_collateral(loan_amount as int, sol_price as int),
            match collateral_refusal(loan_amount, collateral, sol_price) {
                Some(refusal) => r == Err::<Option<NativeTransfer>, ErrorCode>(refusal)
                    && *final(self) == *old(self),
                None => if holds(old(self).loan_registry@, old(self).new_key(loan_id)) {
                    r == Ok::<Option<NativeTransfer>, ErrorCode>(None) && *final(self) == *old(
                        self,
                    )
                } else if old(self).loan_registry.spec_total_loans() == u64::MAX {
                    r == Err::<Option<NativeTransfer>, ErrorCode>(ErrorCode::CalculationError)
                        && *final(self) == *old(self)
                } else {
                    &&& r == Ok::<Option<NativeTransfer>, ErrorCode>(
                        Some(
                            (NativeTransfer {
                                from: Account::Wallet(old(self).borrower),
                                to: Account::CollateralVault(old(self).new_key(loan_id)),
                                amount: collateral,
                            }),
                        ),
                    )
                    &&& final(self).borrower == old(self).borrower
                    &&& final(self).loan_request == (LoanRequestState {
                        loan_id,
                        borrower: old(self).borrower,
                        lender: None,
                        loan_amount,
                        collateral,
                        duration_days,
                        repayment_time: None,
                    })
                    &&& final(self).collateral_vault == (CollateralVaultState {
                        balance: collateral,
                    })
                    &&& LoanRegistryState::enlists(
                        old(self).loan_registry,
                        final(self).loan_registry,
                        old(self).new_key(loan_id),
                    )
                },
            },
    {
        proof {
            self.loan_registry.lemma_wf();
        }
        let required = Self::calculate_required_collateral(loan_amount, sol_price)?;
        Self::verify_collateral(collateral, required)?;
        if self.loan_registry.contains(LoanKey { borrower: self.borrower, loan_id }) {
            return Ok(None);
        }
        let deposit = self.create_loan_request(
            loan_id,
            loan_amount,
            collateral,
            duration_days,
            sol_price,
        )?;
        Ok(Some(deposit))
    }

    /// `loan_amount * 150 * UNIT_SCALE / (100 * sol_price)`, rounded down.
    /// Fails with `CalculationError` exactly when a product leaves 64 bits
    /// or the price is zero.
    pub fn calculate_required_collateral(loan_amount: u64, sol_price: u64) -> (r: Result<
        u64,
        ErrorCode,
    >)
        ensures
            collateral_computable(loan_amount as int, sol_price as int) ==> r == Ok::<
                u64,
                ErrorCode,
            >(required_collateral(loan_amount as int, sol_price as int) as u64),
            !collateral_computable(loan_amount as int, sol_price as int) ==> r == Err::<
                u64,
                ErrorCode,
            >(ErrorCode::CalculationError),
            r is Ok ==> r->Ok_0 == required_collateral(loan_amount as int, sol_price as int),
    {
        assert(loan_amount * COLLATERAL_RATIO_PERCENT * UNIT_SCALE <= u64::MAX ==> loan_amount
            * COLLATERAL_RATIO_PERCENT <= u64::MAX) by (nonlinear_arith);
        let scaled: u64 = match loan_amount.checked_mul(COLLATERAL_RATIO_PERCENT) {
            Some(scaled) => scaled,
            None => {
                return Err(ErrorCode::CalculationError);
            },
        };
        let numerator: u64 = match scaled.checked_mul(UNIT_SCALE) {
            Some(numerator) => numerator,
            None => {
                return Err(ErrorCode::CalculationError);
            },
        };
        let denominator: u64 = match 100u64.checked_mul(sol_price) {
            Some(denominator) => denominator,
            None => {
                return Err(ErrorCode::CalculationError);
            },
        };
        match numerator.checked_div(denominator) {
            Some(required) => Ok(required),
            None => Err(ErrorCode::CalculationError),
        }
    }

    /// The collateral offered must reach the collateral required.
    pub fn verify_collateral(provided: u64, required: u64) -> (r: Result<(), ErrorCode>)
        ensures
            provided >= required ==> r == Ok::<(), ErrorCode>(()),
            provided < required ==> r == Err::<(), ErrorCode>(ErrorCode::InsufficientCollateral),
    {
        if provided >= required {
            Ok(())
        } else {
            Err(ErrorCode::InsufficientCollateral)
        }
    }

    /// Writes the record of the new, unfunded loan.
    fn initialize_loan_request(
        &mut self,
        loan_id: u64,
        loan_amount: u64,
        collateral: u64,
        duration_days: u64,
    )
        ensures
            final(self).loan_request == (LoanRequestState {
                loan_id,
                borrower: old(self).borrower,
                lender: None,
                loan_amount,
                collateral,
                duration_days,
                repayment_time: None,
            }),
            final(self).borrower == old(self).borrower,
            final(self).collateral_vault == old(self).collateral_vault,
            final(self).loan_registry == old(self).loan_registry,
    {
        self.loan_request = LoanRequestState {
            loan_id,
            loan_amount,
            collateral,
            duration_days,
            borrower: self.borrower,
            lender: None,
            repayment_time: None,
        };
    }

    /// Opens the vault with the deposit as its balance.
    fn initialize_collateral_vault(&mut self, collateral: u64)
        ensures
            final(self).collateral_vault == (CollateralVaultState { balance: collateral }),
            final(self).borrower == old(self).borrower,
            final(self).loan_request == old(self).loan_request,
            final(self).loan_registry == old(self).loan_registry,
    {
        self.collateral_vault = CollateralVaultState { balance: collateral };
    }

    /// The deposit of the collateral, from the borrower into the loan's
    /// vault.
    fn transfer_collateral_to_vault(&self, collateral: u64) -> (deposit: NativeTransfer)
        ensures
            deposit == (NativeTransfer {
                from: Account::Wallet(self.borrower),
                to: Account::CollateralVault(self.loan_request.spec_key()),
                amount: collateral,
            }),
    {
        NativeTransfer {
            from: Account::Wallet(self.borrower),
            to: Account::CollateralVault(self.loan_request.key()),
            amount: collateral,
        }
    }

    /// Lists the new loan in the registry and counts it.
    fn update_loan_registry(&mut self, key: LoanKey) -> (r: Result<(), ErrorCode>)
        requires
            old(self).loan_registry.wf(),
            !holds(old(self).loan_registry@, key),
        ensures
            final(self).loan_registry.wf(),
            well_paged(final(self).loan_registry@),
            final(self).loan_registry.spec_total_loans() == reference_count(
                final(self).loan_registry@,
            ),
            final(self).borrower == old(self).borrower,
            final(self).loan_request == old(self).loan_request,
            final(self).collateral_vault == old(self).collateral_vault,
            old(self).loan_registry.spec_total_loans() < u64::MAX ==> r == Ok::<(), ErrorCode>(
                (),
            ) && LoanRegistryState::enlists(
                old(self).loan_registry,
                final(self).loan_registry,
                key,
            ),
            old(self).loan_registry.spec_total_loans() == u64::MAX ==> r == Err::<(), ErrorCode>(
                ErrorCode::CalculationError,
            ) && *final(self) == *old(self),
    {
        self.loan_registry.insert(key)
    }
}

/// A loan is created only with collateral worth at least 150% of its
/// principal, up to the rounding of the required amount: the collateral and
/// one smallest unit more are worth more than that.
pub proof fn lemma_creation_is_collateralized(loan_amount: u64, collateral: u64, sol_price: u64)
    requires
        collateral_refusal(loan_amount, collateral, sol_price) is None,
    ensures
        (collateral + 1) * sol_price * 100 > loan_amount * COLLATERAL_RATIO_PERCENT * UNIT_SCALE,
{
    let n = loan_amount * COLLATERAL_RATIO_PERCENT * UNIT_SCALE;
    let d = 100 * sol_price;
    assert(n < (n / d + 1) * d) by (nonlinear_arith)
        requires
            d > 0,
            n >= 0,
    ;
    assert((collateral + 1) * d >= (n / d + 1) * d) by (nonlinear_arith)
        requires
            collateral >= n / d,
            d > 0,
    ;
    assert((collateral + 1) * sol_price * 100 == (collateral + 1) * d) by (nonlinear_arith)
        requires
            d == 100 * sol_price,
    ;
}

/// A loan is created only with collateral worth at least 150% of its
/// principal: `collateral * sol_price >= 1.5 * loan_amount * UNIT_SCALE`.
/// This leaves out the one case in which the required amount was rounded
/// down and the collateral is exactly that amount.
pub proof fn lemma_creation_meets_ratio(loan_amount: u64, collateral: u64, sol_price: u64)
    requires
        collateral_refusal(loan_amount, collateral, sol_price) is None,
        !(collateral == required_collateral(loan_amount as int, sol_price as int) && (loan_amount
            * COLLATERAL_RATIO_PERCENT * UNIT_SCALE) % (100 * sol_price) != 0),
    ensures
        collateral * sol_price * 100 >= loan_amount * COLLATERAL_RATIO_PERCENT * UNIT_SCALE,
{
    let n = loan_amount * COLLATERAL_RATIO_PERCENT * UNIT_SCALE;
    let d = 100 * sol_price;
    let q = n / d;
    assert(n == q * d + n % d && 0 <= n % d < d) by (nonlinear_arith)
        requires
            d > 0,
            q == n / d,
    ;
    if collateral == q {
        assert(n == collateral * d);
    } else {
        assert(collateral * d >= (q + 1) * d) by (nonlinear_arith)
            requires
                collateral >= q + 1,
                d > 0,
        ;
        assert((q + 1) * d == q * d + d) by (nonlinear_arith);
    }
    assert(collateral * sol_price * 100 == collateral * d) by (nonlinear_arith)
        requires
            d == 100 * sol_price,
    ;
}

/// Collateral below the required amount is refused as insufficient,
/// wherever the required amount can be computed.
pub proof fn lemma_short_collateral_is_refused(
    loan_amount: u64,
    collateral: u64,
    sol_price: u64,
    total_loans: u64,
)
    requires
        collateral_computable(loan_amount as int, sol_price as int),
        collateral < required_collateral(loan_amount as int, sol_price as int),
    ensures
        collateral_refusal(loan_amount, collateral, sol_price) == Some(
            ErrorCode::InsufficientCollateral,
        ),
        creation_refusal(loan_amount, collateral, sol_price, total_loans) == Some(
            ErrorCode::InsufficientCollateral,
        ),
{
}

} // verus!
