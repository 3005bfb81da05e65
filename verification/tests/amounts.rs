use kinlend_protocol::contexts::create_loan_request::CreateLoanRequest;
use kinlend_protocol::contexts::liquidate_loan::LiquidateLoan;
use kinlend_protocol::helpers::{
    calculate_repayment_time, check_balance, check_deadline_is_expired,
    check_deadline_is_not_expired, check_right_borrower, check_usdc_mint_address,
};
use kinlend_protocol::oracle::{get_price, PriceQuote};
use kinlend_protocol::{
    Account, ClaimCollateral, CollateralVaultState, ConfigState, ErrorCode, Identity, LoanKey,
    LoanRegistryState, LoanRequestState, RepayLoan,
};

fn party(n: u128) -> Identity {
    Identity { hi: 0, lo: n }
}

fn funded_loan(loan_amount: u64) -> LoanRequestState {
    LoanRequestState {
        loan_id: 1,
        borrower: party(1),
        lender: Some(party(2)),
        loan_amount,
        collateral: 500,
        duration_days: 30,
        repayment_time: Some(1_000),
    }
}

fn repay_context(loan_amount: u64, balance: u64) -> RepayLoan {
    let loan = funded_loan(loan_amount);
    let mut registry = LoanRegistryState::new();
    registry.insert(loan.key()).unwrap();
    RepayLoan {
        borrower: party(1),
        borrower_usdc_balance: balance,
        loan_request: loan,
        collateral_vault: CollateralVaultState { balance: 500 },
        config: ConfigState { usdc_mint: party(9), authority: party(8) },
        loan_registry: registry,
        usdc_mint: party(9),
    }
}

#[test]
fn required_collateral_is_150_percent_at_the_price() {
    // 1 stable-coin at 20 stable-coins per whole unit: 0.075 units.
    assert_eq!(
        CreateLoanRequest::calculate_required_collateral(1_000_000, 20_000_000),
        Ok(75_000_000)
    );
    // Rounded down: 150e9 / 700 = 214285714.28...
    assert_eq!(CreateLoanRequest::calculate_required_collateral(1, 7), Ok(214_285_714));
    assert_eq!(CreateLoanRequest::calculate_required_collateral(0, 1), Ok(0));
}

#[test]
fn required_collateral_refuses_what_it_cannot_compute() {
    assert_eq!(
        CreateLoanRequest::calculate_required_collateral(1, 0),
        Err(ErrorCode::CalculationError)
    );
    assert_eq!(
        CreateLoanRequest::calculate_required_collateral(u64::MAX, 1),
        Err(ErrorCode::CalculationError)
    );
    // The last principal whose numerator fits in 64 bits.
    assert_eq!(
        CreateLoanRequest::calculate_required_collateral(122978293, 1),
        Ok(184467439500000000)
    );
    assert_eq!(
        CreateLoanRequest::calculate_required_collateral(122978294, 1),
        Err(ErrorCode::CalculationError)
    );
    assert_eq!(
        CreateLoanRequest::calculate_required_collateral(1, u64::MAX / 100 + 1),
        Err(ErrorCode::CalculationError)
    );
    assert_eq!(CreateLoanRequest::calculate_required_collateral(1, u64::MAX / 100), Ok(0));
}

#[test]
fn verify_collateral_compares_with_the_required_amount() {
    assert_eq!(CreateLoanRequest::verify_collateral(75, 75), Ok(()));
    assert_eq!(CreateLoanRequest::verify_collateral(76, 75), Ok(()));
    assert_eq!(
        CreateLoanRequest::verify_collateral(74, 75),
        Err(ErrorCode::InsufficientCollateral)
    );
}

#[test]
fn repayment_amounts_of_one_million() {
    let context = repay_context(1_000_000, 0);
    assert_eq!(context.calculate_repayment_amounts(), Ok((1_040_000, 10_000, 1_050_000)));
}

#[test]
fn repayment_amounts_round_down() {
    assert_eq!(repay_context(99, 0).calculate_repayment_amounts(), Ok((102, 0, 102)));
    assert_eq!(repay_context(0, 0).calculate_repayment_amounts(), Ok((0, 0, 0)));
    assert_eq!(repay_context(150, 0).calculate_repayment_amounts(), Ok((156, 1, 157)));
}

#[test]
fn repayment_amounts_refuse_an_overflow() {
    let limit = u64::MAX / 104;
    assert_eq!(
        repay_context(limit, 0).calculate_repayment_amounts(),
        Ok((limit * 104 / 100, limit / 100, limit * 104 / 100 + limit / 100))
    );
    assert_eq!(
        repay_context(limit + 1, 0).calculate_repayment_amounts(),
        Err(ErrorCode::CalculationError)
    );
}

#[test]
fn repay_with_one_unit_too_little_is_refused() {
    let mut context = repay_context(1_000_000, 1_049_999);
    assert_eq!(context.repay_loan(999), Err(ErrorCode::InsufficientBalance));
    assert_eq!(context.loan_registry.total_loans(), 1);
    assert_eq!(context.collateral_vault.balance, 500);

    let mut context = repay_context(1_000_000, 1_050_000);
    let settlement = context.repay_loan(999).unwrap();
    assert_eq!(settlement.lender_payment.amount, 1_040_000);
    assert_eq!(settlement.lender_payment.from, Account::Wallet(party(1)));
    assert_eq!(settlement.lender_payment.to, Account::Wallet(party(2)));
    assert_eq!(settlement.lender_payment.authority, party(1));
    assert_eq!(settlement.fee_payment.amount, 10_000);
    assert_eq!(settlement.fee_payment.to, Account::ProtocolVault);
    assert_eq!(settlement.collateral_release.amount, 500);
    assert_eq!(
        settlement.collateral_release.from,
        Account::CollateralVault(LoanKey { borrower: party(1), loan_id: 1 })
    );
    assert_eq!(settlement.collateral_release.to, Account::Wallet(party(1)));
}

#[test]
fn liquidation_of_110_units_without_reserve() {
    assert_eq!(LiquidateLoan::calculate_distribution(110, 0), Ok((108, 2)));
}

#[test]
fn liquidation_distribution_sets_the_reserve_aside() {
    assert_eq!(LiquidateLoan::calculate_distribution(1_110, 1_000), Ok((108, 2)));
    assert_eq!(LiquidateLoan::calculate_distribution(54, 0), Ok((54, 0)));
    assert_eq!(LiquidateLoan::calculate_distribution(55, 0), Ok((54, 1)));
    // Nothing above the reserve: nothing to share, and no refusal.
    assert_eq!(LiquidateLoan::calculate_distribution(1_000, 1_000), Ok((0, 0)));
    assert_eq!(LiquidateLoan::calculate_distribution(0, 0), Ok((0, 0)));
    assert_eq!(LiquidateLoan::calculate_distribution(1_001, 1_000), Ok((1, 0)));
    // Less than the reserve: the net amount cannot be computed.
    assert_eq!(
        LiquidateLoan::calculate_distribution(999, 1_000),
        Err(ErrorCode::CalculationError)
    );
    assert_eq!(
        LiquidateLoan::calculate_distribution(0, u64::MAX),
        Err(ErrorCode::CalculationError)
    );
    assert_eq!(
        LiquidateLoan::calculate_distribution(u64::MAX, 0),
        Err(ErrorCode::CalculationError)
    );
    assert_eq!(
        LiquidateLoan::calculate_distribution(u64::MAX / 2, 0),
        Ok((u64::MAX / 2 - (u64::MAX - 1) / 110, (u64::MAX - 1) / 110))
    );
}

#[test]
fn claim_of_one_thousand_units() {
    let context = ClaimCollateral {
        lender: party(2),
        loan_request: funded_loan(100),
        collateral_vault: CollateralVaultState { balance: 1_000 },
        loan_registry: LoanRegistryState::new(),
    };
    let settlement = context.transfer_collateral(1_000).unwrap();
    assert_eq!(settlement.fee_payment.amount, 100);
    assert_eq!(settlement.lender_payment.amount, 900);
    assert_eq!(settlement.fee_payment.to, Account::ProtocolVault);
    assert_eq!(settlement.lender_payment.to, Account::Wallet(party(2)));
    let vault = Account::CollateralVault(LoanKey { borrower: party(1), loan_id: 1 });
    assert_eq!(settlement.fee_payment.from, vault);
    assert_eq!(settlement.lender_payment.from, vault);

    let small = context.transfer_collateral(9).unwrap();
    assert_eq!((small.fee_payment.amount, small.lender_payment.amount), (0, 9));
    let whole = context.transfer_collateral(u64::MAX).unwrap();
    assert_eq!(whole.fee_payment.amount, u64::MAX / 10);
    assert_eq!(whole.lender_payment.amount, u64::MAX - u64::MAX / 10);
}

#[test]
fn repayment_time_is_now_plus_the_days() {
    assert_eq!(calculate_repayment_time(1_700_000_000, 30), Ok(1_702_592_000));
    assert_eq!(calculate_repayment_time(0, 0), Ok(0));
    assert_eq!(calculate_repayment_time(-86_400, 1), Ok(0));
    assert_eq!(calculate_repayment_time(i64::MAX, 0), Ok(i64::MAX));
}

#[test]
fn repayment_time_never_wraps() {
    assert_eq!(calculate_repayment_time(i64::MAX, 1), Err(ErrorCode::Overflow));
    assert_eq!(calculate_repayment_time(0, u64::MAX), Err(ErrorCode::Overflow));
    // The seconds fit in 64 bits unsigned, but not in a signed clock.
    assert_eq!(calculate_repayment_time(0, 106_751_991_167_301), Err(ErrorCode::Overflow));
    assert_eq!(
        calculate_repayment_time(0, 106_751_991_167_300),
        Ok(106_751_991_167_300 * 86_400)
    );
    assert_eq!(
        calculate_repayment_time(i64::MIN, 213_503_982_334_601),
        Ok(9223372036854750592)
    );
}

#[test]
fn deadline_checks_are_strict() {
    assert_eq!(check_deadline_is_expired(11, 10), Ok(()));
    assert_eq!(check_deadline_is_expired(10, 10), Err(ErrorCode::LoanIsNotExpired));
    assert_eq!(check_deadline_is_expired(9, 10), Err(ErrorCode::LoanIsNotExpired));
    assert_eq!(check_deadline_is_not_expired(9, 10), Ok(()));
    assert_eq!(check_deadline_is_not_expired(10, 10), Err(ErrorCode::LoanExpired));
    assert_eq!(check_deadline_is_not_expired(11, 10), Err(ErrorCode::LoanExpired));
}

#[test]
fn identity_checks() {
    assert_eq!(check_right_borrower(party(1), party(1)), Ok(()));
    assert_eq!(check_right_borrower(party(1), party(2)), Err(ErrorCode::NotRightBorrower));
    assert_eq!(
        check_right_borrower(Identity { hi: 1, lo: 5 }, Identity { hi: 2, lo: 5 }),
        Err(ErrorCode::NotRightBorrower)
    );
    assert_eq!(check_usdc_mint_address(party(9), party(9)), Ok(()));
    assert_eq!(
        check_usdc_mint_address(party(9), party(7)),
        Err(ErrorCode::IncorrectMintAddress)
    );
}

#[test]
fn balance_check() {
    assert_eq!(check_balance(10, 10), Ok(()));
    assert_eq!(check_balance(11, 10), Ok(()));
    assert_eq!(check_balance(9, 10), Err(ErrorCode::InsufficientBalance));
}

#[test]
fn price_must_be_there_and_fresh() {
    let quote = PriceQuote { price: 20_000_000, publish_time: 1_000 };
    assert_eq!(get_price(Some(quote), 1_000, 0), Ok(20_000_000));
    assert_eq!(get_price(Some(quote), 1_060, 60), Ok(20_000_000));
    assert_eq!(get_price(Some(quote), 940, 60), Ok(20_000_000));
    assert_eq!(get_price(Some(quote), 1_061, 60), Err(ErrorCode::StaleOrMissingPrice));
    assert_eq!(get_price(Some(quote), 939, 60), Err(ErrorCode::StaleOrMissingPrice));
    assert_eq!(get_price(None, 1_000, u64::MAX), Err(ErrorCode::StaleOrMissingPrice));
    let old = PriceQuote { price: 1, publish_time: i64::MIN };
    assert_eq!(get_price(Some(old), i64::MAX, u64::MAX), Ok(1));
    assert_eq!(get_price(Some(old), i64::MAX, u64::MAX - 1), Err(ErrorCode::StaleOrMissingPrice));
}
