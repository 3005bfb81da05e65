use vstd::prelude::*;
use crate::constants::SECONDS_PER_DAY;
use crate::errors::ErrorCode;
use crate::identity::Identity;

verus! {

/// The deadline of a loan funded at `now` for `duration_days` days, in
/// seconds.
pub open spec fn repayment_deadline(now: int, duration_days: int) -> int {
    now + duration_days * SECONDS_PER_DAY
}

/// A default claim is open only once the deadline lies strictly in the past.
pub fn check_deadline_is_expired(now: i64, repayment_time: i64) -> (r: Result<(), ErrorCode>)
    ensures
        now > repayment_time ==> r == Ok::<(), ErrorCode>(()),
        now <= repayment_time ==> r == Err::<(), ErrorCode>(ErrorCode::LoanIsNotExpired),
{
    if now > repayment_time {
        Ok(())
    } else {
        Err(ErrorCode::LoanIsNotExpired)
    }
}

/// A repayment is open only while the deadline lies strictly ahead.
pub fn check_deadline_is_not_expired(now: i64, repayment_time: i64) -> (r: Result<(), ErrorCode>)
    ensures
        now < repayment_time ==> r == Ok::<(), ErrorCode>(()),
        now >= repayment_time ==> r == Err::<(), ErrorCode>(ErrorCode::LoanExpired),
{
    if now < repayment_time {
        Ok(())
    } else {
        Err(ErrorCode::LoanExpired)
    }
}

/// The deadline of a loan funded at `now`: `now + duration_days * 86400`.
/// Fails with `Overflow` exactly when that instant is past the last one a
/// signed 64-bit clock can show; nothing wraps.
pub fn calculate_repayment_time(now: i64, duration_days: u64) -> (r: Result<i64, ErrorCode>)
    ensures
        repayment_deadline(now as int, duration_days as int) <= i64::MAX ==> r == Ok::<
            i64,
            ErrorCode,
        >(repayment_deadline(now as int, duration_days as int) as i64),
        repayment_deadline(now as int, duration_days as int) > i64::MAX ==> r == Err::<
            i64,
            ErrorCode,
        >(ErrorCode::Overflow),
{
    match duration_days.checked_mul(SECONDS_PER_DAY) {
        None => Err(ErrorCode::Overflow),
        Some(duration_seconds) => match now.checked_add_unsigned(duration_seconds) {
            None => Err(ErrorCode::Overflow),
            Some(deadline) => Ok(deadline),
        },
    }
}

/// Only the borrower of a loan may act on it as its borrower.
pub fn check_right_borrower(borrower: Identity, loan_request_borrower: Identity) -> (r: Result<
    (),
    ErrorCode,
>)
    ensures
        borrower == loan_request_borrower ==> r == Ok::<(), ErrorCode>(()),
        borrower != loan_request_borrower ==> r == Err::<(), ErrorCode>(
            ErrorCode::NotRightBorrower,
        ),
{
    if borrower != loan_request_borrower {
        return Err(ErrorCode::NotRightBorrower);
    }
    Ok(())
}

/// The stable-coin offered must be the one the configuration names.
pub fn check_usdc_mint_address(config_usdc_mint: Identity, usdc_mint: Identity) -> (r: Result<
    (),
    ErrorCode,
>)
    ensures
        config_usdc_mint == usdc_mint ==> r == Ok::<(), ErrorCode>(()),
        config_usdc_mint != usdc_mint ==> r == Err::<(), ErrorCode>(
            ErrorCode::IncorrectMintAddress,
        ),
{
    if config_usdc_mint != usdc_mint {
        return Err(ErrorCode::IncorrectMintAddress);
    }
    Ok(())
}

/// The payer must hold at least the total due.
pub fn check_balance(balance: u64, total_amount: u64) -> (r: Result<(), ErrorCode>)
    ensures
        balance >= total_amount ==> r == Ok::<(), ErrorCode>(()),
        balance < total_amount ==> r == Err::<(), ErrorCode>(ErrorCode::InsufficientBalance),
{
    if balance < total_amount {
        return Err(ErrorCode::InsufficientBalance);
    }
    Ok(())
}

} // verus!
