use vstd::prelude::*;

verus! {

/// Smallest units of the collateral asset in one whole unit of it.
pub const UNIT_SCALE: u64 = 1_000_000_000;

/// Seconds in one day of loan duration.
pub const SECONDS_PER_DAY: u64 = 86_400;

/// Loan-request references that one registry page can hold.
pub const PAGE_CAPACITY: usize = 10;

/// Collateral value required at creation, in percent of the principal.
pub const COLLATERAL_RATIO_PERCENT: u64 = 150;

/// Collateral value below which a loan may be liquidated, in percent of the
/// principal.
pub const LIQUIDATION_THRESHOLD_PERCENT: u64 = 110;

/// What the lender receives on repayment, in percent of the principal.
pub const REPAYMENT_LENDER_PERCENT: u64 = 104;

/// What the protocol receives on repayment, in percent of the principal.
pub const REPAYMENT_FEE_PERCENT: u64 = 1;

/// The protocol takes one part in this many of a claimed collateral.
pub const CLAIM_FEE_DIVISOR: u64 = 10;

/// The protocol takes this many parts of a liquidated collateral ...
pub const LIQUIDATION_FEE_NUMERATOR: u64 = 2;

/// ... out of this many.
pub const LIQUIDATION_FEE_DENOMINATOR: u64 = 110;

} // verus!
