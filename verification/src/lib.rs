//! Ledger logic of a collateralised peer-to-peer lending protocol.
//!
//! Borrowers post over-collateralised loan requests, lenders fund them, and
//! the protocol settles each loan by repayment, default claim, liquidation or
//! cancellation, taking a fee from every settlement. The crate decides and
//! computes; moving assets is left to the caller, who receives each transfer
//! to perform as a plain value.
use vstd::prelude::*;

pub mod constants;
pub mod contexts;
pub mod errors;
pub mod helpers;
pub mod identity;
pub mod oracle;
pub mod state;
pub mod transfers;

pub use contexts::cancel_loan_request::CancelLoanRequest;
pub use contexts::claim_collateral::{ClaimCollateral, ClaimSettlement};
pub use contexts::create_loan_registry::CreateLoanRegistry;
pub use contexts::create_loan_request::CreateLoanRequest;
pub use contexts::fund_loan::FundLoan;
pub use contexts::init_config::InitConfig;
pub use contexts::liquidate_loan::{LiquidateLoan, LiquidationSettlement};
pub use contexts::repay_loan::{RepayLoan, RepaySettlement};
pub use contexts::update_config::UpdateConfig;
pub use errors::ErrorCode;
pub use identity::{Identity, LoanKey};
pub use state::collateral_vault::CollateralVaultState;
pub use state::config::ConfigState;
pub use state::loan_registry::LoanRegistryState;
pub use state::loan_registry_page::LoanRegistryPageState;
pub use state::loan_request::LoanRequestState;
pub use transfers::{Account, NativeTransfer, StableTransfer};
