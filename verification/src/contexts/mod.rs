pub mod create_loan_request;
pub mod fund_loan;
pub mod repay_loan;
pub mod claim_collateral;
pub mod liquidate_loan;
pub mod cancel_loan_request;
pub mod init_config;
pub mod update_config;
pub mod create_loan_registry;
