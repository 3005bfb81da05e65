pub mod collateral_vault;
pub mod config;
pub mod loan_registry;
pub mod loan_registry_page;
pub mod loan_request;
pub mod page_chain;
