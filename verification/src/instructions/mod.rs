//! The five operations the ledger exposes, each an atomic transition from
//! the current records plus caller-supplied parameters to either a new
//! consistent state or a rejection with no partial effect on any ledger
//! field.

pub mod borrow_token;
pub mod create_user_account;
pub mod deposit_collateral;
pub mod fund_loan_vault;
pub mod initialize_lending_market;

pub use borrow_token::{borrow_token, BorrowToken};
pub use create_user_account::{create_user_account, CreateUserAccount};
pub use deposit_collateral::{deposit_collateral, DepositCollateral};
pub use fund_loan_vault::{fund_loan_vault, FundLoanVault};
pub use initialize_lending_market::{initialize_lending_market, InitializeLendingMarket, MarketAccounts};
