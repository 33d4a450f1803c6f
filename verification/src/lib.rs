//! A collateralized lending ledger: a principal deposits one asset as
//! collateral and may borrow a second asset up to a fixed collateralization
//! ratio, drawing against a pool funded by a market administrator.
//!
//! The crate verifies the lending state machine: overflow-safe accounting,
//! solvency enforcement, custodial-balance authorization, and the
//! cross-entity invariant that market totals always reconcile with the sum
//! of the user positions bound to the market.

pub mod errors;
pub mod instructions;
pub mod ledger;
pub mod states;
pub mod token;
