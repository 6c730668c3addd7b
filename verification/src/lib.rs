//! A payments ledger: an ordered stream of deposits, withdrawals, disputes,
//! resolutions and chargebacks is folded into per-client account balances.
//!
//! Every executable function in this crate is verified against a mathematical
//! model of the ledger: [`rules`] holds the model, [`laws`] what is proved of it.

pub mod account;
pub mod amount;
pub mod app;
pub mod keyword;
pub mod laws;
pub mod ledger;
pub mod rules;
pub mod transaction;
