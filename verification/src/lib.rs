//! A ledger of client accounts driven by a stream of transaction records.
//!
//! Amounts are whole numbers of ten-thousandths of a currency unit, so every
//! balance is exact to four decimal places and no rounding error can build up.

pub mod account;
pub mod amount;
pub mod laws;
pub mod ledger;
pub mod model;
pub mod transaction;
