//! A personal expense ledger: an ordered list of dated, categorised amounts
//! with row-numbered deletion and totals by category, by day and by month.

pub mod command;
pub mod date;
pub mod error;
pub mod expense;
pub mod laws;
pub mod query;
pub mod totals;
pub mod tracker;
