//! A fund-accounting ledger for a street-animal donation registry.
//!
//! Donors contribute earmarked funds toward named animal campaigns, and each
//! campaign's beneficiary may request reimbursement from the accumulated
//! balance, subject to administrator approval before disbursement. The ledger
//! keeps every balance non-negative, every payment properly approved, and the
//! books in balance: for each animal, settled payments plus the current
//! balance always equal the total donated.
//!
//! The host environment is out of scope: callers authenticate principals,
//! supply timestamps, and move real value. This crate holds the bookkeeping
//! and authorization rules, each operation specified and proved as a state
//! transition on [`contract::StreetAnimalsContract`].

pub mod contract;
pub mod records;
pub mod totals;
