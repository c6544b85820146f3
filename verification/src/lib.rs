//! A ledger engine for client accounts.
//!
//! Records of five kinds (deposit, withdrawal, dispute, resolve, chargeback) are
//! applied one at a time to the accounts of the clients and to the store of the
//! transactions made so far.
//!
//! - [`cents`]: amounts as integers scaled by 10,000, parsed from and written as
//!   decimal text.
//! - [`client`]: an account and the five operations on it.
//! - [`transaction`]: the records of deposits and withdrawals, and the dispute
//!   lifecycle of a deposit.
//! - [`ledger`]: the accounts and the transaction store as mathematical data, what a
//!   record does to them, and what holds of every record.
//! - [`process`]: the record processor.
//! - [`output`]: the report of the accounts.
//! - [`input`], [`args`], [`error`]: the records read, the command line, and the
//!   errors.

pub mod args;
pub mod cents;
pub mod client;
pub mod error;
pub mod input;
pub mod ledger;
pub mod output;
pub mod process;
pub mod transaction;
