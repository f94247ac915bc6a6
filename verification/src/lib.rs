//! Transaction-execution core of a wallet ledger: typed operations, their
//! validation and execution rules, the account store they act on, and the
//! reversal of recorded transfers.

pub mod error;
pub mod execution;
pub mod keys;
pub mod laws;
pub mod ledger;
pub mod operations;
pub mod reversal;
pub mod wallet;
