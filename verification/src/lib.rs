//! A single-asset token ledger: account balances and token metadata kept in a
//! key-value store, with transfer and burn as the only balance mutations.

pub mod contract;
pub mod error;
pub mod msg;
pub mod state;
pub mod supply;
pub mod theorems;
