//! A deposit ledger kept in a CosmWasm key-value store.
//!
//! Every account with a non-zero balance occupies exactly one slot of a
//! gapless index, so the depositors can be listed page by page without ever
//! loading them all. The owner may sweep the pool to a destination that was
//! announced at least seven days in advance.

pub mod audit;
pub mod contract;
pub mod error;
pub mod helpers;
pub mod laws;
pub mod ledger;
pub mod msg;
pub mod state;
pub mod text;
