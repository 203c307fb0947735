//! An on-ledger oracle record: a chain of commitments, each revealed by a
//! secret that links it to the one before, and a bounded registry of callbacks.

pub mod authority;
pub mod bytes;
pub mod error;
pub mod hash_link;
pub mod instruction;
pub mod processor;
pub mod state;
