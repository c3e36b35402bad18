//! A value-custody ledger entry: each custody account stores a cumulative
//! deposit counter in an 8-byte little-endian data region, alongside the
//! native balance it actually holds. Deposits lazily allocate the account and
//! credit it; withdrawals pay out a fixed fraction of the counter, clamped to
//! the balance actually present.

pub mod account;
pub mod codec;
mod errors;
pub mod instruction;
pub mod laws;
pub mod processor;

pub use errors::LedgerError;
pub use instruction::TransferInstruction;
