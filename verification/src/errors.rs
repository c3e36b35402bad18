//! The error taxonomy of the ledger. Every error is fatal to the invocation
//! that raised it; nothing is retried or recovered internally.

use vstd::prelude::*;

verus! {

/// Why an invocation failed. Each variant names the step that rejected it.
#[derive(Clone, Copy, Debug, PartialEq, Eq, Structural)]
pub enum LedgerError {
    /// The instruction bytes were malformed or carried an unknown tag.
    DecodeError,
    /// Allocating the custody account failed: the payer could not fund the
    /// rent-exempt minimum, or the address was already in use.
    AllocationError,
    /// Moving held balance failed: the source balance was insufficient, or
    /// the destination balance would not fit.
    TransferError,
    /// The custody account is not owned by this system, so withdrawal is
    /// not permitted.
    OwnershipError,
    /// The computed withdrawal amount was zero.
    InsufficientFunds,
}

} // verus!
