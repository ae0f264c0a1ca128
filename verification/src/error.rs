//! The failures that a ledger operation can report.

use vstd::prelude::*;

verus! {

/// Why a ledger operation was refused. Every failure leaves the ledger as it
/// was before the operation.
#[derive(Clone, Copy, Debug, PartialEq, Eq, Structural)]
pub enum LedgerError {
    /// The account holds `balance`, which is less than the `required` amount.
    InsufficientFunds { balance: u128, required: u128 },
    /// Crediting the recipient would exceed the largest representable amount.
    Overflow,
    /// The token configuration was read before it was ever written.
    NotInitialized,
    /// The underlying store refused a write.
    StorageFailure,
}

} // verus!
