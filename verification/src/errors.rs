//! The error kinds of the escrow protocol. All are terminal: a failed
//! operation leaves the ledger unchanged, and the caller may retry with
//! corrected inputs.

use vstd::prelude::*;

verus! {

/// A failure reported by the asset transfer service, the collaborator that
/// performs custody changes on the host ledger.
#[derive(Clone, Copy, Debug, PartialEq, Eq, Structural)]
pub enum TransferError {
    /// A referenced account does not exist on the ledger.
    AccountNotFound,
    /// The supplied authorizing identity is not the account's custody
    /// authority.
    AuthorityMismatch,
    /// An endpoint of the custody change is frozen.
    AccountFrozen,
    /// The source account holds less than the requested amount.
    InsufficientBalance,
    /// The destination balance would exceed the largest representable
    /// amount.
    BalanceOverflow,
    /// The account still holds a balance and so cannot be closed.
    NonZeroBalance,
}

/// A failure of one of the three escrow operations.
#[derive(Clone, Copy, Debug, PartialEq, Eq, Structural)]
pub enum EscrowError {
    /// Initialize was called on a record that is already initialized.
    AlreadyInitError,
    /// A supplied account reference does not match the record or the
    /// recomputed vault authority.
    InvalidAccountError,
    /// Reserved for amount-mismatch validation; the host-level amount
    /// parameters enforce it in this protocol version.
    InvalidExchangeAmountError,
    /// The operation targets a record that was already destroyed.
    RecordNotFound,
    /// A custody operation failed; the whole operation was discarded.
    Transfer(TransferError),
}

} // verus!
