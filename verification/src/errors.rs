//! Error taxonomy of the wrapping ledger.
//!
//! Every error aborts the whole operation: the contracts of the operations
//! state that no field of any account changes when an error is returned.

use vstd::prelude::*;

verus! {

/// Protocol errors: a request was refused by the ledger's own validation.
#[derive(Clone, Copy, Debug, PartialEq, Eq, Structural)]
pub enum DacError {
    /// Wrap or unwrap invoked before the configuration was initialized.
    NotInitialized,
    /// Initialize given a derivative mint whose authority is not the derived
    /// mint authority.
    InvalidMintAuthority,
    /// An account's asset identity does not match the configured one.
    MintMismatch,
    /// The amount parameter is zero.
    ZeroAmount,
    /// The tracked total would exceed the 64-bit range.
    Overflow,
    /// The tracked total would fall below zero.
    Underflow,
}

/// Collaborator errors: a precondition of the underlying token ledger fails.
/// They propagate unchanged and abort the call.
#[derive(Clone, Copy, Debug, PartialEq, Eq, Structural)]
pub enum LedgerError {
    /// Source and destination hold different assets, or the account does not
    /// hold the asset of the mint being changed.
    AssetMismatch,
    /// The acting authority is not the one entitled to move the funds.
    AuthorityMismatch,
    /// The source balance, or the supply being retired, is too small.
    InsufficientFunds,
    /// A balance or a supply would exceed the 64-bit range.
    BalanceOverflow,
}

/// Everything an operation can report.
#[derive(Clone, Copy, Debug, PartialEq, Eq, Structural)]
pub enum OpError {
    /// Refused by the ledger's own validation.
    Dac(DacError),
    /// A collaborator call would fail; surfaced verbatim.
    Ledger(LedgerError),
    /// No valid signer address exists for a seed; a fatal setup error.
    DerivationFailed,
}

} // verus!
