//! The error taxonomy. `CryptoLiftError` is what the operation handlers
//! themselves decide; `LedgerError` adds the failures of account resolution
//! that the record store reports before a handler runs.

use vstd::prelude::*;

verus! {

/// A failure decided by an operation handler. Every kind is terminal: the
/// whole operation aborts with no partial effect.
#[derive(Clone, Copy, PartialEq, Eq, Structural, Debug)]
pub enum CryptoLiftError {
    /// The payer's balance is below the fee the platform currently charges.
    InsufficientFee,
    /// The caller is not the recorded platform authority.
    Unauthorized,
    /// A withdrawal asked for more than the fee collector holds.
    InsufficientFunds,
    /// A token name or symbol is longer than the bounded persisted layout
    /// stores.
    MetadataTooLong,
}

/// How an operation fails at the record store.
#[derive(Clone, Copy, PartialEq, Eq, Structural, Debug)]
pub enum LedgerError {
    /// `initialize` ran while the platform singleton already exists.
    AlreadyInitialized,
    /// An operation other than `initialize` ran before the singleton was
    /// created, so the platform record does not resolve.
    NotInitialized,
    /// The collector account supplied to `create_token` is not the one the
    /// platform records; the cross-check is by reference equality, not by
    /// trusting the caller's input.
    CollectorMismatch,
    /// The singleton resolved and the operation handler itself refused.
    Program(CryptoLiftError),
}

} // verus!
