//! Error kinds returned by the ledger's operations.
//!
//! Every error is fail-fast: an operation that returns an error leaves the
//! ledger state exactly as it found it.
use vstd::prelude::*;

verus! {

/// The reason an operation was refused.
#[derive(Clone, Copy, Debug, PartialEq, Eq, Structural)]
pub enum Error {
    /// The ledger has not been initialized yet.
    Uninitialized,
    /// The ledger was already initialized.
    AlreadyInitialized,
    /// An identity string failed the platform's format validation.
    InvalidIdentity,
    /// The caller is not authorized for the addressed account or token.
    Unauthorized,
    /// The referenced token does not exist.
    NotFound,
    /// The token is not listed for sale.
    NotForSale,
    /// The attached amount does not match the required amount.
    PriceMismatch,
    /// The public key has exhausted its quota of free mints.
    QuotaExceeded,
    /// The addressed escrow balance is zero.
    NothingToWithdraw,
    /// A freshly assigned token id is already in use.
    Collision,
}

} // verus!
