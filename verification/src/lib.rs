//! A verified token-ownership ledger with a built-in marketplace primitive.
//!
//! The ledger tracks unique tokens, their current owner, an optional listing
//! price, and escrowed sale proceeds. Every state change is guarded by
//! authorization rules, and every operation is atomic: on failure the state
//! is left exactly as it was.
use vstd::prelude::*;

pub mod account;
pub mod errors;
pub mod escrow;
pub mod laws;
pub mod ledger;
pub mod quota;

verus! {

/// Fee attached to a paid mint.
pub const MINT_FEE: u128 = 1_000_000_000_000_000_000_000_000;

/// Number of quota-gated mints granted to a single public key.
pub const GUEST_MINT_LIMIT: u8 = 3;

} // verus!
