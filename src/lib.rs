//! Escrow-based payment requests.
//!
//! A payee registers a request, a payer funds a deterministically addressed
//! escrow account, and the payee sweeps the escrow exactly once. The private
//! variant hides the requested amount behind a commitment with a range proof
//! and binds the claim to a one-time stealth address.

pub mod digest;
pub mod address;
pub mod ledger;
pub mod store;
pub mod plain;
pub mod proofs;
pub mod private;
