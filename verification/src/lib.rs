//! A two-party escrow protocol for swapping fungible assets.
//!
//! An initializer locks a deposit in a vault account and hands the vault's
//! custody authority to a keyless, deterministically derived address; a taker
//! completes the swap by supplying the demanded counter-asset, or the
//! initializer cancels and recovers the deposit. Each operation is atomic:
//! it either performs all of its custody changes or leaves the ledger
//! untouched.

pub mod account;
pub mod authority;
pub mod errors;
pub mod escrow;
pub mod laws;
pub mod ledger;
pub mod record;
