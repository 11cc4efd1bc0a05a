//! Delegation of a program-derived account to an external delegation
//! authority.
//!
//! A program that owns an account at an address derived from seeds hands the
//! account over: the data is backed up in a buffer, the account is closed
//! and recreated under the delegation authority, the authority is invoked,
//! and the buffer is closed. Either all of it happens or none.
//!
//! The accounts belong to a host. The crate works on plain records of them,
//! and names every change it makes, so that the holder of the accounts can
//! make the same changes.
//!
//! - [`codec`]: the instruction payload, decoded and encoded.
//! - [`address`]: the derivation of program addresses, which the host does.
//! - [`signer`]: the capability to sign for a derived address.
//! - [`account`]: accounts, and how one is created and closed.
//! - [`ledger`]: the account list of a delegation.
//! - [`effect`]: the changes a delegation makes, one by one.
//! - [`delegate`]: the delegation, from its checks to the closing of the
//!   buffer.
//! - [`entrypoint`] and [`instructions`]: the operation an instruction
//!   selects.
//! - [`laws`]: what holds of every delegation.
//! - [`bytes`] and [`error`]: byte strings, and the failures.

pub mod account;
pub mod address;
pub mod bytes;
pub mod codec;
pub mod delegate;
pub mod effect;
pub mod entrypoint;
pub mod error;
pub mod instructions;
pub mod laws;
pub mod ledger;
pub mod signer;
