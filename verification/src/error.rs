//! The failures a delegation can end in.

use vstd::prelude::*;

verus! {

/// Why an operation was refused. Every failure aborts the whole operation;
/// none is turned into a degraded success.
#[derive(Clone, Copy, Debug, PartialEq, Eq, Structural)]
pub enum DelegateError {
    /// The payer did not sign the transaction.
    MissingSignature,
    /// Fewer accounts were supplied than the operation has roles.
    NotEnoughAccounts,
    /// The seed list or the fixed record is malformed, or the operation
    /// discriminant is unknown.
    InvalidPayload,
    /// No bump gives an address off the curve.
    DerivationExhausted,
    /// A lifecycle operation was attempted without ownership of the account
    /// or a signer capability over it.
    AuthorizationFailure,
    /// The delegation authority returned this error; it is carried as is.
    ExternalInvocationFailure(u64),
    /// The payer cannot cover a rent-exempt minimum.
    InsufficientFunds,
}

} // verus!
