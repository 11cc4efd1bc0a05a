//! The operations of the program and the discriminant that selects one.

use vstd::prelude::*;
use crate::error::DelegateError;

verus! {

/// The operations this program offers, selected by the first byte of the
/// instruction data.
#[derive(Clone, Copy, Debug, PartialEq, Eq, Structural)]
pub enum DelegateProgram {
    /// Hand a derived account over to the delegation authority.
    Delegate,
}

/// The operation a discriminant byte selects: `0` selects `Delegate`, every
/// other byte is refused as an invalid payload.
pub open spec fn operation_of(discriminant: u8) -> Result<DelegateProgram, DelegateError> {
    if discriminant == 0 {
        Ok(DelegateProgram::Delegate)
    } else {
        Err(DelegateError::InvalidPayload)
    }
}

impl TryFrom<&u8> for DelegateProgram {
    type Error = DelegateError;

    fn try_from(value: &u8) -> (r: Result<Self, Self::Error>)
        ensures
            r == operation_of(*value),
    {
        match *value {
            0 => Ok(DelegateProgram::Delegate),
            _ => Err(DelegateError::InvalidPayload),
        }
    }
}

impl vstd::std_specs::convert::TryFromSpecImpl<&u8> for DelegateProgram {
    open spec fn obeys_try_from_spec() -> bool {
        true
    }

    open spec fn try_from_spec(value: &u8) -> Result<Self, Self::Error> {
        operation_of(*value)
    }
}

} // verus!
