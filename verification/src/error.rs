//! Error taxonomy shared by every fallible operation of the library.

use vstd::prelude::*;

verus! {

/// Status for TPM command execution.
#[derive(Clone, Copy, Debug, PartialEq, Eq, Structural)]
pub enum TpmError {
    /// Invalid data was received from the device.
    InvalidData,
    /// A read operation from the device failed.
    InvalidRead,
    /// A write operation to the device failed.
    InvalidWrite,
    /// An operation asked for data where none was left.
    Boundary,
}

impl TpmError {
    /// The symbolic name of the error, one fixed string per variant.
    pub open spec fn name_spec(&self) -> Seq<char> {
        match self {
            TpmError::InvalidData => "InvalidData"@,
            TpmError::InvalidRead => "InvalidRead"@,
            TpmError::InvalidWrite => "InvalidWrite"@,
            TpmError::Boundary => "Boundary"@,
        }
    }

    /// Returns the symbolic name of the error for display.
    pub fn name(&self) -> (r: &'static str)
        ensures
            r@ == self.name_spec(),
    {
        match self {
            TpmError::InvalidData => "InvalidData",
            TpmError::InvalidRead => "InvalidRead",
            TpmError::InvalidWrite => "InvalidWrite",
            TpmError::Boundary => "Boundary",
        }
    }
}

} // verus!
