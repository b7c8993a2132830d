//! The failures of the bridge.

use vstd::prelude::*;

verus! {

/// Why a value could not cross the boundary.
#[derive(Clone, Copy, Debug, PartialEq, Eq, Structural)]
pub enum BridgeError {
    /// The codec could not represent a value as bytes.
    Encode,
    /// The bytes are not a valid encoding of the expected type.
    Decode,
}

impl BridgeError {
    /// A short description of the failure.
    pub fn message(&self) -> (text: &'static str)
        ensures
            text@ == match *self {
                BridgeError::Encode => "value could not be encoded"@,
                BridgeError::Decode => "bytes are not a valid encoding"@,
            },
    {
        match self {
            BridgeError::Encode => "value could not be encoded",
            BridgeError::Decode => "bytes are not a valid encoding",
        }
    }
}

} // verus!
