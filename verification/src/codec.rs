//! Encoding and decoding of values through the codec.

use crate::error::BridgeError;
use serde::de::DeserializeOwned;
use serde::Serialize;
use vstd::prelude::*;

verus! {

/// The codec's error kind, carried through without being read.
#[verifier::external_type_specification]
#[verifier::external_body]
pub struct ExErrorKind(bincode::ErrorKind);

/// Calls `bincode::deserialize` on the bytes. Nothing is claimed of the
/// result: it depends on how `T` reads itself from the codec.
#[verifier::external_body]
fn codec_deserialize<T: DeserializeOwned>(bytes: &[u8]) -> (raw: Result<T, Box<bincode::ErrorKind>>) {
    bincode::deserialize(bytes)
}

/// Calls `bincode::serialize` on the value. Nothing is claimed of the
/// result: it depends on how `T` writes itself to the codec.
#[verifier::external_body]
fn codec_serialize<T: Serialize>(value: &T) -> (raw: Result<Vec<u8>, Box<bincode::ErrorKind>>) {
    bincode::serialize(value)
}

/// What a codec result means to the bridge: the value is kept, every codec
/// error becomes `failure`.
pub open spec fn outcome_of<V>(raw: Result<V, Box<bincode::ErrorKind>>, failure: BridgeError) -> Result<V, BridgeError> {
    match raw {
        Ok(value) => Ok(value),
        Err(_) => Err(failure),
    }
}

/// Maps a codec result to the bridge's own result.
pub fn outcome<V>(raw: Result<V, Box<bincode::ErrorKind>>, failure: BridgeError) -> (result: Result<V, BridgeError>)
    ensures
        result == outcome_of(raw, failure),
{
    match raw {
        Ok(value) => Ok(value),
        Err(_) => Err(failure),
    }
}

/// Decodes a value of `T` from a borrowed buffer. The only failure is
/// `BridgeError::Decode`.
pub fn decode<T: DeserializeOwned>(bytes: &[u8]) -> (result: Result<T, BridgeError>)
    ensures
        result is Err ==> result == Err::<T, BridgeError>(BridgeError::Decode),
{
    outcome(codec_deserialize::<T>(bytes), BridgeError::Decode)
}

/// Encodes a value into a fresh buffer. The only failure is
/// `BridgeError::Encode`.
pub fn encode<T: Serialize>(value: &T) -> (result: Result<Vec<u8>, BridgeError>)
    ensures
        result is Err ==> result == Err::<Vec<u8>, BridgeError>(BridgeError::Encode),
{
    outcome(codec_serialize(value), BridgeError::Encode)
}

} // verus!
