//! The read-modify-write protocol: merging a modification into the stored
//! value and handing the result to the engine.

use crate::codec::{decode, encode};
use crate::error::BridgeError;
use crate::traits::FasterRmw;
use serde::de::DeserializeOwned;
use serde::Serialize;
use vstd::prelude::*;

verus! {

/// A buffer that the bridge has filled and that is about to pass to the
/// engine, with the length that is reported beside its address.
pub struct TransferBuffer {
    /// The encoded bytes.
    pub bytes: Vec<u8>,
    /// The number of bytes, as the engine counts it.
    pub length: u64,
}

impl TransferBuffer {
    /// The reported length is the number of bytes held.
    pub open spec fn wf(&self) -> bool {
        self.length as int == self.bytes@.len()
    }

    /// Wraps freshly encoded bytes for transfer.
    pub fn new(bytes: Vec<u8>) -> (buffer: Self)
        ensures
            buffer.bytes == bytes,
            buffer.wf(),
    {
        let length: u64 = bytes.len() as u64;
        TransferBuffer { bytes, length }
    }

    /// The length to report to the engine.
    pub fn len(&self) -> (length: u64)
        ensures
            length == self.length,
    {
        self.length
    }

    /// Gives up the bytes to the caller that performs the transfer.
    pub fn into_bytes(self) -> (bytes: Vec<u8>)
        ensures
            bytes == self.bytes,
    {
        self.bytes
    }
}

/// The merge of two decoded values: the value's own rule applied to the
/// stored value and the modification. A failed decode of the stored value
/// comes first, then one of the modification.
pub open spec fn merge_of<T: FasterRmw>(
    current: Result<T, BridgeError>,
    modification: Result<T, BridgeError>,
) -> Result<T, BridgeError> {
    match current {
        Err(failure) => Err(failure),
        Ok(stored) => match modification {
            Err(failure) => Err(failure),
            Ok(change) => Ok(stored.merged(change)),
        },
    }
}

/// Merges the decoded modification into the decoded stored value.
pub fn merge<T: FasterRmw>(
    current: Result<T, BridgeError>,
    modification: Result<T, BridgeError>,
) -> (result: Result<T, BridgeError>)
    ensures
        result == merge_of(current, modification),
{
    match current {
        Err(failure) => Err(failure),
        Ok(stored) => match modification {
            Err(failure) => Err(failure),
            Ok(change) => Ok(stored.rmw(change)),
        },
    }
}

/// What is handed to the engine for an encoding attempt: the bytes with their
/// length, or the failure.
pub open spec fn transfer_of(encoded: Result<Vec<u8>, BridgeError>) -> Result<
    TransferBuffer,
    BridgeError,
> {
    match encoded {
        Ok(bytes) => Ok((TransferBuffer { bytes, length: bytes@.len() as u64 })),
        Err(failure) => Err(failure),
    }
}

/// Prepares the encoded merge result for transfer.
pub fn transfer(encoded: Result<Vec<u8>, BridgeError>) -> (result: Result<
    TransferBuffer,
    BridgeError,
>)
    ensures
        result == transfer_of(encoded),
        result is Ok ==> result->Ok_0.wf(),
{
    match encoded {
        Ok(bytes) => Ok(TransferBuffer::new(bytes)),
        Err(failure) => Err(failure),
    }
}

/// The read-modify-write callback. Both borrowed buffers are decoded, the
/// value's rule merges them, and the merged value is encoded into a fresh
/// buffer, which is returned with its length for the engine to take over.
/// A buffer that does not decode gives `BridgeError::Decode`, a merged value
/// that does not encode gives `BridgeError::Encode`; which bytes decode and
/// which values encode is for the codec and the type to say.
pub fn rmw_callback<T: Serialize + DeserializeOwned + FasterRmw>(
    current: &[u8],
    modification: &[u8],
) -> (result: Result<TransferBuffer, BridgeError>)
    ensures
        result is Ok ==> result->Ok_0.wf(),
{
    let stored = decode::<T>(current);
    if stored.is_err() {
        return Err(BridgeError::Decode);
    }
    match merge(stored, decode::<T>(modification)) {
        Ok(merged) => transfer(encode(&merged)),
        Err(failure) => Err(failure),
    }
}

} // verus!
