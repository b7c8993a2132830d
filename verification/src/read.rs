//! The read-completion protocol: what happens when the engine reports that an
//! asynchronous read has finished.

use crate::codec::decode;
use crate::error::BridgeError;
use crate::status::{is_success, read_step, ReadStep};
use serde::de::DeserializeOwned;
use std::sync::mpsc::Sender;
use vstd::prelude::*;

verus! {

/// The sending half of a completion channel, carried through without being
/// read. It is moved into the one call that consumes it.
#[verifier::external_type_specification]
#[verifier::external_body]
#[verifier::reject_recursive_types(T)]
pub struct ExSender<T>(Sender<T>);

/// How a read completion ended for the waiting caller.
#[derive(Clone, Copy, Debug, PartialEq, Eq, Structural)]
pub enum ReadOutcome {
    /// The decoded value was handed to the completion channel.
    Delivered,
    /// The value was decoded, but the consumer had gone; it was discarded.
    Unclaimed,
    /// The engine reported no success: nothing was decoded or sent.
    NotCompleted,
}

/// Calls `Sender::send` with the value. The channel gives a value back only
/// when its receiver is gone, and then it is the value that was sent.
#[verifier::external_body]
fn channel_send<T>(sender: &Sender<T>, value: T) -> (returned: Option<T>)
    ensures
        returned is Some ==> returned == Some(value),
{
    match sender.send(value) {
        Ok(()) => None,
        Err(unsent) => Some(unsent.0),
    }
}

/// What a send attempt means for the read: a value that came back found no
/// consumer, which is no failure of the read.
pub open spec fn send_outcome_of<T>(returned: Option<T>) -> ReadOutcome {
    match returned {
        None => ReadOutcome::Delivered,
        Some(_) => ReadOutcome::Unclaimed,
    }
}

/// Classifies a send attempt and discards a value that came back.
pub fn send_outcome<T>(returned: Option<T>) -> (outcome: ReadOutcome)
    ensures
        outcome == send_outcome_of(returned),
{
    match returned {
        None => ReadOutcome::Delivered,
        Some(_) => ReadOutcome::Unclaimed,
    }
}

/// Whether a read result is one that follows a decode attempt on a valid
/// buffer: the value was sent or found no consumer, or the bytes did not
/// decode.
pub open spec fn follows_decode(result: Result<ReadOutcome, BridgeError>) -> bool {
    result == Ok::<ReadOutcome, BridgeError>(ReadOutcome::Delivered)
        || result == Ok::<ReadOutcome, BridgeError>(ReadOutcome::Unclaimed)
        || result == Err::<ReadOutcome, BridgeError>(BridgeError::Decode)
}

/// Finishes a read whose buffer has been decoded. The handle is consumed: a
/// decoded value is sent through it, a decode failure is handed back as it is
/// and the handle is dropped without a send.
pub fn complete<T>(sender: Sender<T>, decoded: Result<T, BridgeError>) -> (result: Result<
    ReadOutcome,
    BridgeError,
>)
    ensures
        decoded is Err ==> result == Err::<ReadOutcome, BridgeError>(decoded->Err_0),
        decoded is Ok ==> result == Ok::<ReadOutcome, BridgeError>(ReadOutcome::Delivered)
            || result == Ok::<ReadOutcome, BridgeError>(ReadOutcome::Unclaimed),
{
    match decoded {
        Ok(value) => Ok(send_outcome(channel_send(&sender, value))),
        Err(failure) => Err(failure),
    }
}

/// The read-completion callback. It takes the completion handle by value, so
/// the handle cannot be used again.
///
/// On the success status the borrowed buffer is decoded and the value is sent
/// to the waiting caller. On any other status the buffer is not read and the
/// handle is dropped without a send, whatever `value` holds: the caller's
/// receive then yields nothing.
pub fn read_callback<T: DeserializeOwned>(sender: Sender<T>, value: &[u8], status: u32) -> (result:
    Result<ReadOutcome, BridgeError>)
    ensures
        !is_success(status) ==> result == Ok::<ReadOutcome, BridgeError>(
            ReadOutcome::NotCompleted,
        ),
        is_success(status) ==> follows_decode(result),
{
    match read_step(status) {
        ReadStep::Discard => Ok(ReadOutcome::NotCompleted),
        ReadStep::Decode => complete(sender, decode::<T>(value)),
    }
}

} // verus!
