//! The engine's status codes, as far as the bridge reads them.

use vstd::prelude::*;

verus! {

/// The one status that says the operation succeeded and its buffer is valid.
pub const OK: u8 = 0;

/// Whether a status reported by the engine means success. Every other value
/// means that no valid buffer came with it, whatever its cause.
pub open spec fn is_success(status: u32) -> bool {
    status == OK as u32
}

/// What the read-completion protocol does next for a reported status.
#[derive(Clone, Copy, Debug, PartialEq, Eq, Structural)]
pub enum ReadStep {
    /// The buffer is valid: decode it and deliver the value.
    Decode,
    /// No valid buffer: leave it untouched and drop the completion handle.
    Discard,
}

/// The step that a status calls for.
pub open spec fn read_step_of(status: u32) -> ReadStep {
    if is_success(status) {
        ReadStep::Decode
    } else {
        ReadStep::Discard
    }
}

/// Decides from the status alone whether the buffer may be read.
pub fn read_step(status: u32) -> (step: ReadStep)
    ensures
        step == read_step_of(status),
{
    let ok: u32 = OK as u32;
    if status == ok {
        ReadStep::Decode
    } else {
        ReadStep::Discard
    }
}

} // verus!
