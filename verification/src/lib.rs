//! A typed completion bridge between application values and a key-value
//! engine that speaks only in byte buffers and completion callbacks.
//!
//! The engine finishes a read by reporting a status and a borrowed buffer,
//! and performs an in-place update by asking for the merge of two encoded
//! values. This library holds the decisions of both protocols: when a buffer
//! may be decoded, what is delivered on the completion channel, what is merged
//! and what is handed back to the engine.

pub mod codec;
pub mod error;
pub mod status;
pub mod traits;
pub mod read;
pub mod rmw;
