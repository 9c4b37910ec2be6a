//! A verified model of the Houdini Engine session logic: result codes and the
//! errors made from them, and the node operations as sequences of engine calls.
//!
//! The engine itself is reached through plain-value requests (`HapiCall`):
//! every operation hands out the call it needs next, and takes back the
//! engine's reply to decide what happens after.

pub mod errors;
pub mod session;
pub mod calls;
pub mod node;
