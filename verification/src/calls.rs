use vstd::prelude::*;

verus! {

/// Which status the engine is asked about (`HAPI_StatusType`).
#[derive(Debug, Clone, Copy, PartialEq, Eq, Structural)]
pub enum StatusType {
    CallResult,
    CookResult,
    CookState,
}

/// How much detail a status text holds (`HAPI_StatusVerbosity`).
#[derive(Debug, Clone, Copy, PartialEq, Eq, Structural)]
pub enum StatusVerbosity {
    Verbosity0,
    Verbosity1,
    Verbosity2,
}

/// The state of a session's cook, as its status reports it (`HAPI_State`).
#[derive(Debug, Clone, Copy, PartialEq, Eq, Structural)]
pub enum State {
    StateReady,
    ReadyWithFatalErrors,
    CookErrors,
    StartingCook,
    StateCooking,
    StartingLoad,
    Loading,
}

/// A call into the Houdini Engine, with every argument as a plain value.
/// Sessions are given by address; nodes by id.
#[derive(Debug)]
pub enum HapiCall {
    /// Start cooking a node (with default cook options).
    CookNode { session: usize, node: i32 },
    /// Read a node's info record.
    GetNodeInfo { session: usize, node: i32 },
    /// Delete a node.
    DeleteNode { session: usize, node: i32 },
    /// Create a node of operator `name` under `parent` (-1 for none),
    /// optionally labelled, optionally cooked at once; the reply carries the new id.
    CreateNode { session: usize, parent: i32, name: String, label: Option<String>, cook: bool },
    /// Read a status of the session; the reply carries a `State`.
    GetStatus { session: usize, status_type: StatusType },
    /// Read the length of a status text; the reply carries the length.
    GetStatusStringBufLength { session: usize, status_type: StatusType, verbosity: StatusVerbosity },
    /// Read a status text into a buffer of `length` bytes; the reply carries the buffer.
    GetStatusString { session: usize, status_type: StatusType, length: i32 },
}

} // verus!
