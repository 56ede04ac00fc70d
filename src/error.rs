//! Errors reported by the plugin and tool-server subsystem.
use vstd::prelude::*;

verus! {

/// Every failure the subsystem reports to a caller.
#[derive(Debug, Clone, PartialEq, Eq)]
pub enum PluginError {
    /// The server process could not be launched.
    SpawnFailure,
    /// A required environment variable was absent when starting.
    MissingEnvironment,
    /// The server answered without a field the protocol requires.
    ProtocolViolation,
    /// The server advertised a protocol version this client does not speak.
    IncompatibleVersion,
    /// No matching response arrived before the call's deadline.
    Timeout,
    /// The server answered a tool call with a JSON-RPC error object.
    RemoteToolError { code: i64, message: String },
    /// A resource read returned neither text nor binary content.
    ResourceNotFound,
    /// The tool needs explicit confirmation that the caller did not give.
    ConfirmationRequired,
    /// An entry with this id is already registered.
    DuplicateId,
    /// No entry with this id is registered.
    NotFound,
    /// The connection was stopped while the call was outstanding.
    ConnectionStopped,
}

} // verus!
