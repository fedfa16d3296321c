//! The errors that the engine and the manager hand to their callers.

use vstd::prelude::*;
use crate::joycon::validator::ValidationError;

verus! {

/// Why an operation on an engine or on the manager failed.
#[derive(Debug, Clone, PartialEq, Eq)]
pub enum JoyconError {
    /// The visible devices could not be enumerated; discovery tries again
    /// at its next cycle.
    Discovery,
    /// The device vanished between discovery and open; it is skipped.
    Open,
    /// An engine or the manager could not be set up.
    InitializationError(String),
    /// The action was rejected before it was encoded; the queue is untouched.
    Validation(ValidationError),
    /// The engine is not connected.
    NotConnected,
    /// A request that waits for its reply already uses the correlation id.
    CorrelationInUse,
    /// No request with this correlation id is known.
    UnknownCorrelation,
    /// No reply arrived within the bound.
    Timeout,
    /// The engine was shut down while the request waited.
    Cancelled,
    /// The transport failed: the device counts as disconnected.
    Transport,
    /// The device answered that it did not carry the request out.
    Rejected,
    /// The reply is of a kind that does not answer the request.
    UnexpectedReply,
}

pub type JoyconResult<T> = Result<T, JoyconError>;

/// Why a read from the transport returned no frame.
#[derive(Debug, Clone, Copy, PartialEq, Eq)]
pub enum ReadError {
    /// The device is gone.
    Disconnected,
    /// No frame arrived in time; the device may still be there.
    Timeout,
}

} // verus!
