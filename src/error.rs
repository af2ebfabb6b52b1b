//! The failures that the gateway reports to its callers.

use vstd::prelude::*;

use crate::wire::DecodeError;

verus! {

/// A failed operation, with what is known of the cause.
#[derive(Debug)]
pub enum ApiError {
    /// The outbound call itself failed: network, timeout or a non-success status.
    Transport(String),
    /// The response did not have the expected shape.
    Decode(DecodeError),
    /// A complex literal could not be parsed.
    Parse(String),
    /// The backend answered, and its answer reports a failure, with the backend's message.
    BackendReportedFailure(String),
    /// The backend refused a forced shutdown; it gives no message for that.
    ShutdownRefused,
    /// The device kind that was asked for is not supported.
    UnknownDeviceKind(String),
    /// The home automation hub reported a failure.
    HomeAssistant(String),
    /// An entity has no override and its state is not a number.
    LoadMap(String),
}

} // verus!
