//! Error taxonomy of the telemetry core.

use vstd::prelude::*;

verus! {

/// Register codec failures: a malformed key, or one of the two
/// controller transactions rejected by the platform call. The failed
/// transactions carry the platform's result code.
#[derive(Clone, Copy, Debug, PartialEq, Eq, Structural)]
pub enum CodecError {
    /// The key was not exactly four ASCII characters; no controller
    /// transaction was attempted.
    InvalidKey,
    /// The key-info (phase one) transaction reported non-success.
    KeyInfoFailed(i32),
    /// The read-bytes (phase two) transaction reported non-success.
    ReadFailed(i32),
}

/// Sensor query layer failure: the primary keys and every fallback key
/// were exhausted without a plausible reading.
#[derive(Clone, Copy, Debug, PartialEq, Eq, Structural)]
pub enum SensorError {
    Unavailable,
}

/// Load generator failure: a test of the requested kind is already
/// running; starting is a caller error, never silently coalesced.
#[derive(Clone, Copy, Debug, PartialEq, Eq, Structural)]
pub enum LoadError {
    AlreadyRunning,
}

/// Controller handle failure: the sensor service could not be located,
/// or the platform rejected opening a connection to it (with its
/// result code).
#[derive(Clone, Copy, Debug, PartialEq, Eq, Structural)]
pub enum ConnectionError {
    ServiceNotFound,
    OpenRejected(i32),
}

} // verus!
