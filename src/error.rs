//! The failures that the protocol layer reports.
use vstd::prelude::*;

verus! {

/// What went wrong while driving or decoding the sensor.
#[derive(Debug, Clone, Copy, PartialEq, Eq, Structural)]
pub enum LidarError {
    /// A scan frame does not start with the sync pattern.
    Framing,
    /// A scan frame's checksum does not match its payload.
    Integrity,
    /// The transport failed to read or write.
    Io,
    /// The device answered a command with unexpected bytes.
    ProtocolMismatch,
    /// A response descriptor names a send mode other than single or multi.
    InvalidSendMode,
}

} // verus!
