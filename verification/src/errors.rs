//! The failures that command dispatch and the handshake can report.

use vstd::prelude::*;

verus! {

/// A command whose shape does not fit the device.
#[derive(Clone, Copy, Debug, PartialEq, Eq, Structural)]
pub enum ValidationError {
    /// The command addresses `found` motors, the device has `expected`.
    MotorCountMismatch { expected: usize, found: usize },
}

/// A handshake that did not identify the device.
#[derive(Clone, Copy, Debug, PartialEq, Eq, Structural)]
pub enum HandshakeError {
    /// The device was removed before it answered.
    DeviceDisconnected,
    /// No answer arrived before the caller stopped waiting.
    NoResponse,
    /// The device answered with an identity that the configuration lacks.
    UnknownDevice,
}

/// A failure that the transport reported, carried through as it came.
#[derive(Clone, Debug, PartialEq, Eq)]
pub struct TransportError {
    pub reason: String,
}

/// Any failure of this layer.
#[derive(Clone, Debug, PartialEq, Eq)]
pub enum DeviceError {
    Validation(ValidationError),
    Handshake(HandshakeError),
    Transport(TransportError),
}

} // verus!
