//! Turns abstract motor commands into the byte frames of one device family,
//! and identifies a device by the handshake that precedes them.
//!
//! Everything here is a pure decision on plain values: the caller performs the
//! transport I/O that the returned frames and handshake actions describe.

pub mod command_manager;
pub mod configuration;
pub mod errors;
pub mod handshake;
pub mod lovense;
pub mod wire;
