//! The error taxonomy of the driver.

use vstd::prelude::*;

verus! {

/// Why a command against the chip failed.
///
/// `Transport` stands for a failed bus read or write and is produced only by
/// the code that owns the bus; the parsing and decoding functions of this
/// library produce the other variants exactly as their contracts state.
#[derive(Clone, Copy, Debug, PartialEq, Eq, Structural)]
pub enum Error {
    /// The bus read or write itself failed.
    Transport,
    /// Readiness was not signalled within the deadline.
    Timeout,
    /// The handshake after a command did not match the expected pattern.
    NoAck,
    /// Malformed response frame: bad header, length checksum, direction
    /// byte, or a buffer too short for the declared length.
    FrameError,
    /// A response payload failed the command-specific validation.
    InvalidResponse,
    /// The security-module configuration was not confirmed.
    ConfigurationFailed,
    /// Target detection found no card.
    NoCardFound,
    /// A detection response too short to hold the declared UID.
    ResponseTooShort,
    /// A block read was not answered with a full data block.
    RetrievalFailed,
}

} // verus!
