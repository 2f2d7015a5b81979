//! Protocol logic for a PN532-class contactless card reader.
//!
//! The library holds everything about the wire protocol that can be stated
//! and proved: frame construction with its two checksums, readiness
//! decisions, acknowledgement validation, response parsing, the payload
//! rules of each command, and the sector-by-sector read of a card.  The bus
//! transport itself (a two-wire synchronous bus) is left to the caller: the
//! functions here turn bytes read from the bus into decisions and turn
//! commands into the bytes to write.

pub mod ack;
pub mod codec;
pub mod commands;
pub mod constants;
pub mod errors;
pub mod payload;
pub mod poller;
pub mod reader;
pub mod response;
pub mod vm;
