//! Wire-level constants of the PN532 protocol.

use vstd::prelude::*;

verus! {

/// Default bus address of the chip.
pub const PN532_I2C_ADDRESS: u8 = 0x24;

/// First byte of every frame.
pub const PN532_PREAMBLE: u8 = 0x00;
/// First start-code byte.
pub const PN532_STARTCODE1: u8 = 0x00;
/// Second start-code byte.
pub const PN532_STARTCODE2: u8 = 0xFF;
/// Last byte of every frame.
pub const PN532_POSTAMBLE: u8 = 0x00;

/// Direction byte of an outbound (host to chip) frame.
pub const PN532_HOSTTOPN532: u8 = 0xD4;
/// Direction byte of an inbound (chip to host) frame.
pub const PN532_PN532TOHOST: u8 = 0xD5;

/// Opcode of the firmware-version query.
pub const PN532_COMMAND_GETFIRMWAREVERSION: u8 = 0x02;
/// Opcode of the security-module configuration command.
pub const PN532_COMMAND_SAMCONFIGURATION: u8 = 0x14;
/// Opcode of the passive-target detection command.
pub const PN532_COMMAND_INLISTPASSIVETARGET: u8 = 0x4A;
/// Opcode of the data-exchange (authenticate / read) command.
pub const PN532_COMMAND_INDATAEXCHANGE: u8 = 0x40;

/// Sub-opcode of a MIFARE block read inside a data exchange.
pub const MIFARE_CMD_READ: u8 = 0x30;

} // verus!
