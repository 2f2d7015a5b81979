//! The command set: the request bytes of each operation, and the
//! command-specific validation and decoding of each response payload.
//!
//! Every command follows the same cycle: build the request, frame it with
//! the codec, write it to the bus, consume the acknowledgement, read and
//! parse the response, then decode the payload here.  The bus steps belong
//! to the caller that owns the transport; the functions in this module are
//! pure and fully specified.

use vstd::prelude::*;
use vstd::slice::slice_to_vec;

use crate::constants::{
    MIFARE_CMD_READ, PN532_COMMAND_GETFIRMWAREVERSION, PN532_COMMAND_INDATAEXCHANGE,
    PN532_COMMAND_INLISTPASSIVETARGET, PN532_COMMAND_SAMCONFIGURATION,
};
use crate::errors::Error;

verus! {

/// Whether a payload answers the firmware-version query: at least four
/// bytes, the first echoing the opcode.
pub open spec fn spec_firmware_ok(payload: Seq<u8>) -> bool {
    payload.len() >= 4 && payload[0] == PN532_COMMAND_GETFIRMWAREVERSION + 1
}

/// The packed version word: the IC code, the major and the minor version,
/// one byte each, highest first.
pub open spec fn spec_firmware_version(payload: Seq<u8>) -> u32 {
    (payload[1] * 0x10000 + payload[2] * 0x100 + payload[3]) as u32
}

/// Whether a payload confirms the security-module configuration: its first
/// byte echoes the opcode.
pub open spec fn spec_sam_ok(payload: Seq<u8>) -> bool {
    payload.len() >= 1 && payload[0] == PN532_COMMAND_SAMCONFIGURATION + 1
}

/// Whether a payload echoes the detection opcode.
pub open spec fn spec_target_echo_ok(payload: Seq<u8>) -> bool {
    payload.len() >= 3 && payload[0] == PN532_COMMAND_INLISTPASSIVETARGET + 1
}

/// Whether the detection found at least one target.
pub open spec fn spec_target_found(payload: Seq<u8>) -> bool {
    payload[1] != 0
}

/// Whether the payload holds the fixed target fields and the declared UID.
pub open spec fn spec_target_len_ok(payload: Seq<u8>) -> bool {
    payload.len() >= 7 && payload.len() >= 7 + payload[6]
}

/// The UID of the detected target: `payload[6]` bytes after the fixed
/// target fields.
pub open spec fn spec_target_uid(payload: Seq<u8>) -> Seq<u8> {
    payload.subrange(7, 7 + payload[6] as int)
}

/// Whether a payload reports a successful authentication: the opcode echo
/// and a zero status byte.
pub open spec fn spec_auth_success(payload: Seq<u8>) -> bool {
    payload.len() >= 2 && payload[0] == PN532_COMMAND_INDATAEXCHANGE + 1 && payload[1] == 0x00
}

/// Whether a payload answers a block read: the opcode echo, a zero status
/// byte, and a full sixteen-byte block behind them.
pub open spec fn spec_block_ok(payload: Seq<u8>) -> bool {
    payload.len() >= 18 && payload[0] == PN532_COMMAND_INDATAEXCHANGE + 1 && payload[1] == 0x00
}

/// The sixteen data bytes of a block-read payload.
pub open spec fn spec_block_data(payload: Seq<u8>) -> Seq<u8> {
    payload.subrange(2, 18)
}

/// Request bytes of the firmware-version query: the opcode alone.
pub fn firmware_version_request() -> (r: Vec<u8>)
    ensures
        r@ == seq![PN532_COMMAND_GETFIRMWAREVERSION],
{
    let mut r: Vec<u8> = Vec::new();
    r.push(PN532_COMMAND_GETFIRMWAREVERSION);
    proof {
        assert(r@ =~= seq![PN532_COMMAND_GETFIRMWAREVERSION]);
    }
    r
}

/// Decodes the firmware-version payload into the packed version word, or
/// `InvalidResponse` for a payload that is too short or echoes the wrong
/// opcode.
pub fn decode_firmware_version(payload: &[u8]) -> (r: Result<u32, Error>)
    ensures
        spec_firmware_ok(payload@) ==> r == Ok::<u32, Error>(spec_firmware_version(payload@)),
        !spec_firmware_ok(payload@) ==> r == Err::<u32, Error>(Error::InvalidResponse),
{
    if payload.len() >= 4 && payload[0] == PN532_COMMAND_GETFIRMWAREVERSION + 1 {
        let version: u32 = (payload[1] as u32) * 0x10000 + (payload[2] as u32) * 0x100 + (
        payload[3] as u32);
        Ok(version)
    } else {
        Err(Error::InvalidResponse)
    }
}

/// Request bytes of the security-module configuration: normal mode, the
/// default timeout, and the use-IRQ flag.
pub fn sam_configuration_request() -> (r: Vec<u8>)
    ensures
        r@ == seq![PN532_COMMAND_SAMCONFIGURATION, 0x01u8, 0x14u8, 0x01u8],
{
    let mut r: Vec<u8> = Vec::new();
    r.push(PN532_COMMAND_SAMCONFIGURATION);
    r.push(0x01);
    r.push(0x14);
    r.push(0x01);
    proof {
        assert(r@ =~= seq![PN532_COMMAND_SAMCONFIGURATION, 0x01u8, 0x14u8, 0x01u8]);
    }
    r
}

/// Accepts the configuration payload exactly when it echoes the opcode;
/// anything else is `ConfigurationFailed`.
pub fn decode_sam_configuration(payload: &[u8]) -> (r: Result<(), Error>)
    ensures
        spec_sam_ok(payload@) ==> r == Ok::<(), Error>(()),
        !spec_sam_ok(payload@) ==> r == Err::<(), Error>(Error::ConfigurationFailed),
{
    if payload.len() >= 1 && payload[0] == PN532_COMMAND_SAMCONFIGURATION + 1 {
        Ok(())
    } else {
        Err(Error::ConfigurationFailed)
    }
}

/// Request bytes of a passive-target detection: at most one target, of the
/// 106 kbit/s type-A kind.
pub fn read_passive_target_request() -> (r: Vec<u8>)
    ensures
        r@ == seq![PN532_COMMAND_INLISTPASSIVETARGET, 0x01u8, 0x00u8],
{
    let mut r: Vec<u8> = Vec::new();
    r.push(PN532_COMMAND_INLISTPASSIVETARGET);
    r.push(0x01);
    r.push(0x00);
    proof {
        assert(r@ =~= seq![PN532_COMMAND_INLISTPASSIVETARGET, 0x01u8, 0x00u8]);
    }
    r
}

/// Decodes a detection payload into the target's UID.  A wrong echo is
/// `InvalidResponse`, a zero target count is `NoCardFound`, and a payload
/// too short for the fixed fields or the declared UID length is
/// `ResponseTooShort`.
pub fn decode_passive_target(payload: &[u8]) -> (r: Result<Vec<u8>, Error>)
    ensures
        !spec_target_echo_ok(payload@) ==> r == Err::<Vec<u8>, Error>(Error::InvalidResponse),
        spec_target_echo_ok(payload@) && !spec_target_found(payload@) ==> r == Err::<
            Vec<u8>,
            Error,
        >(Error::NoCardFound),
        spec_target_echo_ok(payload@) && spec_target_found(payload@) && !spec_target_len_ok(
            payload@,
        ) ==> r == Err::<Vec<u8>, Error>(Error::ResponseTooShort),
        spec_target_echo_ok(payload@) && spec_target_found(payload@) && spec_target_len_ok(
            payload@,
        ) ==> (r matches Ok(uid) && uid@ == spec_target_uid(payload@)),
{
    if payload.len() < 3 || payload[0] != PN532_COMMAND_INLISTPASSIVETARGET + 1 {
        return Err(Error::InvalidResponse);
    }
    if payload[1] == 0 {
        return Err(Error::NoCardFound);
    }
    if payload.len() < 7 {
        return Err(Error::ResponseTooShort);
    }
    let uid_len: usize = payload[6] as usize;
    if payload.len() < 7 + uid_len {
        return Err(Error::ResponseTooShort);
    }
    let uid_end: usize = 7 + uid_len;
    let mut uid: Vec<u8> = Vec::new();
    let mut i: usize = 7;
    while i < uid_end
        invariant
            7 <= i <= uid_end,
            uid_end == 7 + payload@[6],
            payload@.len() >= uid_end,
            uid@ == payload@.subrange(7, i as int),
        decreases uid_end - i,
    {
        uid.push(payload[i]);
        proof {
            assert(payload@.subrange(7, i + 1) =~= payload@.subrange(7, i as int) + seq![
                payload@[i as int],
            ]);
        }
        i = i + 1;
    }
    Ok(uid)
}

/// Request bytes of a sector authentication: a data exchange against
/// target one carrying the key selector, the block number, the six key
/// bytes, and the card's UID.
pub fn authenticate_request(block_number: u8, uid: &[u8], key_type: u8, key: &[u8]) -> (r: Vec<u8>)
    requires
        key@.len() == 6,
    ensures
        r@ == seq![PN532_COMMAND_INDATAEXCHANGE, 0x01u8, key_type, block_number] + key@ + uid@,
{
    let mut r: Vec<u8> = Vec::new();
    r.push(PN532_COMMAND_INDATAEXCHANGE);
    r.push(0x01);
    r.push(key_type);
    r.push(block_number);
    let mut k: Vec<u8> = slice_to_vec(key);
    r.append(&mut k);
    let mut u: Vec<u8> = slice_to_vec(uid);
    r.append(&mut u);
    proof {
        assert(r@ =~= seq![PN532_COMMAND_INDATAEXCHANGE, 0x01u8, key_type, block_number] + key@
            + uid@);
    }
    r
}

/// Reads an authentication payload as a boolean outcome: success exactly
/// for the opcode echo followed by a zero status.  A failed authentication
/// is not an error, only `false`.
pub fn decode_authenticate(payload: &[u8]) -> (r: bool)
    ensures
        r == spec_auth_success(payload@),
{
    payload.len() >= 2 && payload[0] == PN532_COMMAND_INDATAEXCHANGE + 1 && payload[1] == 0x00
}

/// Request bytes of a single block read: a data exchange against target
/// one carrying the MIFARE read sub-opcode and the block number.
pub fn read_block_request(block_number: u8) -> (r: Vec<u8>)
    ensures
        r@ == seq![PN532_COMMAND_INDATAEXCHANGE, 0x01u8, MIFARE_CMD_READ, block_number],
{
    let mut r: Vec<u8> = Vec::new();
    r.push(PN532_COMMAND_INDATAEXCHANGE);
    r.push(0x01);
    r.push(MIFARE_CMD_READ);
    r.push(block_number);
    proof {
        assert(r@ =~= seq![PN532_COMMAND_INDATAEXCHANGE, 0x01u8, MIFARE_CMD_READ, block_number]);
    }
    r
}

/// Decodes a block-read payload into the sixteen block bytes, or
/// `RetrievalFailed` for anything without the opcode echo, the zero
/// status, and a full block behind them.
pub fn decode_read_block(payload: &[u8]) -> (r: Result<Vec<u8>, Error>)
    ensures
        spec_block_ok(payload@) ==> (r matches Ok(block) && block@ == spec_block_data(payload@)
            && block@.len() == 16),
        !spec_block_ok(payload@) ==> r == Err::<Vec<u8>, Error>(Error::RetrievalFailed),
{
    if payload.len() >= 18 && payload[0] == PN532_COMMAND_INDATAEXCHANGE + 1 && payload[1] == 0x00 {
        let mut block: Vec<u8> = Vec::new();
        let mut i: usize = 2;
        while i < 18
            invariant
                2 <= i <= 18,
                payload@.len() >= 18,
                block@ == payload@.subrange(2, i as int),
            decreases 18 - i,
        {
            block.push(payload[i]);
            proof {
                assert(payload@.subrange(2, i + 1) =~= payload@.subrange(2, i as int) + seq![
                    payload@[i as int],
                ]);
            }
            i = i + 1;
        }
        Ok(block)
    } else {
        Err(Error::RetrievalFailed)
    }
}

} // verus!
