//! Validation and unmasking of the tagged payload envelope.
//!
//! The dump handed downstream travels as an envelope `[tag, masked body..,
//! checksum]`: one tag byte, the body with every byte XOR-masked by a
//! one-byte key, and a four-byte little-endian CRC-32 of the unmasked
//! body.  Decoding checks the tag, unmasks the body, and accepts it
//! exactly when its checksum matches the trailing word.

use vstd::bytes::{spec_u32_from_le_bytes, u32_from_le_bytes};
use vstd::prelude::*;
use vstd::slice::slice_subrange;

verus! {

/// The tag that marks a program payload.
pub const PAYLOAD_TAG: u8 = 0x03;

/// Why an envelope was rejected.
#[derive(Clone, Copy, Debug, PartialEq, Eq, Structural)]
pub enum PayloadError {
    /// Shorter than a tag and a checksum word.
    TooShort,
    /// The leading tag byte is not the program tag.
    InvalidTag,
    /// Nothing stands between the tag and the checksum word.
    BodyTooShort,
    /// The checksum of the unmasked body does not match the trailing word.
    ChecksumMismatch,
}

/// `s` with every byte XOR-masked by `key`.
pub open spec fn xor_mask(s: Seq<u8>, key: u8) -> Seq<u8> {
    s.map_values(|b: u8| b ^ key)
}

/// The CRC-32 of a byte sequence, as the outside checksum routine computes
/// it: a function of the bytes alone.
pub uninterp spec fn crc32_of(data: Seq<u8>) -> u32;

/// Relies on crc32fast::hash: the CRC-32 of the bytes, computed from them
/// alone.
#[verifier::external_body]
fn crc32(data: &[u8]) -> (r: u32)
    ensures
        r == crc32_of(data@),
{
    crc32fast::hash(data)
}

/// The unmasked body of an envelope: everything between the tag and the
/// checksum word, with the mask taken off.
pub open spec fn spec_payload_body(input: Seq<u8>, key: u8) -> Seq<u8> {
    xor_mask(input.subrange(1, input.len() - 4), key)
}

/// The checksum word an envelope carries, read little-endian from its last
/// four bytes.
pub open spec fn spec_payload_checksum(input: Seq<u8>) -> u32 {
    spec_u32_from_le_bytes(input.subrange(input.len() - 4, input.len() as int))
}

/// Decodes an envelope into its unmasked body.  The envelope must be long
/// enough for the tag and checksum, carry the program tag, hold at least
/// one body byte, and carry the checksum of the unmasked body; each
/// failure is reported as its own error, in that order.
pub fn decode_payload(input: &[u8], key: u8) -> (r: Result<Vec<u8>, PayloadError>)
    ensures
        input@.len() < 5 ==> r == Err::<Vec<u8>, PayloadError>(PayloadError::TooShort),
        input@.len() >= 5 && input@[0] != PAYLOAD_TAG ==> r == Err::<Vec<u8>, PayloadError>(
            PayloadError::InvalidTag,
        ),
        input@.len() == 5 && input@[0] == PAYLOAD_TAG ==> r == Err::<Vec<u8>, PayloadError>(
            PayloadError::BodyTooShort,
        ),
        input@.len() >= 6 && input@[0] == PAYLOAD_TAG && crc32_of(spec_payload_body(input@, key))
            != spec_payload_checksum(input@) ==> r == Err::<Vec<u8>, PayloadError>(
            PayloadError::ChecksumMismatch,
        ),
        input@.len() >= 6 && input@[0] == PAYLOAD_TAG && crc32_of(spec_payload_body(input@, key))
            == spec_payload_checksum(input@) ==> (r matches Ok(body) && body@ == spec_payload_body(
            input@,
            key,
        )),
{
    if input.len() < 5 {
        return Err(PayloadError::TooShort);
    }
    if input[0] != PAYLOAD_TAG {
        return Err(PayloadError::InvalidTag);
    }
    if input.len() < 6 {
        return Err(PayloadError::BodyTooShort);
    }
    let body_end: usize = input.len() - 4;
    let mut body: Vec<u8> = Vec::new();
    let mut i: usize = 1;
    while i < body_end
        invariant
            1 <= i <= body_end,
            body_end == input@.len() - 4,
            input@.len() >= 6,
            body@ == xor_mask(input@.subrange(1, i as int), key),
        decreases body_end - i,
    {
        body.push(input[i] ^ key);
        proof {
            assert(xor_mask(input@.subrange(1, i + 1), key) =~= xor_mask(
                input@.subrange(1, i as int),
                key,
            ) + seq![(input@[i as int] ^ key)]);
        }
        i = i + 1;
    }
    let expected: u32 = u32_from_le_bytes(slice_subrange(input, body_end, input.len()));
    let actual: u32 = crc32(body.as_slice());
    if actual != expected {
        return Err(PayloadError::ChecksumMismatch);
    }
    Ok(body)
}

} // verus!
