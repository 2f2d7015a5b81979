//! Parsing of the variable-length response frame.
//!
//! The caller waits for readiness, reads one block of `max_length + 10`
//! bytes off the bus, and hands the block here.  The block is a status
//! byte, then the frame: preamble, the two start-code bytes, the length
//! byte and its cancelling checksum, the chip-to-host direction byte, the
//! payload, the trailing data checksum, and the postamble.  A mismatch of
//! the trailing data checksum is deliberately permissive: it is reported
//! in the result, not turned into a failure, because the consumers of this
//! driver were built against that behaviour.

use vstd::prelude::*;

use crate::codec::{
    checksum_byte, frame_for, lemma_checksum_byte_cancels, lemma_checksum_byte_same_mod,
    lemma_checksum_byte_unique, lemma_mod_eq_close, lemma_sum_bytes_bounds, lemma_sum_bytes_cons,
    lemma_sum_bytes_step, lemma_sum_bytes_update, sum_bytes,
};
use crate::constants::{
    PN532_PN532TOHOST, PN532_POSTAMBLE, PN532_PREAMBLE, PN532_STARTCODE1, PN532_STARTCODE2,
};
use crate::errors::Error;

verus! {

/// A parsed response frame.
pub struct Response {
    /// The length byte of the frame: it counts the direction byte and the
    /// payload.
    pub length: u8,
    /// The payload: the bytes between the direction byte and the trailing
    /// checksum.  Its first byte echoes the command that was answered.
    pub payload: Vec<u8>,
    /// Whether the trailing data checksum cancels the direction byte and
    /// the payload modulo 256.
    pub checksum_ok: bool,
}

/// Whether a raw read holds a well-formed response frame: long enough for
/// the fixed part, the expected header bytes, a length byte cancelled by
/// its checksum, a length that covers at least the direction byte, a
/// buffer that holds the declared length plus checksum and postamble, and
/// the chip-to-host direction byte.
pub open spec fn spec_frame_ok(raw: Seq<u8>) -> bool {
    &&& raw.len() >= 6
    &&& raw[1] == PN532_PREAMBLE
    &&& raw[2] == PN532_STARTCODE1
    &&& raw[3] == PN532_STARTCODE2
    &&& (raw[4] + raw[5]) % 256 == 0
    &&& raw[4] >= 1
    &&& raw.len() >= 8 + raw[4]
    &&& raw[6] == PN532_PN532TOHOST
}

/// The payload of a well-formed read: everything between the direction
/// byte and the trailing checksum.
pub open spec fn spec_payload(raw: Seq<u8>) -> Seq<u8> {
    raw.subrange(7, 6 + raw[4] as int)
}

/// Whether the trailing data checksum cancels the checksummed region (the
/// direction byte and the payload) modulo 256.
pub open spec fn spec_checksum_ok(raw: Seq<u8>) -> bool {
    (sum_bytes(raw.subrange(6, 6 + raw[4] as int)) + raw[6 + raw[4] as int]) % 256 == 0
}

/// Parses one raw read into a response.  Exactly the malformed reads are
/// rejected, each with `FrameError`; a trailing-checksum mismatch alone
/// does not reject (see the module note), it only clears `checksum_ok`.
pub fn parse_response(raw: &[u8]) -> (r: Result<Response, Error>)
    ensures
        spec_frame_ok(raw@) ==> (r matches Ok(resp) && resp.length == raw@[4]
            && resp.payload@ == spec_payload(raw@) && resp.checksum_ok == spec_checksum_ok(raw@)),
        !spec_frame_ok(raw@) ==> r == Err::<Response, Error>(Error::FrameError),
{
    if raw.len() < 6 {
        return Err(Error::FrameError);
    }
    if raw[1] != PN532_PREAMBLE || raw[2] != PN532_STARTCODE1 || raw[3] != PN532_STARTCODE2 {
        return Err(Error::FrameError);
    }
    let len: u8 = raw[4];
    let lcs: u8 = raw[5];
    if (len as u16 + lcs as u16) % 256 != 0 {
        return Err(Error::FrameError);
    }
    if len == 0 {
        return Err(Error::FrameError);
    }
    if raw.len() < 8 + len as usize {
        return Err(Error::FrameError);
    }
    if raw[6] != PN532_PN532TOHOST {
        return Err(Error::FrameError);
    }

    let data_end: usize = 6 + len as usize;

    let mut payload: Vec<u8> = Vec::new();
    let mut i: usize = 7;
    while i < data_end
        invariant
            7 <= i <= data_end,
            data_end == 6 + raw@[4],
            raw@.len() >= 8 + raw@[4],
            payload@ == raw@.subrange(7, i as int),
        decreases data_end - i,
    {
        payload.push(raw[i]);
        proof {
            assert(raw@.subrange(7, i + 1) =~= raw@.subrange(7, i as int) + seq![raw@[i as int]]);
        }
        i = i + 1;
    }

    let mut sum: u32 = 0;
    let mut j: usize = 6;
    proof {
        assert(raw@.subrange(6, 6) =~= Seq::<u8>::empty());
    }
    while j < data_end
        invariant
            6 <= j <= data_end,
            data_end == 6 + raw@[4],
            raw@.len() >= 8 + raw@[4],
            sum == sum_bytes(raw@.subrange(6, j as int)),
            sum <= 255 * (j - 6),
        decreases data_end - j,
    {
        proof {
            lemma_sum_bytes_step(raw@, 6, j as int);
        }
        sum = sum + raw[j] as u32;
        j = j + 1;
    }

    let rem: u16 = (sum % 256) as u16;
    let expected: u8 = ((256 - rem) % 256) as u8;
    let checksum_ok = raw[data_end] == expected;
    proof {
        assert(expected == checksum_byte(sum_bytes(raw@.subrange(6, 6 + raw@[4] as int))));
        lemma_checksum_byte_unique(
            sum_bytes(raw@.subrange(6, 6 + raw@[4] as int)),
            raw@[6 + raw@[4] as int],
        );
    }
    Ok(Response { length: len, payload, checksum_ok })
}

/// `parse_response` with the permissive path hardened: a trailing-checksum
/// mismatch is a `FrameError` of its own instead of a cleared flag.  The
/// caller chooses between the two behaviours; the permissive one is what
/// the existing consumers were built against.
pub fn parse_response_strict(raw: &[u8]) -> (r: Result<Response, Error>)
    ensures
        spec_frame_ok(raw@) && spec_checksum_ok(raw@) ==> (r matches Ok(resp) && resp.length
            == raw@[4] && resp.payload@ == spec_payload(raw@) && resp.checksum_ok),
        !(spec_frame_ok(raw@) && spec_checksum_ok(raw@)) ==> r == Err::<Response, Error>(
            Error::FrameError,
        ),
{
    match parse_response(raw) {
        Ok(resp) => {
            if resp.checksum_ok {
                Ok(resp)
            } else {
                Err(Error::FrameError)
            }
        },
        Err(e) => Err(e),
    }
}

/// Where each byte of an inbound read stands: the raw read is a status
/// byte followed by a frame built for the chip-to-host direction.
proof fn lemma_inbound_raw_shape(status: u8, data: Seq<u8>)
    requires
        data.len() <= 254,
    ensures
        ({
            let raw = seq![status] + frame_for(PN532_PN532TOHOST, data);
            let n = data.len() as int;
            &&& raw.len() == n + 9
            &&& raw[0] == status
            &&& raw[1] == PN532_PREAMBLE
            &&& raw[2] == PN532_STARTCODE1
            &&& raw[3] == PN532_STARTCODE2
            &&& raw[4] == (n + 1) as u8
            &&& raw[5] == checksum_byte(n + 1)
            &&& raw[6] == PN532_PN532TOHOST
            &&& raw.subrange(7, 7 + n) == data
            &&& raw[7 + n] == checksum_byte(PN532_PN532TOHOST + sum_bytes(data))
            &&& raw[8 + n] == PN532_POSTAMBLE
        }),
{
    let raw = seq![status] + frame_for(PN532_PN532TOHOST, data);
    let n = data.len() as int;
    assert(raw.subrange(7, 7 + n) =~= data);
}

/// Law (round trip): a frame built around any command for the inbound
/// direction, read back behind a status byte, parses as a well-formed
/// response whose payload is exactly that command and whose trailing
/// checksum is intact.
pub proof fn lemma_response_round_trip(status: u8, data: Seq<u8>)
    requires
        data.len() <= 254,
    ensures
        ({
            let raw = seq![status] + frame_for(PN532_PN532TOHOST, data);
            &&& spec_frame_ok(raw)
            &&& spec_payload(raw) == data
            &&& spec_checksum_ok(raw)
        }),
{
    let raw = seq![status] + frame_for(PN532_PN532TOHOST, data);
    let n = data.len() as int;
    lemma_inbound_raw_shape(status, data);
    assert(raw[4] == n + 1);
    lemma_checksum_byte_cancels(n + 1);
    assert(spec_payload(raw) =~= data);
    assert(raw.subrange(6, 7 + n) =~= seq![PN532_PN532TOHOST] + data);
    lemma_sum_bytes_cons(PN532_PN532TOHOST, data);
    lemma_sum_bytes_bounds(data);
    lemma_checksum_byte_cancels(PN532_PN532TOHOST + sum_bytes(data));
}

/// Law (single-byte corruption): corrupt exactly one byte of such a read
/// and the parser rejects the frame wherever the corruption touches a byte
/// it checks (header, length byte, length checksum, direction byte).  In
/// the checksummed region — a payload byte or the trailing checksum
/// itself — the frame still parses and only the checksum flag drops: this
/// is the documented permissive path.  The two bytes the parser never
/// inspects (the leading status byte and the trailing postamble) change
/// nothing.
pub proof fn lemma_response_single_corruption(status: u8, data: Seq<u8>, corrupted: Seq<u8>, i: int)
    requires
        data.len() <= 254,
        ({
            let raw = seq![status] + frame_for(PN532_PN532TOHOST, data);
            &&& corrupted.len() == raw.len()
            &&& 0 <= i < raw.len()
            &&& corrupted[i] != raw[i]
            &&& forall|j: int| 0 <= j < raw.len() && j != i ==> corrupted[j] == raw[j]
        }),
    ensures
        1 <= i <= 6 ==> !spec_frame_ok(corrupted),
        7 <= i <= 7 + data.len() ==> spec_frame_ok(corrupted) && !spec_checksum_ok(corrupted),
        7 <= i < 7 + data.len() ==> spec_payload(corrupted) == data.update(i - 7, corrupted[i]),
        i == 7 + data.len() ==> spec_payload(corrupted) == data,
        (i == 0 || i == 8 + data.len()) ==> spec_frame_ok(corrupted) && spec_payload(corrupted)
            == data && spec_checksum_ok(corrupted),
{
    let raw = seq![status] + frame_for(PN532_PN532TOHOST, data);
    let n = data.len() as int;
    lemma_inbound_raw_shape(status, data);
    lemma_response_round_trip(status, data);
    let tfi_sum = PN532_PN532TOHOST + sum_bytes(data);
    assert(raw.subrange(6, 7 + n) =~= seq![PN532_PN532TOHOST] + data);
    lemma_sum_bytes_cons(PN532_PN532TOHOST, data);
    lemma_sum_bytes_bounds(data);
    if i == 4 {
        lemma_checksum_byte_unique(corrupted[4] as int, corrupted[5]);
        if corrupted[5] == checksum_byte(corrupted[4] as int) {
            lemma_checksum_byte_same_mod(corrupted[4] as int, n + 1);
            lemma_mod_eq_close(corrupted[4] as int, n + 1);
        }
        assert(!spec_frame_ok(corrupted));
    } else if i == 5 {
        lemma_checksum_byte_unique(raw[4] as int, corrupted[5]);
        assert(!spec_frame_ok(corrupted));
    } else if i == 6 {
        assert(corrupted[6] != PN532_PN532TOHOST);
        assert(!spec_frame_ok(corrupted));
    } else if 1 <= i <= 3 {
        assert(!spec_frame_ok(corrupted));
    } else if 7 <= i <= 7 + n {
        assert(spec_frame_ok(corrupted));
        let region = raw.subrange(6, 7 + n);
        let sum = sum_bytes(region);
        assert(sum == tfi_sum);
        if i < 7 + n {
            assert(spec_payload(corrupted) =~= data.update(i - 7, corrupted[i]));
            assert(corrupted.subrange(6, 7 + n) =~= region.update(i - 6, corrupted[i]));
            lemma_sum_bytes_update(region, i - 6, corrupted[i]);
            let sum_c = sum_bytes(corrupted.subrange(6, 7 + n));
            assert(sum_c == sum - raw[i] + corrupted[i]);
            lemma_sum_bytes_bounds(corrupted.subrange(6, 7 + n));
            assert(corrupted[7 + n] == raw[7 + n]);
            lemma_checksum_byte_unique(sum_c, corrupted[7 + n]);
            lemma_checksum_byte_unique(sum, raw[7 + n]);
            if spec_checksum_ok(corrupted) {
                lemma_checksum_byte_same_mod(sum_c, sum);
                lemma_mod_eq_close(sum_c, sum);
            }
            assert(!spec_checksum_ok(corrupted));
        } else {
            assert(spec_payload(corrupted) =~= data);
            assert(corrupted.subrange(6, 7 + n) =~= region);
            lemma_checksum_byte_unique(sum, corrupted[7 + n]);
            assert(corrupted[7 + n] != raw[7 + n]);
            assert(!spec_checksum_ok(corrupted));
        }
    } else {
        assert(i == 0 || i == 8 + n);
        assert(spec_frame_ok(corrupted));
        assert(spec_payload(corrupted) =~= data);
        assert(corrupted.subrange(6, 7 + n) =~= raw.subrange(6, 7 + n));
        assert(corrupted[7 + n] == raw[7 + n]);
        assert(spec_checksum_ok(corrupted));
    }
}

} // verus!
