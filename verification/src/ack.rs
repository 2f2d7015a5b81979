//! Validation of the fixed acknowledgement handshake.
//!
//! After every command the chip answers with a status byte followed by the
//! fixed six-byte pattern `00 00 FF 00 FF 00`.  The caller reads those
//! seven bytes in one shot and hands them here; a wrong pattern is a plain
//! `false`, never an error of its own.

use vstd::prelude::*;

verus! {

/// How many bytes an acknowledgement read fetches: the status byte and the
/// six-byte handshake body.
pub const ACK_READ_LEN: usize = 7;

/// The six-byte handshake body the chip is expected to send.
pub open spec fn spec_ack_pattern() -> Seq<u8> {
    seq![0x00u8, 0x00, 0xFF, 0x00, 0xFF, 0x00]
}

/// Whether a seven-byte read (status byte, then body) carries the expected
/// handshake.  The status byte itself is not inspected.
pub open spec fn spec_ack_valid(raw: Seq<u8>) -> bool {
    raw.subrange(1, 7) == spec_ack_pattern()
}

/// Compares the six bytes after the status byte against the expected
/// handshake pattern, byte for byte.
pub fn check_ack(raw: &[u8]) -> (r: bool)
    requires
        raw@.len() == 7,
    ensures
        r == spec_ack_valid(raw@),
{
    let ok = raw[1] == 0x00 && raw[2] == 0x00 && raw[3] == 0xFF && raw[4] == 0x00 && raw[5]
        == 0xFF && raw[6] == 0x00;
    proof {
        if ok {
            assert(raw@.subrange(1, 7) =~= spec_ack_pattern());
        } else {
            assert(raw@.subrange(1, 7)[0] == raw@[1]);
            assert(raw@.subrange(1, 7)[1] == raw@[2]);
            assert(raw@.subrange(1, 7)[2] == raw@[3]);
            assert(raw@.subrange(1, 7)[3] == raw@[4]);
            assert(raw@.subrange(1, 7)[4] == raw@[5]);
            assert(raw@.subrange(1, 7)[5] == raw@[6]);
        }
    }
    ok
}

/// Law: the handshake is accepted only for the exact expected pattern; a
/// read whose body deviates at any single position is rejected.
pub proof fn lemma_ack_single_deviation(raw: Seq<u8>, i: int)
    requires
        raw.len() == 7,
        1 <= i < 7,
        raw[i] != spec_ack_pattern()[i - 1],
    ensures
        !spec_ack_valid(raw),
{
    assert(raw.subrange(1, 7)[i - 1] == raw[i]);
}

} // verus!
