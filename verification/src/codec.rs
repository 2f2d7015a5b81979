//! The frame codec: building outbound command frames and the arithmetic of
//! the two protocol checksums.
//!
//! A frame is `[PREAMBLE, START1, START2, LEN, LCS, TFI, DATA.., DCS,
//! POSTAMBLE]`.  `LEN` counts the direction byte `TFI` together with the
//! data, `LCS` cancels `LEN` modulo 256, and `DCS` cancels `TFI` plus the
//! data sum modulo 256.

use vstd::arithmetic::div_mod::lemma_small_mod;
use vstd::prelude::*;

use crate::constants::{
    PN532_HOSTTOPN532, PN532_POSTAMBLE, PN532_PREAMBLE, PN532_STARTCODE1, PN532_STARTCODE2,
};

verus! {

/// Sum of a byte sequence, as a mathematical integer.
pub open spec fn sum_bytes(s: Seq<u8>) -> int
    decreases s.len(),
{
    if s.len() == 0 {
        0
    } else {
        sum_bytes(s.drop_last()) + s.last()
    }
}

/// The byte that cancels `v` modulo 256: `(v + checksum_byte(v)) % 256 == 0`.
pub open spec fn checksum_byte(v: int) -> u8 {
    ((256 - (v % 256)) % 256) as u8
}

/// The wire frame that carries `data` under the direction byte `tfi`.
/// Meaningful when `data.len() <= 254`, so that `LEN = data.len() + 1`
/// fits in its byte.
pub open spec fn frame_for(tfi: u8, data: Seq<u8>) -> Seq<u8> {
    seq![
        PN532_PREAMBLE,
        PN532_STARTCODE1,
        PN532_STARTCODE2,
        (data.len() + 1) as u8,
        checksum_byte((data.len() + 1) as int),
        tfi,
    ] + data + seq![checksum_byte(tfi + sum_bytes(data)), PN532_POSTAMBLE]
}

/// Widening a summed range by one element grows the sum by that element.
pub proof fn lemma_sum_bytes_step(s: Seq<u8>, a: int, i: int)
    requires
        0 <= a <= i < s.len(),
    ensures
        sum_bytes(s.subrange(a, i + 1)) == sum_bytes(s.subrange(a, i)) + s[i],
{
    assert(s.subrange(a, i + 1).drop_last() =~= s.subrange(a, i));
    assert(s.subrange(a, i + 1).last() == s[i]);
}

/// A byte in front of a sequence adds itself to the sum.
pub proof fn lemma_sum_bytes_cons(x: u8, s: Seq<u8>)
    ensures
        sum_bytes(seq![x] + s) == x + sum_bytes(s),
    decreases s.len(),
{
    let c = seq![x] + s;
    assert(c.len() == s.len() + 1);
    assert(sum_bytes(c) == sum_bytes(c.drop_last()) + c.last());
    if s.len() == 0 {
        assert(c.drop_last() =~= Seq::<u8>::empty());
        assert(c.last() == x);
    } else {
        assert(c.drop_last() =~= seq![x] + s.drop_last());
        assert(c.last() == s.last());
        lemma_sum_bytes_cons(x, s.drop_last());
        assert(sum_bytes(s) == sum_bytes(s.drop_last()) + s.last());
    }
}

/// Replacing one element moves the sum by the difference.
pub proof fn lemma_sum_bytes_update(s: Seq<u8>, k: int, v: u8)
    requires
        0 <= k < s.len(),
    ensures
        sum_bytes(s.update(k, v)) == sum_bytes(s) - s[k] + v,
    decreases s.len(),
{
    if k == s.len() - 1 {
        assert(s.update(k, v).drop_last() =~= s.drop_last());
        assert(s.update(k, v).last() == v);
    } else {
        assert(s.update(k, v).drop_last() =~= s.drop_last().update(k, v));
        assert(s.update(k, v).last() == s.last());
        lemma_sum_bytes_update(s.drop_last(), k, v);
    }
}

/// A byte sum lies between 0 and 255 per element.
pub proof fn lemma_sum_bytes_bounds(s: Seq<u8>)
    ensures
        0 <= sum_bytes(s) <= 255 * s.len(),
    decreases s.len(),
{
    if s.len() > 0 {
        lemma_sum_bytes_bounds(s.drop_last());
    }
}

/// The checksum byte does what its name says.
pub proof fn lemma_checksum_byte_cancels(v: int)
    requires
        v >= 0,
    ensures
        (v + checksum_byte(v)) % 256 == 0,
{
    lemma_checksum_byte_unique(v, checksum_byte(v));
}

/// A byte is the cancelling checksum of a sum exactly when it is the
/// checksum byte of that sum: the cancelling byte is unique.
pub proof fn lemma_checksum_byte_unique(s: int, d: u8)
    requires
        s >= 0,
    ensures
        ((s + d) % 256 == 0) <==> d == checksum_byte(s),
{
    let r = s % 256;
    assert(0 <= r < 256);
    assert(s == 256 * (s / 256) + r);
    assert(s + d == 256 * (s / 256) + (r + d));
    lemma_mod_multiple_plus(s / 256, r + d);
    if r + d < 256 {
        lemma_small_mod((r + d) as nat, 256);
    } else {
        assert(r + d == 256 * 1 + (r + d - 256));
        lemma_mod_multiple_plus(1, r + d - 256);
        lemma_small_mod((r + d - 256) as nat, 256);
    }
    if r == 0 {
        assert(256 - r == 256 * 1 + 0);
        lemma_mod_multiple_plus(1, 0);
        lemma_small_mod(0, 256);
        assert(checksum_byte(s) == 0);
    } else {
        lemma_small_mod((256 - r) as nat, 256);
        assert(checksum_byte(s) == 256 - r);
    }
}

/// Equal checksum bytes come from sums that agree modulo 256.
pub proof fn lemma_checksum_byte_same_mod(s1: int, s2: int)
    requires
        s1 >= 0,
        s2 >= 0,
        checksum_byte(s1) == checksum_byte(s2),
    ensures
        s1 % 256 == s2 % 256,
{
    let r1 = s1 % 256;
    let r2 = s2 % 256;
    assert(0 <= r1 < 256 && 0 <= r2 < 256);
    lemma_mod_multiple_plus(1, 0);
    lemma_small_mod(0, 256);
    if r1 != 0 {
        lemma_small_mod((256 - r1) as nat, 256);
    }
    if r2 != 0 {
        lemma_small_mod((256 - r2) as nat, 256);
    }
}

/// Numbers that agree modulo 256 and lie within 256 of each other are
/// equal.
pub proof fn lemma_mod_eq_close(a: int, b: int)
    requires
        a >= 0,
        b >= 0,
        a % 256 == b % 256,
        -256 < a - b < 256,
    ensures
        a == b,
{
    assert(a == 256 * (a / 256) + a % 256);
    assert(b == 256 * (b / 256) + b % 256);
    let k = a / 256 - b / 256;
    assert(a - b == 256 * k);
    if k >= 1 {
        assert(256 * k >= 256) by (nonlinear_arith)
            requires
                k >= 1,
        ;
    }
    if k <= -1 {
        assert(256 * k <= -256) by (nonlinear_arith)
            requires
                k <= -1,
        ;
    }
}

/// `(256 * q + v) % 256 == v % 256`.
pub proof fn lemma_mod_multiple_plus(q: int, v: int)
    ensures
        (256 * q + v) % 256 == v % 256,
{
    vstd::arithmetic::div_mod::lemma_mod_multiples_vanish(q, v, 256);
}

/// Builds the outbound frame around `command`: the start sequence, the
/// length byte and its cancelling checksum, the host-to-chip direction
/// byte, the command bytes, the cancelling data checksum, and the
/// postamble.
pub fn build_frame(command: &[u8]) -> (frame: Vec<u8>)
    requires
        command@.len() <= 254,
    ensures
        frame@ == frame_for(PN532_HOSTTOPN532, command@),
{
    let len: u8 = command.len() as u8 + 1;
    let lcs: u8 = (256 - len as u16) as u8;
    assert(lcs == checksum_byte((command@.len() + 1) as int));

    let mut frame: Vec<u8> = Vec::new();
    frame.push(PN532_PREAMBLE);
    frame.push(PN532_STARTCODE1);
    frame.push(PN532_STARTCODE2);
    frame.push(len);
    frame.push(lcs);
    frame.push(PN532_HOSTTOPN532);

    let ghost head: Seq<u8> = frame@;

    let mut sum: u32 = PN532_HOSTTOPN532 as u32;
    let mut i: usize = 0;
    while i < command.len()
        invariant
            i <= command@.len() <= 254,
            frame@ == head + command@.subrange(0, i as int),
            head.len() == 6,
            sum == PN532_HOSTTOPN532 + sum_bytes(command@.subrange(0, i as int)),
            sum <= 0xD4 + 255 * i,
        decreases command@.len() - i,
    {
        frame.push(command[i]);
        proof {
            lemma_sum_bytes_step(command@, 0, i as int);
            assert(frame@ =~= head + command@.subrange(0, i + 1));
        }
        sum = sum + command[i] as u32;
        i = i + 1;
    }
    assert(command@.subrange(0, command@.len() as int) =~= command@);

    let rem: u16 = (sum % 256) as u16;
    let dcs: u8 = ((256 - rem) % 256) as u8;
    assert(dcs == checksum_byte(PN532_HOSTTOPN532 + sum_bytes(command@)));
    frame.push(dcs);
    frame.push(PN532_POSTAMBLE);
    assert(frame@ =~= frame_for(PN532_HOSTTOPN532, command@));
    frame
}

/// Law: for every command, the built frame has a length byte cancelled by
/// its checksum modulo 256, and a data-checksum region (direction byte,
/// data, checksum byte) that sums to zero modulo 256.
pub proof fn lemma_frame_checksums(tfi: u8, data: Seq<u8>)
    requires
        data.len() <= 254,
    ensures
        ({
            let f = frame_for(tfi, data);
            &&& f.len() == data.len() + 8
            &&& (f[3] + f[4]) % 256 == 0
            &&& f.subrange(6, 6 + data.len() as int) == data
            &&& (f[5] + sum_bytes(data) + f[6 + data.len() as int]) % 256 == 0
        }),
{
    let f = frame_for(tfi, data);
    let n = data.len() as int;
    assert(f.subrange(6, 6 + n) =~= data);
    assert(f[3] == (n + 1) as u8);
    assert(f[4] == checksum_byte(n + 1));
    lemma_checksum_byte_cancels(n + 1);
    assert(f[5] == tfi);
    assert(f[6 + n] == checksum_byte(tfi + sum_bytes(data)));
    lemma_sum_bytes_bounds(data);
    lemma_checksum_byte_cancels(tfi + sum_bytes(data));
}

} // verus!
