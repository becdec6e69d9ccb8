//! CRC-8 checksum as appended by the sensor after every two data bytes.
//!
//! Polynomial 0x31 (x^8 + x^5 + x^4 + 1), initial register 0xFF, no input or
//! output reflection: each input byte is XORed into the running register, then
//! the register is shifted left eight times, XORing in the polynomial whenever
//! the bit shifted out was set.

use vstd::prelude::*;

verus! {

/// One shift round: shift the register left by one bit and XOR in the
/// polynomial if the bit shifted out was set.
pub open spec fn crc8_round(r: u8) -> u8 {
    if r & 0x80 != 0 {
        (r << 1) ^ 0x31
    } else {
        r << 1
    }
}

/// The register after `n` shift rounds.
pub open spec fn crc8_rounds(r: u8, n: nat) -> u8
    decreases n,
{
    if n == 0 {
        r
    } else {
        crc8_rounds(crc8_round(r), (n - 1) as nat)
    }
}

/// The register after absorbing one input byte: XOR it in, then do eight
/// shift rounds.
pub open spec fn crc8_byte(r: u8, byte: u8) -> u8 {
    crc8_rounds(r ^ byte, 8)
}

/// The CRC-8 checksum of a byte sequence, processed front to back starting
/// from the initial register value 0xFF.
pub open spec fn crc8_of(data: Seq<u8>) -> u8
    decreases data.len(),
{
    if data.len() == 0 {
        0xFF
    } else {
        crc8_byte(crc8_of(data.drop_last()), data.last())
    }
}

/// A round done before `n` further rounds is the same as a round done after
/// them.
proof fn lemma_crc8_rounds_step(r: u8, n: nat)
    ensures
        crc8_rounds(crc8_round(r), n) == crc8_round(crc8_rounds(r, n)),
    decreases n,
{
    if n > 0 {
        lemma_crc8_rounds_step(crc8_round(r), (n - 1) as nat);
    }
}

/// Absorb one byte into the running CRC register.
fn crc8_update(crc: u8, byte: u8) -> (r: u8)
    ensures
        r == crc8_byte(crc, byte),
{
    let mut r: u8 = crc ^ byte;
    let mut j: usize = 0;
    while j < 8
        invariant
            j <= 8,
            r == crc8_rounds(crc ^ byte, j as nat),
        decreases 8 - j,
    {
        proof {
            lemma_crc8_rounds_step(crc ^ byte, j as nat);
        }
        if r & 0x80 != 0 {
            r = (r << 1) ^ 0x31;
        } else {
            r = r << 1;
        }
        j = j + 1;
    }
    r
}

/// Compute the CRC-8 checksum of a byte buffer.
pub fn crc8(data: &[u8]) -> (r: u8)
    ensures
        r == crc8_of(data@),
{
    let mut crc: u8 = 0xFF;
    let mut i: usize = 0;
    proof {
        assert(data@.take(0) =~= Seq::<u8>::empty());
    }
    while i < data.len()
        invariant
            i <= data@.len(),
            crc == crc8_of(data@.take(i as int)),
        decreases data@.len() - i,
    {
        let byte = data[i];
        crc = crc8_update(crc, byte);
        proof {
            let s = data@.take(i as int + 1);
            assert(s.drop_last() =~= data@.take(i as int));
            assert(s.last() == byte);
        }
        i = i + 1;
    }
    proof {
        assert(data@.take(data@.len() as int) =~= data@);
    }
    crc
}

/// The checksum of a two-byte group, as it stands before every checksum byte
/// of a response.
pub(crate) fn crc8_pair(a: u8, b: u8) -> (r: u8)
    ensures
        r == crc8_of(seq![a, b]),
{
    let r = crc8_update(crc8_update(0xFF, a), b);
    proof {
        assert(seq![a].drop_last() =~= Seq::<u8>::empty());
        assert(seq![a, b].drop_last() =~= seq![a]);
        assert(crc8_of(Seq::<u8>::empty()) == 0xFF);
        assert(crc8_of(seq![a]) == crc8_byte(0xFF, a));
        assert(crc8_of(seq![a, b]) == crc8_byte(crc8_of(seq![a]), b));
    }
    r
}

} // verus!
