//! Dallas/Maxim CRC-8: the checksum that guards ROM codes and scratchpad
//! reads on the 1-Wire bus (reflected polynomial 0x8C, seed 0, bits fed in
//! least-significant first).

use vstd::prelude::*;

verus! {

/// One bit step: mix the low bit of `byte` into `crc`, shift right and
/// apply the reflected polynomial when the mixed-out bit was set.
pub open spec fn crc8_step(crc: u8, byte: u8) -> u8 {
    if (crc ^ byte) & 0x01 != 0 {
        (crc >> 1) ^ 0x8C
    } else {
        crc >> 1
    }
}

/// `k` remaining bit steps of one byte; the byte moves one bit right after
/// each step.
pub open spec fn crc8_bits(crc: u8, byte: u8, k: nat) -> u8
    decreases k,
{
    if k == 0 {
        crc
    } else {
        crc8_bits(crc8_step(crc, byte), byte >> 1, (k - 1) as nat)
    }
}

/// Folding one whole byte (8 bit steps) into the running value.
pub open spec fn crc8_byte(crc: u8, byte: u8) -> u8 {
    crc8_bits(crc, byte, 8)
}

/// Folding a whole message into the running value, first byte first.
pub open spec fn crc8_fold(crc: u8, data: Seq<u8>) -> u8
    decreases data.len(),
{
    if data.len() == 0 {
        crc
    } else {
        crc8_fold(crc8_byte(crc, data[0]), data.subrange(1, data.len() as int))
    }
}

/// The Dallas/Maxim CRC-8 of a message.
pub open spec fn crc8_spec(data: Seq<u8>) -> u8 {
    crc8_fold(0, data)
}

/// Computes the Dallas/Maxim CRC-8 of `data`, bit by bit.
///
/// An 8-byte ROM code is valid when the CRC of its first 7 bytes equals the
/// 8th byte; a 9-byte scratchpad read is valid when the CRC of all 9 bytes
/// is 0.
pub fn crc8(data: &[u8]) -> (r: u8)
    ensures
        r == crc8_spec(data@),
{
    let n = data.len();
    let mut crc: u8 = 0;
    let mut i: usize = 0;
    proof {
        assert(data@.subrange(0, n as int) =~= data@);
    }
    while i < n
        invariant
            i <= n,
            n == data@.len(),
            crc8_fold(crc, data@.subrange(i as int, n as int)) == crc8_spec(data@),
        decreases n - i,
    {
        let mut data_byte: u8 = data[i];
        let mut j: usize = 0;
        proof {
            assert(data@.subrange(i as int, n as int).subrange(1, (n - i) as int)
                =~= data@.subrange(i + 1, n as int));
        }
        while j < 8
            invariant
                j <= 8,
                i < n,
                n == data@.len(),
                crc8_fold(crc8_bits(crc, data_byte, (8 - j) as nat), data@.subrange(i + 1, n as int))
                    == crc8_spec(data@),
            decreases 8 - j,
        {
            let temp = (crc ^ data_byte) & 0x01;
            crc = crc >> 1;
            if temp != 0 {
                crc = crc ^ 0x8C;
            }
            data_byte = data_byte >> 1;
            j = j + 1;
        }
        i = i + 1;
    }
    crc
}

} // verus!
