//! Codec for the persisted setpoint: one single-precision IEEE-754 float,
//! little-endian, at a fixed offset inside a dedicated erase block.
//!
//! The caller owns the storage; this module turns a target temperature (in
//! sixteenths of a degree Celsius) into the four bytes to write, and turns
//! four bytes read back into a validated target.  A stored value is
//! accepted only when it lies within [`MIN_TEMP`], [`MAX_TEMP`]; anything
//! else — including NaN, infinities and negative values — means "no valid
//! prior setpoint" and the caller falls back to the compiled-in default.

use vstd::prelude::*;

use crate::MAX_TEMP;
use crate::MIN_TEMP;

verus! {

/// Bit pattern of 11.0f32, the lowest accepted stored value.
pub const LOW_BITS: u32 = 0x4130_0000;

/// Bit pattern of 16.0f32, where the exponent steps up inside the
/// accepted range.
pub const MID_BITS: u32 = 0x4180_0000;

/// Bit pattern of 27.0f32, the highest accepted stored value.
pub const HIGH_BITS: u32 = 0x41D8_0000;

/// The four bytes, least significant first, as one integer.
pub open spec fn le_bytes_to_u32(b: Seq<u8>) -> int
    recommends
        b.len() == 4,
{
    b[0] + 0x100 * b[1] + 0x1_0000 * b[2] + 0x100_0000 * b[3]
}

/// IEEE-754 single-precision bit pattern of `t / 16` for a target `t` in
/// sixteenths of a degree within [`MIN_TEMP`], [`MAX_TEMP`].
///
/// Values in [16, 32) carry biased exponent 131 and mantissa `t / 256`, so
/// the pattern is `131 * 2^23 + (t * 2^15 - 2^23)`; values in [8, 16)
/// carry biased exponent 130 and mantissa `t / 128`, giving
/// `130 * 2^23 + (t * 2^16 - 2^23)`.
pub open spec fn target_bits(t: int) -> int
    recommends
        MIN_TEMP <= t <= MAX_TEMP,
{
    if t >= 0x100 {
        0x4100_0000 + t * 0x8000
    } else {
        0x4080_0000 + t * 0x1_0000
    }
}

/// Whether a stored bit pattern represents a float within
/// [`MIN_TEMP`], [`MAX_TEMP`].  Positive single-precision patterns order
/// exactly as the values they represent, so the range check is a pattern
/// check; NaN, infinities and negative values all fall outside it.
pub open spec fn bits_in_range(bits: int) -> bool {
    LOW_BITS <= bits <= HIGH_BITS
}

/// The stored value scaled to sixteenths of a degree, rounded half up to
/// the grid.  For patterns at or above 16.0 the value in sixteenths is
/// `(bits - 0x4100_0000) / 2^15`; below 16.0 it is
/// `(bits - 0x4080_0000) / 2^16` (see [`target_bits`]).
pub open spec fn bits_to_sixteenths(bits: int) -> int
    recommends
        bits_in_range(bits),
{
    if bits >= MID_BITS {
        (bits - 0x4100_0000 + 0x4000) / 0x8000
    } else {
        (bits - 0x4080_0000 + 0x8000) / 0x1_0000
    }
}

/// Serializes a target temperature as the four little-endian bytes of its
/// single-precision float value, ready to be written to storage.
pub fn target_to_bytes(t: i32) -> (r: [u8; 4])
    requires
        MIN_TEMP <= t <= MAX_TEMP,
    ensures
        le_bytes_to_u32(r@) == target_bits(t as int),
        bits_in_range(target_bits(t as int)),
{
    let bits: u32 = if t >= 0x100 {
        0x4100_0000 + (t as u32) * 0x8000
    } else {
        0x4080_0000 + (t as u32) * 0x1_0000
    };
    let r: [u8; 4] = [
        (bits % 0x100) as u8,
        ((bits / 0x100) % 0x100) as u8,
        ((bits / 0x1_0000) % 0x100) as u8,
        (bits / 0x100_0000) as u8,
    ];
    proof {
        assert((bits % 0x100) + 0x100 * ((bits / 0x100) % 0x100) + 0x1_0000 * ((bits / 0x1_0000)
            % 0x100) + 0x100_0000 * (bits / 0x100_0000) == bits) by (bit_vector);
        assert(bits / 0x100_0000 < 0x100) by (bit_vector);
    }
    r
}

/// Deserializes four bytes read from storage.  Yields the stored value in
/// sixteenths of a degree when it lies within [`MIN_TEMP`], [`MAX_TEMP`];
/// yields nothing otherwise, signalling "no valid prior setpoint".
pub fn target_from_bytes(bytes: &[u8; 4]) -> (r: Option<i32>)
    ensures
        match r {
            Some(t) => {
                &&& bits_in_range(le_bytes_to_u32(bytes@))
                &&& t as int == bits_to_sixteenths(le_bytes_to_u32(bytes@))
                &&& MIN_TEMP <= t <= MAX_TEMP
            },
            None => !bits_in_range(le_bytes_to_u32(bytes@)),
        },
{
    let bits: u32 = (bytes[0] as u32) + 0x100 * (bytes[1] as u32) + 0x1_0000 * (bytes[2] as u32)
        + 0x100_0000 * (bytes[3] as u32);
    if bits < LOW_BITS || bits > HIGH_BITS {
        None
    } else if bits >= MID_BITS {
        let t: u32 = (bits - 0x4100_0000 + 0x4000) / 0x8000;
        Some(t as i32)
    } else {
        let t: u32 = (bits - 0x4080_0000 + 0x8000) / 0x1_0000;
        Some(t as i32)
    }
}

/// Law: a persisted setpoint survives the round trip.  Decoding the bit
/// pattern of any selectable target yields that target again, exactly.
pub proof fn lemma_setpoint_round_trip(t: int)
    requires
        MIN_TEMP <= t <= MAX_TEMP,
    ensures
        bits_in_range(target_bits(t)),
        bits_to_sixteenths(target_bits(t)) == t,
{
    if t >= 0x100 {
        let bits = 0x4100_0000 + t * 0x8000;
        vstd::arithmetic::div_mod::lemma_fundamental_div_mod_converse(
            bits - 0x4100_0000 + 0x4000,
            0x8000,
            t,
            0x4000,
        );
    } else {
        let bits = 0x4080_0000 + t * 0x1_0000;
        vstd::arithmetic::div_mod::lemma_fundamental_div_mod_converse(
            bits - 0x4080_0000 + 0x8000,
            0x1_0000,
            t,
            0x8000,
        );
    }
}

} // verus!
