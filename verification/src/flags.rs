//! The processor's condition flags and their packed single-byte form.
//!
//! Four independent booleans occupy the upper nibble of the flags byte
//! (bit 7 = zero, bit 6 = subtract, bit 5 = half-carry, bit 4 = carry);
//! bits 0 to 3 are unused and always zero when the flags are encoded.

use vstd::prelude::*;

verus! {

/// The four condition flags of the processor.
#[derive(Debug, Clone, Copy, PartialEq, Eq, Structural)]
pub struct FlagsRegister {
    pub zero: bool,
    pub subtract: bool,
    pub half_carry: bool,
    pub carry: bool,
}

const ZERO_FLAG_BYTE_POSITION: u8 = 7;
const SUBTRACT_FLAG_BYTE_POSITION: u8 = 6;
const HALF_CARRY_FLAG_BYTE_POSITION: u8 = 5;
const CARRY_FLAG_BYTE_POSITION: u8 = 4;

/// The byte that encodes a flag set: one bit per flag, bits 0 to 3 clear.
pub open spec fn spec_flags_to_byte(flags: FlagsRegister) -> u8 {
    ((if flags.zero { 1u8 } else { 0u8 }) << 7) | ((if flags.subtract { 1u8 } else { 0u8 }) << 6)
        | ((if flags.half_carry { 1u8 } else { 0u8 }) << 5)
        | ((if flags.carry { 1u8 } else { 0u8 }) << 4)
}

/// The flag set read out of a byte: each flag is its bit, bits 0 to 3 ignored.
pub open spec fn spec_flags_from_byte(byte: u8) -> FlagsRegister {
    FlagsRegister {
        zero: (byte >> 7) & 1 != 0,
        subtract: (byte >> 6) & 1 != 0,
        half_carry: (byte >> 5) & 1 != 0,
        carry: (byte >> 4) & 1 != 0,
    }
}

impl FlagsRegister {
    /// Packs the four flags into their fixed bit positions.
    pub fn to_byte(&self) -> (byte: u8)
        ensures
            byte == spec_flags_to_byte(*self),
    {
        (if self.zero { 1u8 } else { 0u8 }) << ZERO_FLAG_BYTE_POSITION
            | (if self.subtract { 1u8 } else { 0u8 }) << SUBTRACT_FLAG_BYTE_POSITION
            | (if self.half_carry { 1u8 } else { 0u8 }) << HALF_CARRY_FLAG_BYTE_POSITION
            | (if self.carry { 1u8 } else { 0u8 }) << CARRY_FLAG_BYTE_POSITION
    }

    /// Reads the four flags out of their fixed bit positions.
    pub fn from_byte(byte: u8) -> (flags: FlagsRegister)
        ensures
            flags == spec_flags_from_byte(byte),
    {
        let zero = ((byte >> ZERO_FLAG_BYTE_POSITION) & 0b1) != 0;
        let subtract = ((byte >> SUBTRACT_FLAG_BYTE_POSITION) & 0b1) != 0;
        let half_carry = ((byte >> HALF_CARRY_FLAG_BYTE_POSITION) & 0b1) != 0;
        let carry = ((byte >> CARRY_FLAG_BYTE_POSITION) & 0b1) != 0;

        FlagsRegister { zero, subtract, half_carry, carry }
    }
}

impl Default for FlagsRegister {
    /// All four flags clear.
    fn default() -> (flags: Self)
        ensures
            flags == (FlagsRegister {
                zero: false,
                subtract: false,
                half_carry: false,
                carry: false,
            }),
    {
        FlagsRegister { zero: false, subtract: false, half_carry: false, carry: false }
    }
}

/// Each single-bit field of a packed flag byte reads back unchanged.
proof fn lemma_flag_bits_unpack(zb: u8, sb: u8, hb: u8, cb: u8)
    requires
        zb <= 1,
        sb <= 1,
        hb <= 1,
        cb <= 1,
    ensures
        ((zb << 7 | sb << 6 | hb << 5 | cb << 4) >> 7) & 1 == zb,
        ((zb << 7 | sb << 6 | hb << 5 | cb << 4) >> 6) & 1 == sb,
        ((zb << 7 | sb << 6 | hb << 5 | cb << 4) >> 5) & 1 == hb,
        ((zb << 7 | sb << 6 | hb << 5 | cb << 4) >> 4) & 1 == cb,
{
    assert(((zb << 7 | sb << 6 | hb << 5 | cb << 4) >> 7) & 1 == zb
        && ((zb << 7 | sb << 6 | hb << 5 | cb << 4) >> 6) & 1 == sb
        && ((zb << 7 | sb << 6 | hb << 5 | cb << 4) >> 5) & 1 == hb
        && ((zb << 7 | sb << 6 | hb << 5 | cb << 4) >> 4) & 1 == cb) by (bit_vector)
        requires
            zb <= 1,
            sb <= 1,
            hb <= 1,
            cb <= 1,
    ;
}

/// Decoding the byte that encodes a flag set yields that flag set again,
/// for every combination of the four flags.
pub proof fn lemma_flags_decode_encode(flags: FlagsRegister)
    ensures
        spec_flags_from_byte(spec_flags_to_byte(flags)) == flags,
{
    let zb: u8 = if flags.zero { 1 } else { 0 };
    let sb: u8 = if flags.subtract { 1 } else { 0 };
    let hb: u8 = if flags.half_carry { 1 } else { 0 };
    let cb: u8 = if flags.carry { 1 } else { 0 };
    lemma_flag_bits_unpack(zb, sb, hb, cb);
}

/// One encode/decode round trip settles a flag byte: decoding, re-encoding and
/// decoding again gives the same flag set as decoding once, for every byte.
pub proof fn lemma_flags_byte_round_trip(byte: u8)
    ensures
        spec_flags_from_byte(spec_flags_to_byte(spec_flags_from_byte(byte)))
            == spec_flags_from_byte(byte),
{
    lemma_flags_decode_encode(spec_flags_from_byte(byte));
}

/// Encoding the flag set decoded from a byte keeps exactly the upper nibble:
/// bits 7 to 4 survive the round trip, bits 3 to 0 are cleared.
pub proof fn lemma_flags_encode_decode(byte: u8)
    ensures
        spec_flags_to_byte(spec_flags_from_byte(byte)) == byte & 0xF0,
{
    assert((byte >> 7) & 1 <= 1 && (byte >> 6) & 1 <= 1 && (byte >> 5) & 1 <= 1
        && (byte >> 4) & 1 <= 1) by (bit_vector);
    assert(((byte >> 7) & 1) << 7 | ((byte >> 6) & 1) << 6 | ((byte >> 5) & 1) << 5
        | ((byte >> 4) & 1) << 4 == byte & 0xF0) by (bit_vector);
}

} // verus!
