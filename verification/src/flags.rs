//! The CPU's condition flags and their packed one-byte encoding.

use vstd::prelude::*;

verus! {

/// Bit position of the zero flag in the packed byte.
pub const ZERO_FLAG_BYTE_POSITION: u8 = 7;
/// Bit position of the subtract flag in the packed byte.
pub const SUBTRACT_FLAG_BYTE_POSITION: u8 = 6;
/// Bit position of the half-carry flag in the packed byte.
pub const HALF_CARRY_FLAG_BYTE_POSITION: u8 = 5;
/// Bit position of the carry flag in the packed byte.
pub const CARRY_FLAG_BYTE_POSITION: u8 = 4;

/// The four condition flags. Arithmetic and logic instructions set them;
/// conditional instructions test them. They pack into one byte at fixed bit
/// positions (bit 7 zero, bit 6 subtract, bit 5 half-carry, bit 4 carry);
/// bits 0 through 3 of that byte are unused and encode as zero.
#[derive(Clone, Copy, Debug, PartialEq, Eq, Structural)]
pub struct FlagsRegister {
    pub zero: bool,
    pub subtract: bool,
    pub half_carry: bool,
    pub carry: bool,
}

/// The packed byte that a set of flags encodes to: each flag contributes its
/// bit when set, and the low nibble is always zero.
pub open spec fn flags_to_byte(flags: FlagsRegister) -> u8 {
    (if flags.zero {
        0x80u8
    } else {
        0u8
    }) | (if flags.subtract {
        0x40u8
    } else {
        0u8
    }) | (if flags.half_carry {
        0x20u8
    } else {
        0u8
    }) | (if flags.carry {
        0x10u8
    } else {
        0u8
    })
}

/// The flags that a byte decodes to: each flag is read from its fixed bit
/// position; the low nibble is ignored. Every byte value is valid.
pub open spec fn byte_to_flags(byte: u8) -> FlagsRegister {
    FlagsRegister {
        zero: (byte >> ZERO_FLAG_BYTE_POSITION) & 1 != 0,
        subtract: (byte >> SUBTRACT_FLAG_BYTE_POSITION) & 1 != 0,
        half_carry: (byte >> HALF_CARRY_FLAG_BYTE_POSITION) & 1 != 0,
        carry: (byte >> CARRY_FLAG_BYTE_POSITION) & 1 != 0,
    }
}

impl FlagsRegister {
    /// All four flags clear.
    pub fn new() -> (result: FlagsRegister)
        ensures
            result == (FlagsRegister { zero: false, subtract: false, half_carry: false, carry: false }),
    {
        FlagsRegister { zero: false, subtract: false, half_carry: false, carry: false }
    }

    /// Pack the flags into one byte; unused bits are zero.
    pub fn encode(&self) -> (result: u8)
        ensures
            result == flags_to_byte(*self),
    {
        (if self.zero {
            0x80u8
        } else {
            0u8
        }) | (if self.subtract {
            0x40u8
        } else {
            0u8
        }) | (if self.half_carry {
            0x20u8
        } else {
            0u8
        }) | (if self.carry {
            0x10u8
        } else {
            0u8
        })
    }

    /// Extract the four flags from a packed byte; no byte value is an error.
    pub fn decode(byte: u8) -> (result: FlagsRegister)
        ensures
            result == byte_to_flags(byte),
    {
        FlagsRegister {
            zero: (byte >> ZERO_FLAG_BYTE_POSITION) & 1 != 0,
            subtract: (byte >> SUBTRACT_FLAG_BYTE_POSITION) & 1 != 0,
            half_carry: (byte >> HALF_CARRY_FLAG_BYTE_POSITION) & 1 != 0,
            carry: (byte >> CARRY_FLAG_BYTE_POSITION) & 1 != 0,
        }
    }
}

/// Encoding inverts decoding up to the unused low nibble: packing the flags
/// extracted from any byte gives that byte with its low four bits cleared.
pub proof fn lemma_flags_round_trip(byte: u8)
    ensures
        flags_to_byte(byte_to_flags(byte)) == byte & 0xF0,
{
    assert((if (byte >> 7) & 1 != 0 {
        0x80u8
    } else {
        0u8
    }) | (if (byte >> 6) & 1 != 0 {
        0x40u8
    } else {
        0u8
    }) | (if (byte >> 5) & 1 != 0 {
        0x20u8
    } else {
        0u8
    }) | (if (byte >> 4) & 1 != 0 {
        0x10u8
    } else {
        0u8
    }) == byte & 0xF0) by (bit_vector);
}

} // verus!
