//! The eight 8-bit registers and the 16-bit register-pair accessors.

use vstd::prelude::*;
use crate::flags::FlagsRegister;

verus! {

/// The register file: seven 8-bit scalar registers plus the flags register.
/// The BC and DE pairs present two adjacent registers as one virtual 16-bit
/// register, high byte first.
#[derive(Clone, Copy, Debug, PartialEq, Eq, Structural)]
pub struct Registers {
    pub a: u8,
    pub b: u8,
    pub c: u8,
    pub d: u8,
    pub e: u8,
    pub f: FlagsRegister,
    pub h: u8,
    pub l: u8,
}

/// The 16-bit value of a register pair: the high byte in bits 8 to 15, the
/// low byte in bits 0 to 7.
pub open spec fn pair_value(high: u8, low: u8) -> u16 {
    ((high as u16) << 8) | (low as u16)
}

/// Bits 8 to 15 of a 16-bit value.
pub open spec fn high_byte(value: u16) -> u8 {
    ((value & 0xFF00) >> 8) as u8
}

/// Bits 0 to 7 of a 16-bit value.
pub open spec fn low_byte(value: u16) -> u8 {
    (value & 0xFF) as u8
}

/// The register file after writing a 16-bit value to the BC pair.
pub open spec fn spec_set_bc(registers: Registers, value: u16) -> Registers {
    Registers { b: high_byte(value), c: low_byte(value), ..registers }
}

/// The register file after writing a 16-bit value to the DE pair.
pub open spec fn spec_set_de(registers: Registers, value: u16) -> Registers {
    Registers { d: high_byte(value), e: low_byte(value), ..registers }
}

impl Registers {
    /// All registers zero and all flags clear.
    pub fn new() -> (result: Registers)
        ensures
            result == (Registers {
                a: 0u8,
                b: 0u8,
                c: 0u8,
                d: 0u8,
                e: 0u8,
                f: FlagsRegister { zero: false, subtract: false, half_carry: false, carry: false },
                h: 0u8,
                l: 0u8,
            }),
    {
        Registers {
            a: 0,
            b: 0,
            c: 0,
            d: 0,
            e: 0,
            f: FlagsRegister::new(),
            h: 0,
            l: 0,
        }
    }

    /// The value of the BC pair as a spec-level function of the fields.
    pub open spec fn bc(self) -> u16 {
        pair_value(self.b, self.c)
    }

    /// The value of the DE pair as a spec-level function of the fields.
    pub open spec fn de(self) -> u16 {
        pair_value(self.d, self.e)
    }

    /// Read the BC pair: B is the high byte, C the low byte.
    pub fn get_bc(&self) -> (result: u16)
        ensures
            result == self.bc(),
    {
        (self.b as u16) << 8 | self.c as u16
    }

    /// Write the BC pair: B takes the high byte, C the low byte; the other
    /// registers are untouched.
    pub fn set_bc(&mut self, value: u16)
        ensures
            *final(self) == spec_set_bc(*old(self), value),
    {
        proof {
            assert((value & 0xFF00) >> 8 < 256) by (bit_vector);
            assert(value & 0xFF < 256) by (bit_vector);
        }
        self.b = ((value & 0xFF00) >> 8) as u8;
        self.c = (value & 0xFF) as u8;
    }

    /// Read the DE pair: D is the high byte, E the low byte.
    pub fn get_de(&self) -> (result: u16)
        ensures
            result == self.de(),
    {
        (self.d as u16) << 8 | self.e as u16
    }

    /// Write the DE pair: D takes the high byte, E the low byte; the other
    /// registers are untouched.
    pub fn set_de(&mut self, value: u16)
        ensures
            *final(self) == spec_set_de(*old(self), value),
    {
        proof {
            assert((value & 0xFF00) >> 8 < 256) by (bit_vector);
            assert(value & 0xFF < 256) by (bit_vector);
        }
        self.d = ((value & 0xFF00) >> 8) as u8;
        self.e = (value & 0xFF) as u8;
    }
}

/// Writing a 16-bit value to the BC pair and reading the pair back gives the
/// value unchanged, whatever the rest of the register file holds.
pub proof fn lemma_bc_round_trip(registers: Registers, value: u16)
    ensures
        spec_set_bc(registers, value).bc() == value,
{
    assert(((((value & 0xFF00) >> 8) as u8 as u16) << 8) | ((value & 0xFF) as u8 as u16) == value)
        by (bit_vector);
}

/// Writing a 16-bit value to the DE pair and reading the pair back gives the
/// value unchanged, whatever the rest of the register file holds.
pub proof fn lemma_de_round_trip(registers: Registers, value: u16)
    ensures
        spec_set_de(registers, value).de() == value,
{
    assert(((((value & 0xFF00) >> 8) as u8 as u16) << 8) | ((value & 0xFF) as u8 as u16) == value)
        by (bit_vector);
}

} // verus!
