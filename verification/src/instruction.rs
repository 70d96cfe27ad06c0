//! Decoded instructions and the pure opcode decoder.

use vstd::prelude::*;

verus! {

/// Which 8-bit register an arithmetic instruction operates on.
#[derive(Clone, Copy, Debug, PartialEq, Eq, Structural)]
pub enum ArithmeticTarget {
    A,
    B,
    C,
    D,
    E,
    H,
    L,
}

/// Which 16-bit register pair an increment or decrement operates on.
#[derive(Clone, Copy, Debug, PartialEq, Eq, Structural)]
pub enum IncDecTarget {
    BC,
    DE,
}

/// Which register a prefixed (0xCB) instruction operates on.
#[derive(Clone, Copy, Debug, PartialEq, Eq, Structural)]
pub enum PrefixTarget {
    B,
}

/// The condition a jump instruction tests against the flags register.
#[derive(Clone, Copy, Debug, PartialEq, Eq, Structural)]
pub enum JumpTest {
    NotZero,
    Zero,
    NotCarry,
    Carry,
    Always,
}

/// A decoded instruction: a closed set of tagged operation variants, each
/// carrying the operand selector it needs. Instructions are produced by the
/// decoder from raw opcode bytes and consumed immediately by execution.
#[derive(Clone, Copy, Debug, PartialEq, Eq, Structural)]
pub enum Instruction {
    Add(ArithmeticTarget),
    Inc(IncDecTarget),
    Rlc(PrefixTarget),
    Jp(JumpTest),
}

/// What a byte in the 0xCB-prefixed opcode space decodes to; `None` marks an
/// opcode outside the implemented subset.
pub open spec fn spec_from_prefixed_byte(byte: u8) -> Option<Instruction> {
    if byte == 0x00 {
        Some(Instruction::Rlc(PrefixTarget::B))
    } else {
        None
    }
}

/// What a byte in the unprefixed opcode space decodes to; `None` marks an
/// opcode outside the implemented subset.
pub open spec fn spec_from_normal_byte(byte: u8) -> Option<Instruction> {
    if byte == 0x02 {
        Some(Instruction::Inc(IncDecTarget::BC))
    } else if byte == 0x13 {
        Some(Instruction::Inc(IncDecTarget::DE))
    } else {
        None
    }
}

/// What an opcode byte decodes to in the opcode space the prefix flag
/// selects. Decoding is a pure function of the byte and the flag: it never
/// consults CPU or memory state, and each byte value maps to at most one
/// instruction.
pub open spec fn spec_from_byte(byte: u8, is_prefixed: bool) -> Option<Instruction> {
    if is_prefixed {
        spec_from_prefixed_byte(byte)
    } else {
        spec_from_normal_byte(byte)
    }
}

impl Instruction {
    /// Decode an opcode byte, with `is_prefixed` selecting the 0xCB-prefixed
    /// opcode space; `None` reports an unknown opcode.
    pub fn from_byte(byte: u8, is_prefixed: bool) -> (result: Option<Instruction>)
        ensures
            result == spec_from_byte(byte, is_prefixed),
    {
        if is_prefixed {
            Self::from_prefixed_byte(byte)
        } else {
            Self::from_normal_byte(byte)
        }
    }

    /// Decode a byte from the 0xCB-prefixed opcode space.
    pub fn from_prefixed_byte(byte: u8) -> (result: Option<Instruction>)
        ensures
            result == spec_from_prefixed_byte(byte),
    {
        match byte {
            0x00 => Some(Self::Rlc(PrefixTarget::B)),
            _ => None,
        }
    }

    /// Decode a byte from the unprefixed opcode space.
    pub fn from_normal_byte(byte: u8) -> (result: Option<Instruction>)
        ensures
            result == spec_from_normal_byte(byte),
    {
        match byte {
            0x02 => Some(Self::Inc(IncDecTarget::BC)),
            0x13 => Some(Self::Inc(IncDecTarget::DE)),
            _ => None,
        }
    }
}

/// Decoding is deterministic: any two decodes of the same byte with the same
/// prefix flag agree, in particular two reports of the same unknown opcode.
pub proof fn lemma_decode_deterministic(
    byte: u8,
    is_prefixed: bool,
    first: Option<Instruction>,
    second: Option<Instruction>,
)
    requires
        first == spec_from_byte(byte, is_prefixed),
        second == spec_from_byte(byte, is_prefixed),
    ensures
        first == second,
{
}

} // verus!
