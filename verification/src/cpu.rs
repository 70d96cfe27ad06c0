//! The CPU: register state, program counter and memory bus, with the
//! fetch-decode-execute cycle and the instruction semantics.

use vstd::prelude::*;
use crate::flags::FlagsRegister;
use crate::instruction::{ArithmeticTarget, IncDecTarget, Instruction, JumpTest};
use crate::instruction::spec_from_byte;
use crate::memory::MemoryBus;
use crate::registers::{spec_set_bc, spec_set_de, Registers};

verus! {

/// The byte that selects the prefixed opcode space.
pub const PREFIX_MARKER: u8 = 0xCB;

/// 16-bit addition modulo 2^16: the program counter and the register pairs
/// wrap around rather than overflow.
pub open spec fn wrapping_add16(base: u16, offset: u16) -> u16 {
    if base + offset > 0xFFFF {
        (base + offset - 0x10000) as u16
    } else {
        (base + offset) as u16
    }
}

/// The accumulator after adding a value: 8-bit wraparound addition.
pub open spec fn add_result(accumulator: u8, value: u8) -> u8 {
    if accumulator + value > 0xFF {
        (accumulator + value - 0x100) as u8
    } else {
        (accumulator + value) as u8
    }
}

/// The flags after an 8-bit addition: zero tests the wrapped result,
/// subtract is always clear, carry records overflow out of bit 7, and
/// half-carry records overflow out of bit 3 of the original operands.
pub open spec fn add_flags(accumulator: u8, value: u8) -> FlagsRegister {
    FlagsRegister {
        zero: add_result(accumulator, value) == 0,
        subtract: false,
        half_carry: (accumulator & 0xF) + (value & 0xF) > 0xF,
        carry: accumulator + value > 0xFF,
    }
}

/// Whether a jump condition holds of the given flags.
pub open spec fn jump_taken(flags: FlagsRegister, test: JumpTest) -> bool {
    match test {
        JumpTest::NotZero => !flags.zero,
        JumpTest::Zero => flags.zero,
        JumpTest::NotCarry => !flags.carry,
        JumpTest::Carry => flags.carry,
        JumpTest::Always => true,
    }
}

/// The reason a step could not complete: the fetched opcode byte is outside
/// the implemented subset. It carries the address the opcode was fetched
/// from, the opcode byte itself, and whether it came from the prefixed
/// opcode space, so a host can surface the fault and decide how to go on.
#[derive(Clone, Copy, Debug, PartialEq, Eq, Structural)]
pub struct IllegalOpcode {
    pub address: u16,
    pub opcode: u8,
    pub prefixed: bool,
}

/// The CPU: the register file, the program counter, and the memory bus it
/// exclusively owns. One instance per emulated session; every mutation
/// happens inside `step`.
#[derive(Debug)]
pub struct Cpu {
    pub registers: Registers,
    pub pc: u16,
    pub bus: MemoryBus,
}

impl Cpu {
    /// The bus spans the full address space, so every fetch is in bounds.
    pub open spec fn wf(self) -> bool {
        self.bus.wf()
    }

    /// Whether the byte at the program counter is the prefix marker, so that
    /// the opcode proper is the byte after it.
    pub open spec fn fetch_prefixed(self) -> bool {
        self.bus@[self.pc as int] == PREFIX_MARKER
    }

    /// The opcode byte a step decodes: the byte at the program counter, or
    /// the byte after it when the first is the prefix marker.
    pub open spec fn fetched_opcode(self) -> u8 {
        if self.fetch_prefixed() {
            self.bus@[wrapping_add16(self.pc, 1) as int]
        } else {
            self.bus@[self.pc as int]
        }
    }

    /// What the opcode at the program counter decodes to.
    pub open spec fn decoded(self) -> Option<Instruction> {
        spec_from_byte(self.fetched_opcode(), self.fetch_prefixed())
    }

    /// The absolute target of a taken jump: the two bytes after the opcode,
    /// read little-endian, the low byte first.
    pub open spec fn jump_target(self) -> u16 {
        ((self.bus@[wrapping_add16(self.pc, 2) as int] as u16) << 8) | (self.bus@[
            wrapping_add16(self.pc, 1) as int
        ] as u16)
    }

    /// The register file after executing an instruction. Add writes the
    /// accumulator and the flags (only the C selector is defined so far;
    /// the others are explicit placeholders that change nothing). Inc
    /// writes the named pair with its wrapped successor and leaves the
    /// flags alone. Rlc is a placeholder and jumps touch no register.
    pub open spec fn exec_registers(self, instruction: Instruction) -> Registers {
        match instruction {
            Instruction::Add(target) => match target {
                ArithmeticTarget::C => Registers {
                    a: add_result(self.registers.a, self.registers.c),
                    f: add_flags(self.registers.a, self.registers.c),
                    ..self.registers
                },
                _ => self.registers,
            },
            Instruction::Inc(target) => match target {
                IncDecTarget::BC => spec_set_bc(
                    self.registers,
                    wrapping_add16(self.registers.bc(), 1),
                ),
                IncDecTarget::DE => spec_set_de(
                    self.registers,
                    wrapping_add16(self.registers.de(), 1),
                ),
            },
            Instruction::Rlc(_) => self.registers,
            Instruction::Jp(_) => self.registers,
        }
    }

    /// The program counter after executing an instruction. A defined Add
    /// advances past its one byte; a taken jump goes to its absolute target
    /// and an untaken one advances past the opcode and both operand bytes;
    /// every placeholder leaves the counter unchanged.
    pub open spec fn exec_next_pc(self, instruction: Instruction) -> u16 {
        match instruction {
            Instruction::Add(target) => match target {
                ArithmeticTarget::C => wrapping_add16(self.pc, 1),
                _ => self.pc,
            },
            Instruction::Inc(_) => self.pc,
            Instruction::Rlc(_) => self.pc,
            Instruction::Jp(test) => if jump_taken(self.registers.f, test) {
                self.jump_target()
            } else {
                wrapping_add16(self.pc, 3)
            },
        }
    }

    /// A CPU with zeroed registers, program counter zero, and zeroed memory.
    pub fn new() -> (result: Cpu)
        ensures
            result.wf(),
            result.registers == (Registers {
                a: 0u8,
                b: 0u8,
                c: 0u8,
                d: 0u8,
                e: 0u8,
                f: FlagsRegister { zero: false, subtract: false, half_carry: false, carry: false },
                h: 0u8,
                l: 0u8,
            }),
            result.pc == 0u16,
            forall|i: int| 0 <= i < result.bus@.len() ==> result.bus@[i] == 0u8,
    {
        Cpu { registers: Registers::new(), pc: 0, bus: MemoryBus::new() }
    }

    /// One cycle: fetch the opcode at the program counter (following the
    /// prefix marker if present), decode it, execute it and commit the next
    /// program counter. An unknown opcode is reported with its address and
    /// byte value and leaves the CPU unchanged, so a host can halt the
    /// session or carry on.
    pub fn step(&mut self) -> (result: Result<(), IllegalOpcode>)
        requires
            old(self).wf(),
        ensures
            final(self).wf(),
            final(self).bus@ == old(self).bus@,
            old(self).decoded() matches Some(instruction) ==> (result == Ok::<(), IllegalOpcode>(())
                && final(self).registers == old(self).exec_registers(instruction)
                && final(self).pc == old(self).exec_next_pc(instruction)),
            old(self).decoded() is None ==> (result == Err::<(), IllegalOpcode>(
                (IllegalOpcode {
                    address: old(self).pc,
                    opcode: old(self).fetched_opcode(),
                    prefixed: old(self).fetch_prefixed(),
                }),
            ) && final(self).registers == old(self).registers && final(self).pc == old(self).pc),
    {
        let mut instruction_byte = self.bus.read_byte(self.pc);

        let is_prefixed = instruction_byte == PREFIX_MARKER;
        if is_prefixed {
            instruction_byte = self.bus.read_byte(self.pc.wrapping_add(1));
        }

        match Instruction::from_byte(instruction_byte, is_prefixed) {
            Some(instruction) => {
                let next_pc = self.execute(instruction);
                self.pc = next_pc;
                Ok(())
            },
            None => Err(
                IllegalOpcode { address: self.pc, opcode: instruction_byte, prefixed: is_prefixed },
            ),
        }
    }

    /// Execute one decoded instruction: mutate the registers as its
    /// semantics demand and return the next program counter, which the
    /// caller commits. The bus and the program counter itself are left
    /// unchanged.
    pub fn execute(&mut self, instruction: Instruction) -> (result: u16)
        requires
            old(self).wf(),
        ensures
            final(self).wf(),
            final(self).bus@ == old(self).bus@,
            final(self).pc == old(self).pc,
            final(self).registers == old(self).exec_registers(instruction),
            result == old(self).exec_next_pc(instruction),
    {
        match instruction {
            Instruction::Add(target) => match target {
                ArithmeticTarget::C => {
                    let value = self.registers.c;
                    let new_value = self.add(value);
                    self.registers.a = new_value;

                    self.pc.wrapping_add(1)
                },
                _ => self.pc,
            },
            Instruction::Inc(target) => {
                match target {
                    IncDecTarget::BC => {
                        let incremented = self.registers.get_bc().wrapping_add(1);
                        self.registers.set_bc(incremented);
                    },
                    IncDecTarget::DE => {
                        let incremented = self.registers.get_de().wrapping_add(1);
                        self.registers.set_de(incremented);
                    },
                }

                self.pc
            },
            Instruction::Jp(jump_test) => {
                let should_jump = match jump_test {
                    JumpTest::NotZero => !self.registers.f.zero,
                    JumpTest::NotCarry => !self.registers.f.carry,
                    JumpTest::Zero => self.registers.f.zero,
                    JumpTest::Carry => self.registers.f.carry,
                    JumpTest::Always => true,
                };

                self.jump(should_jump)
            },
            Instruction::Rlc(_) => self.pc,
        }
    }

    /// Add a value to the accumulator with 8-bit wraparound, set the four
    /// flags per the addition's semantics, and return the wrapped sum; the
    /// accumulator itself is written by the caller.
    pub fn add(&mut self, value: u8) -> (result: u8)
        ensures
            result == add_result(old(self).registers.a, value),
            final(self).registers == (Registers {
                f: add_flags(old(self).registers.a, value),
                ..old(self).registers
            }),
            final(self).pc == old(self).pc,
            final(self).bus@ == old(self).bus@,
    {
        let accumulator = self.registers.a;
        let new_value = accumulator.wrapping_add(value);

        proof {
            assert(accumulator & 0xF < 0x10) by (bit_vector);
            assert(value & 0xF < 0x10) by (bit_vector);
        }

        self.registers.f.zero = new_value == 0;
        self.registers.f.subtract = false;
        self.registers.f.carry = (accumulator as u16) + (value as u16) > 0xFF;
        self.registers.f.half_carry = (accumulator & 0xF) + (value & 0xF) > 0xF;

        new_value
    }

    /// The next program counter for a jump: the little-endian 16-bit target
    /// read from the two bytes after the opcode when the condition held,
    /// and the counter advanced past all three bytes when it did not.
    pub fn jump(&self, should_jump: bool) -> (result: u16)
        requires
            self.wf(),
        ensures
            result == (if should_jump {
                self.jump_target()
            } else {
                wrapping_add16(self.pc, 3)
            }),
    {
        if should_jump {
            let least_significant_byte = self.bus.read_byte(self.pc.wrapping_add(1)) as u16;
            let most_significant_byte = self.bus.read_byte(self.pc.wrapping_add(2)) as u16;

            (most_significant_byte << 8) | least_significant_byte
        } else {
            self.pc.wrapping_add(3)
        }
    }
}

} // verus!
