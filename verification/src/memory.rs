//! The flat memory bus covering the full 16-bit address space.

use vstd::prelude::*;

verus! {

/// Number of addressable bytes: every 16-bit address is in bounds.
pub const MEMORY_SIZE: usize = 0x10000;

/// A flat addressable array of bytes spanning addresses 0x0000 through
/// 0xFFFF. Because the backing store covers the whole 16-bit address space,
/// out-of-range access is impossible by construction.
#[derive(Debug)]
pub struct MemoryBus {
    memory: Vec<u8>,
}

impl View for MemoryBus {
    type V = Seq<u8>;

    closed spec fn view(&self) -> Seq<u8> {
        self.memory@
    }
}

impl MemoryBus {
    /// The backing store spans the full address space.
    pub open spec fn wf(self) -> bool {
        self@.len() == MEMORY_SIZE
    }

    /// A bus with every byte zero.
    pub fn new() -> (result: MemoryBus)
        ensures
            result.wf(),
            forall|i: int| 0 <= i < MEMORY_SIZE ==> result@[i] == 0u8,
    {
        let mut memory: Vec<u8> = Vec::new();
        while memory.len() < MEMORY_SIZE
            invariant
                memory@.len() <= MEMORY_SIZE,
                forall|i: int| 0 <= i < memory@.len() ==> memory@[i] == 0u8,
            decreases MEMORY_SIZE - memory@.len(),
        {
            memory.push(0);
        }
        MemoryBus { memory }
    }

    /// Read the byte at an address; always in bounds.
    pub fn read_byte(&self, address: u16) -> (result: u8)
        requires
            self.wf(),
        ensures
            result == self@[address as int],
    {
        self.memory[address as usize]
    }

    /// Write the byte at an address; every other byte is untouched.
    pub fn write_byte(&mut self, address: u16, value: u8)
        requires
            old(self).wf(),
        ensures
            final(self).wf(),
            final(self)@ == old(self)@.update(address as int, value),
    {
        self.memory.set(address as usize, value);
    }
}

} // verus!
