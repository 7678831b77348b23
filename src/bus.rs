//! The path between the engine and memory.
use vstd::prelude::*;

use crate::memory::{overwrite, Memory, MemoryState};
use crate::CHIP8_RAM;

verus! {

/// Access to a memory through the engine's bus.
pub struct Bus {
    memory: Memory,
}

impl View for Bus {
    type V = MemoryState;

    closed spec fn view(&self) -> MemoryState {
        self.memory@
    }
}

impl Bus {
    /// The memory behind the bus is well formed.
    pub open spec fn wf(&self) -> bool {
        &&& self@.bytes.len() == CHIP8_RAM
        &&& self@.stack.len() <= crate::memory::CALLSTACK_DEPTH
    }

    /// A bus in front of `memory`.
    pub fn new(memory: Memory) -> (r: Self)
        ensures
            r@ == memory@,
    {
        Bus { memory }
    }

    /// The `size` bytes starting at `offset`.
    pub fn load(&self, offset: usize, size: usize) -> (r: Vec<u8>)
        requires
            self.wf(),
            offset + size <= CHIP8_RAM,
        ensures
            r@ == self@.bytes.subrange(offset as int, offset + size),
    {
        self.memory.load(offset, size)
    }

    /// Writes `data` over the bytes starting at `offset`.
    pub fn store(&mut self, offset: usize, data: &[u8])
        requires
            old(self).wf(),
            offset + data@.len() <= CHIP8_RAM,
        ensures
            final(self).wf(),
            final(self)@.bytes == overwrite(old(self)@.bytes, offset as int, data@),
            final(self)@.stack == old(self)@.stack,
    {
        self.memory.store(offset, data);
    }
}

} // verus!
