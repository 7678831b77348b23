//! The machine's reset state.
use vstd::prelude::*;

use crate::cpu::PROGRAM_START;

verus! {

/// The machine as it comes out of reset.
pub struct Chip8 {
    pc: u16,
}

impl Chip8 {
    /// The program counter.
    pub closed spec fn spec_pc(&self) -> u16 {
        self.pc
    }

    /// A machine whose program counter is at the program start.
    pub fn new() -> (r: Self)
        ensures
            r.spec_pc() == PROGRAM_START,
    {
        Chip8 { pc: PROGRAM_START }
    }

    /// The program counter.
    pub fn pc(&self) -> (r: u16)
        ensures
            r == self.spec_pc(),
    {
        self.pc
    }
}

} // verus!
