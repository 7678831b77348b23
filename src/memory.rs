//! Byte-addressable memory and the bounded stack of return addresses.
use vstd::prelude::*;

use crate::CHIP8_RAM;

verus! {

/// Largest number of return addresses the call stack holds.
pub const CALLSTACK_DEPTH: usize = 16;

/// Mathematical model of a [`Memory`].
pub ghost struct MemoryState {
    pub bytes: Seq<u8>,
    pub stack: Seq<usize>,
}

/// `s` with `data` written over it from position `offset` on.
pub open spec fn overwrite(s: Seq<u8>, offset: int, data: Seq<u8>) -> Seq<u8> {
    Seq::new(s.len(), |i: int| if offset <= i < offset + data.len() { data[i - offset] } else { s[i] })
}

/// The 4096-byte memory and the call stack of return addresses.
#[derive(Debug)]
pub struct Memory {
    bytes: Vec<u8>,
    callstack: Vec<usize>,
}

impl View for Memory {
    type V = MemoryState;

    closed spec fn view(&self) -> MemoryState {
        MemoryState { bytes: self.bytes@, stack: self.callstack@ }
    }
}

impl Memory {
    /// The memory holds exactly `CHIP8_RAM` bytes and at most `CALLSTACK_DEPTH`
    /// return addresses.
    pub open spec fn wf(&self) -> bool {
        &&& self@.bytes.len() == CHIP8_RAM
        &&& self@.stack.len() <= CALLSTACK_DEPTH
    }

    /// Zero-filled memory with an empty call stack.
    pub fn new() -> (r: Self)
        ensures
            r.wf(),
            r@.bytes == Seq::new(CHIP8_RAM as nat, |i: int| 0u8),
            r@.stack == Seq::<usize>::empty(),
    {
        let mut bytes: Vec<u8> = Vec::new();
        let mut i: usize = 0;
        while i < CHIP8_RAM
            invariant
                i <= CHIP8_RAM,
                bytes@ == Seq::new(i as nat, |j: int| 0u8),
            decreases CHIP8_RAM - i,
        {
            bytes.push(0);
            i = i + 1;
        }
        Memory { bytes, callstack: Vec::new() }
    }

    /// The `size` bytes starting at `offset`.
    pub fn load(&self, offset: usize, size: usize) -> (r: Vec<u8>)
        requires
            self.wf(),
            offset + size <= CHIP8_RAM,
        ensures
            r@ == self@.bytes.subrange(offset as int, offset + size),
    {
        let mut r: Vec<u8> = Vec::new();
        let mut i: usize = 0;
        while i < size
            invariant
                self.wf(),
                offset + size <= CHIP8_RAM,
                i <= size,
                r@ == self@.bytes.subrange(offset as int, offset + i),
            decreases size - i,
        {
            r.push(self.bytes[offset + i]);
            i = i + 1;
        }
        r
    }

    /// Writes `data` over the bytes starting at `offset`.
    pub fn store(&mut self, offset: usize, data: &[u8])
        requires
            old(self).wf(),
            offset + data@.len() <= CHIP8_RAM,
        ensures
            final(self).wf(),
            final(self)@.bytes == overwrite(old(self)@.bytes, offset as int, data@),
            final(self)@.stack == old(self)@.stack,
    {
        let mut i: usize = 0;
        while i < data.len()
            invariant
                self.wf(),
                offset + data@.len() <= CHIP8_RAM,
                i <= data@.len(),
                self@.stack == old(self)@.stack,
                self@.bytes == overwrite(old(self)@.bytes, offset as int, data@.subrange(0, i as int)),
            decreases data@.len() - i,
        {
            self.bytes.set(offset + i, data[i]);
            i = i + 1;
        }
        assert(data@.subrange(0, data@.len() as int) =~= data@);
        assert(self@.bytes =~= overwrite(old(self)@.bytes, offset as int, data@));
    }

    /// Whether no return address is saved.
    pub fn callstack_empty(&self) -> (r: bool)
        ensures
            r == (self@.stack.len() == 0),
    {
        self.callstack.len() == 0
    }

    /// Whether the call stack holds `CALLSTACK_DEPTH` return addresses.
    pub fn callstack_full(&self) -> (r: bool)
        ensures
            r == (self@.stack.len() == CALLSTACK_DEPTH),
    {
        self.callstack.len() == CALLSTACK_DEPTH
    }

    /// Saves a return address on top of the call stack.
    pub fn callstack_push(&mut self, address: usize)
        requires
            old(self).wf(),
            old(self)@.stack.len() < CALLSTACK_DEPTH,
        ensures
            final(self).wf(),
            final(self)@.stack == old(self)@.stack.push(address),
            final(self)@.bytes == old(self)@.bytes,
    {
        self.callstack.push(address);
    }

    /// Takes the most recently saved return address, if there is one.
    pub fn callstack_pop(&mut self) -> (r: Option<usize>)
        requires
            old(self).wf(),
        ensures
            final(self).wf(),
            final(self)@.bytes == old(self)@.bytes,
            old(self)@.stack.len() == 0 ==> r is None && final(self)@.stack == old(self)@.stack,
            old(self)@.stack.len() > 0 ==> r == Some(old(self)@.stack.last())
                && final(self)@.stack == old(self)@.stack.drop_last(),
    {
        self.callstack.pop()
    }
}

impl Default for Memory {
    fn default() -> (r: Self)
        ensures
            r.wf(),
            r@.bytes == Seq::new(CHIP8_RAM as nat, |i: int| 0u8),
            r@.stack == Seq::<usize>::empty(),
    {
        Memory::new()
    }
}

} // verus!
