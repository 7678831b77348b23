//! A register-only engine: it runs the control-flow, skip and register
//! instructions and passes over every other word. The program counter moves to
//! the next instruction before the instruction runs, so a call saves the
//! address of the instruction after it.
use vstd::prelude::*;

use crate::alu::{alu_result, apply_alu, is_alu};
use crate::cpu::{pc_plus, Fault, PROGRAM_START};
use crate::instr::{instr_of, Instr};
use crate::opcode::DecodeError;
use crate::memory::{Memory, MemoryState, CALLSTACK_DEPTH};
use crate::CHIP8_RAM;

verus! {

/// Mathematical model of a [`Processor`].
pub ghost struct ProcessorState {
    pub pc: u16,
    pub v: Seq<u8>,
    pub memory: MemoryState,
}

/// The sizes of the parts, and every saved return address fits the program counter.
pub open spec fn processor_wf(s: ProcessorState) -> bool {
    &&& s.v.len() == 16
    &&& s.memory.bytes.len() == CHIP8_RAM
    &&& s.memory.stack.len() <= CALLSTACK_DEPTH
    &&& forall|i: int| 0 <= i < s.memory.stack.len() ==> #[trigger] s.memory.stack[i] < 0x10000
}

/// The state after the word `w` runs on `s`, or the fault that stops it.
pub open spec fn processor_step(s: ProcessorState, w: u16) -> Result<ProcessorState, Fault> {
    let next = ProcessorState { pc: pc_plus(s.pc, 2), ..s };
    let stack = s.memory.stack;
    match instr_of(w) {
        Ok(Instr::Return) => if stack.len() == 0 {
            Err(Fault::CallStackUnderflow)
        } else {
            Ok(
                ProcessorState {
                    pc: stack.last() as u16,
                    memory: MemoryState { stack: stack.drop_last(), ..s.memory },
                    ..s
                },
            )
        },
        Ok(Instr::Jump(a)) => Ok(ProcessorState { pc: a, ..s }),
        Ok(Instr::FnCall(a)) => if stack.len() >= CALLSTACK_DEPTH {
            Err(Fault::CallStackOverflow)
        } else {
            Ok(
                ProcessorState {
                    pc: a,
                    memory: MemoryState { stack: stack.push(next.pc as usize), ..s.memory },
                    ..s
                },
            )
        },
        Ok(Instr::SkipEqImm(x, kk)) => Ok(
            ProcessorState { pc: pc_plus(next.pc, if s.v[x.idx()] == kk { 2 } else { 0 }), ..s },
        ),
        Ok(Instr::SkipNeImm(x, kk)) => Ok(
            ProcessorState { pc: pc_plus(next.pc, if s.v[x.idx()] != kk { 2 } else { 0 }), ..s },
        ),
        Ok(Instr::SkipEqReg(x, y)) => Ok(
            ProcessorState {
                pc: pc_plus(next.pc, if s.v[x.idx()] == s.v[y.idx()] { 2 } else { 0 }),
                ..s
            },
        ),
        Ok(ins) => if is_alu(ins) {
            Ok(ProcessorState { v: alu_result(s.v, ins), ..next })
        } else {
            Ok(next)
        },
        Err(_) => Ok(next),
    }
}

/// A call followed by a return puts the program counter on the instruction
/// after the call and leaves the registers, the memory and the call stack as
/// they were.
pub proof fn lemma_processor_call_return(s: ProcessorState, a: u16)
    requires
        processor_wf(s),
        a < 0x1000,
        s.memory.stack.len() < CALLSTACK_DEPTH,
    ensures
        processor_step(s, (0x2000 + a) as u16) is Ok,
        processor_step(s, (0x2000 + a) as u16)->Ok_0.pc == a,
        processor_step(processor_step(s, (0x2000 + a) as u16)->Ok_0, 0x00EE)
            == Ok::<ProcessorState, Fault>(ProcessorState { pc: pc_plus(s.pc, 2), ..s }),
{
    let w = (0x2000 + a) as u16;
    assert(w / 0x1000 == 2);
    assert(w % 0x1000 == a);
    assert(instr_of(w) == Ok::<Instr, DecodeError>(Instr::FnCall(a)));
    assert(instr_of(0x00EE) == Ok::<Instr, DecodeError>(Instr::Return));
    let t = processor_step(s, w)->Ok_0;
    assert(t.memory.stack.drop_last() =~= s.memory.stack);
}

/// The register-only engine.
#[derive(Debug)]
pub struct Processor {
    pc: u16,
    v: Vec<u8>,
    memory: Memory,
}

impl View for Processor {
    type V = ProcessorState;

    closed spec fn view(&self) -> ProcessorState {
        ProcessorState { pc: self.pc, v: self.v@, memory: self.memory@ }
    }
}

impl Processor {
    /// The processor's parts have their sizes and its saved addresses fit the program counter.
    pub open spec fn wf(&self) -> bool {
        processor_wf(self@)
    }

    /// A processor at the program start with zeroed registers and memory.
    pub fn new() -> (r: Self)
        ensures
            r.wf(),
            r@.pc == PROGRAM_START,
            r@.v == Seq::new(16, |i: int| 0u8),
            r@.memory.bytes == Seq::new(CHIP8_RAM as nat, |i: int| 0u8),
            r@.memory.stack == Seq::<usize>::empty(),
    {
        let v: Vec<u8> = vec![0; 16];
        assert(v@ =~= Seq::new(16, |i: int| 0u8));
        Processor { pc: PROGRAM_START, v, memory: Memory::new() }
    }

    /// Runs the word `instruction`. A fault changes nothing.
    pub fn execute(&mut self, instruction: u16) -> (r: Result<(), Fault>)
        requires
            old(self).wf(),
        ensures
            final(self).wf(),
            match processor_step(old(self)@, instruction) {
                Ok(s) => r is Ok && final(self)@ == s,
                Err(e) => r == Err::<(), Fault>(e) && final(self)@ == old(self)@,
            },
    {
        let next = ((self.pc as u32 + 2) % 0x10000) as u16;
        match Instr::decode(instruction) {
            Ok(Instr::Return) => match self.memory.callstack_pop() {
                Some(address) => {
                    self.pc = address as u16;
                },
                None => {
                    return Err(Fault::CallStackUnderflow);
                },
            },
            Ok(Instr::Jump(address)) => self.pc = address,
            Ok(Instr::FnCall(address)) => {
                if self.memory.callstack_full() {
                    return Err(Fault::CallStackOverflow);
                }
                self.memory.callstack_push(next as usize);
                self.pc = address;
            },
            Ok(Instr::SkipEqImm(x, kk)) => self.pc = Self::skip_if(next, self.v[x.0 as usize] == kk),
            Ok(Instr::SkipNeImm(x, kk)) => self.pc = Self::skip_if(next, self.v[x.0 as usize] != kk),
            Ok(Instr::SkipEqReg(x, y)) => self.pc = Self::skip_if(
                next,
                self.v[x.0 as usize] == self.v[y.0 as usize],
            ),
            Ok(ins) => {
                self.pc = next;
                if Self::is_register_op(ins) {
                    apply_alu(&mut self.v, ins);
                }
            },
            Err(_) => self.pc = next,
        }
        Ok(())
    }

    fn skip_if(pc: u16, condition: bool) -> (r: u16)
        ensures
            r == pc_plus(pc, if condition { 2 } else { 0 }),
    {
        if condition {
            ((pc as u32 + 2) % 0x10000) as u16
        } else {
            proof {
                vstd::arithmetic::div_mod::lemma_small_mod(pc as nat, 0x10000);
            }
            pc
        }
    }

    fn is_register_op(ins: Instr) -> (r: bool)
        ensures
            r == is_alu(ins),
    {
        match ins {
            Instr::LoadImm(..) | Instr::LoadReg(..) | Instr::AddImm(..) | Instr::AddReg(..)
            | Instr::AddCarryReg(..) | Instr::SubBorrowReg(..) | Instr::SubnBorrowReg(..)
            | Instr::OrReg(..) | Instr::AndReg(..) | Instr::XorReg(..) | Instr::ShrReg(..)
            | Instr::ShlReg(..) => true,
            _ => false,
        }
    }

    /// The program counter.
    pub fn pc(&self) -> (r: u16)
        ensures
            r == self@.pc,
    {
        self.pc
    }

    /// The register `Vx`.
    pub fn register(&self, x: usize) -> (r: u8)
        requires
            self.wf(),
            x < 16,
        ensures
            r == self@.v[x as int],
    {
        self.v[x]
    }

    /// Sets the register `Vx`.
    pub fn set_register(&mut self, x: usize, value: u8)
        requires
            old(self).wf(),
            x < 16,
        ensures
            final(self).wf(),
            final(self)@ == (ProcessorState { v: old(self)@.v.update(x as int, value), ..old(self)@ }),
    {
        self.v.set(x, value);
    }
}

impl Default for Processor {
    fn default() -> (r: Self)
        ensures
            r.wf(),
            r@.pc == PROGRAM_START,
            r@.v == Seq::new(16, |i: int| 0u8),
            r@.memory.bytes == Seq::new(CHIP8_RAM as nat, |i: int| 0u8),
            r@.memory.stack == Seq::<usize>::empty(),
    {
        Processor::new()
    }
}

} // verus!
