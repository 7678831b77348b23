//! The execution engine: registers, program counter, index register, timers,
//! and the memory, display and keypad it drives, one instruction per step.
//!
//! Policies where the instruction set leaves a choice:
//! - a word that does not decode is skipped: the program counter advances and
//!   nothing else changes;
//! - a fault (an access beyond memory, a return with no saved address, a call
//!   with a full call stack, an operand out of range) changes nothing and is
//!   handed back to the host;
//! - the program counter and the index register are 16 bits wide and wrap;
//! - whether the block store and load advance the index register past the
//!   block is a setting of each engine, off by default;
//! - `Fx29` (font digit address) is recognised and has no effect.
use vstd::prelude::*;

use crate::alu::{alu_result, apply_alu, flag_byte, is_alu, FLAG};
use crate::graphics::{blank, cell_index, collides, drawn, Graphics, GRAPHICS_VBUFFER};
use crate::instr::{instr_of, Instr, Reg};
use crate::opcode::{DecodeError, Opcode};
use crate::random::{seeded_u32, SeededRng};
use crate::keypad::{lemma_ordinal_injective, ChipKey, Keypad};
use crate::memory::{overwrite, Memory, MemoryState, CALLSTACK_DEPTH};
use crate::CHIP8_RAM;

verus! {

/// Width of an instruction in bytes.
pub const INSTRUCTION_SIZE: u16 = 2;

/// Address at which programs are loaded and execution starts.
pub const PROGRAM_START: u16 = 0x200;

/// A condition that stops a step without changing the engine.
#[derive(Clone, Copy, PartialEq, Eq, Structural, Debug)]
pub enum Fault {
    /// A memory access would reach beyond the last byte.
    OutOfBounds,
    /// A return found no saved address.
    CallStackUnderflow,
    /// A call found the call stack full.
    CallStackOverflow,
    /// An operand lies outside the range of its encoding.
    InvalidOperand,
}

/// Mathematical model of a [`Cpu`]; the random generator is modelled by its
/// seed and the count of numbers drawn from it.
pub ghost struct CpuState {
    pub pc: u16,
    pub ri: u16,
    pub v: Seq<u8>,
    pub dt: u8,
    pub st: u8,
    pub memory: MemoryState,
    pub display: Seq<u8>,
    pub key: Option<ChipKey>,
    pub increment_index: bool,
    pub seed: u64,
    pub drawn: nat,
}

/// The sizes of the parts, and every saved return address fits the program counter.
pub open spec fn state_wf(s: CpuState) -> bool {
    &&& s.v.len() == 16
    &&& s.memory.bytes.len() == CHIP8_RAM
    &&& s.memory.stack.len() <= CALLSTACK_DEPTH
    &&& s.display.len() == GRAPHICS_VBUFFER
    &&& forall|i: int| 0 <= i < s.memory.stack.len() ==> #[trigger] s.memory.stack[i] < 0x10000
}

/// `pc + k` in 16 bits.
pub open spec fn pc_plus(pc: u16, k: int) -> u16 {
    ((pc + k) % 0x10000) as u16
}

/// `s` with the program counter on the next instruction.
pub open spec fn hop(s: CpuState) -> CpuState {
    CpuState { pc: pc_plus(s.pc, INSTRUCTION_SIZE as int), ..s }
}

/// `s` with the program counter past the next instruction if `c` holds, on it otherwise.
pub open spec fn skip_if(s: CpuState, c: bool) -> CpuState {
    let k: int = if c { 2 * INSTRUCTION_SIZE } else { INSTRUCTION_SIZE as int };
    CpuState { pc: pc_plus(s.pc, k), ..s }
}

/// Whether the key held has ordinal `b`; no key has an ordinal above 15.
pub open spec fn key_held(key: Option<ChipKey>, b: u8) -> bool {
    key is Some && key->0.spec_ordinal() == b
}

/// The hundreds, tens and ones digits of `b`.
pub open spec fn bcd(b: u8) -> Seq<u8> {
    seq![(b / 100) as u8, ((b / 10) % 10) as u8, (b % 10) as u8]
}

/// The index register after a block transfer of `V0..=Vx`.
pub open spec fn index_after(s: CpuState, x: Reg) -> u16 {
    if s.increment_index {
        ((s.ri + x.idx() + 1) % 0x10000) as u16
    } else {
        s.ri
    }
}

/// The state after `ins` runs on `s`, with `rnd` as the random byte, or the
/// fault that stops it.
pub open spec fn step(s: CpuState, ins: Instr, rnd: u8) -> Result<CpuState, Fault> {
    let v = s.v;
    let ri = s.ri as int;
    if !ins.wf() {
        Err(Fault::InvalidOperand)
    } else if is_alu(ins) {
        Ok(hop(CpuState { v: alu_result(v, ins), ..s }))
    } else {
        match ins {
            Instr::ClearScr => Ok(hop(CpuState { display: blank(), ..s })),
            Instr::Return => if s.memory.stack.len() == 0 {
                Err(Fault::CallStackUnderflow)
            } else {
                Ok(
                    CpuState {
                        pc: s.memory.stack.last() as u16,
                        memory: MemoryState { stack: s.memory.stack.drop_last(), ..s.memory },
                        ..s
                    },
                )
            },
            Instr::Jump(a) => Ok(CpuState { pc: a, ..s }),
            Instr::JumpOffset(a) => Ok(CpuState { pc: (a + v[0]) as u16, ..s }),
            Instr::FnCall(a) => if s.memory.stack.len() >= CALLSTACK_DEPTH {
                Err(Fault::CallStackOverflow)
            } else {
                Ok(
                    CpuState {
                        pc: a,
                        memory: MemoryState {
                            stack: s.memory.stack.push(pc_plus(s.pc, INSTRUCTION_SIZE as int) as usize),
                            ..s.memory
                        },
                        ..s
                    },
                )
            },
            Instr::SkipEqImm(x, kk) => Ok(skip_if(s, v[x.idx()] == kk)),
            Instr::SkipNeImm(x, kk) => Ok(skip_if(s, v[x.idx()] != kk)),
            Instr::SkipEqReg(x, y) => Ok(skip_if(s, v[x.idx()] == v[y.idx()])),
            Instr::SkipNeReg(x, y) => Ok(skip_if(s, v[x.idx()] != v[y.idx()])),
            Instr::SkipEqKey(x) => Ok(skip_if(s, key_held(s.key, v[x.idx()]))),
            Instr::SkipNeKey(x) => Ok(skip_if(s, !key_held(s.key, v[x.idx()]))),
            Instr::LoadAddr(a) => Ok(hop(CpuState { ri: a, ..s })),
            Instr::AddAddr(x) => Ok(hop(CpuState { ri: ((ri + v[x.idx()]) % 0x10000) as u16, ..s })),
            Instr::Rand(x, kk) => Ok(hop(CpuState { v: v.update(x.idx(), rnd & kk), ..s })),
            Instr::Draw(x, y, n) => if ri + n > CHIP8_RAM {
                Err(Fault::OutOfBounds)
            } else {
                let sprite = s.memory.bytes.subrange(ri, ri + n);
                let start = cell_index(v[y.idx()] as int, v[x.idx()] as int);
                Ok(
                    hop(
                        CpuState {
                            display: drawn(s.display, start, sprite),
                            v: v.update(FLAG as int, flag_byte(collides(s.display, start, sprite))),
                            ..s
                        },
                    ),
                )
            },
            Instr::GetDelay(x) => Ok(hop(CpuState { v: v.update(x.idx(), s.dt), ..s })),
            Instr::SetDelay(x) => Ok(hop(CpuState { dt: v[x.idx()], ..s })),
            Instr::SetSound(x) => Ok(hop(CpuState { st: v[x.idx()], ..s })),
            Instr::WaitKey(x) => match s.key {
                Some(k) => Ok(hop(CpuState { v: v.update(x.idx(), k.spec_ordinal()), ..s })),
                None => Ok(s),
            },
            Instr::StoreBcd(x) => if ri + 3 > CHIP8_RAM {
                Err(Fault::OutOfBounds)
            } else {
                Ok(
                    hop(
                        CpuState {
                            memory: MemoryState {
                                bytes: overwrite(s.memory.bytes, ri, bcd(v[x.idx()])),
                                ..s.memory
                            },
                            ..s
                        },
                    ),
                )
            },
            Instr::StoreMem(x) => if ri + x.idx() + 1 > CHIP8_RAM {
                Err(Fault::OutOfBounds)
            } else {
                Ok(
                    hop(
                        CpuState {
                            memory: MemoryState {
                                bytes: overwrite(s.memory.bytes, ri, v.subrange(0, x.idx() + 1)),
                                ..s.memory
                            },
                            ri: index_after(s, x),
                            ..s
                        },
                    ),
                )
            },
            Instr::LoadMem(x) => if ri + x.idx() + 1 > CHIP8_RAM {
                Err(Fault::OutOfBounds)
            } else {
                Ok(
                    hop(
                        CpuState {
                            v: overwrite(v, 0, s.memory.bytes.subrange(ri, ri + x.idx() + 1)),
                            ri: index_after(s, x),
                            ..s
                        },
                    ),
                )
            },
            _ => Ok(hop(s)),
        }
    }
}

/// Whether the result `r` of a step and the state `new` after it agree with
/// `res`: the new state on success, the fault and an unchanged state otherwise.
pub open spec fn outcome(old: CpuState, res: Result<CpuState, Fault>, r: Result<(), Fault>, new: CpuState) -> bool {
    match res {
        Ok(s) => r is Ok && new == s,
        Err(e) => r == Err::<(), Fault>(e) && new == old,
    }
}

/// The byte that a random instruction draws next: the low byte of the
/// generator's next number.
pub open spec fn next_byte(s: CpuState) -> u8 {
    (seeded_u32(s.seed, s.drawn) % 256) as u8
}

/// The state after `ins` runs on `s`, the engine's generator supplying the
/// random byte; only a random instruction with valid operands draws one.
pub open spec fn exec(s: CpuState, ins: Instr) -> Result<CpuState, Fault> {
    if ins is Rand && ins.wf() {
        match step(s, ins, next_byte(s)) {
            Ok(t) => Ok(CpuState { drawn: s.drawn + 1, ..t }),
            Err(e) => Err(e),
        }
    } else {
        step(s, ins, 0)
    }
}

/// The state after the word `w` runs on `s`; a word that does not decode is skipped.
pub open spec fn run_word(s: CpuState, w: u16) -> Result<CpuState, Fault> {
    match instr_of(w) {
        Ok(ins) => exec(s, ins),
        Err(_) => Ok(hop(s)),
    }
}

/// The big-endian word at the program counter.
pub open spec fn fetch(s: CpuState) -> u16 {
    (s.memory.bytes[s.pc as int] * 256 + s.memory.bytes[s.pc + 1]) as u16
}

/// One fetch-decode-execute cycle on `s`.
pub open spec fn cycle(s: CpuState) -> Result<CpuState, Fault> {
    if s.pc + INSTRUCTION_SIZE > CHIP8_RAM {
        Err(Fault::OutOfBounds)
    } else {
        run_word(s, fetch(s))
    }
}

/// The outcome of running `ins` on the state that `r` holds, if it holds one.
pub open spec fn then(r: Result<CpuState, Fault>, ins: Instr) -> Result<CpuState, Fault> {
    match r {
        Ok(s) => exec(s, ins),
        Err(e) => Err(e),
    }
}

/// The outcome of running `ins` in order on the state that `r` holds.
pub open spec fn run_all(r: Result<CpuState, Fault>, ins: Seq<Instr>) -> Result<CpuState, Fault>
    decreases ins.len(),
{
    if ins.len() == 0 {
        r
    } else {
        then(run_all(r, ins.drop_last()), ins.last())
    }
}

/// A call to each address of `addrs`, in order.
pub open spec fn calls(addrs: Seq<u16>) -> Seq<Instr> {
    Seq::new(addrs.len(), |i: int| Instr::FnCall(addrs[i]))
}

/// `j` returns.
pub open spec fn return_steps(j: nat) -> Seq<Instr> {
    Seq::new(j, |i: int| Instr::Return)
}

/// `n` fetch-decode-execute cycles on `s`, stopping at the first fault.
pub open spec fn cycles(s: CpuState, n: nat) -> Result<CpuState, Fault>
    decreases n,
{
    if n == 0 {
        Ok(s)
    } else {
        match cycle(s) {
            Ok(t) => cycles(t, (n - 1) as nat),
            Err(e) => Err(e),
        }
    }
}

/// Loading `kk1` into `Vx` and then adding `kk2` to it leaves
/// `(kk1 + kk2) mod 256` in `Vx`, and `1` in `VF` exactly when the sum exceeds
/// 255. `VF` itself is left out as `Vx`: there the flag overwrites the sum.
pub proof fn lemma_load_then_add(s: CpuState, x: Reg, kk1: u8, kk2: u8)
    requires
        state_wf(s),
        x.wf(),
        x.0 != FLAG,
    ensures
        then(exec(s, Instr::LoadImm(x, kk1)), Instr::AddImm(x, kk2)) is Ok,
        ({
            let t = then(exec(s, Instr::LoadImm(x, kk1)), Instr::AddImm(x, kk2))->Ok_0;
            &&& t.v[x.idx()] == (kk1 + kk2) % 256
            &&& t.v[FLAG as int] == 1 <==> kk1 + kk2 > 255
            &&& t.v[FLAG as int] == 0 <==> kk1 + kk2 <= 255
        }),
{
}

/// A call followed by a return puts the program counter on the instruction
/// after the call and leaves everything else, the call stack included, as it
/// was.
pub proof fn lemma_call_return(s: CpuState, a: u16)
    requires
        state_wf(s),
        a < 0x1000,
        s.memory.stack.len() < CALLSTACK_DEPTH,
    ensures
        exec(s, Instr::FnCall(a)) is Ok,
        exec(s, Instr::FnCall(a))->Ok_0.pc == a,
        then(exec(s, Instr::FnCall(a)), Instr::Return) == Ok::<CpuState, Fault>(hop(s)),
{
    let t = exec(s, Instr::FnCall(a))->Ok_0;
    assert(t.memory.stack.drop_last() =~= s.memory.stack);
}

/// The state after the first `m` calls of `addrs`, made from `s`, differs from
/// `s` in the program counter, the last call's target, and in the `m` return
/// addresses saved on the call stack, each the address after its call.
proof fn lemma_call_prefix(s: CpuState, addrs: Seq<u16>, m: int)
    requires
        state_wf(s),
        s.memory.stack.len() + addrs.len() <= CALLSTACK_DEPTH,
        forall|i: int| 0 <= i < addrs.len() ==> #[trigger] addrs[i] < 0x1000,
        0 <= m <= addrs.len(),
    ensures
        run_all(Ok(s), calls(addrs.subrange(0, m))) is Ok,
        ({
            let c = run_all(Ok(s), calls(addrs.subrange(0, m)))->Ok_0;
            &&& state_wf(c)
            &&& c.memory.stack.len() == s.memory.stack.len() + m
            &&& c == (CpuState { pc: c.pc, memory: MemoryState { stack: c.memory.stack, ..s.memory }, ..s })
            &&& m == 0 ==> c == s
            &&& m > 0 ==> {
                let p = run_all(Ok(s), calls(addrs.subrange(0, m - 1)))->Ok_0;
                &&& c.pc == addrs[m - 1]
                &&& c.memory.stack == p.memory.stack.push(pc_plus(p.pc, INSTRUCTION_SIZE as int) as usize)
            }
        }),
    decreases m,
{
    if m == 0 {
        assert(calls(addrs.subrange(0, 0)) =~= Seq::<Instr>::empty());
    } else {
        lemma_call_prefix(s, addrs, m - 1);
        assert(calls(addrs.subrange(0, m)).drop_last() =~= calls(addrs.subrange(0, m - 1)));
        assert(calls(addrs.subrange(0, m)).last() == Instr::FnCall(addrs[m - 1]));
        let p = run_all(Ok(s), calls(addrs.subrange(0, m - 1)))->Ok_0;
        let c = run_all(Ok(s), calls(addrs.subrange(0, m)))->Ok_0;
        assert(c.memory.stack == p.memory.stack.push(pc_plus(p.pc, INSTRUCTION_SIZE as int) as usize));
        assert forall|i: int| 0 <= i < c.memory.stack.len() implies #[trigger] c.memory.stack[i] < 0x10000 by {
            if i < p.memory.stack.len() {
                assert(c.memory.stack[i] == p.memory.stack[i]);
            }
        }
    }
}

/// A return from the state after `m` calls, wherever the program counter then
/// stands, resumes just after the `m`-th call, in the state from before it.
proof fn lemma_return_after_calls(s: CpuState, addrs: Seq<u16>, m: int, pc: u16)
    requires
        state_wf(s),
        s.memory.stack.len() + addrs.len() <= CALLSTACK_DEPTH,
        forall|i: int| 0 <= i < addrs.len() ==> #[trigger] addrs[i] < 0x1000,
        1 <= m <= addrs.len(),
    ensures
        exec(CpuState { pc, ..run_all(Ok(s), calls(addrs.subrange(0, m)))->Ok_0 }, Instr::Return)
            == Ok::<CpuState, Fault>(hop(run_all(Ok(s), calls(addrs.subrange(0, m - 1)))->Ok_0)),
{
    lemma_call_prefix(s, addrs, m);
    lemma_call_prefix(s, addrs, m - 1);
    let p = run_all(Ok(s), calls(addrs.subrange(0, m - 1)))->Ok_0;
    let c = run_all(Ok(s), calls(addrs.subrange(0, m)))->Ok_0;
    assert(c.memory.stack.drop_last() =~= p.memory.stack);
}

/// Calls nest last in, first out. After calls to `addrs[0]`, ..., `addrs[k-1]`,
/// each made from where the previous one went, and then `j` returns, the
/// engine stands just after the `(k-j+1)`-th call, in the state from before
/// that call: registers, memory and the rest unchanged, the call stack as it
/// was then. After `k` returns it is on the instruction after the first call,
/// with everything else as at the start.
pub proof fn lemma_call_chain(s: CpuState, addrs: Seq<u16>, j: int)
    requires
        state_wf(s),
        s.memory.stack.len() + addrs.len() <= CALLSTACK_DEPTH,
        forall|i: int| 0 <= i < addrs.len() ==> #[trigger] addrs[i] < 0x1000,
        1 <= j <= addrs.len(),
    ensures
        run_all(Ok(s), calls(addrs) + return_steps(j as nat))
            == Ok::<CpuState, Fault>(hop(run_all(Ok(s), calls(addrs.subrange(0, addrs.len() - j)))->Ok_0)),
        run_all(Ok(s), calls(addrs) + return_steps(j as nat))->Ok_0.pc == if j == addrs.len() {
            pc_plus(s.pc, INSTRUCTION_SIZE as int)
        } else {
            pc_plus(addrs[addrs.len() - j - 1], INSTRUCTION_SIZE as int)
        },
        run_all(Ok(s), calls(addrs) + return_steps(j as nat))->Ok_0.v == s.v,
        j == addrs.len() ==> run_all(Ok(s), calls(addrs) + return_steps(j as nat)) == Ok::<CpuState, Fault>(hop(s)),
    decreases j,
{
    let k = addrs.len() as int;
    let seq_j = calls(addrs) + return_steps(j as nat);
    let seq_prev = calls(addrs) + return_steps((j - 1) as nat);
    assert(seq_j.drop_last() =~= seq_prev);
    assert(seq_j.last() == Instr::Return);
    assert(addrs.subrange(0, k) =~= addrs);
    if j == 1 {
        assert(seq_prev =~= calls(addrs));
        let c = run_all(Ok(s), calls(addrs.subrange(0, k)))->Ok_0;
        lemma_call_prefix(s, addrs, k);
        lemma_return_after_calls(s, addrs, k, c.pc);
        assert(c == (CpuState { pc: c.pc, ..c }));
    } else {
        lemma_call_chain(s, addrs, j - 1);
        let c = run_all(Ok(s), calls(addrs.subrange(0, k - j + 1)))->Ok_0;
        lemma_return_after_calls(s, addrs, k - j + 1, pc_plus(c.pc, INSTRUCTION_SIZE as int));
    }
    lemma_call_prefix(s, addrs, k - j);
    if j < k {
        lemma_call_prefix(s, addrs, k - j - 1);
    }
}

/// With no key held, a cycle on a wait-for-key instruction leaves the whole
/// state, the program counter included, unchanged, however often it repeats.
pub proof fn lemma_wait_without_key(s: CpuState, x: Reg, n: nat)
    requires
        state_wf(s),
        s.pc + INSTRUCTION_SIZE <= CHIP8_RAM,
        instr_of(fetch(s)) == Ok::<Instr, DecodeError>(Instr::WaitKey(x)),
        s.key is None,
    ensures
        cycle(s) == Ok::<CpuState, Fault>(s),
        cycles(s, n) == Ok::<CpuState, Fault>(s),
    decreases n,
{
    Opcode::lemma_decoded_wf(fetch(s));
    if n > 0 {
        lemma_wait_without_key(s, x, (n - 1) as nat);
    }
}

/// With a key held, a cycle on a wait-for-key instruction stores the key's
/// ordinal in the destination register and moves to the next instruction.
pub proof fn lemma_wait_with_key(s: CpuState, x: Reg, k: ChipKey)
    requires
        state_wf(s),
        s.pc + INSTRUCTION_SIZE <= CHIP8_RAM,
        instr_of(fetch(s)) == Ok::<Instr, DecodeError>(Instr::WaitKey(x)),
        s.key == Some(k),
    ensures
        cycle(s) == Ok::<CpuState, Fault>(
            CpuState { pc: pc_plus(s.pc, INSTRUCTION_SIZE as int), v: s.v.update(x.idx(), k.spec_ordinal()), ..s },
        ),
{
    Opcode::lemma_decoded_wf(fetch(s));
}

/// How a step moves the program counter.
enum PcResult {
    Wait,
    Hop,
    Skip,
    Jump(u16),
}

/// The first `n` bytes of `v`.
fn prefix(v: &Vec<u8>, n: usize) -> (r: Vec<u8>)
    requires
        n <= v@.len(),
    ensures
        r@ == v@.subrange(0, n as int),
{
    let mut r: Vec<u8> = Vec::new();
    let mut i: usize = 0;
    while i < n
        invariant
            n <= v@.len(),
            i <= n,
            r@ == v@.subrange(0, i as int),
        decreases n - i,
    {
        r.push(v[i]);
        i = i + 1;
    }
    r
}

/// Writes `src` over the start of `dst`.
fn copy_into(dst: &mut Vec<u8>, src: &Vec<u8>)
    requires
        src@.len() <= old(dst)@.len(),
    ensures
        final(dst)@ == overwrite(old(dst)@, 0, src@),
{
    let mut i: usize = 0;
    while i < src.len()
        invariant
            src@.len() <= dst@.len(),
            dst@.len() == old(dst)@.len(),
            i <= src@.len(),
            dst@ == overwrite(old(dst)@, 0, src@.subrange(0, i as int)),
        decreases src@.len() - i,
    {
        dst.set(i, src[i]);
        i = i + 1;
        assert(dst@ =~= overwrite(old(dst)@, 0, src@.subrange(0, i as int)));
    }
    assert(src@.subrange(0, src@.len() as int) =~= src@);
}

/// The execution engine.
pub struct Cpu {
    pc: u16,
    ri: u16,
    v: Vec<u8>,
    dt: u8,
    st: u8,
    memory: Memory,
    keypad: Keypad,
    graphics: Graphics,
    random: SeededRng,
    increment_index: bool,
}

impl View for Cpu {
    type V = CpuState;

    closed spec fn view(&self) -> CpuState {
        CpuState {
            pc: self.pc,
            ri: self.ri,
            v: self.v@,
            dt: self.dt,
            st: self.st,
            memory: self.memory@,
            display: self.graphics@,
            key: self.keypad@,
            increment_index: self.increment_index,
            seed: self.random.seed(),
            drawn: self.random.drawn(),
        }
    }
}

impl Cpu {
    /// The engine's parts have their sizes and its saved addresses fit the program counter.
    pub open spec fn wf(&self) -> bool {
        state_wf(self@)
    }

    /// An engine at the program start, with zeroed registers and timers, a
    /// blank display, and a random generator seeded with `seed`.
    pub fn new(memory: Memory, keypad: Keypad, seed: u64) -> (r: Self)
        requires
            memory.wf(),
            forall|i: int| 0 <= i < memory@.stack.len() ==> #[trigger] memory@.stack[i] < 0x10000,
        ensures
            r.wf(),
            r@ == (CpuState {
                pc: PROGRAM_START,
                ri: 0,
                v: Seq::new(16, |i: int| 0u8),
                dt: 0,
                st: 0,
                memory: memory@,
                display: blank(),
                key: keypad@,
                increment_index: false,
                seed,
                drawn: 0,
            }),
    {
        let v: Vec<u8> = vec![0; 16];
        assert(v@ =~= Seq::new(16, |i: int| 0u8));
        Cpu {
            pc: PROGRAM_START,
            ri: 0,
            v,
            dt: 0,
            st: 0,
            memory,
            keypad,
            graphics: Graphics::new(),
            random: SeededRng::from_seed(seed),
            increment_index: false,
        }
    }

    fn next_pc(pc: u16, result: PcResult) -> (r: u16)
        ensures
            result is Wait ==> r == pc,
            result is Hop ==> r == pc_plus(pc, INSTRUCTION_SIZE as int),
            result is Skip ==> r == pc_plus(pc, 2 * INSTRUCTION_SIZE as int),
            result is Jump ==> r == result->Jump_0,
    {
        match result {
            PcResult::Wait => pc,
            PcResult::Hop => ((pc as u32 + INSTRUCTION_SIZE as u32) % 0x10000) as u16,
            PcResult::Skip => ((pc as u32 + 2 * INSTRUCTION_SIZE as u32) % 0x10000) as u16,
            PcResult::Jump(dest) => dest,
        }
    }

    fn skip_with_condition(condition: bool) -> (r: PcResult)
        ensures
            condition ==> r is Skip,
            !condition ==> r is Hop,
    {
        if condition {
            return PcResult::Skip;
        }
        PcResult::Hop
    }

    /// Whether the key whose ordinal `Vx` holds is held.
    fn check_key(&self, x: Reg) -> (r: bool)
        requires
            self.wf(),
            x.wf(),
        ensures
            r == key_held(self@.key, self@.v[x.idx()]),
    {
        match ChipKey::from_byte(self.v[x.0 as usize]) {
            Some(key) => {
                proof {
                    if self@.key is Some {
                        lemma_ordinal_injective(self@.key->0, key);
                    }
                }
                self.keypad.is_pressed(key)
            },
            None => false,
        }
    }

    /// Runs `instr` with `random` as the byte that a random instruction draws.
    #[verifier::rlimit(60)]
    pub fn execute_with_random(&mut self, instr: Instr, random: u8) -> (r: Result<(), Fault>)
        requires
            old(self).wf(),
        ensures
            final(self).wf(),
            outcome(old(self)@, step(old(self)@, instr, random), r, final(self)@),
    {
        if !instr.is_valid() {
            return Err(Fault::InvalidOperand);
        }
        let ri = self.ri as usize;
        let flow = match instr {
            Instr::LoadImm(..) | Instr::LoadReg(..) | Instr::AddImm(..) | Instr::AddReg(..)
            | Instr::AddCarryReg(..) | Instr::SubBorrowReg(..) | Instr::SubnBorrowReg(..)
            | Instr::OrReg(..) | Instr::AndReg(..) | Instr::XorReg(..) | Instr::ShrReg(..)
            | Instr::ShlReg(..) => {
                apply_alu(&mut self.v, instr);
                PcResult::Hop
            },
            Instr::SysCall(_) | Instr::LoadDigit(_) => PcResult::Hop,
            Instr::ClearScr => {
                self.graphics.clear();
                PcResult::Hop
            },
            Instr::Return => match self.memory.callstack_pop() {
                Some(address) => PcResult::Jump(address as u16),
                None => {
                    return Err(Fault::CallStackUnderflow);
                },
            },
            Instr::Jump(address) => PcResult::Jump(address),
            Instr::JumpOffset(address) => PcResult::Jump(address + self.v[0] as u16),
            Instr::FnCall(address) => {
                if self.memory.callstack_full() {
                    return Err(Fault::CallStackOverflow);
                }
                let back = Self::next_pc(self.pc, PcResult::Hop);
                self.memory.callstack_push(back as usize);
                PcResult::Jump(address)
            },
            Instr::SkipEqImm(x, kk) => Self::skip_with_condition(self.v[x.0 as usize] == kk),
            Instr::SkipNeImm(x, kk) => Self::skip_with_condition(self.v[x.0 as usize] != kk),
            Instr::SkipEqReg(x, y) => Self::skip_with_condition(
                self.v[x.0 as usize] == self.v[y.0 as usize],
            ),
            Instr::SkipNeReg(x, y) => Self::skip_with_condition(
                self.v[x.0 as usize] != self.v[y.0 as usize],
            ),
            Instr::SkipEqKey(x) => Self::skip_with_condition(self.check_key(x)),
            Instr::SkipNeKey(x) => Self::skip_with_condition(!self.check_key(x)),
            Instr::LoadAddr(address) => {
                self.ri = address;
                PcResult::Hop
            },
            Instr::AddAddr(x) => {
                self.ri = ((self.ri as u32 + self.v[x.0 as usize] as u32) % 0x10000) as u16;
                PcResult::Hop
            },
            Instr::Rand(x, kk) => {
                self.v.set(x.0 as usize, random & kk);
                PcResult::Hop
            },
            Instr::Draw(x, y, n) => {
                if ri + n as usize > CHIP8_RAM {
                    return Err(Fault::OutOfBounds);
                }
                let sprite = self.memory.load(ri, n as usize);
                let row = self.v[y.0 as usize] as usize;
                let col = self.v[x.0 as usize] as usize;
                let collision = self.graphics.draw_with_collision(row, col, sprite.as_slice());
                self.v.set(FLAG, if collision {
                    1
                } else {
                    0
                });
                PcResult::Hop
            },
            Instr::GetDelay(x) => {
                self.v.set(x.0 as usize, self.dt);
                PcResult::Hop
            },
            Instr::SetDelay(x) => {
                self.dt = self.v[x.0 as usize];
                PcResult::Hop
            },
            Instr::SetSound(x) => {
                self.st = self.v[x.0 as usize];
                PcResult::Hop
            },
            Instr::WaitKey(x) => match self.keypad.get_pressed() {
                Some(key) => {
                    self.v.set(x.0 as usize, key.to_byte());
                    PcResult::Hop
                },
                None => PcResult::Wait,
            },
            Instr::StoreBcd(x) => {
                if ri + 3 > CHIP8_RAM {
                    return Err(Fault::OutOfBounds);
                }
                let vx = self.v[x.0 as usize];
                let digits = vec![vx / 100, (vx / 10) % 10, vx % 10];
                assert(digits@ == bcd(vx));
                self.memory.store(ri, digits.as_slice());
                PcResult::Hop
            },
            Instr::StoreMem(x) => {
                let count = x.0 as usize + 1;
                if ri + count > CHIP8_RAM {
                    return Err(Fault::OutOfBounds);
                }
                let regs = prefix(&self.v, count);
                self.memory.store(ri, regs.as_slice());
                self.ri = self.index_after_transfer(x);
                PcResult::Hop
            },
            Instr::LoadMem(x) => {
                let count = x.0 as usize + 1;
                if ri + count > CHIP8_RAM {
                    return Err(Fault::OutOfBounds);
                }
                let regs = self.memory.load(ri, count);
                copy_into(&mut self.v, &regs);
                self.ri = self.index_after_transfer(x);
                PcResult::Hop
            },
        };
        self.pc = Self::next_pc(self.pc, flow);
        Ok(())
    }

    fn index_after_transfer(&self, x: Reg) -> (r: u16)
        requires
            x.wf(),
        ensures
            r == index_after(self@, x),
    {
        if self.increment_index {
            ((self.ri as u32 + x.0 as u32 + 1) % 0x10000) as u16
        } else {
            self.ri
        }
    }

    /// Runs `instr`. A random instruction with valid operands draws its byte
    /// from the engine's generator.
    pub fn execute(&mut self, instr: Instr) -> (r: Result<(), Fault>)
        requires
            old(self).wf(),
        ensures
            final(self).wf(),
            outcome(old(self)@, exec(old(self)@, instr), r, final(self)@),
    {
        let draws = match instr {
            Instr::Rand(..) => instr.is_valid(),
            _ => false,
        };
        if draws {
            let random = (self.random.next_u32() % 256) as u8;
            let r = self.execute_with_random(instr, random);
            assert(r is Ok);
            r
        } else {
            self.execute_with_random(instr, 0)
        }
    }

    /// Decodes `instruction` and runs it; a word that does not decode is
    /// skipped.
    pub fn decode_execute(&mut self, instruction: u16) -> (r: Result<(), Fault>)
        requires
            old(self).wf(),
        ensures
            final(self).wf(),
            outcome(old(self)@, run_word(old(self)@, instruction), r, final(self)@),
    {
        match Instr::decode(instruction) {
            Ok(instr) => self.execute(instr),
            Err(_) => {
                self.pc = Self::next_pc(self.pc, PcResult::Hop);
                Ok(())
            },
        }
    }

    /// One fetch-decode-execute cycle: runs the big-endian word at the program
    /// counter.
    pub fn tick(&mut self) -> (r: Result<(), Fault>)
        requires
            old(self).wf(),
        ensures
            final(self).wf(),
            outcome(old(self)@, cycle(old(self)@), r, final(self)@),
    {
        let pc = self.pc as usize;
        if pc + INSTRUCTION_SIZE as usize > CHIP8_RAM {
            return Err(Fault::OutOfBounds);
        }
        let bytes = self.memory.load(pc, INSTRUCTION_SIZE as usize);
        let instruction = (bytes[0] as u16) * 256 + bytes[1] as u16;
        assert(instruction == fetch(self@));
        self.decode_execute(instruction)
    }

    /// Replaces the random generator by one seeded with `seed`.
    pub fn reseed(&mut self, seed: u64)
        ensures
            final(self)@ == (CpuState { seed, drawn: 0, ..old(self)@ }),
    {
        self.random = SeededRng::from_seed(seed);
    }

    /// Sets whether the block store and load advance the index register past
    /// the block.
    pub fn set_index_increment(&mut self, on: bool)
        ensures
            final(self)@ == (CpuState { increment_index: on, ..old(self)@ }),
    {
        self.increment_index = on;
    }

    /// The program counter.
    pub fn pc(&self) -> (r: u16)
        ensures
            r == self@.pc,
    {
        self.pc
    }

    /// The index register `I`.
    pub fn index(&self) -> (r: u16)
        ensures
            r == self@.ri,
    {
        self.ri
    }

    /// Sets the index register `I`.
    pub fn set_index(&mut self, value: u16)
        ensures
            final(self)@ == (CpuState { ri: value, ..old(self)@ }),
    {
        self.ri = value;
    }

    /// The register `Vx`.
    pub fn register(&self, x: usize) -> (r: u8)
        requires
            self.wf(),
            x < 16,
        ensures
            r == self@.v[x as int],
    {
        self.v[x]
    }

    /// Sets the register `Vx`.
    pub fn set_register(&mut self, x: usize, value: u8)
        requires
            old(self).wf(),
            x < 16,
        ensures
            final(self).wf(),
            final(self)@ == (CpuState { v: old(self)@.v.update(x as int, value), ..old(self)@ }),
    {
        self.v.set(x, value);
    }

    /// The delay timer.
    pub fn delay_timer(&self) -> (r: u8)
        ensures
            r == self@.dt,
    {
        self.dt
    }

    /// Sets the delay timer, as the host does when it counts it down.
    pub fn set_delay_timer(&mut self, value: u8)
        ensures
            final(self)@ == (CpuState { dt: value, ..old(self)@ }),
    {
        self.dt = value;
    }

    /// The sound timer; a tone sounds while it is not zero.
    pub fn sound_timer(&self) -> (r: u8)
        ensures
            r == self@.st,
    {
        self.st
    }

    /// Sets the sound timer, as the host does when it counts it down.
    pub fn set_sound_timer(&mut self, value: u8)
        ensures
            final(self)@ == (CpuState { st: value, ..old(self)@ }),
    {
        self.st = value;
    }

    /// The memory.
    pub fn memory(&self) -> (r: &Memory)
        ensures
            r@ == self@.memory,
    {
        &self.memory
    }

    /// Writes `data` into memory from `offset` on, as a program loader does.
    pub fn store_memory(&mut self, offset: usize, data: &[u8])
        requires
            old(self).wf(),
            offset + data@.len() <= CHIP8_RAM,
        ensures
            final(self).wf(),
            final(self)@ == (CpuState {
                memory: MemoryState { bytes: overwrite(old(self)@.memory.bytes, offset as int, data@), ..old(self)@.memory },
                ..old(self)@
            }),
    {
        self.memory.store(offset, data);
    }

    /// The display.
    pub fn graphics(&self) -> (r: &Graphics)
        ensures
            r@ == self@.display,
    {
        &self.graphics
    }

    /// Holds `key` on the keypad, releasing any key held before.
    pub fn press_key(&mut self, key: ChipKey)
        ensures
            final(self)@ == (CpuState { key: Some(key), ..old(self)@ }),
    {
        self.keypad.press(key);
    }

    /// Releases the key held on the keypad.
    pub fn release_key(&mut self)
        ensures
            final(self)@ == (CpuState { key: None, ..old(self)@ }),
    {
        self.keypad.release();
    }
}

} // verus!
