//! Register-to-register arithmetic and logic, shared by the engines.
//!
//! `VF` is the flag register: an instruction that sets a flag writes its result
//! first and the flag after it, so when the destination is `VF` the flag wins.
use vstd::arithmetic::div_mod::lemma_mod_add_multiples_vanish;
use vstd::prelude::*;

use crate::instr::{Instr, Reg};

verus! {

/// Index of the flag register `VF`.
pub const FLAG: usize = 0xF;

/// Whether shifts read their operand from `Vy` rather than from `Vx`. The
/// COSMAC VIP read `Vy`; later interpreters read `Vx`, as this one does.
pub const SHIFT_READS_VY: bool = false;

/// `1` for true, `0` for false.
pub open spec fn flag_byte(b: bool) -> u8 {
    if b {
        1
    } else {
        0
    }
}

/// `(a + b) mod 256`.
pub open spec fn add_result(a: u8, b: u8) -> u8 {
    ((a + b) % 256) as u8
}

/// Whether `a + b` carries out of eight bits.
pub open spec fn add_carry(a: u8, b: u8) -> bool {
    a + b > 255
}

/// `(a - b) mod 256`.
pub open spec fn sub_result(a: u8, b: u8) -> u8 {
    ((a - b) % 256) as u8
}

/// Whether `a - b` needs no borrow.
pub open spec fn sub_no_borrow(a: u8, b: u8) -> bool {
    a >= b
}

/// The register that a shift of `Vx` by way of `Vy` reads.
pub open spec fn shift_source(x: Reg, y: Reg) -> Reg {
    if SHIFT_READS_VY {
        y
    } else {
        x
    }
}

/// `v` with `Vx` set to `r` and then `VF` set to `f`.
pub open spec fn with_flag(v: Seq<u8>, x: Reg, r: u8, f: bool) -> Seq<u8> {
    v.update(x.idx(), r).update(FLAG as int, flag_byte(f))
}

/// Whether `ins` only reads and writes registers.
pub open spec fn is_alu(ins: Instr) -> bool {
    match ins {
        Instr::LoadImm(..) | Instr::LoadReg(..) | Instr::AddImm(..) | Instr::AddReg(..)
        | Instr::AddCarryReg(..) | Instr::SubBorrowReg(..) | Instr::SubnBorrowReg(..)
        | Instr::OrReg(..) | Instr::AndReg(..) | Instr::XorReg(..) | Instr::ShrReg(..)
        | Instr::ShlReg(..) => true,
        _ => false,
    }
}

/// The registers `v` after the register instruction `ins`.
pub open spec fn alu_result(v: Seq<u8>, ins: Instr) -> Seq<u8> {
    match ins {
        Instr::LoadImm(x, kk) => v.update(x.idx(), kk),
        Instr::LoadReg(x, y) => v.update(x.idx(), v[y.idx()]),
        Instr::AddImm(x, kk) => with_flag(v, x, add_result(v[x.idx()], kk), add_carry(v[x.idx()], kk)),
        Instr::AddReg(x, y) | Instr::AddCarryReg(x, y) => with_flag(
            v,
            x,
            add_result(v[x.idx()], v[y.idx()]),
            add_carry(v[x.idx()], v[y.idx()]),
        ),
        Instr::SubBorrowReg(x, y) => with_flag(
            v,
            x,
            sub_result(v[x.idx()], v[y.idx()]),
            sub_no_borrow(v[x.idx()], v[y.idx()]),
        ),
        Instr::SubnBorrowReg(x, y) => with_flag(
            v,
            x,
            sub_result(v[y.idx()], v[x.idx()]),
            sub_no_borrow(v[y.idx()], v[x.idx()]),
        ),
        Instr::OrReg(x, y) => v.update(x.idx(), v[x.idx()] | v[y.idx()]),
        Instr::AndReg(x, y) => v.update(x.idx(), v[x.idx()] & v[y.idx()]),
        Instr::XorReg(x, y) => v.update(x.idx(), v[x.idx()] ^ v[y.idx()]),
        Instr::ShrReg(x, y) => {
            let a = v[shift_source(x, y).idx()];
            with_flag(v, x, a / 2, a % 2 == 1)
        },
        Instr::ShlReg(x, y) => {
            let a = v[shift_source(x, y).idx()];
            with_flag(v, x, ((a * 2) % 256) as u8, a >= 0x80)
        },
        _ => v,
    }
}

/// `(a + b) mod 256`, and whether the sum carries.
pub fn add_with_overflow(a: u8, b: u8) -> (r: (u8, bool))
    ensures
        r == (add_result(a, b), add_carry(a, b)),
{
    let value = a as u16 + b as u16;
    ((value % 256) as u8, value > 0xFF)
}

/// `(a - b) mod 256`, and whether the difference needs no borrow.
pub fn sub_with_underflow(a: u8, b: u8) -> (r: (u8, bool))
    ensures
        r == (sub_result(a, b), sub_no_borrow(a, b)),
{
    proof {
        lemma_mod_add_multiples_vanish(a - b, 256);
    }
    let value = a as u16 + 256 - b as u16;
    ((value % 256) as u8, a >= b)
}

/// Writes `r` to `Vx` and then the flag `f` to `VF`.
fn set_with_flag(v: &mut Vec<u8>, x: Reg, r: u8, f: bool)
    requires
        old(v)@.len() == 16,
        x.wf(),
    ensures
        final(v)@ == with_flag(old(v)@, x, r, f),
{
    v.set(x.0 as usize, r);
    v.set(FLAG, if f {
        1
    } else {
        0
    });
}

/// Applies the register instruction `ins` to the registers `v`.
pub fn apply_alu(v: &mut Vec<u8>, ins: Instr)
    requires
        old(v)@.len() == 16,
        is_alu(ins),
        ins.wf(),
    ensures
        final(v)@ == alu_result(old(v)@, ins),
        final(v)@.len() == 16,
{
    match ins {
        Instr::LoadImm(x, kk) => v.set(x.0 as usize, kk),
        Instr::LoadReg(x, y) => {
            let b = v[y.0 as usize];
            v.set(x.0 as usize, b);
        },
        Instr::AddImm(x, kk) => {
            let (r, f) = add_with_overflow(v[x.0 as usize], kk);
            set_with_flag(v, x, r, f);
        },
        Instr::AddReg(x, y) | Instr::AddCarryReg(x, y) => {
            let (r, f) = add_with_overflow(v[x.0 as usize], v[y.0 as usize]);
            set_with_flag(v, x, r, f);
        },
        Instr::SubBorrowReg(x, y) => {
            let (r, f) = sub_with_underflow(v[x.0 as usize], v[y.0 as usize]);
            set_with_flag(v, x, r, f);
        },
        Instr::SubnBorrowReg(x, y) => {
            let (r, f) = sub_with_underflow(v[y.0 as usize], v[x.0 as usize]);
            set_with_flag(v, x, r, f);
        },
        Instr::OrReg(x, y) => {
            let b = v[x.0 as usize] | v[y.0 as usize];
            v.set(x.0 as usize, b);
        },
        Instr::AndReg(x, y) => {
            let b = v[x.0 as usize] & v[y.0 as usize];
            v.set(x.0 as usize, b);
        },
        Instr::XorReg(x, y) => {
            let b = v[x.0 as usize] ^ v[y.0 as usize];
            v.set(x.0 as usize, b);
        },
        Instr::ShrReg(x, y) => {
            let src = if SHIFT_READS_VY {
                y
            } else {
                x
            };
            let a = v[src.0 as usize];
            set_with_flag(v, x, a / 2, a % 2 == 1);
        },
        Instr::ShlReg(x, y) => {
            let src = if SHIFT_READS_VY {
                y
            } else {
                x
            };
            let a = v[src.0 as usize];
            set_with_flag(v, x, ((a as u16 * 2) % 256) as u8, a >= 0x80);
        },
        _ => {},
    }
}

} // verus!
