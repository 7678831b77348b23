//! The instruction set as executed by the engine: one variant per instruction,
//! with typed operands.
use vstd::prelude::*;

use crate::opcode::{opcode_of, DecodeError, Opcode};

verus! {

/// A register index, `V0` to `VF`.
#[derive(Clone, Copy, PartialEq, Eq, Structural, Debug)]
pub struct Reg(pub u8);

impl Reg {
    /// The index names one of the sixteen registers.
    pub open spec fn wf(self) -> bool {
        self.0 < 16
    }

    /// The index as an integer.
    pub open spec fn idx(self) -> int {
        self.0 as int
    }
}

/// One instruction with its operands.
#[derive(Clone, Copy, PartialEq, Eq, Structural, Debug)]
pub enum Instr {
    SysCall(u16),
    ClearScr,
    Return,
    Jump(u16),
    JumpOffset(u16),
    FnCall(u16),
    SkipEqImm(Reg, u8),
    SkipNeImm(Reg, u8),
    SkipEqReg(Reg, Reg),
    SkipNeReg(Reg, Reg),
    SkipEqKey(Reg),
    SkipNeKey(Reg),
    LoadImm(Reg, u8),
    LoadReg(Reg, Reg),
    AddImm(Reg, u8),
    AddReg(Reg, Reg),
    AddCarryReg(Reg, Reg),
    SubBorrowReg(Reg, Reg),
    SubnBorrowReg(Reg, Reg),
    OrReg(Reg, Reg),
    AndReg(Reg, Reg),
    XorReg(Reg, Reg),
    ShrReg(Reg, Reg),
    ShlReg(Reg, Reg),
    LoadAddr(u16),
    AddAddr(Reg),
    Rand(Reg, u8),
    Draw(Reg, Reg, u8),
    GetDelay(Reg),
    SetDelay(Reg),
    SetSound(Reg),
    WaitKey(Reg),
    LoadDigit(Reg),
    StoreBcd(Reg),
    StoreMem(Reg),
    LoadMem(Reg),
}

/// The instruction for a well-formed opcode.
pub open spec fn to_instr(op: Opcode) -> Instr {
    match op {
        Opcode::OP_00E0 {  } => Instr::ClearScr,
        Opcode::OP_00EE {  } => Instr::Return,
        Opcode::OP_0nnn { nnn } => Instr::SysCall(nnn as u16),
        Opcode::OP_1nnn { nnn } => Instr::Jump(nnn as u16),
        Opcode::OP_2nnn { nnn } => Instr::FnCall(nnn as u16),
        Opcode::OP_3xkk { x, kk } => Instr::SkipEqImm(Reg(x as u8), kk),
        Opcode::OP_4xkk { x, kk } => Instr::SkipNeImm(Reg(x as u8), kk),
        Opcode::OP_5xy0 { x, y } => Instr::SkipEqReg(Reg(x as u8), Reg(y as u8)),
        Opcode::OP_6xkk { x, kk } => Instr::LoadImm(Reg(x as u8), kk),
        Opcode::OP_7xkk { x, kk } => Instr::AddImm(Reg(x as u8), kk),
        Opcode::OP_8xy0 { x, y } => Instr::LoadReg(Reg(x as u8), Reg(y as u8)),
        Opcode::OP_8xy1 { x, y } => Instr::OrReg(Reg(x as u8), Reg(y as u8)),
        Opcode::OP_8xy2 { x, y } => Instr::AndReg(Reg(x as u8), Reg(y as u8)),
        Opcode::OP_8xy3 { x, y } => Instr::XorReg(Reg(x as u8), Reg(y as u8)),
        Opcode::OP_8xy4 { x, y } => Instr::AddReg(Reg(x as u8), Reg(y as u8)),
        Opcode::OP_8xy5 { x, y } => Instr::SubBorrowReg(Reg(x as u8), Reg(y as u8)),
        Opcode::OP_8xy6 { x, y } => Instr::ShrReg(Reg(x as u8), Reg(y as u8)),
        Opcode::OP_8xy7 { x, y } => Instr::SubnBorrowReg(Reg(x as u8), Reg(y as u8)),
        Opcode::OP_8xyE { x, y } => Instr::ShlReg(Reg(x as u8), Reg(y as u8)),
        Opcode::OP_9xy0 { x, y } => Instr::SkipNeReg(Reg(x as u8), Reg(y as u8)),
        Opcode::OP_Annn { nnn } => Instr::LoadAddr(nnn as u16),
        Opcode::OP_Bnnn { nnn } => Instr::JumpOffset(nnn as u16),
        Opcode::OP_Cxkk { x, kk } => Instr::Rand(Reg(x as u8), kk),
        Opcode::OP_Dxyn { x, y, n } => Instr::Draw(Reg(x as u8), Reg(y as u8), n as u8),
        Opcode::OP_Ex9E { x } => Instr::SkipEqKey(Reg(x as u8)),
        Opcode::OP_ExA1 { x } => Instr::SkipNeKey(Reg(x as u8)),
        Opcode::OP_Fx07 { x } => Instr::GetDelay(Reg(x as u8)),
        Opcode::OP_Fx0A { x } => Instr::WaitKey(Reg(x as u8)),
        Opcode::OP_Fx15 { x } => Instr::SetDelay(Reg(x as u8)),
        Opcode::OP_Fx18 { x } => Instr::SetSound(Reg(x as u8)),
        Opcode::OP_Fx1E { x } => Instr::AddAddr(Reg(x as u8)),
        Opcode::OP_Fx29 { x } => Instr::LoadDigit(Reg(x as u8)),
        Opcode::OP_Fx33 { x } => Instr::StoreBcd(Reg(x as u8)),
        Opcode::OP_Fx55 { x } => Instr::StoreMem(Reg(x as u8)),
        Opcode::OP_Fx65 { x } => Instr::LoadMem(Reg(x as u8)),
    }
}

/// The instruction that `w` encodes, or why it encodes none.
pub open spec fn instr_of(w: u16) -> Result<Instr, DecodeError> {
    match opcode_of(w) {
        Ok(op) => Ok(to_instr(op)),
        Err(e) => Err(e),
    }
}

impl Instr {
    /// Every operand lies in the range of its encoding: registers below 16,
    /// addresses below 0x1000, sprite lengths below 16.
    pub open spec fn wf(self) -> bool {
        match self {
            Instr::SysCall(a) | Instr::Jump(a) | Instr::JumpOffset(a) | Instr::FnCall(a)
            | Instr::LoadAddr(a) => a < 0x1000,
            Instr::ClearScr | Instr::Return => true,
            Instr::SkipEqImm(x, _) | Instr::SkipNeImm(x, _) | Instr::LoadImm(x, _)
            | Instr::AddImm(x, _) | Instr::Rand(x, _) => x.wf(),
            Instr::SkipEqReg(x, y) | Instr::SkipNeReg(x, y) | Instr::LoadReg(x, y)
            | Instr::AddReg(x, y) | Instr::AddCarryReg(x, y) | Instr::SubBorrowReg(x, y)
            | Instr::SubnBorrowReg(x, y) | Instr::OrReg(x, y) | Instr::AndReg(x, y)
            | Instr::XorReg(x, y) | Instr::ShrReg(x, y) | Instr::ShlReg(x, y) => x.wf() && y.wf(),
            Instr::Draw(x, y, n) => x.wf() && y.wf() && n < 16,
            Instr::SkipEqKey(x) | Instr::SkipNeKey(x) | Instr::AddAddr(x) | Instr::GetDelay(x)
            | Instr::SetDelay(x) | Instr::SetSound(x) | Instr::WaitKey(x) | Instr::LoadDigit(x)
            | Instr::StoreBcd(x) | Instr::StoreMem(x) | Instr::LoadMem(x) => x.wf(),
        }
    }

    /// Whether every operand lies in the range of its encoding.
    pub fn is_valid(&self) -> (r: bool)
        ensures
            r == self.wf(),
    {
        match *self {
            Instr::SysCall(a) | Instr::Jump(a) | Instr::JumpOffset(a) | Instr::FnCall(a)
            | Instr::LoadAddr(a) => a < 0x1000,
            Instr::ClearScr | Instr::Return => true,
            Instr::SkipEqImm(x, _) | Instr::SkipNeImm(x, _) | Instr::LoadImm(x, _)
            | Instr::AddImm(x, _) | Instr::Rand(x, _) => x.0 < 16,
            Instr::SkipEqReg(x, y) | Instr::SkipNeReg(x, y) | Instr::LoadReg(x, y)
            | Instr::AddReg(x, y) | Instr::AddCarryReg(x, y) | Instr::SubBorrowReg(x, y)
            | Instr::SubnBorrowReg(x, y) | Instr::OrReg(x, y) | Instr::AndReg(x, y)
            | Instr::XorReg(x, y) | Instr::ShrReg(x, y) | Instr::ShlReg(x, y) => x.0 < 16 && y.0 < 16,
            Instr::Draw(x, y, n) => x.0 < 16 && y.0 < 16 && n < 16,
            Instr::SkipEqKey(x) | Instr::SkipNeKey(x) | Instr::AddAddr(x) | Instr::GetDelay(x)
            | Instr::SetDelay(x) | Instr::SetSound(x) | Instr::WaitKey(x) | Instr::LoadDigit(x)
            | Instr::StoreBcd(x) | Instr::StoreMem(x) | Instr::LoadMem(x) => x.0 < 16,
        }
    }

    /// The instruction for a decoded opcode.
    pub fn from_opcode(op: Opcode) -> (r: Instr)
        requires
            op.wf(),
        ensures
            r == to_instr(op),
            r.wf(),
    {
        match op {
            Opcode::OP_00E0 {  } => Instr::ClearScr,
            Opcode::OP_00EE {  } => Instr::Return,
            Opcode::OP_0nnn { nnn } => Instr::SysCall(nnn as u16),
            Opcode::OP_1nnn { nnn } => Instr::Jump(nnn as u16),
            Opcode::OP_2nnn { nnn } => Instr::FnCall(nnn as u16),
            Opcode::OP_3xkk { x, kk } => Instr::SkipEqImm(Reg(x as u8), kk),
            Opcode::OP_4xkk { x, kk } => Instr::SkipNeImm(Reg(x as u8), kk),
            Opcode::OP_5xy0 { x, y } => Instr::SkipEqReg(Reg(x as u8), Reg(y as u8)),
            Opcode::OP_6xkk { x, kk } => Instr::LoadImm(Reg(x as u8), kk),
            Opcode::OP_7xkk { x, kk } => Instr::AddImm(Reg(x as u8), kk),
            Opcode::OP_8xy0 { x, y } => Instr::LoadReg(Reg(x as u8), Reg(y as u8)),
            Opcode::OP_8xy1 { x, y } => Instr::OrReg(Reg(x as u8), Reg(y as u8)),
            Opcode::OP_8xy2 { x, y } => Instr::AndReg(Reg(x as u8), Reg(y as u8)),
            Opcode::OP_8xy3 { x, y } => Instr::XorReg(Reg(x as u8), Reg(y as u8)),
            Opcode::OP_8xy4 { x, y } => Instr::AddReg(Reg(x as u8), Reg(y as u8)),
            Opcode::OP_8xy5 { x, y } => Instr::SubBorrowReg(Reg(x as u8), Reg(y as u8)),
            Opcode::OP_8xy6 { x, y } => Instr::ShrReg(Reg(x as u8), Reg(y as u8)),
            Opcode::OP_8xy7 { x, y } => Instr::SubnBorrowReg(Reg(x as u8), Reg(y as u8)),
            Opcode::OP_8xyE { x, y } => Instr::ShlReg(Reg(x as u8), Reg(y as u8)),
            Opcode::OP_9xy0 { x, y } => Instr::SkipNeReg(Reg(x as u8), Reg(y as u8)),
            Opcode::OP_Annn { nnn } => Instr::LoadAddr(nnn as u16),
            Opcode::OP_Bnnn { nnn } => Instr::JumpOffset(nnn as u16),
            Opcode::OP_Cxkk { x, kk } => Instr::Rand(Reg(x as u8), kk),
            Opcode::OP_Dxyn { x, y, n } => Instr::Draw(Reg(x as u8), Reg(y as u8), n as u8),
            Opcode::OP_Ex9E { x } => Instr::SkipEqKey(Reg(x as u8)),
            Opcode::OP_ExA1 { x } => Instr::SkipNeKey(Reg(x as u8)),
            Opcode::OP_Fx07 { x } => Instr::GetDelay(Reg(x as u8)),
            Opcode::OP_Fx0A { x } => Instr::WaitKey(Reg(x as u8)),
            Opcode::OP_Fx15 { x } => Instr::SetDelay(Reg(x as u8)),
            Opcode::OP_Fx18 { x } => Instr::SetSound(Reg(x as u8)),
            Opcode::OP_Fx1E { x } => Instr::AddAddr(Reg(x as u8)),
            Opcode::OP_Fx29 { x } => Instr::LoadDigit(Reg(x as u8)),
            Opcode::OP_Fx33 { x } => Instr::StoreBcd(Reg(x as u8)),
            Opcode::OP_Fx55 { x } => Instr::StoreMem(Reg(x as u8)),
            Opcode::OP_Fx65 { x } => Instr::LoadMem(Reg(x as u8)),
        }
    }

    /// Decodes `word`. Every word gives either an instruction or a classified
    /// [`DecodeError`].
    pub fn decode(word: u16) -> (r: Result<Instr, DecodeError>)
        ensures
            r == instr_of(word),
            r is Ok ==> r->Ok_0.wf(),
    {
        match Opcode::try_decode(word) {
            Ok(op) => Ok(Instr::from_opcode(op)),
            Err(e) => Err(e),
        }
    }
}

impl core::convert::TryFrom<u16> for Instr {
    type Error = DecodeError;

    fn try_from(value: u16) -> (r: Result<Self, Self::Error>) {
        Instr::decode(value)
    }
}

impl vstd::std_specs::convert::TryFromSpecImpl<u16> for Instr {
    open spec fn obeys_try_from_spec() -> bool {
        true
    }

    open spec fn try_from_spec(value: u16) -> Result<Self, DecodeError> {
        instr_of(value)
    }
}

} // verus!
