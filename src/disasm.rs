//! Assembly text for instructions: registers as `x` and a decimal index,
//! immediates in decimal, addresses as `0x` and at least three upper-case hex
//! digits.
use vstd::prelude::*;

use crate::instr::{Instr, Reg};

verus! {

/// The upper-case hex digit of `d`.
pub open spec fn digit_char(d: int) -> char {
    if d < 10 {
        (('0' as int) + d) as char
    } else {
        (('A' as int) + d - 10) as char
    }
}

/// `n` in decimal, without leading zeros.
pub open spec fn dec_text(n: u8) -> Seq<char> {
    if n >= 100 {
        seq![digit_char((n / 100) as int), digit_char(((n / 10) % 10) as int), digit_char((n % 10) as int)]
    } else if n >= 10 {
        seq![digit_char((n / 10) as int), digit_char((n % 10) as int)]
    } else {
        seq![digit_char(n as int)]
    }
}

/// `n` as `0x` and upper-case hex digits, at least three of them.
pub open spec fn hex_text(n: u16) -> Seq<char> {
    let low = seq![digit_char(((n / 0x100) % 0x10) as int), digit_char(((n / 0x10) % 0x10) as int), digit_char((n % 0x10) as int)];
    if n >= 0x1000 {
        seq!['0', 'x', digit_char((n / 0x1000) as int)] + low
    } else {
        seq!['0', 'x'] + low
    }
}

/// The name of register `r`.
pub open spec fn reg_text(r: Reg) -> Seq<char> {
    seq!['x'] + dec_text(r.0)
}

/// The assembly text of `ins`.
pub open spec fn listing_text(ins: Instr) -> Seq<char> {
    match ins {
        Instr::SysCall(a) => "sys "@ + hex_text(a),
        Instr::ClearScr => "cls"@,
        Instr::Return => "ret"@,
        Instr::Jump(a) => "jal "@ + hex_text(a),
        Instr::JumpOffset(a) => "jalr "@ + hex_text(a) + "("@ + reg_text(Reg(0)) + ")"@,
        Instr::FnCall(a) => "call "@ + hex_text(a),
        Instr::SkipEqImm(x, kk) => "sei "@ + reg_text(x) + ", "@ + dec_text(kk),
        Instr::SkipNeImm(x, kk) => "snei "@ + reg_text(x) + ", "@ + dec_text(kk),
        Instr::SkipEqReg(x, y) => "se "@ + reg_text(x) + ", "@ + reg_text(y),
        Instr::SkipNeReg(x, y) => "sne "@ + reg_text(x) + ", "@ + reg_text(y),
        Instr::SkipEqKey(x) => "skp "@ + reg_text(x),
        Instr::SkipNeKey(x) => "sknp "@ + reg_text(x),
        Instr::LoadImm(x, kk) => "ld "@ + reg_text(x) + ", "@ + dec_text(kk),
        Instr::LoadReg(x, y) => "ld "@ + reg_text(x) + ", "@ + reg_text(y),
        Instr::AddImm(x, kk) => "addi "@ + reg_text(x) + ", "@ + dec_text(kk),
        Instr::AddReg(x, y) => "add "@ + reg_text(x) + ", "@ + reg_text(y),
        Instr::AddCarryReg(x, y) => "addc "@ + reg_text(x) + ", "@ + reg_text(y),
        Instr::SubBorrowReg(x, y) => "sub "@ + reg_text(x) + ", "@ + reg_text(y),
        Instr::SubnBorrowReg(x, y) => "subn "@ + reg_text(x) + ", "@ + reg_text(y) + ", "@ + reg_text(x),
        Instr::OrReg(x, y) => "or "@ + reg_text(x) + ", "@ + reg_text(y),
        Instr::AndReg(x, y) => "and "@ + reg_text(x) + ", "@ + reg_text(y),
        Instr::XorReg(x, y) => "xor "@ + reg_text(x) + ", "@ + reg_text(y),
        Instr::ShrReg(x, y) => "srl "@ + reg_text(x) + ", "@ + reg_text(y),
        Instr::ShlReg(x, y) => "sll "@ + reg_text(x) + ", "@ + reg_text(y),
        Instr::LoadAddr(a) => "ld I, "@ + hex_text(a) + "(0)"@,
        Instr::AddAddr(x) => "ld I, "@ + reg_text(x) + "("@ + reg_text(Reg(0)) + ")"@,
        Instr::Rand(x, kk) => "rnd "@ + reg_text(x) + ", "@ + hex_text(kk as u16),
        Instr::Draw(x, y, n) => "drw "@ + reg_text(x) + ", "@ + reg_text(y) + ", "@ + dec_text(n),
        Instr::GetDelay(x) => "ld "@ + reg_text(x) + ", DT"@,
        Instr::SetDelay(x) => "ld DT, "@ + reg_text(x),
        Instr::SetSound(x) => "ld ST, "@ + reg_text(x),
        Instr::WaitKey(x) => "ld "@ + reg_text(x) + ", $K"@,
        Instr::LoadDigit(x) => "ld I, "@ + reg_text(x),
        Instr::StoreBcd(x) => "bcd [I], "@ + reg_text(x),
        Instr::StoreMem(x) => "sd [I], "@ + reg_text(x),
        Instr::LoadMem(x) => "ld "@ + reg_text(x) + ", [I]"@,
    }
}

/// The one-character text of the hex digit `d`.
fn digit_str(d: u8) -> (r: &'static str)
    requires
        d < 16,
    ensures
        r@ == seq![digit_char(d as int)],
{
    proof {
        reveal_strlit("0");
        reveal_strlit("1");
        reveal_strlit("2");
        reveal_strlit("3");
        reveal_strlit("4");
        reveal_strlit("5");
        reveal_strlit("6");
        reveal_strlit("7");
        reveal_strlit("8");
        reveal_strlit("9");
        reveal_strlit("A");
        reveal_strlit("B");
        reveal_strlit("C");
        reveal_strlit("D");
        reveal_strlit("E");
        reveal_strlit("F");
    }
    let r = match d {
        0 => "0",
        1 => "1",
        2 => "2",
        3 => "3",
        4 => "4",
        5 => "5",
        6 => "6",
        7 => "7",
        8 => "8",
        9 => "9",
        10 => "A",
        11 => "B",
        12 => "C",
        13 => "D",
        14 => "E",
        _ => "F",
    };
    assert(r@ =~= seq![digit_char(d as int)]);
    r
}

/// `n` in decimal.
pub fn decimal(n: u8) -> (r: String)
    ensures
        r@ == dec_text(n),
{
    let mut r = String::new();
    if n >= 100 {
        r.append(digit_str(n / 100));
    }
    if n >= 10 {
        r.append(digit_str((n / 10) % 10));
    }
    r.append(digit_str(n % 10));
    proof {
        if n < 10 {
            assert(n % 10 == n);
        }
        assert(r@ =~= dec_text(n));
    }
    r
}

/// `n` as `0x` and at least three upper-case hex digits.
pub fn hex(n: u16) -> (r: String)
    ensures
        r@ == hex_text(n),
{
    proof {
        reveal_strlit("0x");
    }
    let mut r = String::from_str("0x");
    if n >= 0x1000 {
        r.append(digit_str((n / 0x1000) as u8));
    }
    r.append(digit_str(((n / 0x100) % 0x10) as u8));
    r.append(digit_str(((n / 0x10) % 0x10) as u8));
    r.append(digit_str((n % 0x10) as u8));
    assert(r@ =~= hex_text(n));
    r
}

impl Reg {
    /// The register's name, `x` and its decimal index.
    pub fn name(&self) -> (r: String)
        ensures
            r@ == reg_text(*self),
    {
        let mut r = String::from_str("x");
        let d = decimal(self.0);
        r.append(d.as_str());
        proof {
            reveal_strlit("x");
            assert(r@ =~= reg_text(*self));
        }
        r
    }
}

impl Instr {
    /// The instruction's assembly text.
    pub fn disassemble(&self) -> (r: String)
        ensures
            r@ == listing_text(*self),
    {
        match *self {
            Instr::SysCall(a) => {
                let mut r = String::from_str("sys ");
                r.append(hex(a).as_str());
                r
            },
            Instr::ClearScr => {
                let mut r = String::from_str("cls");
                r
            },
            Instr::Return => {
                let mut r = String::from_str("ret");
                r
            },
            Instr::Jump(a) => {
                let mut r = String::from_str("jal ");
                r.append(hex(a).as_str());
                r
            },
            Instr::JumpOffset(a) => {
                let mut r = String::from_str("jalr ");
                r.append(hex(a).as_str());
                r.append("(");
                r.append(Reg(0).name().as_str());
                r.append(")");
                r
            },
            Instr::FnCall(a) => {
                let mut r = String::from_str("call ");
                r.append(hex(a).as_str());
                r
            },
            Instr::SkipEqImm(x, kk) => {
                let mut r = String::from_str("sei ");
                r.append(x.name().as_str());
                r.append(", ");
                r.append(decimal(kk).as_str());
                r
            },
            Instr::SkipNeImm(x, kk) => {
                let mut r = String::from_str("snei ");
                r.append(x.name().as_str());
                r.append(", ");
                r.append(decimal(kk).as_str());
                r
            },
            Instr::SkipEqReg(x, y) => {
                let mut r = String::from_str("se ");
                r.append(x.name().as_str());
                r.append(", ");
                r.append(y.name().as_str());
                r
            },
            Instr::SkipNeReg(x, y) => {
                let mut r = String::from_str("sne ");
                r.append(x.name().as_str());
                r.append(", ");
                r.append(y.name().as_str());
                r
            },
            Instr::SkipEqKey(x) => {
                let mut r = String::from_str("skp ");
                r.append(x.name().as_str());
                r
            },
            Instr::SkipNeKey(x) => {
                let mut r = String::from_str("sknp ");
                r.append(x.name().as_str());
                r
            },
            Instr::LoadImm(x, kk) => {
                let mut r = String::from_str("ld ");
                r.append(x.name().as_str());
                r.append(", ");
                r.append(decimal(kk).as_str());
                r
            },
            Instr::LoadReg(x, y) => {
                let mut r = String::from_str("ld ");
                r.append(x.name().as_str());
                r.append(", ");
                r.append(y.name().as_str());
                r
            },
            Instr::AddImm(x, kk) => {
                let mut r = String::from_str("addi ");
                r.append(x.name().as_str());
                r.append(", ");
                r.append(decimal(kk).as_str());
                r
            },
            Instr::AddReg(x, y) => {
                let mut r = String::from_str("add ");
                r.append(x.name().as_str());
                r.append(", ");
                r.append(y.name().as_str());
                r
            },
            Instr::AddCarryReg(x, y) => {
                let mut r = String::from_str("addc ");
                r.append(x.name().as_str());
                r.append(", ");
                r.append(y.name().as_str());
                r
            },
            Instr::SubBorrowReg(x, y) => {
                let mut r = String::from_str("sub ");
                r.append(x.name().as_str());
                r.append(", ");
                r.append(y.name().as_str());
                r
            },
            Instr::SubnBorrowReg(x, y) => {
                let mut r = String::from_str("subn ");
                r.append(x.name().as_str());
                r.append(", ");
                r.append(y.name().as_str());
                r.append(", ");
                r.append(x.name().as_str());
                r
            },
            Instr::OrReg(x, y) => {
                let mut r = String::from_str("or ");
                r.append(x.name().as_str());
                r.append(", ");
                r.append(y.name().as_str());
                r
            },
            Instr::AndReg(x, y) => {
                let mut r = String::from_str("and ");
                r.append(x.name().as_str());
                r.append(", ");
                r.append(y.name().as_str());
                r
            },
            Instr::XorReg(x, y) => {
                let mut r = String::from_str("xor ");
                r.append(x.name().as_str());
                r.append(", ");
                r.append(y.name().as_str());
                r
            },
            Instr::ShrReg(x, y) => {
                let mut r = String::from_str("srl ");
                r.append(x.name().as_str());
                r.append(", ");
                r.append(y.name().as_str());
                r
            },
            Instr::ShlReg(x, y) => {
                let mut r = String::from_str("sll ");
                r.append(x.name().as_str());
                r.append(", ");
                r.append(y.name().as_str());
                r
            },
            Instr::LoadAddr(a) => {
                let mut r = String::from_str("ld I, ");
                r.append(hex(a).as_str());
                r.append("(0)");
                r
            },
            Instr::AddAddr(x) => {
                let mut r = String::from_str("ld I, ");
                r.append(x.name().as_str());
                r.append("(");
                r.append(Reg(0).name().as_str());
                r.append(")");
                r
            },
            Instr::Rand(x, kk) => {
                let mut r = String::from_str("rnd ");
                r.append(x.name().as_str());
                r.append(", ");
                r.append(hex(kk as u16).as_str());
                r
            },
            Instr::Draw(x, y, n) => {
                let mut r = String::from_str("drw ");
                r.append(x.name().as_str());
                r.append(", ");
                r.append(y.name().as_str());
                r.append(", ");
                r.append(decimal(n).as_str());
                r
            },
            Instr::GetDelay(x) => {
                let mut r = String::from_str("ld ");
                r.append(x.name().as_str());
                r.append(", DT");
                r
            },
            Instr::SetDelay(x) => {
                let mut r = String::from_str("ld DT, ");
                r.append(x.name().as_str());
                r
            },
            Instr::SetSound(x) => {
                let mut r = String::from_str("ld ST, ");
                r.append(x.name().as_str());
                r
            },
            Instr::WaitKey(x) => {
                let mut r = String::from_str("ld ");
                r.append(x.name().as_str());
                r.append(", $K");
                r
            },
            Instr::LoadDigit(x) => {
                let mut r = String::from_str("ld I, ");
                r.append(x.name().as_str());
                r
            },
            Instr::StoreBcd(x) => {
                let mut r = String::from_str("bcd [I], ");
                r.append(x.name().as_str());
                r
            },
            Instr::StoreMem(x) => {
                let mut r = String::from_str("sd [I], ");
                r.append(x.name().as_str());
                r
            },
            Instr::LoadMem(x) => {
                let mut r = String::from_str("ld ");
                r.append(x.name().as_str());
                r.append(", [I]");
                r
            },
        }
    }
}

} // verus!
