//! Decoding of 16-bit instruction words into opcodes.
//!
//! A word is split into four nibbles. The high nibble selects the opcode
//! family; the `0x0`, `0x8`, `0xE` and `0xF` families are told apart by the low
//! nibble or the low byte. Encodings of the extended (Super-CHIP) set are
//! recognised and refused as unsupported, which is distinct from an unknown word.
use vstd::prelude::*;

verus! {

/// Message for a word of the extended instruction set.
pub const ERR_SUPER_48: &'static str = "super Chip-48 instructions are not implemented";

/// Message for a word that encodes no instruction.
pub const ERR_UNKNOWN: &'static str = "unknown opcode";

/// Why a word could not be decoded.
#[derive(Clone, Copy, PartialEq, Eq, Structural, Debug)]
pub enum DecodeError {
    /// The word belongs to the extended instruction set, which is not executed.
    Unsupported,
    /// The word encodes no instruction.
    Unknown,
}

impl DecodeError {
    /// A human-readable description of the error.
    pub fn message(self) -> (r: &'static str)
        ensures
            self == DecodeError::Unsupported ==> r == ERR_SUPER_48,
            self == DecodeError::Unknown ==> r == ERR_UNKNOWN,
    {
        match self {
            DecodeError::Unsupported => ERR_SUPER_48,
            DecodeError::Unknown => ERR_UNKNOWN,
        }
    }
}

/// A decoded instruction with its operands: `x`, `y` register indices, `kk` an
/// 8-bit immediate, `nnn` a 12-bit address, `n` a 4-bit length.
#[allow(non_camel_case_types)]
#[derive(Clone, Copy, PartialEq, Eq, Structural, Debug)]
pub enum Opcode {
    OP_00E0 {},
    OP_00EE {},
    OP_0nnn { nnn: usize },
    OP_1nnn { nnn: usize },
    OP_2nnn { nnn: usize },
    OP_3xkk { x: usize, kk: u8 },
    OP_4xkk { x: usize, kk: u8 },
    OP_5xy0 { x: usize, y: usize },
    OP_6xkk { x: usize, kk: u8 },
    OP_7xkk { x: usize, kk: u8 },
    OP_8xy0 { x: usize, y: usize },
    OP_8xy1 { x: usize, y: usize },
    OP_8xy2 { x: usize, y: usize },
    OP_8xy3 { x: usize, y: usize },
    OP_8xy4 { x: usize, y: usize },
    OP_8xy5 { x: usize, y: usize },
    OP_8xy6 { x: usize, y: usize },
    OP_8xy7 { x: usize, y: usize },
    OP_8xyE { x: usize, y: usize },
    OP_9xy0 { x: usize, y: usize },
    OP_Annn { nnn: usize },
    OP_Bnnn { nnn: usize },
    OP_Cxkk { x: usize, kk: u8 },
    OP_Dxyn { x: usize, y: usize, n: usize },
    OP_Ex9E { x: usize },
    OP_ExA1 { x: usize },
    OP_Fx07 { x: usize },
    OP_Fx0A { x: usize },
    OP_Fx15 { x: usize },
    OP_Fx18 { x: usize },
    OP_Fx1E { x: usize },
    OP_Fx29 { x: usize },
    OP_Fx33 { x: usize },
    OP_Fx55 { x: usize },
    OP_Fx65 { x: usize },
}

/// The four nibbles of `w`, most significant first.
pub open spec fn nibbles(w: u16) -> (usize, usize, usize, usize) {
    (
        (w / 0x1000) as usize,
        ((w / 0x100) % 0x10) as usize,
        ((w / 0x10) % 0x10) as usize,
        (w % 0x10) as usize,
    )
}

/// The low twelve bits of `w`.
pub open spec fn addr_of(w: u16) -> usize {
    (w % 0x1000) as usize
}

/// The low byte of `w`.
pub open spec fn byte_of(w: u16) -> u8 {
    (w % 0x100) as u8
}

/// Whether `w` encodes an instruction of the extended (Super-CHIP) set.
pub open spec fn is_extended(w: u16) -> bool {
    match nibbles(w) {
        (0x0, 0x0, 0xC, _) | (0x0, 0x0, 0xF, 0xB) | (0x0, 0x0, 0xF, 0xC) | (0x0, 0x0, 0xF, 0xD)
        | (0x0, 0x0, 0xF, 0xE) | (0x0, 0x0, 0xF, 0xF) | (0xD, _, _, 0x0) | (0xF, _, 0x3, 0x0)
        | (0xF, _, 0x7, 0x5) | (0xF, _, 0x8, 0x5) => true,
        _ => false,
    }
}

/// The opcode that `w` encodes, or why it encodes none. Clear-screen and return
/// take precedence over the `0nnn` system call.
pub open spec fn opcode_of(w: u16) -> Result<Opcode, DecodeError> {
    let (_, x, y, n) = nibbles(w);
    let nnn = addr_of(w);
    let kk = byte_of(w);
    if is_extended(w) {
        Err(DecodeError::Unsupported)
    } else {
        match nibbles(w) {
            (0x0, 0x0, 0xE, 0x0) => Ok(Opcode::OP_00E0 {  }),
            (0x0, 0x0, 0xE, 0xE) => Ok(Opcode::OP_00EE {  }),
            (0x0, _, _, _) => Ok(Opcode::OP_0nnn { nnn }),
            (0x1, _, _, _) => Ok(Opcode::OP_1nnn { nnn }),
            (0x2, _, _, _) => Ok(Opcode::OP_2nnn { nnn }),
            (0x3, _, _, _) => Ok(Opcode::OP_3xkk { x, kk }),
            (0x4, _, _, _) => Ok(Opcode::OP_4xkk { x, kk }),
            (0x5, _, _, 0x0) => Ok(Opcode::OP_5xy0 { x, y }),
            (0x6, _, _, _) => Ok(Opcode::OP_6xkk { x, kk }),
            (0x7, _, _, _) => Ok(Opcode::OP_7xkk { x, kk }),
            (0x8, _, _, 0x0) => Ok(Opcode::OP_8xy0 { x, y }),
            (0x8, _, _, 0x1) => Ok(Opcode::OP_8xy1 { x, y }),
            (0x8, _, _, 0x2) => Ok(Opcode::OP_8xy2 { x, y }),
            (0x8, _, _, 0x3) => Ok(Opcode::OP_8xy3 { x, y }),
            (0x8, _, _, 0x4) => Ok(Opcode::OP_8xy4 { x, y }),
            (0x8, _, _, 0x5) => Ok(Opcode::OP_8xy5 { x, y }),
            (0x8, _, _, 0x6) => Ok(Opcode::OP_8xy6 { x, y }),
            (0x8, _, _, 0x7) => Ok(Opcode::OP_8xy7 { x, y }),
            (0x8, _, _, 0xE) => Ok(Opcode::OP_8xyE { x, y }),
            (0x9, _, _, 0x0) => Ok(Opcode::OP_9xy0 { x, y }),
            (0xA, _, _, _) => Ok(Opcode::OP_Annn { nnn }),
            (0xB, _, _, _) => Ok(Opcode::OP_Bnnn { nnn }),
            (0xC, _, _, _) => Ok(Opcode::OP_Cxkk { x, kk }),
            (0xD, _, _, _) => Ok(Opcode::OP_Dxyn { x, y, n }),
            (0xE, _, 0x9, 0xE) => Ok(Opcode::OP_Ex9E { x }),
            (0xE, _, 0xA, 0x1) => Ok(Opcode::OP_ExA1 { x }),
            (0xF, _, 0x0, 0x7) => Ok(Opcode::OP_Fx07 { x }),
            (0xF, _, 0x0, 0xA) => Ok(Opcode::OP_Fx0A { x }),
            (0xF, _, 0x1, 0x5) => Ok(Opcode::OP_Fx15 { x }),
            (0xF, _, 0x1, 0x8) => Ok(Opcode::OP_Fx18 { x }),
            (0xF, _, 0x1, 0xE) => Ok(Opcode::OP_Fx1E { x }),
            (0xF, _, 0x2, 0x9) => Ok(Opcode::OP_Fx29 { x }),
            (0xF, _, 0x3, 0x3) => Ok(Opcode::OP_Fx33 { x }),
            (0xF, _, 0x5, 0x5) => Ok(Opcode::OP_Fx55 { x }),
            (0xF, _, 0x6, 0x5) => Ok(Opcode::OP_Fx65 { x }),
            _ => Err(DecodeError::Unknown),
        }
    }
}

proof fn lemma_fields(w: u16)
    ensures
        (w & 0xF000) >> 12 == w / 0x1000,
        (w & 0x0F00) >> 8 == (w / 0x100) % 0x10,
        (w & 0x00F0) >> 4 == (w / 0x10) % 0x10,
        w & 0x000F == w % 0x10,
        w & 0x0FFF == w % 0x1000,
        w & 0x00FF == w % 0x100,
{
    assert((w & 0xF000) >> 12 == w / 0x1000) by (bit_vector);
    assert((w & 0x0F00) >> 8 == (w / 0x100) % 0x10) by (bit_vector);
    assert((w & 0x00F0) >> 4 == (w / 0x10) % 0x10) by (bit_vector);
    assert(w & 0x000F == w % 0x10) by (bit_vector);
    assert(w & 0x0FFF == w % 0x1000) by (bit_vector);
    assert(w & 0x00FF == w % 0x100) by (bit_vector);
}

impl Opcode {
    /// Every opcode that a word decodes to is well formed.
    pub proof fn lemma_decoded_wf(w: u16)
        ensures
            opcode_of(w) is Ok ==> opcode_of(w)->Ok_0.wf(),
    {
    }

    /// Whether every operand lies in the range that its encoding allows.
    pub open spec fn wf(self) -> bool {
        match self {
            Opcode::OP_00E0 {  } | Opcode::OP_00EE {  } => true,
            Opcode::OP_0nnn { nnn } | Opcode::OP_1nnn { nnn } | Opcode::OP_2nnn { nnn }
            | Opcode::OP_Annn { nnn } | Opcode::OP_Bnnn { nnn } => nnn < 0x1000,
            Opcode::OP_3xkk { x, kk } | Opcode::OP_4xkk { x, kk } | Opcode::OP_6xkk { x, kk }
            | Opcode::OP_7xkk { x, kk } | Opcode::OP_Cxkk { x, kk } => x < 16,
            Opcode::OP_5xy0 { x, y } | Opcode::OP_8xy0 { x, y } | Opcode::OP_8xy1 { x, y }
            | Opcode::OP_8xy2 { x, y } | Opcode::OP_8xy3 { x, y } | Opcode::OP_8xy4 { x, y }
            | Opcode::OP_8xy5 { x, y } | Opcode::OP_8xy6 { x, y } | Opcode::OP_8xy7 { x, y }
            | Opcode::OP_8xyE { x, y } | Opcode::OP_9xy0 { x, y } => x < 16 && y < 16,
            Opcode::OP_Dxyn { x, y, n } => x < 16 && y < 16 && n < 16,
            Opcode::OP_Ex9E { x } | Opcode::OP_ExA1 { x } | Opcode::OP_Fx07 { x }
            | Opcode::OP_Fx0A { x } | Opcode::OP_Fx15 { x } | Opcode::OP_Fx18 { x }
            | Opcode::OP_Fx1E { x } | Opcode::OP_Fx29 { x } | Opcode::OP_Fx33 { x }
            | Opcode::OP_Fx55 { x } | Opcode::OP_Fx65 { x } => x < 16,
        }
    }

    /// Decodes `instruction`; an error is the message of the [`DecodeError`]
    /// that [`Opcode::try_decode`] gives.
    pub fn decode(instruction: u16) -> (r: Result<Opcode, &'static str>)
        ensures
            opcode_of(instruction) is Ok ==> r == Ok::<Opcode, &'static str>(opcode_of(instruction)->Ok_0),
            opcode_of(instruction) == Err::<Opcode, DecodeError>(DecodeError::Unsupported) ==> r == Err::<Opcode, &'static str>(ERR_SUPER_48),
            opcode_of(instruction) == Err::<Opcode, DecodeError>(DecodeError::Unknown) ==> r == Err::<Opcode, &'static str>(ERR_UNKNOWN),
    {
        match Self::try_decode(instruction) {
            Ok(op) => Ok(op),
            Err(e) => Err(e.message()),
        }
    }

    /// Decodes `instruction`, telling an extended-set word from an unknown one.
    /// Every word gives a result.
    pub fn try_decode(instruction: u16) -> (r: Result<Opcode, DecodeError>)
        ensures
            r == opcode_of(instruction),
            r is Ok ==> r->Ok_0.wf(),
    {
        let nibbles = Self::unpack_nibbles(instruction);
        let (_, x, y, n) = nibbles;
        proof {
            lemma_fields(instruction);
        }
        let nnn = (instruction & 0x0FFF) as usize;
        let kk = (instruction & 0x00FF) as u8;

        match nibbles {
            (0x0, 0x0, 0xC, _)
            | (0x0, 0x0, 0xF, 0xB)
            | (0x0, 0x0, 0xF, 0xC)
            | (0x0, 0x0, 0xF, 0xD)
            | (0x0, 0x0, 0xF, 0xE)
            | (0x0, 0x0, 0xF, 0xF)
            | (0xD, _, _, 0x0)
            | (0xF, _, 0x3, 0x0)
            | (0xF, _, 0x7, 0x5)
            | (0xF, _, 0x8, 0x5) => Err(DecodeError::Unsupported),
            (0x0, 0x0, 0xE, 0x0) => Ok(Opcode::OP_00E0 {  }),
            (0x0, 0x0, 0xE, 0xE) => Ok(Opcode::OP_00EE {  }),
            (0x0, _, _, _) => Ok(Opcode::OP_0nnn { nnn }),
            (0x1, _, _, _) => Ok(Opcode::OP_1nnn { nnn }),
            (0x2, _, _, _) => Ok(Opcode::OP_2nnn { nnn }),
            (0x3, _, _, _) => Ok(Opcode::OP_3xkk { x, kk }),
            (0x4, _, _, _) => Ok(Opcode::OP_4xkk { x, kk }),
            (0x5, _, _, 0x0) => Ok(Opcode::OP_5xy0 { x, y }),
            (0x6, _, _, _) => Ok(Opcode::OP_6xkk { x, kk }),
            (0x7, _, _, _) => Ok(Opcode::OP_7xkk { x, kk }),
            (0x8, _, _, 0x0) => Ok(Opcode::OP_8xy0 { x, y }),
            (0x8, _, _, 0x1) => Ok(Opcode::OP_8xy1 { x, y }),
            (0x8, _, _, 0x2) => Ok(Opcode::OP_8xy2 { x, y }),
            (0x8, _, _, 0x3) => Ok(Opcode::OP_8xy3 { x, y }),
            (0x8, _, _, 0x4) => Ok(Opcode::OP_8xy4 { x, y }),
            (0x8, _, _, 0x5) => Ok(Opcode::OP_8xy5 { x, y }),
            (0x8, _, _, 0x6) => Ok(Opcode::OP_8xy6 { x, y }),
            (0x8, _, _, 0x7) => Ok(Opcode::OP_8xy7 { x, y }),
            (0x8, _, _, 0xE) => Ok(Opcode::OP_8xyE { x, y }),
            (0x9, _, _, 0x0) => Ok(Opcode::OP_9xy0 { x, y }),
            (0xA, _, _, _) => Ok(Opcode::OP_Annn { nnn }),
            (0xB, _, _, _) => Ok(Opcode::OP_Bnnn { nnn }),
            (0xC, _, _, _) => Ok(Opcode::OP_Cxkk { x, kk }),
            (0xD, _, _, _) => Ok(Opcode::OP_Dxyn { x, y, n }),
            (0xE, _, 0x9, 0xE) => Ok(Opcode::OP_Ex9E { x }),
            (0xE, _, 0xA, 0x1) => Ok(Opcode::OP_ExA1 { x }),
            (0xF, _, 0x0, 0x7) => Ok(Opcode::OP_Fx07 { x }),
            (0xF, _, 0x0, 0xA) => Ok(Opcode::OP_Fx0A { x }),
            (0xF, _, 0x1, 0x5) => Ok(Opcode::OP_Fx15 { x }),
            (0xF, _, 0x1, 0x8) => Ok(Opcode::OP_Fx18 { x }),
            (0xF, _, 0x1, 0xE) => Ok(Opcode::OP_Fx1E { x }),
            (0xF, _, 0x2, 0x9) => Ok(Opcode::OP_Fx29 { x }),
            (0xF, _, 0x3, 0x3) => Ok(Opcode::OP_Fx33 { x }),
            (0xF, _, 0x5, 0x5) => Ok(Opcode::OP_Fx55 { x }),
            (0xF, _, 0x6, 0x5) => Ok(Opcode::OP_Fx65 { x }),
            _ => Err(DecodeError::Unknown),
        }
    }

    /// The four nibbles of `instruction`, most significant first.
    fn unpack_nibbles(instruction: u16) -> (r: (usize, usize, usize, usize))
        ensures
            r == nibbles(instruction),
    {
        proof {
            lemma_fields(instruction);
        }
        (
            ((instruction & 0xF000) >> 12) as usize,
            ((instruction & 0x0F00) >> 8) as usize,
            ((instruction & 0x00F0) >> 4) as usize,
            (instruction & 0x000F) as usize,
        )
    }
}

} // verus!
