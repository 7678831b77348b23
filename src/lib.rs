//! An interpreter core for the CHIP-8 fantasy microcomputer: memory, display,
//! keypad, instruction decoding and the fetch-decode-execute engine.
use vstd::prelude::*;

pub mod alu;
pub mod disasm;
pub mod bus;
pub mod chip8;
pub mod cpu;
pub mod graphics;
pub mod instr;
pub mod keyboard;
pub mod keypad;
pub mod memory;
pub mod opcode;
pub mod processor;
pub mod random;

verus! {

/// Display width in pixels.
pub const CHIP8_WIDTH: usize = 64;

/// Display height in pixels.
pub const CHIP8_HEIGHT: usize = 32;

/// Size of the packed display buffer in bytes (eight pixels per byte).
pub const CHIP8_VBUFFER: usize = 256;

/// Size of the addressable memory in bytes.
pub const CHIP8_RAM: usize = 4096;

} // verus!
