use chip8::bus::Bus;
use chip8::chip8::Chip8;
use chip8::graphics::Graphics;
use chip8::instr::{Instr, Reg};
use chip8::keyboard::{Key, Keyboard};
use chip8::keypad::{ChipKey, Keypad};
use chip8::memory::Memory;
use chip8::opcode::{DecodeError, Opcode, ERR_SUPER_48, ERR_UNKNOWN};
use std::convert::TryFrom;

#[test]
fn chip8_pc_starts_at_0x200() {
    let chip = Chip8::new();
    assert_eq!(0x200, chip.pc());
}

#[test]
fn memory_load_store_round_trip() {
    let mut mem = Memory::new();
    assert_eq!(vec![0, 0, 0], mem.load(4093, 3));
    mem.store(4093, &[1, 2, 3]);
    assert_eq!(vec![0, 1, 2, 3], mem.load(4092, 4));
    assert_eq!(Vec::<u8>::new(), mem.load(4096, 0));
}

#[test]
fn memory_callstack_is_lifo() {
    let mut mem = Memory::new();
    assert!(mem.callstack_empty());
    assert_eq!(None, mem.callstack_pop());
    mem.callstack_push(0x202);
    mem.callstack_push(0x304);
    assert!(!mem.callstack_empty());
    assert_eq!(Some(0x304), mem.callstack_pop());
    assert_eq!(Some(0x202), mem.callstack_pop());
    assert!(mem.callstack_empty());
    for i in 0..16 {
        assert!(!mem.callstack_full());
        mem.callstack_push(i);
    }
    assert!(mem.callstack_full());
}

#[test]
fn bus_forwards_to_memory() {
    let mut bus = Bus::new(Memory::new());
    bus.store(0x10, &[9, 8]);
    assert_eq!(vec![9, 8], bus.load(0x10, 2));
}

#[test]
fn graphics_clear_after_draws_reads_zero() {
    let mut gfx = Graphics::new();
    gfx.draw_with_collision(0, 0, &[0xFF; 16]);
    gfx.draw_with_collision(31, 7, &[0x0F, 0xF0]);
    gfx.clear();
    assert_eq!(vec![0u8; 256], gfx.read_buffer(0, 0, 256));
    assert_eq!(vec![0u8; 3], gfx.read_buffer(31, 7, 3));
}

#[test]
fn graphics_collision_only_when_lit_pixel_turns_off() {
    let mut gfx = Graphics::new();
    assert!(!gfx.draw_with_collision(1, 1, &[0xF0]));
    assert!(!gfx.draw_with_collision(1, 1, &[0x0F]));
    assert_eq!(vec![0xFF], gfx.read_buffer(1, 1, 1));
    assert!(gfx.draw_with_collision(1, 1, &[0x01]));
    assert_eq!(vec![0xFE], gfx.read_buffer(1, 1, 1));
}

#[test]
fn graphics_draw_twice_single_byte() {
    for (p, s) in [(0x00u8, 0x81u8), (0x00, 0x00), (0x0F, 0xF0), (0xF0, 0x30)] {
        let mut gfx = Graphics::new();
        gfx.draw_with_collision(4, 5, &[p]);
        gfx.draw_with_collision(4, 5, &[s]);
        let collision = gfx.draw_with_collision(4, 5, &[s]);
        assert_eq!(vec![p], gfx.read_buffer(4, 5, 1));
        assert_eq!((p ^ s) & s != 0, collision);
    }
}

#[test]
fn graphics_coordinates_wrap() {
    let mut gfx = Graphics::new();
    gfx.draw_with_collision(33, 9, &[0x42]);
    assert_eq!(vec![0x42], gfx.read_buffer(1, 1, 1));
    assert_eq!(vec![0x42], gfx.read_buffer(65, 17, 1));
}

#[test]
fn keypad_last_key_wins() {
    let mut pad = Keypad::new();
    assert_eq!(None, pad.get_pressed());
    pad.press(ChipKey::CK_3);
    pad.press(ChipKey::CK_A);
    assert!(pad.is_pressed(ChipKey::CK_A));
    assert!(!pad.is_pressed(ChipKey::CK_3));
    assert_eq!(Some(ChipKey::CK_A), pad.get_pressed());
    pad.release();
    assert!(!pad.is_pressed(ChipKey::CK_A));
    assert_eq!(None, pad.get_pressed());
}

#[test]
fn chip_key_from_byte() {
    assert_eq!(Some(ChipKey::CK_0), ChipKey::from_byte(0));
    assert_eq!(Some(ChipKey::CK_B), ChipKey::from_byte(0xB));
    assert_eq!(Some(ChipKey::CK_F), ChipKey::from_byte(0xF));
    assert_eq!(None, ChipKey::from_byte(0x10));
    assert_eq!(None, ChipKey::from_byte(0xFF));
    for b in 0..16u8 {
        assert_eq!(b, ChipKey::from_byte(b).unwrap().to_byte());
    }
}

#[test]
fn keyboard_tracks_each_key() {
    let mut kb = Keyboard::new();
    kb.press(Key::B);
    kb.press(Key::ZERO);
    assert!(kb.is_pressed(Key::B));
    assert!(kb.is_pressed(Key::ZERO));
    assert!(!kb.is_pressed(Key::C));
    kb.release(Key::B);
    assert!(!kb.is_pressed(Key::B));
    assert!(kb.is_pressed(Key::ZERO));
    kb.clear();
    assert!(!kb.is_pressed(Key::ZERO));
}

#[test]
fn key_ordinals() {
    assert_eq!(0, Key::ZERO.ordinal());
    assert_eq!(11, Key::B.ordinal());
    assert_eq!(Some(Key::F), Key::from_ordinal(15));
    assert_eq!(None, Key::from_ordinal(16));
}

#[test]
fn decode_every_word_is_classified() {
    let mut ok = 0u32;
    let mut unsupported = 0u32;
    let mut unknown = 0u32;
    for w in 0..=u16::MAX {
        match Opcode::try_decode(w) {
            Ok(_) => ok += 1,
            Err(DecodeError::Unsupported) => unsupported += 1,
            Err(DecodeError::Unknown) => unknown += 1,
        }
        assert_eq!(Opcode::try_decode(w).map(Instr::from_opcode), Instr::decode(w));
    }
    assert_eq!(65536, ok + unsupported + unknown);
    assert!(ok > 0 && unsupported > 0 && unknown > 0);
}

#[test]
fn decode_examples() {
    assert_eq!(Ok(Opcode::OP_00E0 {}), Opcode::decode(0x00E0));
    assert_eq!(Ok(Opcode::OP_00EE {}), Opcode::decode(0x00EE));
    assert_eq!(Ok(Opcode::OP_0nnn { nnn: 0x123 }), Opcode::decode(0x0123));
    assert_eq!(Ok(Opcode::OP_Dxyn { x: 1, y: 2, n: 3 }), Opcode::decode(0xD123));
    assert_eq!(Ok(Opcode::OP_Fx29 { x: 7 }), Opcode::decode(0xF729));
    assert_eq!(Err(ERR_SUPER_48), Opcode::decode(0x00C5));
    assert_eq!(Err(ERR_SUPER_48), Opcode::decode(0x00FF));
    assert_eq!(Err(ERR_SUPER_48), Opcode::decode(0xD120));
    assert_eq!(Err(ERR_SUPER_48), Opcode::decode(0xF375));
    assert_eq!(Err(ERR_UNKNOWN), Opcode::decode(0x5121));
    assert_eq!(Err(ERR_UNKNOWN), Opcode::decode(0x800F));
    assert_eq!(Err(ERR_UNKNOWN), Opcode::decode(0xE000));
    assert_eq!(Err(ERR_UNKNOWN), Opcode::decode(0xF0FF));
}

#[test]
fn instr_decode_examples() {
    assert_eq!(Ok(Instr::SkipEqImm(Reg(3), 0x20)), Instr::decode(0x3320));
    assert_eq!(Ok(Instr::FnCall(0xABC)), Instr::decode(0x2ABC));
    assert_eq!(Ok(Instr::Draw(Reg(0xA), Reg(0xB), 0xF)), Instr::decode(0xDABF));
    assert_eq!(Ok(Instr::ShlReg(Reg(1), Reg(2))), Instr::try_from(0x812E));
    assert_eq!(Err(DecodeError::Unsupported), Instr::try_from(0xF085));
    assert_eq!(Err(DecodeError::Unknown), Instr::try_from(0x9001));
    assert_eq!(ERR_SUPER_48, DecodeError::Unsupported.message());
    assert_eq!(ERR_UNKNOWN, DecodeError::Unknown.message());
}
