use chip8::cpu::Cpu;
use chip8::keypad::{ChipKey, Keypad};
use chip8::memory::Memory;

fn new_cpu() -> Cpu {
    Cpu::new(Memory::new(), Keypad::new(), 0)
}

#[test]
fn cpu_pc_starts_at_0x200() {
    let cpu = new_cpu();
    assert_eq!(0x200, cpu.pc());
}

#[test]
fn decode_execute_normally_increments_pc() {
    let mut cpu = new_cpu();
    cpu.decode_execute(0x6000).unwrap();
    assert_eq!(0x202, cpu.pc());
}

#[test]
fn cpu_ld_constant_to_register() {
    let mut cpu = new_cpu();
    cpu.decode_execute(0x6075).unwrap();
    assert_eq!(0x75, cpu.register(0x0));
}

#[test]
fn cpu_add_constant_to_register_normal() {
    let mut cpu = new_cpu();
    cpu.set_register(0x0, 1);
    cpu.decode_execute(0x7001).unwrap();
    assert_eq!(2, cpu.register(0x0));
    assert_eq!(0, cpu.register(0xF));
}

#[test]
fn cpu_add_constant_to_register_overflow() {
    let mut cpu = new_cpu();
    cpu.set_register(0x0, 0xFF);
    cpu.decode_execute(0x7001).unwrap();
    assert_eq!(0, cpu.register(0x0));
    assert_eq!(1, cpu.register(0xF));
}

#[test]
fn cpu_add_register_to_register_normal() {
    let mut cpu = new_cpu();
    cpu.set_register(0x0, 1);
    cpu.set_register(0x1, 2);
    cpu.decode_execute(0x8014).unwrap();
    assert_eq!(3, cpu.register(0x0));
    assert_eq!(0, cpu.register(0xF));
}

#[test]
fn cpu_add_register_to_register_overflow() {
    let mut cpu = new_cpu();
    cpu.set_register(0x0, 0xFF);
    cpu.set_register(0x1, 1);
    cpu.decode_execute(0x8014).unwrap();
    assert_eq!(0, cpu.register(0x0));
    assert_eq!(1, cpu.register(0xF));
}

#[test]
fn cpu_jp_sets_pc() {
    let mut cpu = new_cpu();
    cpu.decode_execute(0x1ABC).unwrap();
    assert_eq!(0xABC, cpu.pc());
}

#[test]
fn cpu_call_sets_pc() {
    let mut cpu = new_cpu();
    cpu.decode_execute(0x2ABC).unwrap();
    assert_eq!(0xABC, cpu.pc());
}

#[test]
fn cpu_ret_pops_pc() {
    let mut cpu = new_cpu();
    cpu.decode_execute(0x2ABC).unwrap();
    cpu.decode_execute(0x00EE).unwrap();
    assert_eq!(0x202, cpu.pc());
}

#[test]
fn cpu_call_ret_nested() {
    let mut cpu = new_cpu();
    cpu.decode_execute(0x2678).unwrap();
    cpu.decode_execute(0x2ABC).unwrap();
    assert_eq!(0xABC, cpu.pc());

    cpu.decode_execute(0x00EE).unwrap();
    assert_eq!(0x67A, cpu.pc());

    cpu.decode_execute(0x00EE).unwrap();
    assert_eq!(0x202, cpu.pc());
}

#[test]
fn cpu_se_constant_skip() {
    let mut cpu = new_cpu();
    cpu.set_register(0x0, 32);
    cpu.decode_execute(0x3020).unwrap();
    assert_eq!(0x204, cpu.pc());
}

#[test]
fn cpu_se_constant_no_skip() {
    let mut cpu = new_cpu();
    cpu.set_register(0x0, 32);
    cpu.decode_execute(0x3021).unwrap();
    assert_eq!(0x202, cpu.pc());
}

#[test]
fn cpu_sne_constant_skip() {
    let mut cpu = new_cpu();
    cpu.set_register(0x0, 32);
    cpu.decode_execute(0x4021).unwrap();
    assert_eq!(0x204, cpu.pc());
}

#[test]
fn cpu_sne_constant_no_skip() {
    let mut cpu = new_cpu();
    cpu.set_register(0x0, 32);
    cpu.decode_execute(0x4020).unwrap();
    assert_eq!(0x202, cpu.pc());
}

#[test]
fn cpu_se_register_skip() {
    let mut cpu = new_cpu();
    cpu.set_register(0x0, 32);
    cpu.set_register(0x1, 32);
    cpu.decode_execute(0x5010).unwrap();
    assert_eq!(0x204, cpu.pc());
}

#[test]
fn cpu_se_register_no_skip() {
    let mut cpu = new_cpu();
    cpu.set_register(0x0, 32);
    cpu.set_register(0x1, 33);
    cpu.decode_execute(0x5010).unwrap();
    assert_eq!(0x202, cpu.pc());
}

#[test]
fn cpu_ld_register_to_register() {
    let mut cpu = new_cpu();
    cpu.set_register(0x0, 32);
    cpu.decode_execute(0x8100).unwrap();
    assert_eq!(32, cpu.register(0x1));
}

#[test]
fn cpu_or_register_to_register() {
    let mut cpu = new_cpu();
    cpu.set_register(0x0, 0x55);
    cpu.set_register(0x1, 0x3C);
    cpu.decode_execute(0x8011).unwrap();
    assert_eq!(0x7D, cpu.register(0x0));
}

#[test]
fn cpu_and_register_to_register() {
    let mut cpu = new_cpu();
    cpu.set_register(0x0, 0x55);
    cpu.set_register(0x1, 0x3C);
    cpu.decode_execute(0x8012).unwrap();
    assert_eq!(0x14, cpu.register(0x0));
}

#[test]
fn cpu_xor_register_to_register() {
    let mut cpu = new_cpu();
    cpu.set_register(0x0, 0x55);
    cpu.set_register(0x1, 0x3C);
    cpu.decode_execute(0x8013).unwrap();
    assert_eq!(0x69, cpu.register(0x0));
}

#[test]
fn cpu_sub_register_to_register_no_borrow() {
    let mut cpu = new_cpu();
    cpu.set_register(0x0, 21);
    cpu.set_register(0x1, 7);
    cpu.decode_execute(0x8015).unwrap();
    assert_eq!(14, cpu.register(0x0));
    assert_eq!(1, cpu.register(0xF));
}

#[test]
fn cpu_sub_register_to_register_borrow() {
    let mut cpu = new_cpu();
    cpu.set_register(0x0, 7);
    cpu.set_register(0x1, 21);
    cpu.decode_execute(0x8015).unwrap();
    assert_eq!(242, cpu.register(0x0));
    assert_eq!(0, cpu.register(0xF));
}

#[test]
fn cpu_srl_no_underflow() {
    let mut cpu = new_cpu();
    cpu.set_register(0x0, 32);
    cpu.decode_execute(0x8006).unwrap();
    assert_eq!(16, cpu.register(0x0));
    assert_eq!(0, cpu.register(0xF));
}

#[test]
fn cpu_srl_underflow() {
    let mut cpu = new_cpu();
    cpu.set_register(0x0, 31);
    cpu.decode_execute(0x8006).unwrap();
    assert_eq!(15, cpu.register(0x0));
    assert_eq!(1, cpu.register(0xF));
}

#[test]
fn cpu_subn_no_borrow() {
    let mut cpu = new_cpu();
    cpu.set_register(0x0, 7);
    cpu.set_register(0x1, 21);
    cpu.decode_execute(0x8017).unwrap();
    assert_eq!(14, cpu.register(0x0));
    assert_eq!(1, cpu.register(0xF));
}

#[test]
fn cpu_subn_borrow() {
    let mut cpu = new_cpu();
    cpu.set_register(0x0, 21);
    cpu.set_register(0x1, 7);
    cpu.decode_execute(0x8017).unwrap();
    assert_eq!(242, cpu.register(0x0));
    assert_eq!(0, cpu.register(0xF));
}

#[test]
fn cpu_sll_no_overflow() {
    let mut cpu = new_cpu();
    cpu.set_register(0x0, 0x7F);
    cpu.decode_execute(0x800E).unwrap();
    assert_eq!(0xFE, cpu.register(0x0));
    assert_eq!(0, cpu.register(0xF));
}

#[test]
fn cpu_sll_overflow() {
    let mut cpu = new_cpu();
    cpu.set_register(0x0, 0xFF);
    cpu.decode_execute(0x800E).unwrap();
    assert_eq!(0xFE, cpu.register(0x0));
    assert_eq!(1, cpu.register(0xF));
}

#[test]
fn sne_register_skip() {
    let mut cpu = new_cpu();
    cpu.set_register(0x0, 1);
    cpu.set_register(0x1, 2);
    cpu.decode_execute(0x9010).unwrap();
    assert_eq!(0x204, cpu.pc());
}

#[test]
fn sne_register_no_skip() {
    let mut cpu = new_cpu();
    cpu.set_register(0x0, 1);
    cpu.set_register(0x1, 1);
    cpu.decode_execute(0x9010).unwrap();
    assert_eq!(0x202, cpu.pc());
}

#[test]
fn ld_address_register() {
    let mut cpu = new_cpu();
    cpu.decode_execute(0xAABC).unwrap();
    assert_eq!(0xABC, cpu.index());
}

#[test]
fn jp_address_offset() {
    let mut cpu = new_cpu();
    cpu.set_register(0x0, 2);
    cpu.decode_execute(0xBABC).unwrap();
    assert_eq!(0xABE, cpu.pc());
}

#[test]
fn rnd_supplied_full_mask() {
    let mut cpu = new_cpu();
    cpu.reseed(0x13375EED);
    cpu.decode_execute(0xC0FF).unwrap();
    assert_eq!(173, cpu.register(0x0));
}

#[test]
fn rnd_supplied_partial_mask() {
    let mut cpu = new_cpu();
    cpu.reseed(0x13375EED);
    cpu.decode_execute(0xC07E).unwrap();
    assert_eq!(44, cpu.register(0x0));
}

#[test]
fn rnd_supplied_no_mask() {
    let mut cpu = new_cpu();
    cpu.reseed(0x13375EED);
    cpu.decode_execute(0xC000).unwrap();
    assert_eq!(0, cpu.register(0x0));
}

#[test]
fn drw_two_byte_sprite_no_overlap() {
    let mut cpu = new_cpu();
    let bytes = &[0x9A, 0x3C];
    cpu.store_memory(0x100, bytes);
    cpu.set_index(0x100);
    cpu.set_register(0x0, 2);
    cpu.decode_execute(0xD002).unwrap();
    assert_eq!(bytes, &cpu.graphics().read_buffer(2, 2, 2)[..]);
    assert_eq!(0, cpu.register(0xF));
}

#[test]
fn drw_two_byte_sprite_overlap() {
    let mut cpu = new_cpu();
    let bytes = &[0x9A, 0x3C];
    cpu.store_memory(0x100, bytes);
    cpu.set_index(0x100);
    cpu.set_register(0x0, 2);
    cpu.decode_execute(0xD001).unwrap();
    cpu.set_index(0x101);
    cpu.decode_execute(0xD001).unwrap();
    assert_eq!(&[0xA6], &cpu.graphics().read_buffer(2, 2, 1)[..]);
    assert_eq!(1, cpu.register(0xF));
}

#[test]
fn cls_empties_vbuffer() {
    let mut cpu = new_cpu();
    let bytes = &[0x9A, 0x3C];
    cpu.store_memory(0x100, bytes);
    cpu.set_index(0x100);
    cpu.set_register(0x0, 2);
    cpu.decode_execute(0xD002).unwrap();
    cpu.decode_execute(0x00E0).unwrap();
    assert_eq!(&[0x0, 0x0], &cpu.graphics().read_buffer(2, 2, 2)[..]);
}

#[test]
fn skp_register_keyboard_skip() {
    let mut cpu = new_cpu();
    cpu.set_register(0x0, 0xB);
    cpu.press_key(ChipKey::CK_B);
    cpu.decode_execute(0xE09E).unwrap();
    assert_eq!(0x204, cpu.pc());
}

#[test]
fn skp_register_keyboard_no_skip() {
    let mut cpu = new_cpu();
    cpu.set_register(0x0, 0xB);
    cpu.press_key(ChipKey::CK_C);
    cpu.decode_execute(0xE09E).unwrap();
    assert_eq!(0x202, cpu.pc());
}

#[test]
fn sknp_register_keyboard_skip() {
    let mut cpu = new_cpu();
    cpu.set_register(0x0, 0xB);
    cpu.press_key(ChipKey::CK_C);
    cpu.decode_execute(0xE0A1).unwrap();
    assert_eq!(0x204, cpu.pc());
}

#[test]
fn sknp_register_keyboard_no_skip() {
    let mut cpu = new_cpu();
    cpu.set_register(0x0, 0xB);
    cpu.press_key(ChipKey::CK_B);
    cpu.decode_execute(0xE0A1).unwrap();
    assert_eq!(0x202, cpu.pc());
}

#[test]
fn ld_dt_to_register() {
    let mut cpu = new_cpu();
    cpu.set_delay_timer(3);
    cpu.decode_execute(0xF007).unwrap();
    assert_eq!(3, cpu.register(0x0));
}

#[test]
fn ld_register_wait_for_key() {
    let mut cpu = new_cpu();
    cpu.store_memory(0x200, &[0xF0, 0x0A]);
    cpu.tick().unwrap();
    assert_eq!(0x200, cpu.pc());

    cpu.press_key(ChipKey::CK_B);
    cpu.tick().unwrap();
    assert_eq!(0x202, cpu.pc());
    assert_eq!(0xB, cpu.register(0x0));
}

#[test]
fn ld_register_to_dt() {
    let mut cpu = new_cpu();
    cpu.set_register(0x0, 45);
    cpu.decode_execute(0xF015).unwrap();
    assert_eq!(45, cpu.delay_timer());
}

#[test]
fn ld_register_to_st() {
    let mut cpu = new_cpu();
    cpu.set_register(0x0, 45);
    cpu.decode_execute(0xF018).unwrap();
    assert_eq!(45, cpu.sound_timer());
}

#[test]
fn add_register_to_address() {
    let mut cpu = new_cpu();
    cpu.set_index(24);
    cpu.set_register(0x0, 32);
    cpu.decode_execute(0xF01E).unwrap();
    assert_eq!(56, cpu.index());
}

#[test]
fn ld_bcd_register() {
    let mut cpu = new_cpu();
    cpu.set_register(0x0, 123);
    cpu.set_index(0x300);
    cpu.decode_execute(0xF033).unwrap();
    let bcd = cpu.memory().load(0x300, 3);
    assert_eq!(1, bcd[0]);
    assert_eq!(2, bcd[1]);
    assert_eq!(3, bcd[2]);
}

#[test]
fn sd_registers() {
    let mut cpu = new_cpu();
    cpu.set_index(0x300);
    cpu.set_register(0x0, 23);
    cpu.set_register(0x9, 2);
    cpu.set_register(0xF, 1);
    cpu.decode_execute(0xFF55).unwrap();
    let mem = cpu.memory().load(0x300, 16);
    assert_eq!(vec![23, 0, 0, 0, 0, 0, 0, 0, 0, 2, 0, 0, 0, 0, 0, 1], mem);
}

#[test]
fn ld_registers() {
    let mut cpu = new_cpu();
    cpu.set_index(0x300);
    cpu.store_memory(
        cpu.index() as usize,
        &[23, 0, 0, 0, 0, 0, 0, 0, 0, 2, 0, 0, 0, 0, 0, 1],
    );
    cpu.decode_execute(0xFF65).unwrap();
    assert_eq!(23, cpu.register(0x0));
    assert_eq!(2, cpu.register(0x9));
    assert_eq!(1, cpu.register(0xF));
}
