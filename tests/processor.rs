use chip8::processor::Processor;

#[test]
fn processor_pc_starts_at_0x200() {
    let cpu = Processor::new();
    assert_eq!(0x200, cpu.pc());
}

#[test]
fn execute_normally_increments_pc() {
    let mut cpu = Processor::new();
    cpu.execute(0x6000).unwrap();
    assert_eq!(0x202, cpu.pc());
}

#[test]
fn processor_ld_constant_to_register() {
    let mut cpu = Processor::new();
    cpu.execute(0x6075).unwrap();
    assert_eq!(0x75, cpu.register(0x0));
}

#[test]
fn processor_add_constant_to_register_normal() {
    let mut cpu = Processor::new();
    cpu.set_register(0x0, 1);
    cpu.execute(0x7001).unwrap();
    assert_eq!(2, cpu.register(0x0));
    assert_eq!(0, cpu.register(0xF));
}

#[test]
fn processor_add_constant_to_register_overflow() {
    let mut cpu = Processor::new();
    cpu.set_register(0x0, 0xFF);
    cpu.execute(0x7001).unwrap();
    assert_eq!(0, cpu.register(0x0));
    assert_eq!(1, cpu.register(0xF));
}

#[test]
fn processor_add_register_to_register_normal() {
    let mut cpu = Processor::new();
    cpu.set_register(0x0, 1);
    cpu.set_register(0x1, 2);
    cpu.execute(0x8014).unwrap();
    assert_eq!(3, cpu.register(0x0));
    assert_eq!(0, cpu.register(0xF));
}

#[test]
fn processor_add_register_to_register_overflow() {
    let mut cpu = Processor::new();
    cpu.set_register(0x0, 0xFF);
    cpu.set_register(0x1, 1);
    cpu.execute(0x8014).unwrap();
    assert_eq!(0, cpu.register(0x0));
    assert_eq!(1, cpu.register(0xF));
}

#[test]
fn processor_jp_sets_pc() {
    let mut cpu = Processor::new();
    cpu.execute(0x1ABC).unwrap();
    assert_eq!(0xABC, cpu.pc());
}

#[test]
fn processor_call_sets_pc() {
    let mut cpu = Processor::new();
    cpu.execute(0x2ABC).unwrap();
    assert_eq!(0xABC, cpu.pc());
}

#[test]
fn processor_ret_pops_pc() {
    let mut cpu = Processor::new();
    cpu.execute(0x2ABC).unwrap();
    cpu.execute(0x00EE).unwrap();
    assert_eq!(0x202, cpu.pc());
}

#[test]
fn processor_call_ret_nested() {
    let mut cpu = Processor::new();
    cpu.execute(0x2678).unwrap();
    cpu.execute(0x2ABC).unwrap();
    assert_eq!(0xABC, cpu.pc());

    cpu.execute(0x00EE).unwrap();
    assert_eq!(0x67A, cpu.pc());

    cpu.execute(0x00EE).unwrap();
    assert_eq!(0x202, cpu.pc());
}

#[test]
fn processor_se_constant_skip() {
    let mut cpu = Processor::new();
    cpu.set_register(0x0, 32);
    cpu.execute(0x3020).unwrap();
    assert_eq!(0x204, cpu.pc());
}

#[test]
fn processor_se_constant_no_skip() {
    let mut cpu = Processor::new();
    cpu.set_register(0x0, 32);
    cpu.execute(0x3021).unwrap();
    assert_eq!(0x202, cpu.pc());
}

#[test]
fn processor_sne_constant_skip() {
    let mut cpu = Processor::new();
    cpu.set_register(0x0, 32);
    cpu.execute(0x4021).unwrap();
    assert_eq!(0x204, cpu.pc());
}

#[test]
fn processor_sne_constant_no_skip() {
    let mut cpu = Processor::new();
    cpu.set_register(0x0, 32);
    cpu.execute(0x4020).unwrap();
    assert_eq!(0x202, cpu.pc());
}

#[test]
fn processor_se_register_skip() {
    let mut cpu = Processor::new();
    cpu.set_register(0x0, 32);
    cpu.set_register(0x1, 32);
    cpu.execute(0x5010).unwrap();
    assert_eq!(0x204, cpu.pc());
}

#[test]
fn processor_se_register_no_skip() {
    let mut cpu = Processor::new();
    cpu.set_register(0x0, 32);
    cpu.set_register(0x1, 33);
    cpu.execute(0x5010).unwrap();
    assert_eq!(0x202, cpu.pc());
}

#[test]
fn processor_ld_register_to_register() {
    let mut cpu = Processor::new();
    cpu.set_register(0x0, 32);
    cpu.execute(0x8100).unwrap();
    assert_eq!(32, cpu.register(0x1));
}

#[test]
fn processor_or_register_to_register() {
    let mut cpu = Processor::new();
    cpu.set_register(0x0, 0x55);
    cpu.set_register(0x1, 0x3C);
    cpu.execute(0x8011).unwrap();
    assert_eq!(0x7D, cpu.register(0x0));
}

#[test]
fn processor_and_register_to_register() {
    let mut cpu = Processor::new();
    cpu.set_register(0x0, 0x55);
    cpu.set_register(0x1, 0x3C);
    cpu.execute(0x8012).unwrap();
    assert_eq!(0x14, cpu.register(0x0));
}

#[test]
fn processor_xor_register_to_register() {
    let mut cpu = Processor::new();
    cpu.set_register(0x0, 0x55);
    cpu.set_register(0x1, 0x3C);
    cpu.execute(0x8013).unwrap();
    assert_eq!(0x69, cpu.register(0x0));
}

#[test]
fn processor_sub_register_to_register_no_borrow() {
    let mut cpu = Processor::new();
    cpu.set_register(0x0, 21);
    cpu.set_register(0x1, 7);
    cpu.execute(0x8015).unwrap();
    assert_eq!(14, cpu.register(0x0));
    assert_eq!(1, cpu.register(0xF));
}

#[test]
fn processor_sub_register_to_register_borrow() {
    let mut cpu = Processor::new();
    cpu.set_register(0x1, 21);
    cpu.set_register(0x0, 7);
    cpu.execute(0x8015).unwrap();
    assert_eq!(242, cpu.register(0x0));
    assert_eq!(0, cpu.register(0xF));
}

#[test]
fn processor_srl_no_underflow() {
    let mut cpu = Processor::new();
    cpu.set_register(0x0, 32);
    cpu.execute(0x8006).unwrap();
    assert_eq!(16, cpu.register(0x0));
    assert_eq!(0, cpu.register(0xF));
}

#[test]
fn processor_srl_underflow() {
    let mut cpu = Processor::new();
    cpu.set_register(0x0, 31);
    cpu.execute(0x8006).unwrap();
    assert_eq!(15, cpu.register(0x0));
    assert_eq!(1, cpu.register(0xF));
}

#[test]
fn processor_subn_no_borrow() {
    let mut cpu = Processor::new();
    cpu.set_register(0x0, 7);
    cpu.set_register(0x1, 21);
    cpu.execute(0x8017).unwrap();
    assert_eq!(14, cpu.register(0x0));
    assert_eq!(1, cpu.register(0xF));
}

#[test]
fn processor_subn_borrow() {
    let mut cpu = Processor::new();
    cpu.set_register(0x0, 21);
    cpu.set_register(0x1, 7);
    cpu.execute(0x8017).unwrap();
    assert_eq!(242, cpu.register(0x0));
    assert_eq!(0, cpu.register(0xF));
}

#[test]
fn processor_sll_no_overflow() {
    let mut cpu = Processor::new();
    cpu.set_register(0x0, 0x7F);
    cpu.execute(0x800E).unwrap();
    assert_eq!(0xFE, cpu.register(0x0));
    assert_eq!(0, cpu.register(0xF));
}

#[test]
fn processor_sll_overflow() {
    let mut cpu = Processor::new();
    cpu.set_register(0x0, 0xFF);
    cpu.execute(0x800E).unwrap();
    assert_eq!(0xFE, cpu.register(0x0));
    assert_eq!(1, cpu.register(0xF));
}
