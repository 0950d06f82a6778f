use rb_core::{get_mem, FlagReg, Instruction, Registers, CPU};

fn rom_with(at: usize, code: &[u8]) -> Vec<u8> {
    let mut rom = vec![0u8; 0x8000];
    for (i, b) in code.iter().enumerate() {
        rom[at + i] = *b;
    }
    rom
}

fn cpu_with(code: &[u8]) -> CPU {
    CPU::new(None, rom_with(0, code))
}

#[test]
fn add_sets_zero_half_carry_and_carry() {
    let mut cpu = cpu_with(&[0xC6, 0xC6]);
    cpu.registers.a = 0x3A;
    cpu.registers.f.carry = false;
    cpu.step();
    assert_eq!(cpu.registers.a, 0x00);
    assert!(cpu.registers.f.zero);
    assert!(!cpu.registers.f.substract);
    assert!(cpu.registers.f.half_carry);
    assert!(cpu.registers.f.carry);
    assert_eq!(cpu.pc, 2);
}

#[test]
fn bcd_add_then_decimal_adjust() {
    let mut cpu = cpu_with(&[0xC6, 0x38, 0x27]);
    cpu.registers.a = 0x45;
    cpu.registers.f = FlagReg::new();
    cpu.step();
    assert_eq!(cpu.registers.a, 0x7D);
    cpu.step();
    assert_eq!(cpu.registers.a, 0x83);
    assert!(!cpu.registers.f.zero);
    assert!(!cpu.registers.f.substract);
    assert!(!cpu.registers.f.half_carry);
    assert!(!cpu.registers.f.carry);
}

#[test]
fn decimal_adjust_after_subtraction() {
    // 0x42 - 0x15 = 0x2D with a half borrow; DAA gives 0x27.
    let mut cpu = cpu_with(&[0xD6, 0x15, 0x27]);
    cpu.registers.a = 0x42;
    cpu.step();
    assert_eq!(cpu.registers.a, 0x2D);
    assert!(cpu.registers.f.half_carry);
    cpu.step();
    assert_eq!(cpu.registers.a, 0x27);
    assert!(cpu.registers.f.substract);
    assert!(!cpu.registers.f.carry);
}

#[test]
fn jump_relative_backwards_lands_on_itself() {
    let mut cpu = CPU::new(None, rom_with(0x1000, &[0x18, 0xFE]));
    cpu.pc = 0x1000;
    cpu.step();
    assert_eq!(cpu.pc, 0x1000);
}

#[test]
fn conditional_jump_not_taken_moves_past_operand() {
    let mut cpu = cpu_with(&[0x20, 0x10]);
    cpu.registers.f.zero = true;
    cpu.step();
    assert_eq!(cpu.pc, 2);
}

#[test]
fn push_then_pop_through_high_ram() {
    let mut cpu = cpu_with(&[0xC5, 0xD1]);
    cpu.sp = 0xFFFE;
    cpu.registers.set_bc(0x1234);
    cpu.step();
    assert_eq!(cpu.bus.read_byte(0xFFFC), 0x34);
    assert_eq!(cpu.bus.read_byte(0xFFFD), 0x12);
    assert_eq!(cpu.sp, 0xFFFC);
    cpu.step();
    assert_eq!(cpu.registers.get_de(), 0x1234);
    assert_eq!(cpu.sp, 0xFFFE);
}

#[test]
fn pop_af_clears_low_nibble() {
    let mut cpu = cpu_with(&[0xF1]);
    cpu.sp = 0xC000;
    cpu.bus.write_byte(0xC000, 0xFF);
    cpu.bus.write_byte(0xC001, 0x12);
    cpu.step();
    assert_eq!(cpu.registers.get_af(), 0x12F0);
}

#[test]
fn call_and_return() {
    let mut code = vec![0xCD, 0x00, 0x20];
    code.resize(0x2000, 0);
    code.push(0xC9);
    let mut cpu = cpu_with(&code);
    cpu.sp = 0xFFFE;
    cpu.step();
    assert_eq!(cpu.pc, 0x2000);
    assert_eq!(cpu.sp, 0xFFFC);
    assert_eq!(cpu.bus.read_byte(0xFFFC), 0x03);
    cpu.step();
    assert_eq!(cpu.pc, 0x0003);
    assert_eq!(cpu.sp, 0xFFFE);
}

#[test]
fn restart_pushes_next_address() {
    let mut cpu = cpu_with(&[0xFF]);
    cpu.sp = 0xD000;
    cpu.step();
    assert_eq!(cpu.pc, 0x38);
    assert_eq!(cpu.bus.read_byte(0xCFFF), 0x00);
    assert_eq!(cpu.bus.read_byte(0xCFFE), 0x01);
}

#[test]
fn sub_compare_and_logic_flags() {
    let mut cpu = cpu_with(&[0xD6, 0x01, 0xFE, 0x10, 0xE6, 0x0F, 0xF6, 0x00, 0xEE, 0xFF]);
    cpu.registers.a = 0x10;
    cpu.step(); // SUB 0x01
    assert_eq!(cpu.registers.a, 0x0F);
    assert!(cpu.registers.f.substract);
    assert!(cpu.registers.f.half_carry);
    assert!(!cpu.registers.f.carry);
    cpu.step(); // CP 0x10
    assert_eq!(cpu.registers.a, 0x0F);
    assert!(cpu.registers.f.carry);
    assert!(!cpu.registers.f.zero);
    cpu.step(); // AND 0x0F
    assert_eq!(cpu.registers.a, 0x0F);
    assert!(cpu.registers.f.half_carry);
    cpu.step(); // OR 0x00
    assert!(!cpu.registers.f.half_carry);
    assert!(!cpu.registers.f.zero);
    cpu.step(); // XOR 0xFF
    assert_eq!(cpu.registers.a, 0xF0);
}

#[test]
fn adc_and_sbc_use_carry() {
    let mut cpu = cpu_with(&[0xCE, 0x0F, 0xDE, 0x01]);
    cpu.registers.a = 0x00;
    cpu.registers.f.carry = true;
    cpu.step();
    assert_eq!(cpu.registers.a, 0x10);
    assert!(cpu.registers.f.half_carry);
    assert!(!cpu.registers.f.carry);
    cpu.registers.f.carry = true;
    cpu.step();
    assert_eq!(cpu.registers.a, 0x0E);
    assert!(cpu.registers.f.half_carry);
}

#[test]
fn inc_dec_flags_keep_carry() {
    let mut cpu = cpu_with(&[0x3C, 0x05]);
    cpu.registers.a = 0x0F;
    cpu.registers.f.carry = true;
    cpu.step();
    assert_eq!(cpu.registers.a, 0x10);
    assert!(cpu.registers.f.half_carry);
    assert!(cpu.registers.f.carry);
    cpu.registers.b = 0x01;
    cpu.step();
    assert_eq!(cpu.registers.b, 0x00);
    assert!(cpu.registers.f.zero);
    assert!(cpu.registers.f.substract);
}

#[test]
fn add_hl_sets_half_carry_from_bit_eleven() {
    let mut cpu = cpu_with(&[0x09]);
    cpu.registers.set_hl(0x0FFF);
    cpu.registers.set_bc(0x0001);
    cpu.registers.f.zero = true;
    cpu.step();
    assert_eq!(cpu.registers.get_hl(), 0x1000);
    assert!(cpu.registers.f.half_carry);
    assert!(!cpu.registers.f.carry);
    assert!(cpu.registers.f.zero);
}

#[test]
fn add_sp_signed_offset() {
    let mut cpu = cpu_with(&[0xE8, 0xFF, 0xF8, 0x02]);
    cpu.sp = 0x0001;
    cpu.step();
    assert_eq!(cpu.sp, 0x0000);
    assert!(cpu.registers.f.half_carry);
    assert!(cpu.registers.f.carry);
    cpu.step();
    assert_eq!(cpu.registers.get_hl(), 0x0002);
}

#[test]
fn prefixed_rotate_swap_and_bits() {
    let mut cpu = cpu_with(&[0xCB, 0x00, 0xCB, 0x37, 0xCB, 0x7F, 0xCB, 0xBF, 0xCB, 0xC7]);
    cpu.registers.b = 0x81;
    cpu.registers.a = 0xF1;
    cpu.step(); // RLC B
    assert_eq!(cpu.registers.b, 0x03);
    assert!(cpu.registers.f.carry);
    cpu.step(); // SWAP A
    assert_eq!(cpu.registers.a, 0x1F);
    assert!(!cpu.registers.f.carry);
    cpu.step(); // BIT 7, A
    assert!(cpu.registers.f.zero);
    assert_eq!(cpu.registers.a, 0x1F);
    cpu.step(); // RES 7, A
    assert_eq!(cpu.registers.a, 0x1F);
    cpu.step(); // SET 0, A
    assert_eq!(cpu.registers.a, 0x1F);
    assert_eq!(cpu.pc, 10);
}

#[test]
fn accumulator_rotates_clear_zero() {
    let mut cpu = cpu_with(&[0x07, 0x1F]);
    cpu.registers.a = 0x00;
    cpu.step(); // RLCA
    assert!(!cpu.registers.f.zero);
    cpu.registers.a = 0x01;
    cpu.registers.f.carry = false;
    cpu.step(); // RRA
    assert_eq!(cpu.registers.a, 0x00);
    assert!(cpu.registers.f.carry);
    assert!(!cpu.registers.f.zero);
}

#[test]
fn loads_through_hl_increment() {
    let mut cpu = cpu_with(&[0x21, 0x00, 0xC0, 0x3E, 0x42, 0x22, 0x2A]);
    cpu.step(); // LD HL, 0xC000
    assert_eq!(cpu.registers.get_hl(), 0xC000);
    cpu.step(); // LD A, 0x42
    cpu.step(); // LD (HL+), A
    assert_eq!(cpu.bus.read_byte(0xC000), 0x42);
    assert_eq!(cpu.registers.get_hl(), 0xC001);
    cpu.bus.write_byte(0xC001, 0x99);
    cpu.step(); // LD A, (HL+)
    assert_eq!(cpu.registers.a, 0x99);
    assert_eq!(cpu.registers.get_hl(), 0xC002);
}

#[test]
fn store_sp_writes_low_then_high() {
    let mut cpu = cpu_with(&[0x08, 0x00, 0xC1]);
    cpu.sp = 0xBEEF;
    cpu.step();
    assert_eq!(cpu.bus.read_byte(0xC100), 0xEF);
    assert_eq!(cpu.bus.read_byte(0xC101), 0xBE);
}

#[test]
fn interrupt_served_in_priority_order() {
    let mut cpu = cpu_with(&[0x00]);
    cpu.pc = 0x0100;
    cpu.sp = 0xFFFE;
    cpu.bus.write_byte(0xFFFF, 0x05);
    cpu.bus.write_byte(0xFF0F, 0x05);
    assert!(cpu.handle_interrupts());
    assert_eq!(cpu.pc, 0x40);
    assert!(!cpu.interrupts_enabled);
    assert!(!cpu.bus.interrupt_flag.vblank);
    assert!(cpu.bus.interrupt_flag.timer);
    assert_eq!(cpu.bus.read_byte(0xFFFD), 0x01);
    assert_eq!(cpu.bus.read_byte(0xFFFC), 0x00);
    // A second call does nothing while the master enable is off.
    assert!(!cpu.handle_interrupts());
    assert_eq!(cpu.pc, 0x40);
}

#[test]
fn no_interrupt_while_master_enable_off() {
    let mut cpu = cpu_with(&[0xF3, 0x00]);
    cpu.sp = 0xFFFE;
    cpu.bus.write_byte(0xFFFF, 0x01);
    cpu.bus.write_byte(0xFF0F, 0x01);
    cpu.step(); // DI
    assert_eq!(cpu.pc, 1);
    cpu.step(); // NOP
    assert_eq!(cpu.pc, 2);
    assert!(cpu.bus.interrupt_flag.vblank);
}

#[test]
fn one_dispatch_per_step() {
    let mut cpu = cpu_with(&[0x00]);
    cpu.sp = 0xFFFE;
    cpu.bus.write_byte(0xFFFF, 0x1F);
    cpu.bus.write_byte(0xFF0F, 0x06);
    cpu.step();
    assert_eq!(cpu.pc, 0x48);
    assert!(cpu.bus.interrupt_flag.timer);
    assert!(!cpu.bus.interrupt_flag.lcdstat);
}

#[test]
fn halt_waits_for_an_interrupt() {
    let mut cpu = cpu_with(&[0x76, 0x00]);
    cpu.interrupts_enabled = false;
    cpu.step();
    assert!(cpu.is_halted);
    assert_eq!(cpu.pc, 1);
    cpu.step();
    assert!(cpu.is_halted);
    assert_eq!(cpu.pc, 1);
    cpu.bus.write_byte(0xFFFF, 0x04);
    cpu.bus.write_byte(0xFF0F, 0x04);
    cpu.step();
    assert!(!cpu.is_halted);
    assert_eq!(cpu.pc, 1);
}

#[test]
fn next_instruction_decodes_at_pc() {
    let cpu = cpu_with(&[0xCB, 0x11]);
    assert_eq!(cpu.next_instruction(), Some(Instruction::RL(rb_core::PreFixTarget::C)));
    let bad = cpu_with(&[0xD3]);
    assert_eq!(bad.next_instruction(), None);
}

#[test]
fn memory_view_reads_ahead() {
    let cpu = cpu_with(&[1, 2, 3, 4, 5, 6, 7, 8, 9, 10, 11]);
    assert_eq!(get_mem(&cpu), [1, 2, 3, 4, 5, 6, 7, 8, 9, 10]);
}

#[test]
fn screen_size() {
    assert_eq!(CPU::getRESW(), 160);
    assert_eq!(CPU::getRESH(), 144);
}

#[test]
fn register_pairs_round_trip() {
    let mut r = Registers::new();
    r.set_bc(0xBEEF);
    assert_eq!(r.get_bc(), 0xBEEF);
    assert_eq!((r.b, r.c), (0xBE, 0xEF));
    r.set_de(0x0102);
    assert_eq!(r.get_de(), 0x0102);
    r.set_hl(0xFFFF);
    assert_eq!(r.get_hl(), 0xFFFF);
    let hl = r.get_hl();
    r.set_hl(hl);
    assert_eq!(r.get_hl(), 0xFFFF);
}

#[test]
fn af_masks_low_nibble() {
    let mut r = Registers::new();
    r.set_af(0x12FF);
    assert_eq!(r.get_af(), 0x12F0);
    let af = r.get_af();
    r.set_af(af);
    assert_eq!(r.get_af(), 0x12F0);
}

#[test]
fn flag_byte_projection() {
    let f = FlagReg::from_byte(0xFF);
    assert_eq!(f.to_byte(), 0xF0);
    let g = FlagReg::from_byte(0xA5);
    assert!(g.zero && !g.substract && g.half_carry && !g.carry);
    assert_eq!(g.to_byte(), 0xA0);
    assert_eq!(FlagReg::new().to_byte(), 0);
}

#[test]
fn flags_convert_through_from() {
    let f = FlagReg::from(0xB7u8);
    assert!(f.zero && !f.substract && f.half_carry && f.carry);
    assert_eq!(u8::from(f), 0xB0);
}
