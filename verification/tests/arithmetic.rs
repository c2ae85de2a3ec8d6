use zebes::bus::Bus;
use zebes::cpu::Cpu;
use zebes::cpu::addressing::Operand;
use zebes::cpu::addressing::operand_at;
use zebes::cpu::flags::CARRY;
use zebes::cpu::flags::NEGATIVE;
use zebes::cpu::flags::OVERFLOW;
use zebes::cpu::flags::ZERO;
use zebes::cpu::flags::contains;

#[test]
fn arithmetic_adc_simple_addition_with_no_carry() {
    let mut bus = Bus::new();
    let mut cpu = Cpu::new();
    cpu.a = 0x10;
    bus.write(0x0000, 0x05);

    let extra_cycles = cpu.adc(operand_at(0x0000), &mut bus);

    // 16 + 5 = 21 (0x15)
    assert_eq!(cpu.a, 0x15);
    assert!(!contains(cpu.status, CARRY));
    assert!(!contains(cpu.status, ZERO));
    assert!(!contains(cpu.status, OVERFLOW));
    assert!(!contains(cpu.status, NEGATIVE));
    assert_eq!(extra_cycles, 0);
}

#[test]
fn arithmetic_adc_sets_carry_flag_on_unsigned_overflow() {
    let mut bus = Bus::new();
    let mut cpu = Cpu::new();
    cpu.a = 0xFF; // largest possible u8
    bus.write(0x0000, 0x01);

    cpu.adc(operand_at(0x0000), &mut bus);

    // 255 + 1 = 256, which wraps to 0
    assert_eq!(cpu.a, 0x00);
    assert!(contains(cpu.status, CARRY));
    assert!(contains(cpu.status, ZERO));
}

#[test]
fn arithmetic_adc_includes_carry_bit_from_previous_adc() {
    let mut bus = Bus::new();
    let mut cpu = Cpu::new();
    cpu.a = 0x01;
    zebes::cpu::flags::set(&mut cpu.status, CARRY, true); // simulate carry left
    bus.write(0x0000, 0x01);

    cpu.adc(operand_at(0x0000), &mut bus);

    // 1 + 1 + carry-in(1) = 3
    assert_eq!(cpu.a, 0x03);
}

#[test]
fn sbc_simple_subtraction_with_carry_set() {
    let mut bus = Bus::new();
    let mut cpu = Cpu::new();
    cpu.a = 0x10;
    zebes::cpu::flags::set(&mut cpu.status, CARRY, true);
    bus.write(0x0000, 0x05);

    let extra_cycles = cpu.sbc(operand_at(0x0000), &mut bus);

    // 16 - 5 = 11 (0x0B)
    assert_eq!(cpu.a, 0x0B);
    assert!(contains(cpu.status, CARRY),);
    assert!(!contains(cpu.status, ZERO));
    assert!(!contains(cpu.status, OVERFLOW));
    assert_eq!(extra_cycles, 0);
}

#[test]
fn sbc_clear_carry_subtracts_one_extra() {
    let mut bus = Bus::new();
    let mut cpu = Cpu::new();
    cpu.a = 0x10;
    zebes::cpu::flags::set(&mut cpu.status, CARRY, false);
    bus.write(0x0000, 0x05);

    cpu.sbc(operand_at(0x0000), &mut bus);

    // 16 - 5 - 1 (borrowed) = 10 (0x0A)
    assert_eq!(cpu.a, 0x0A);
}

#[test]
fn sbc_clears_carry_on_borrow() {
    let mut bus = Bus::new();
    let mut cpu = Cpu::new();
    cpu.a = 0x10;
    zebes::cpu::flags::set(&mut cpu.status, CARRY, true);
    bus.write(0x0000, 0x20);

    cpu.sbc(operand_at(0x0000), &mut bus);

    // A borrow happened, so CARRY must be cleared.
    assert!(!contains(cpu.status, CARRY));
}

#[test]
fn sbc_sets_zero_when_result_is_zero() {
    let mut bus = Bus::new();
    let mut cpu = Cpu::new();
    cpu.a = 0x10;
    zebes::cpu::flags::set(&mut cpu.status, CARRY, true);
    bus.write(0x0000, 0x10);

    cpu.sbc(operand_at(0x0000), &mut bus);

    assert_eq!(cpu.a, 0x00);
    assert!(contains(cpu.status, ZERO));
}

#[test]
fn arithmetic_inc_adds_one_to_memory() {
    let mut bus = Bus::new();
    let mut cpu = Cpu::new();
    bus.write(0x0000, 0x10);

    let extra_cycles = cpu.inc(operand_at(0x0000), &mut bus);

    assert_eq!(bus.peek(0x0000), 0x11);
    assert_eq!(extra_cycles, 0);
}

#[test]
fn arithmetic_inc_wraps_from_0xff_to_zero() {
    let mut bus = Bus::new();
    let mut cpu = Cpu::new();
    bus.write(0x0000, 0xFF);

    cpu.inc(operand_at(0x0000), &mut bus);

    assert_eq!(bus.peek(0x0000), 0x00);
    assert!(contains(cpu.status, ZERO));
    assert!(!contains(cpu.status, NEGATIVE));
}

#[test]
fn arithmetic_dec_subtracts_one_from_memory() {
    let mut bus = Bus::new();
    let mut cpu = Cpu::new();
    bus.write(0x0000, 0x10);

    let extra_cycles = cpu.dec(operand_at(0x0000), &mut bus);

    assert_eq!(bus.peek(0x0000), 0x0F);
    assert_eq!(extra_cycles, 0);
}

#[test]
fn arithmetic_dec_wraps_from_zero_to_0xff() {
    let mut bus = Bus::new();
    let mut cpu = Cpu::new();
    bus.write(0x0000, 0x00);

    cpu.dec(operand_at(0x0000), &mut bus);

    // Decrementing 0x00 must wrap to 0xFF.
    assert_eq!(bus.peek(0x0000), 0xFF);
    assert!(contains(cpu.status, NEGATIVE)); // 0xFF has bit 7 set
    assert!(!contains(cpu.status, ZERO));
}

#[test]
fn arithmetic_dec_sets_zero_when_result_is_zero() {
    let mut bus = Bus::new();
    let mut cpu = Cpu::new();
    bus.write(0x0000, 0x01);

    cpu.dec(operand_at(0x0000), &mut bus);

    assert_eq!(bus.peek(0x0000), 0x00);
    assert!(contains(cpu.status, ZERO));
    assert!(!contains(cpu.status, NEGATIVE));
}

#[test]
fn arithmetic_dec_sets_negative_when_result_high_bit_set() {
    let mut bus = Bus::new();
    let mut cpu = Cpu::new();
    bus.write(0x0000, 0x00); // will wrap to 0xFF, bit 7 set

    cpu.dec(operand_at(0x0000), &mut bus);

    assert!(contains(cpu.status, NEGATIVE));
}

#[test]
fn arithmetic_inx_adds_one_to_x() {
    let mut bus = Bus::new();
    let mut cpu = Cpu::new();
    cpu.x = 0x10;

    let extra_cycles = cpu.inx(Operand::Accumulator, &mut bus);

    assert_eq!(cpu.x, 0x11);
    assert_eq!(extra_cycles, 0);
}

#[test]
fn arithmetic_inx_wraps_from_0xff_to_zero() {
    let mut bus = Bus::new();
    let mut cpu = Cpu::new();
    cpu.x = 0xFF;

    cpu.inx(Operand::Accumulator, &mut bus);

    assert_eq!(cpu.x, 0x00);
    assert!(contains(cpu.status, ZERO));
}

#[test]
fn arithmetic_dex_subtracts_one_from_x() {
    let mut bus = Bus::new();
    let mut cpu = Cpu::new();
    cpu.x = 0x10;

    let extra_cycles = cpu.dex(Operand::Accumulator, &mut bus);

    assert_eq!(cpu.x, 0x0F);
    assert_eq!(extra_cycles, 0);
}

#[test]
fn arithmetic_dex_wraps_from_zero_to_0xff() {
    let mut bus = Bus::new();
    let mut cpu = Cpu::new();
    cpu.x = 0x00;

    cpu.dex(Operand::Accumulator, &mut bus);

    assert_eq!(cpu.x, 0xFF);
    assert!(contains(cpu.status, NEGATIVE));
    assert!(!contains(cpu.status, ZERO));
}

#[test]
fn arithmetic_dex_sets_zero_when_result_is_zero() {
    let mut bus = Bus::new();
    let mut cpu = Cpu::new();
    cpu.x = 0x01;

    cpu.dex(Operand::Accumulator, &mut bus);

    assert_eq!(cpu.x, 0x00);
    assert!(contains(cpu.status, ZERO));
}

#[test]
fn arithmetic_iny_adds_one_to_y() {
    let mut bus = Bus::new();
    let mut cpu = Cpu::new();
    cpu.y = 0x10;

    let extra_cycles = cpu.iny(Operand::Accumulator, &mut bus);

    assert_eq!(cpu.y, 0x11);
    assert_eq!(extra_cycles, 0);
}

#[test]
fn arithmetic_iny_wraps_from_0xff_to_zero() {
    let mut bus = Bus::new();
    let mut cpu = Cpu::new();
    cpu.y = 0xFF;

    cpu.iny(Operand::Accumulator, &mut bus);

    assert_eq!(cpu.y, 0x00);
    assert!(contains(cpu.status, ZERO));
}

#[test]
fn arithmetic_dey_subtracts_one_from_y() {
    let mut bus = Bus::new();
    let mut cpu = Cpu::new();
    cpu.y = 0x10;

    let extra_cycles = cpu.dey(Operand::Accumulator, &mut bus);

    assert_eq!(cpu.y, 0x0F);
    assert_eq!(extra_cycles, 0);
}

#[test]
fn arithmetic_dey_wraps_from_zero_to_0xff() {
    let mut bus = Bus::new();
    let mut cpu = Cpu::new();
    cpu.y = 0x00;

    cpu.dey(Operand::Accumulator, &mut bus);

    assert_eq!(cpu.y, 0xFF);
    assert!(contains(cpu.status, NEGATIVE));
    assert!(!contains(cpu.status, ZERO));
}

#[test]
fn arithmetic_dey_sets_zero_when_result_is_zero() {
    let mut bus = Bus::new();
    let mut cpu = Cpu::new();
    cpu.y = 0x01;

    cpu.dey(Operand::Accumulator, &mut bus);

    assert_eq!(cpu.y, 0x00);
    assert!(contains(cpu.status, ZERO));
}
