use zebes::bus::Bus;
use zebes::cpu::Cpu;
use zebes::cpu::addressing::Operand;
use zebes::cpu::flags::BREAK;
use zebes::cpu::flags::CARRY;
use zebes::cpu::flags::INTERRUPT_DISABLE;
use zebes::cpu::flags::NEGATIVE;
use zebes::cpu::flags::UNUSED;
use zebes::cpu::flags::ZERO;
use zebes::cpu::flags::contains;

#[test]
fn stack_pha_pushes_accumulator_onto_stack() {
    let mut bus = Bus::new();
    let mut cpu = Cpu::new();
    cpu.a = 0x42;
    cpu.sp = 0xFD;

    let extra_cycles = cpu.pha(Operand::Accumulator, &mut bus);

    assert_eq!(bus.peek(0x01FD), 0x42);
    assert_eq!(cpu.sp, 0xFC);
    assert_eq!(extra_cycles, 0);
}

#[test]
fn stack_pha_does_not_modify_accumulator_or_flags() {
    let mut bus = Bus::new();
    let mut cpu = Cpu::new();
    cpu.a = 0x42;
    let status_before = cpu.status;

    cpu.pha(Operand::Accumulator, &mut bus);

    assert_eq!(cpu.a, 0x42);
    assert_eq!(cpu.status, status_before);
}

#[test]
fn pla_loads_pulled_value_into_accumulator() {
    let mut bus = Bus::new();
    let mut cpu = Cpu::new();
    cpu.sp = 0xFC;
    bus.write(0x01FD, 0x42);

    let extra_cycles = cpu.pla(Operand::Accumulator, &mut bus);

    assert_eq!(cpu.a, 0x42);
    assert_eq!(cpu.sp, 0xFD);
    assert_eq!(extra_cycles, 0);
}

#[test]
fn pla_mirrors_a_previous_pha() {
    let mut bus = Bus::new();
    let mut cpu = Cpu::new();
    cpu.a = 0x77;
    cpu.sp = 0xFD;

    cpu.pha(Operand::Accumulator, &mut bus);
    cpu.a = 0x00;

    cpu.pla(Operand::Accumulator, &mut bus);

    assert_eq!(cpu.a, 0x77);
    assert_eq!(cpu.sp, 0xFD);
}

#[test]
fn pla_sets_zero_when_pulled_value_is_zero() {
    let mut bus = Bus::new();
    let mut cpu = Cpu::new();
    cpu.a = 0xFF;
    cpu.sp = 0xFC;
    bus.write(0x01FD, 0x00);

    cpu.pla(Operand::Accumulator, &mut bus);

    assert_eq!(cpu.a, 0x00);
    assert!(contains(cpu.status, ZERO));
}

#[test]
fn pla_sets_negative_when_pulled_value_has_high_bit_set() {
    let mut bus = Bus::new();
    let mut cpu = Cpu::new();
    cpu.sp = 0xFC;
    bus.write(0x01FD, 0x80);

    cpu.pla(Operand::Accumulator, &mut bus);

    assert!(contains(cpu.status, NEGATIVE));
}

#[test]
fn stack_php_pushes_status_with_break_and_unused_forced_high() {
    let mut bus = Bus::new();
    let mut cpu = Cpu::new();
    cpu.sp = 0xFD;
    zebes::cpu::flags::set(&mut cpu.status, CARRY, true);
    zebes::cpu::flags::set(&mut cpu.status, NEGATIVE, true);
    zebes::cpu::flags::set(&mut cpu.status, INTERRUPT_DISABLE, false);

    let extra_cycles = cpu.php(Operand::Accumulator, &mut bus);

    let pushed = bus.peek(0x01FD);
    assert!(contains(pushed, BREAK));
    assert!(contains(pushed, UNUSED));
    assert!(contains(pushed, CARRY));
    assert!(contains(pushed, NEGATIVE));
    assert_eq!(cpu.sp, 0xFC);
    assert_eq!(extra_cycles, 0);
}

#[test]
fn stack_php_does_not_set_break_on_the_live_status_register() {
    let mut bus = Bus::new();
    let mut cpu = Cpu::new();

    cpu.php(Operand::Accumulator, &mut bus);

    assert!(!contains(cpu.status, BREAK));
}

#[test]
fn plp_restores_status_from_stack() {
    let mut bus = Bus::new();
    let mut cpu = Cpu::new();
    cpu.sp = 0xFC;
    bus.write(0x01FD, CARRY | ZERO | NEGATIVE);

    let extra_cycles = cpu.plp(Operand::Accumulator, &mut bus);

    assert!(contains(cpu.status, CARRY));
    assert!(contains(cpu.status, ZERO));
    assert!(contains(cpu.status, NEGATIVE));
    assert_eq!(cpu.sp, 0xFD);
    assert_eq!(extra_cycles, 0);
}

#[test]
fn plp_forces_break_low_regardless_of_pulled_value() {
    let mut bus = Bus::new();
    let mut cpu = Cpu::new();
    cpu.sp = 0xFC;
    bus.write(0x01FD, CARRY | BREAK);

    cpu.plp(Operand::Accumulator, &mut bus);

    assert!(!contains(cpu.status, BREAK));
    assert!(contains(cpu.status, CARRY));
}

#[test]
fn plp_forces_unused_high_regardless_of_pulled_value() {
    let mut bus = Bus::new();
    let mut cpu = Cpu::new();
    cpu.sp = 0xFC;
    bus.write(0x01FD, CARRY);

    cpu.plp(Operand::Accumulator, &mut bus);

    assert!(contains(cpu.status, UNUSED));
}

#[test]
fn plp_mirrors_a_previous_php() {
    let mut bus = Bus::new();
    let mut cpu = Cpu::new();
    cpu.sp = 0xFD;
    zebes::cpu::flags::set(&mut cpu.status, CARRY, true);
    zebes::cpu::flags::set(&mut cpu.status, NEGATIVE, true);
    let status_before = cpu.status;

    cpu.php(Operand::Accumulator, &mut bus);
    zebes::cpu::flags::set(&mut cpu.status, CARRY, false);
    zebes::cpu::flags::set(&mut cpu.status, NEGATIVE, false);

    cpu.plp(Operand::Accumulator, &mut bus);

    assert_eq!(cpu.status, status_before);
    assert_eq!(cpu.sp, 0xFD);
}

#[test]
fn txs_copies_x_into_stack_pointer() {
    let mut bus = Bus::new();
    let mut cpu = Cpu::new();
    cpu.x = 0x42;

    let extra_cycles = cpu.txs(Operand::Accumulator, &mut bus);

    assert_eq!(cpu.sp, 0x42);
    assert_eq!(extra_cycles, 0);
}

#[test]
fn txs_does_not_affect_flags() {
    let mut bus = Bus::new();
    let mut cpu = Cpu::new();
    cpu.x = 0x00;
    let status_before = cpu.status;

    cpu.txs(Operand::Accumulator, &mut bus);

    assert_eq!(cpu.status, status_before);
}

#[test]
fn tsx_copies_stack_pointer_into_x() {
    let mut bus = Bus::new();
    let mut cpu = Cpu::new();
    cpu.sp = 0x42;

    let extra_cycles = cpu.tsx(Operand::Accumulator, &mut bus);

    assert_eq!(cpu.x, 0x42);
    assert_eq!(extra_cycles, 0);
}

#[test]
fn tsx_sets_zero_when_stack_pointer_is_zero() {
    let mut bus = Bus::new();
    let mut cpu = Cpu::new();
    cpu.sp = 0x00;
    cpu.x = 0xFF;

    cpu.tsx(Operand::Accumulator, &mut bus);

    assert!(contains(cpu.status, ZERO));
}

#[test]
fn tsx_sets_negative_when_stack_pointer_has_high_bit_set() {
    let mut bus = Bus::new();
    let mut cpu = Cpu::new();
    cpu.sp = 0x80;

    cpu.tsx(Operand::Accumulator, &mut bus);

    assert!(contains(cpu.status, NEGATIVE));
}
