use zebes::cpu::Cpu;
use zebes::cpu::addressing::Operand;
use zebes::cpu::flags::CARRY;
use zebes::cpu::flags::DECIMAL;
use zebes::cpu::flags::INTERRUPT_DISABLE;
use zebes::cpu::flags::OVERFLOW;
use zebes::cpu::flags::contains;
use zebes::cpu_bus::CpuBus;

#[test]
fn flags_clc_clears_carry_flag() {
    let mut bus = CpuBus::new();
    let mut cpu = Cpu::new();
    zebes::cpu::flags::set(&mut cpu.status, CARRY, true);

    let extra_cycles = cpu.clc(Operand::Accumulator, &mut bus);

    assert!(!contains(cpu.status, CARRY));
    assert_eq!(extra_cycles, 0);
}

#[test]
fn sec_sets_carry_flag() {
    let mut bus = CpuBus::new();
    let mut cpu = Cpu::new();
    zebes::cpu::flags::set(&mut cpu.status, CARRY, false);

    let extra_cycles = cpu.sec(Operand::Accumulator, &mut bus);

    assert!(contains(cpu.status, CARRY));
    assert_eq!(extra_cycles, 0);
}

#[test]
fn flags_cli_clears_interrupt_disable_flag() {
    let mut bus = CpuBus::new();
    let mut cpu = Cpu::new();
    zebes::cpu::flags::set(&mut cpu.status, INTERRUPT_DISABLE, true);

    let extra_cycles = cpu.cli(Operand::Accumulator, &mut bus);

    assert!(!contains(cpu.status, INTERRUPT_DISABLE));
    assert_eq!(extra_cycles, 0);
}

#[test]
fn sei_sets_interrupt_disable_flag() {
    let mut bus = CpuBus::new();
    let mut cpu = Cpu::new();
    zebes::cpu::flags::set(&mut cpu.status, INTERRUPT_DISABLE, false);

    let extra_cycles = cpu.sei(Operand::Accumulator, &mut bus);

    assert!(contains(cpu.status, INTERRUPT_DISABLE));
    assert_eq!(extra_cycles, 0);
}

#[test]
fn flags_cld_clears_decimal_flag() {
    let mut bus = CpuBus::new();
    let mut cpu = Cpu::new();
    zebes::cpu::flags::set(&mut cpu.status, DECIMAL, true);

    let extra_cycles = cpu.cld(Operand::Accumulator, &mut bus);

    assert!(!contains(cpu.status, DECIMAL));
    assert_eq!(extra_cycles, 0);
}

#[test]
fn sed_sets_decimal_flag() {
    let mut bus = CpuBus::new();
    let mut cpu = Cpu::new();
    zebes::cpu::flags::set(&mut cpu.status, DECIMAL, false);

    let extra_cycles = cpu.sed(Operand::Accumulator, &mut bus);

    assert!(contains(cpu.status, DECIMAL));
    assert_eq!(extra_cycles, 0);
}

#[test]
fn flags_clv_clears_overflow_flag() {
    let mut bus = CpuBus::new();
    let mut cpu = Cpu::new();
    zebes::cpu::flags::set(&mut cpu.status, OVERFLOW, true);

    let extra_cycles = cpu.clv(Operand::Accumulator, &mut bus);

    assert!(!contains(cpu.status, OVERFLOW));
    assert_eq!(extra_cycles, 0);
}
