use zebes::bus::Bus;
use zebes::cpu::Cpu;
use zebes::cpu::addressing::Operand;
use zebes::cpu::flags::BREAK;
use zebes::cpu::flags::CARRY;
use zebes::cpu::flags::INTERRUPT_DISABLE;
use zebes::cpu::flags::NEGATIVE;
use zebes::cpu::flags::UNUSED;
use zebes::cpu::flags::contains;

#[test]
fn ram_bus_stack_pha_pushes_accumulator_onto_stack() {
    let mut bus = Bus::new();
    let mut cpu = Cpu::new();
    cpu.a = 0x42;
    cpu.sp = 0xFD;

    let extra_cycles = cpu.pha(Operand::Accumulator, &mut bus);

    assert_eq!(bus.peek(0x01FD), 0x42);
    assert_eq!(cpu.sp, 0xFC, "sp must decrement by 1");
    assert_eq!(extra_cycles, 0);
}

#[test]
fn ram_bus_stack_pha_does_not_modify_accumulator_or_flags() {
    let mut bus = Bus::new();
    let mut cpu = Cpu::new();
    cpu.a = 0x42;
    let status_before = cpu.status;

    cpu.pha(Operand::Accumulator, &mut bus);

    assert_eq!(cpu.a, 0x42);
    assert_eq!(cpu.status, status_before);
}

#[test]
fn ram_bus_stack_php_pushes_status_with_break_and_unused_forced_high() {
    let mut bus = Bus::new();
    let mut cpu = Cpu::new();
    cpu.sp = 0xFD;
    zebes::cpu::flags::set(&mut cpu.status, CARRY, true);
    zebes::cpu::flags::set(&mut cpu.status, NEGATIVE, true);
    zebes::cpu::flags::set(&mut cpu.status, INTERRUPT_DISABLE, false);

    let extra_cycles = cpu.php(Operand::Accumulator, &mut bus);

    let pushed = bus.peek(0x01FD);
    assert!(contains(pushed, BREAK), "pushed status must have BREAK set");
    assert!(
        contains(pushed, UNUSED),
        "pushed status must have UNUSED set"
    );
    assert!(
        contains(pushed, CARRY),
        "pre-existing flags must be preserved"
    );
    assert!(
        contains(pushed, NEGATIVE),
        "pre-existing flags must be preserved"
    );
    assert_eq!(cpu.sp, 0xFC);
    assert_eq!(extra_cycles, 0);
}

#[test]
fn ram_bus_stack_php_does_not_set_break_on_the_live_status_register() {
    let mut bus = Bus::new();
    let mut cpu = Cpu::new();

    cpu.php(Operand::Accumulator, &mut bus);

    assert!(!contains(cpu.status, BREAK));
}
