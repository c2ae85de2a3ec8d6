use zebes::bus::Bus;
use zebes::cpu::Cpu;
use zebes::cpu::addressing::Operand;
use zebes::cpu::addressing::operand_at;
use zebes::cpu::flags::BREAK;
use zebes::cpu::flags::CARRY;
use zebes::cpu::flags::INTERRUPT_DISABLE;
use zebes::cpu::flags::NEGATIVE;
use zebes::cpu::flags::UNUSED;
use zebes::cpu::flags::contains;
use zebes::cpu::flags::to_pushed_byte;

#[test]
fn ram_bus_jump_jmp_sets_pc_to_operand_address() {
    let mut bus = Bus::new();
    let mut cpu = Cpu::new();
    cpu.pc = 0x1000;

    let extra_cycles = cpu.jmp(operand_at(0x8000), &mut bus);

    assert_eq!(cpu.pc, 0x8000);
    assert_eq!(extra_cycles, 0);
}

#[test]
fn ram_bus_jump_jsr_pushes_return_address_minus_one_and_jumps() {
    let mut bus = Bus::new();
    let mut cpu = Cpu::new();
    cpu.pc = 0x1234;
    cpu.sp = 0xFD;

    let extra_cycles = cpu.jsr(operand_at(0x8000), &mut bus);

    // the pushed address should be pc - 1.
    let expected_pushed_addr: u16 = 0x1233;

    assert_eq!(
        bus.peek(0x01FD),
        (expected_pushed_addr >> 8) as u8,
        "high byte"
    );
    assert_eq!(
        bus.peek(0x01FC),
        (expected_pushed_addr & 0x00FF) as u8,
        "low byte"
    );
    assert_eq!(cpu.sp, 0xFB, "sp must decrement by 2 (two pushes)");

    assert_eq!(cpu.pc, 0x8000, "pc must jump to the subroutine address");
    assert_eq!(extra_cycles, 0);
}

#[test]
fn ram_bus_jump_brk_pushes_return_address_and_status_then_jumps_to_irq_vector() {
    let mut bus = Bus::new();
    let mut cpu = Cpu::new();

    cpu.pc = 0x1234;
    cpu.sp = 0xFD;

    // Some arbitrary flags so we can confirm if they have been preserved.
    zebes::cpu::flags::set(&mut cpu.status, CARRY, true);
    zebes::cpu::flags::set(&mut cpu.status, NEGATIVE, true);
    zebes::cpu::flags::set(&mut cpu.status, INTERRUPT_DISABLE, false);

    // Saved status before BRK modifies it.
    let status_before = cpu.status;

    // IRQ/BRK vector: where execution should end up.
    bus.write(0xFFFE, 0x00);
    bus.write(0xFFFF, 0x80); // vector points at 0x8000

    let extra_cycles = cpu.brk(Operand::Accumulator, &mut bus); // operand is unused

    // pc advanced by 1 before pushing, so the return address on the stack should be 0x1235, not 0x1234.
    let expected_return_addr: u16 = 0x1235;

    // Stack pushes happen high byte first, then low byte, then
    // status and sp decrements by 1 after each push. Starting sp
    // was 0xFD, so:
    //   push high byte at 0x0100 + 0xFD = 0x01FD, sp -> 0xFC
    //   push low byte  at 0x0100 + 0xFC = 0x01FC, sp -> 0xFB
    //   push status    at 0x0100 + 0xFB = 0x01FB, sp -> 0xFA
    assert_eq!(
        bus.peek(0x01FD),
        (expected_return_addr >> 8) as u8,
        "high byte of return address"
    );
    assert_eq!(
        bus.peek(0x01FC),
        (expected_return_addr & 0x00FF) as u8,
        "low byte of return address"
    );
    assert_eq!(cpu.sp, 0xFA, "sp must decrement by exactly 3");

    // The pushed status byte must have BREAK and UNUSED forced high while preserving flags
    // already set.
    let pushed_status = bus.peek(0x01FB);
    let expected_status = to_pushed_byte(status_before);
    assert_eq!(pushed_status, expected_status);

    // BREAK is not a "real"" flag. self.status should not have BREAK set after brk() returns.
    assert!(
        !contains(cpu.status, BREAK),
        "BREAK must never be set on the live status"
    );

    assert!(
        contains(cpu.status, INTERRUPT_DISABLE),
        "BRK must set INTERRUPT_DISABLE going forward"
    );

    // Execution must have jumped to the IRQ/BRK vector.
    assert_eq!(cpu.pc, 0x8000);

    assert_eq!(extra_cycles, 0);
}
