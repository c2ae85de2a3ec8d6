use zebes::bus::Bus;
use zebes::cpu::Cpu;
use zebes::cpu::addressing::Operand;
use zebes::cpu::addressing::operand_at;
use zebes::cpu::flags::BREAK;
use zebes::cpu::flags::CARRY;
use zebes::cpu::flags::INTERRUPT_DISABLE;
use zebes::cpu::flags::NEGATIVE;
use zebes::cpu::flags::UNUSED;
use zebes::cpu::flags::contains;
use zebes::cpu::flags::to_pushed_byte;

#[test]
fn jump_jmp_sets_pc_to_operand_address() {
    let mut bus = Bus::new();
    let mut cpu = Cpu::new();
    cpu.pc = 0x1000;

    let extra_cycles = cpu.jmp(operand_at(0x8000), &mut bus);

    assert_eq!(cpu.pc, 0x8000);
    assert_eq!(extra_cycles, 0);
}

#[test]
fn jump_jsr_pushes_return_address_minus_one_and_jumps() {
    let mut bus = Bus::new();
    let mut cpu = Cpu::new();
    cpu.pc = 0x1234;
    cpu.sp = 0xFD;

    let extra_cycles = cpu.jsr(operand_at(0x8000), &mut bus);

    // the pushed address should be pc - 1.
    let expected_pushed_addr: u16 = 0x1233;

    assert_eq!(bus.peek(0x01FD), (expected_pushed_addr >> 8) as u8);
    assert_eq!(bus.peek(0x01FC), (expected_pushed_addr & 0x00FF) as u8);
    assert_eq!(cpu.sp, 0xFB);

    assert_eq!(cpu.pc, 0x8000);
    assert_eq!(extra_cycles, 0);
}

#[test]
fn rts_restores_pc_from_low_then_high_byte_plus_one() {
    let mut bus = Bus::new();
    let mut cpu = Cpu::new();
    cpu.sp = 0xFB;
    bus.write(0x01FC, 0x33); // pc low byte
    bus.write(0x01FD, 0x12); // pc high byte

    let extra_cycles = cpu.rts(Operand::Accumulator, &mut bus);

    // Pulled address is 0x1233, then +1 gives 0x1234.
    assert_eq!(cpu.pc, 0x1234);
    assert_eq!(extra_cycles, 0);
}

#[test]
fn rts_advances_sp_by_exactly_two() {
    let mut bus = Bus::new();
    let mut cpu = Cpu::new();
    cpu.sp = 0xFB;
    bus.write(0x01FC, 0x00);
    bus.write(0x01FD, 0x00);

    cpu.rts(Operand::Accumulator, &mut bus);

    assert_eq!(cpu.sp, 0xFD);
}

#[test]
fn rts_mirrors_a_previous_jsr() {
    let mut bus = Bus::new();
    let mut cpu = Cpu::new();
    cpu.pc = 0x1234; // already advanced past JSR's operand bytes
    cpu.sp = 0xFD;

    cpu.jsr(operand_at(0x8000), &mut bus);
    assert_eq!(cpu.pc, 0x8000);

    cpu.rts(Operand::Accumulator, &mut bus);

    assert_eq!(cpu.pc, 0x1234);
    assert_eq!(cpu.sp, 0xFD);
}

#[test]
fn jump_brk_pushes_return_address_and_status_then_jumps_to_irq_vector() {
    let mut bus = Bus::new();
    let mut cpu = Cpu::new();

    cpu.pc = 0x1234;
    cpu.sp = 0xFD;

    // Some arbitrary flags so we can confirm if they have been preserved.
    zebes::cpu::flags::set(&mut cpu.status, CARRY, true);
    zebes::cpu::flags::set(&mut cpu.status, NEGATIVE, true);
    zebes::cpu::flags::set(&mut cpu.status, INTERRUPT_DISABLE, false);

    // Saved status before BRK modifies it.
    let status_before = cpu.status;

    // IRQ/BRK vector: where execution should end up.
    bus.write(0xFFFE, 0x00);
    bus.write(0xFFFF, 0x80); // vector points at 0x8000

    let extra_cycles = cpu.brk(Operand::Accumulator, &mut bus); // operand is unused

    // pc advanced by 1 before pushing, so the return address on the stack should be 0x1235, not 0x1234.
    let expected_return_addr: u16 = 0x1235;

    // Stack pushes happen high byte first, then low byte, then
    // status and sp decrements by 1 after each push. Starting sp
    // was 0xFD, so:
    //   push high byte at 0x0100 + 0xFD = 0x01FD, sp -> 0xFC
    //   push low byte  at 0x0100 + 0xFC = 0x01FC, sp -> 0xFB
    //   push status    at 0x0100 + 0xFB = 0x01FB, sp -> 0xFA
    assert_eq!(bus.peek(0x01FD), (expected_return_addr >> 8) as u8);
    assert_eq!(bus.peek(0x01FC), (expected_return_addr & 0x00FF) as u8);
    assert_eq!(cpu.sp, 0xFA);

    // The pushed status byte must have BREAK and UNUSED forced high while preserving flags
    // already set.
    let pushed_status = bus.peek(0x01FB);
    let expected_status = to_pushed_byte(status_before);
    assert_eq!(pushed_status, expected_status);

    // self.status should not have BREAK set after brk() returns.
    assert!(!contains(cpu.status, BREAK));

    assert!(contains(cpu.status, INTERRUPT_DISABLE));

    // Execution must have jumped to the IRQ/BRK vector.
    assert_eq!(cpu.pc, 0x8000);

    assert_eq!(extra_cycles, 0);
}

#[test]
fn rti_restores_status_with_break_forced_low() {
    let mut bus = Bus::new();
    let mut cpu = Cpu::new();
    cpu.sp = 0xFA;
    // Stack layout (bottom to top as pulled): status, pc-low, pc-high
    bus.write(0x01FB, CARRY | BREAK); // status, as if pushed with BREAK set
    bus.write(0x01FC, 0x00); // pc low byte
    bus.write(0x01FD, 0x80); // pc high byte

    let extra_cycles = cpu.rti(Operand::Accumulator, &mut bus);

    assert!(!contains(cpu.status, BREAK));
    assert!(contains(cpu.status, CARRY));
    assert!(contains(cpu.status, UNUSED));
    assert_eq!(extra_cycles, 0);
}

#[test]
fn rti_restores_pc_from_low_then_high_byte() {
    let mut bus = Bus::new();
    let mut cpu = Cpu::new();
    cpu.sp = 0xFA;
    bus.write(0x01FB, 0x00); // status
    bus.write(0x01FC, 0x34); // pc low byte
    bus.write(0x01FD, 0x12); // pc high byte

    cpu.rti(Operand::Accumulator, &mut bus);

    assert_eq!(cpu.pc, 0x1234);
}

#[test]
fn rti_advances_sp_by_exactly_three() {
    let mut bus = Bus::new();
    let mut cpu = Cpu::new();
    cpu.sp = 0xFA;
    bus.write(0x01FB, 0x00);
    bus.write(0x01FC, 0x00);
    bus.write(0x01FD, 0x00);

    cpu.rti(Operand::Accumulator, &mut bus);

    assert_eq!(cpu.sp, 0xFD, "sp must advance by 3 (one pull per byte)");
}

#[test]
fn rti_mirrors_a_previous_brk() {
    let mut bus = Bus::new();
    let mut cpu = Cpu::new();

    cpu.pc = 0x1234;
    cpu.sp = 0xFD;
    zebes::cpu::flags::set(&mut cpu.status, CARRY, true);
    zebes::cpu::flags::set(&mut cpu.status, NEGATIVE, true);
    zebes::cpu::flags::set(&mut cpu.status, INTERRUPT_DISABLE, false);
    let status_before_brk = cpu.status;
    let pc_after_brk_advance = cpu.pc.wrapping_add(1); // BRK's own pc+1 before pushing

    // IRQ/BRK vector — brk() will jump here.
    bus.write(0xFFFE, 0x00);
    bus.write(0xFFFF, 0x90);

    cpu.brk(Operand::Accumulator, &mut bus);
    cpu.status = 0x00;
    cpu.pc = 0x0000;

    cpu.rti(Operand::Accumulator, &mut bus);

    assert_eq!(
        cpu.pc, pc_after_brk_advance,
        "RTI must return to BRK's exact return address"
    );
    assert_eq!(
        cpu.status, status_before_brk,
        "RTI must restore the pre-BRK flags exactly"
    );
    assert_eq!(
        cpu.sp, 0xFD,
        "sp should return to its original value after a full brk+rti round trip"
    );
}
