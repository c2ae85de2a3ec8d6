use zebes::bus::Bus;
use zebes::cpu::Cpu;
use zebes::cpu::addressing::Operand;
use zebes::cpu::addressing::operand_at;
use zebes::cpu::addressing::page_crossed;
use zebes::cpu::flags::BREAK;
use zebes::cpu::flags::CARRY;
use zebes::cpu::flags::DECIMAL;
use zebes::cpu::flags::INTERRUPT_DISABLE;
use zebes::cpu::flags::NEGATIVE;
use zebes::cpu::flags::OVERFLOW;
use zebes::cpu::flags::UNUSED;
use zebes::cpu::flags::ZERO;
use zebes::cpu::flags::contains;
use zebes::cpu::flags::to_pushed_byte;

fn assert_branch_not_taken(branch_fn: fn(&mut Cpu, Operand, &mut Bus) -> u8, cpu: &mut Cpu) {
    let mut bus = Bus::new();
    cpu.pc = 0x1000;
    let operand = operand_at(0x2000);
    let extra_cycles = branch_fn(cpu, operand, &mut bus);
    assert_eq!(cpu.pc, 0x1000);
    assert_eq!(extra_cycles, 0);
}

fn assert_branch_taken(
    branch_fn: fn(&mut Cpu, Operand, &mut Bus) -> u8,
    cpu: &mut Cpu,
    target: u16,
    expected_extra_cycles: u8,
) {
    let mut bus = Bus::new();
    let operand = operand_at(target);
    let extra_cycles = branch_fn(cpu, operand, &mut bus);
    assert_eq!(cpu.pc, target);
    assert_eq!(extra_cycles, expected_extra_cycles);
}

#[test]
fn instructions_adc_simple_addition_with_no_carry() {
    let mut bus = Bus::new();
    let mut cpu = Cpu::new();
    cpu.a = 0x10;
    bus.write(0x0000, 0x05);

    let extra_cycles = cpu.adc(operand_at(0x0000), &mut bus);

    // 16 + 5 = 21 (0x15)
    assert_eq!(cpu.a, 0x15);
    assert!(!contains(cpu.status, CARRY));
    assert!(!contains(cpu.status, ZERO));
    assert!(!contains(cpu.status, OVERFLOW));
    assert!(!contains(cpu.status, NEGATIVE));
    assert_eq!(extra_cycles, 0);
}

#[test]
fn instructions_adc_sets_carry_flag_on_unsigned_overflow() {
    let mut bus = Bus::new();
    let mut cpu = Cpu::new();
    cpu.a = 0xFF; // largest possible u8
    bus.write(0x0000, 0x01);

    cpu.adc(operand_at(0x0000), &mut bus);

    // 255 + 1 = 256, which wraps to 0
    assert_eq!(cpu.a, 0x00);
    assert!(contains(cpu.status, CARRY));
    assert!(contains(cpu.status, ZERO));
}

#[test]
fn instructions_adc_includes_carry_bit_from_previous_adc() {
    let mut bus = Bus::new();
    let mut cpu = Cpu::new();
    cpu.a = 0x01;
    zebes::cpu::flags::set(&mut cpu.status, CARRY, true); // simulate carry left
    bus.write(0x0000, 0x01);

    cpu.adc(operand_at(0x0000), &mut bus);

    // 1 + 1 + carry-in(1) = 3
    assert_eq!(cpu.a, 0x03);
}

#[test]
fn adc_returns_one_extra_cycle_when_page_crossed() {
    let mut bus = Bus::new();
    let mut cpu = Cpu::new();
    cpu.a = 0x10;
    bus.write(0x0000, 0x05);

    let operand = Operand::Address {
        address: 0x0000,
        page_crossed: true,
    };
    let extra_cycles = cpu.adc(operand, &mut bus);

    assert_eq!(extra_cycles, 1);
}

#[test]
fn instructions_and_masks_acc_with_memory() {
    let mut bus = Bus::new();
    let mut cpu = Cpu::new();
    cpu.a = 0b1100_1100;
    bus.write(0x0000, 0b1010_1010);

    let extra_cycles = cpu.and(operand_at(0x0000), &mut bus);

    assert_eq!(cpu.a, 0b1000_1000);
    assert!(!contains(cpu.status, ZERO));
    assert!(contains(cpu.status, NEGATIVE)); // bit 7 is set in the result
    assert_eq!(extra_cycles, 0);
}

#[test]
fn instructions_and_sets_zero_when_result_is_zero() {
    let mut bus = Bus::new();
    let mut cpu = Cpu::new();
    cpu.a = 0b1111_0000;
    bus.write(0x0000, 0b0000_1111); // no overlapping bits

    cpu.and(operand_at(0x0000), &mut bus);

    assert_eq!(cpu.a, 0);
    assert!(contains(cpu.status, ZERO));
}

#[test]
fn instructions_and_returns_extra_cycle_when_page_crossed() {
    let mut bus = Bus::new();
    let mut cpu = Cpu::new();
    cpu.a = 0xFF;
    bus.write(0x0000, 0xFF);

    let operand = Operand::Address {
        address: 0x0000,
        page_crossed: true,
    };
    let extra_cycles = cpu.and(operand, &mut bus);

    assert_eq!(extra_cycles, 1);
}

#[test]
fn instructions_asl_shifts_memory_value_left() {
    let mut bus = Bus::new();
    let mut cpu = Cpu::new();
    bus.write(0x0000, 0b0000_0001);

    cpu.asl(operand_at(0x0000), &mut bus);

    // The shifted result must be written back to the same address it was read from.
    assert_eq!(bus.peek(0x0000), 0b0000_0010);
}

#[test]
fn instructions_asl_sets_carry_when_bit_7_shifts_out() {
    let mut bus = Bus::new();
    let mut cpu = Cpu::new();
    bus.write(0x0000, 0b1000_0000); // bit 7 set

    cpu.asl(operand_at(0x0000), &mut bus);

    // Shifting 0b1000_0000 left pushes that 1 out of the byte entirely. CARRY is where that
    // lost bit should end up.
    assert_eq!(bus.peek(0x0000), 0b0000_0000);
    assert!(contains(cpu.status, CARRY));
    assert!(contains(cpu.status, ZERO));
}

#[test]
fn instructions_asl_does_not_set_carry_when_bit_7_is_clear() {
    let mut bus = Bus::new();
    let mut cpu = Cpu::new();
    bus.write(0x0000, 0b0100_0000); // bit 7 clear, bit 6 set

    cpu.asl(operand_at(0x0000), &mut bus);

    assert_eq!(bus.peek(0x0000), 0b1000_0000);
    assert!(!contains(cpu.status, CARRY));
    assert!(contains(cpu.status, NEGATIVE)); // shifted bit 6 into bit 7
}

#[test]
fn instructions_asl_accumulator_mode_shifts_register_not_memory() {
    let mut bus = Bus::new();
    let mut cpu = Cpu::new();
    cpu.a = 0b0000_0011;
    bus.write(0x0000, 0xFF); // must remain untouched

    cpu.asl(Operand::Accumulator, &mut bus);

    // No bus access should happen at all.
    assert_eq!(cpu.a, 0b0000_0110);
    assert_eq!(bus.peek(0x0000), 0xFF);
}

#[test]
fn instructions_asl_accumulator_mode_sets_carry_correctly() {
    let mut bus = Bus::new();
    let mut cpu = Cpu::new();
    cpu.a = 0b1100_0000;

    cpu.asl(Operand::Accumulator, &mut bus);

    assert_eq!(cpu.a, 0b1000_0000);
    assert!(contains(cpu.status, CARRY));
    assert!(contains(cpu.status, NEGATIVE));
}

#[test]
fn instructions_bcc_does_not_branch_when_carry_is_set() {
    let mut cpu = Cpu::new();
    zebes::cpu::flags::set(&mut cpu.status, CARRY, true);
    assert_branch_not_taken(Cpu::bcc, &mut cpu);
}

#[test]
fn instructions_bcc_branches_when_carry_is_clear_same_page() {
    let mut cpu = Cpu::new();
    cpu.pc = 0x1000;
    zebes::cpu::flags::set(&mut cpu.status, CARRY, false);
    assert_branch_taken(Cpu::bcc, &mut cpu, 0x1010, 1);
}

#[test]
fn instructions_bcc_branch_taken_adds_two_cycles_when_page_crossed() {
    let mut cpu = Cpu::new();
    cpu.pc = 0x10F0;
    zebes::cpu::flags::set(&mut cpu.status, CARRY, false);
    assert_branch_taken(Cpu::bcc, &mut cpu, 0x1105, 2);
}

#[test]
fn instructions_bcs_does_not_branch_when_carry_clear() {
    let mut cpu = Cpu::new();
    zebes::cpu::flags::set(&mut cpu.status, CARRY, false);
    assert_branch_not_taken(Cpu::bcs, &mut cpu);
}

#[test]
fn instructions_bcs_branches_when_carry_set_same_page() {
    let mut cpu = Cpu::new();
    cpu.pc = 0x1000;
    zebes::cpu::flags::set(&mut cpu.status, CARRY, true);
    assert_branch_taken(Cpu::bcs, &mut cpu, 0x1010, 1);
}

#[test]
fn instructions_bcs_branches_across_page_boundary() {
    let mut cpu = Cpu::new();
    cpu.pc = 0x10F0;
    zebes::cpu::flags::set(&mut cpu.status, CARRY, true);
    assert_branch_taken(Cpu::bcs, &mut cpu, 0x1105, 2);
}

#[test]
fn instructions_beq_does_not_branch_when_zero_clear() {
    let mut cpu = Cpu::new();
    zebes::cpu::flags::set(&mut cpu.status, ZERO, false);
    assert_branch_not_taken(Cpu::beq, &mut cpu);
}

#[test]
fn instructions_beq_branches_when_zero_set_same_page() {
    let mut cpu = Cpu::new();
    cpu.pc = 0x1000;
    zebes::cpu::flags::set(&mut cpu.status, ZERO, true);
    assert_branch_taken(Cpu::beq, &mut cpu, 0x1010, 1);
}

#[test]
fn instructions_beq_branches_across_page_boundary() {
    let mut cpu = Cpu::new();
    cpu.pc = 0x10F0;
    zebes::cpu::flags::set(&mut cpu.status, ZERO, true);
    assert_branch_taken(Cpu::beq, &mut cpu, 0x1105, 2);
}

#[test]
fn instructions_bit_sets_zero_when_and_result_is_zero() {
    let mut bus = Bus::new();
    let mut cpu = Cpu::new();

    cpu.a = 0b0000_1111;
    bus.write(0x0000, 0b1111_0000);

    cpu.bit(operand_at(0x0000), &mut bus);

    // No bits overlap, so A & memory is zero.
    assert!(contains(cpu.status, ZERO));
}

#[test]
fn instructions_bit_clears_zero_when_and_result_is_nonzero() {
    let mut bus = Bus::new();
    let mut cpu = Cpu::new();

    cpu.a = 0b0000_1111;
    bus.write(0x0000, 0b0000_1000);

    cpu.bit(operand_at(0x0000), &mut bus);

    assert!(!contains(cpu.status, ZERO));
}

#[test]
fn instructions_bit_copies_bit_7_into_negative_flag() {
    let mut bus = Bus::new();
    let mut cpu = Cpu::new();

    cpu.a = 0xFF;
    bus.write(0x0000, 0b1000_0000);

    cpu.bit(operand_at(0x0000), &mut bus);

    assert!(contains(cpu.status, NEGATIVE));
}

#[test]
fn instructions_bit_copies_bit_6_into_overflow_flag() {
    let mut bus = Bus::new();
    let mut cpu = Cpu::new();

    cpu.a = 0xFF;
    bus.write(0x0000, 0b0100_0000);

    cpu.bit(operand_at(0x0000), &mut bus);

    assert!(contains(cpu.status, OVERFLOW));
}

#[test]
fn instructions_bit_does_not_modify_accumulator() {
    let mut bus = Bus::new();
    let mut cpu = Cpu::new();

    cpu.a = 0x55;
    bus.write(0x0000, 0xFF);

    cpu.bit(operand_at(0x0000), &mut bus);

    assert_eq!(cpu.a, 0x55);
}

#[test]
fn instructions_bmi_does_not_branch_when_negative_clear() {
    let mut cpu = Cpu::new();
    zebes::cpu::flags::set(&mut cpu.status, NEGATIVE, false);
    assert_branch_not_taken(Cpu::bmi, &mut cpu);
}

#[test]
fn instructions_bmi_branches_when_negative_set_same_page() {
    let mut cpu = Cpu::new();
    cpu.pc = 0x1000;
    zebes::cpu::flags::set(&mut cpu.status, NEGATIVE, true);
    assert_branch_taken(Cpu::bmi, &mut cpu, 0x1010, 1);
}

#[test]
fn instructions_bmi_branches_across_page_boundary() {
    let mut cpu = Cpu::new();
    cpu.pc = 0x10F0;
    zebes::cpu::flags::set(&mut cpu.status, NEGATIVE, true);
    assert_branch_taken(Cpu::bmi, &mut cpu, 0x1105, 2);
}

#[test]
fn instructions_bne_branches_when_zero_clear() {
    let mut cpu = Cpu::new();
    cpu.pc = 0x1000;
    zebes::cpu::flags::set(&mut cpu.status, ZERO, false);
    assert_branch_taken(Cpu::bne, &mut cpu, 0x1010, 1);
}

#[test]
fn instructions_bne_does_not_branch_when_zero_is_set() {
    let mut cpu = Cpu::new();
    zebes::cpu::flags::set(&mut cpu.status, ZERO, true);
    assert_branch_not_taken(Cpu::bne, &mut cpu);
}

#[test]
fn instructions_bne_branches_across_page_boundary() {
    let mut cpu = Cpu::new();
    cpu.pc = 0x10F0;
    zebes::cpu::flags::set(&mut cpu.status, ZERO, false);
    assert_branch_taken(Cpu::bne, &mut cpu, 0x1105, 2);
}

#[test]
fn instructions_bpl_branches_when_negative_clear() {
    let mut cpu = Cpu::new();
    cpu.pc = 0x1000;
    zebes::cpu::flags::set(&mut cpu.status, NEGATIVE, false);
    assert_branch_taken(Cpu::bpl, &mut cpu, 0x1010, 1);
}

#[test]
fn instructions_bpl_does_not_branch_when_negative_is_set() {
    let mut cpu = Cpu::new();
    zebes::cpu::flags::set(&mut cpu.status, NEGATIVE, true);
    assert_branch_not_taken(Cpu::bpl, &mut cpu);
}

#[test]
fn instructions_bpl_branches_across_page_boundary() {
    let mut cpu = Cpu::new();
    cpu.pc = 0x10F0;
    zebes::cpu::flags::set(&mut cpu.status, NEGATIVE, false);
    assert_branch_taken(Cpu::bpl, &mut cpu, 0x1105, 2);
}

#[test]
fn instructions_brk_pushes_return_address_and_status_then_jumps_to_irq_vector() {
    let mut bus = Bus::new();
    let mut cpu = Cpu::new();

    cpu.pc = 0x1234;
    cpu.sp = 0xFD;

    // Some arbitrary flags so we can confirm if they have been preserved.
    zebes::cpu::flags::set(&mut cpu.status, CARRY, true);
    zebes::cpu::flags::set(&mut cpu.status, NEGATIVE, true);
    zebes::cpu::flags::set(&mut cpu.status, INTERRUPT_DISABLE, false);

    // Saved status before BRK modifies it.
    let status_before = cpu.status;

    // IRQ/BRK vector: where execution should end up.
    bus.write(0xFFFE, 0x00);
    bus.write(0xFFFF, 0x80); // vector points at 0x8000

    let extra_cycles = cpu.brk(Operand::Accumulator, &mut bus); // operand is unused

    // pc advanced by 1 before pushing, so the return address on the stack should be 0x1235, not 0x1234.
    let expected_return_addr: u16 = 0x1235;

    // Stack pushes happen high byte first, then low byte, then
    // status and sp decrements by 1 after each push. Starting sp
    // was 0xFD, so:
    //   push high byte at 0x0100 + 0xFD = 0x01FD, sp -> 0xFC
    //   push low byte  at 0x0100 + 0xFC = 0x01FC, sp -> 0xFB
    //   push status    at 0x0100 + 0xFB = 0x01FB, sp -> 0xFA
    assert_eq!(
        bus.peek(0x01FD),
        (expected_return_addr >> 8) as u8,
        "high byte of return address"
    );
    assert_eq!(
        bus.peek(0x01FC),
        (expected_return_addr & 0x00FF) as u8,
        "low byte of return address"
    );
    assert_eq!(cpu.sp, 0xFA, "sp must decrement by exactly 3");

    // The pushed status byte must have BREAK and UNUSED forced high while preserving flags
    // already set.
    let pushed_status = bus.peek(0x01FB);
    let expected_status = to_pushed_byte(status_before);
    assert_eq!(pushed_status, expected_status);

    // BREAK is not a "real"" flag. self.status should not have BREAK set after brk() returns.
    assert!(
        !contains(cpu.status, BREAK),
        "BREAK must never be set on the live status"
    );

    assert!(
        contains(cpu.status, INTERRUPT_DISABLE),
        "BRK must set INTERRUPT_DISABLE going forward"
    );

    // Execution must have jumped to the IRQ/BRK vector.
    assert_eq!(cpu.pc, 0x8000);

    assert_eq!(extra_cycles, 0);
}

#[test]
fn instructions_bvc_branches_when_overflow_clear() {
    let mut cpu = Cpu::new();
    cpu.pc = 0x1000;
    zebes::cpu::flags::set(&mut cpu.status, OVERFLOW, false);
    assert_branch_taken(Cpu::bvc, &mut cpu, 0x1010, 1);
}

#[test]
fn instructions_bvc_does_not_branch_when_overflow_is_set() {
    let mut cpu = Cpu::new();
    zebes::cpu::flags::set(&mut cpu.status, OVERFLOW, true);
    assert_branch_not_taken(Cpu::bvc, &mut cpu);
}

#[test]
fn instructions_bvc_branches_across_page_boundary() {
    let mut cpu = Cpu::new();
    cpu.pc = 0x10F0;
    zebes::cpu::flags::set(&mut cpu.status, OVERFLOW, false);
    assert_branch_taken(Cpu::bvc, &mut cpu, 0x1105, 2);
}

#[test]
fn instructions_bvs_branches_when_overflow_is_set() {
    let mut cpu = Cpu::new();
    cpu.pc = 0x1000;
    zebes::cpu::flags::set(&mut cpu.status, OVERFLOW, true);
    assert_branch_taken(Cpu::bvs, &mut cpu, 0x1010, 1);
}

#[test]
fn instructions_bvs_does_not_branch_when_overflow_is_clear() {
    let mut cpu = Cpu::new();
    zebes::cpu::flags::set(&mut cpu.status, OVERFLOW, false);
    assert_branch_not_taken(Cpu::bvs, &mut cpu);
}

#[test]
fn instructions_bvs_branches_across_page_boundary() {
    let mut cpu = Cpu::new();
    cpu.pc = 0x10F0;
    zebes::cpu::flags::set(&mut cpu.status, OVERFLOW, true);
    assert_branch_taken(Cpu::bvs, &mut cpu, 0x1105, 2);
}

#[test]
fn instructions_clc_clears_carry_flag() {
    let mut bus = Bus::new();
    let mut cpu = Cpu::new();
    zebes::cpu::flags::set(&mut cpu.status, CARRY, true);

    let extra_cycles = cpu.clc(Operand::Accumulator, &mut bus);

    assert!(!contains(cpu.status, CARRY));
    assert_eq!(extra_cycles, 0);
}

#[test]
fn instructions_cld_clears_decimal_flag() {
    let mut bus = Bus::new();
    let mut cpu = Cpu::new();
    zebes::cpu::flags::set(&mut cpu.status, DECIMAL, true);

    let extra_cycles = cpu.cld(Operand::Accumulator, &mut bus);

    assert!(!contains(cpu.status, DECIMAL));
    assert_eq!(extra_cycles, 0);
}

#[test]
fn instructions_cli_clears_interrupt_disable_flag() {
    let mut bus = Bus::new();
    let mut cpu = Cpu::new();
    zebes::cpu::flags::set(&mut cpu.status, INTERRUPT_DISABLE, true);

    let extra_cycles = cpu.cli(Operand::Accumulator, &mut bus);

    assert!(!contains(cpu.status, INTERRUPT_DISABLE));
    assert_eq!(extra_cycles, 0);
}

#[test]
fn instructions_clv_clears_overflow_flag() {
    let mut bus = Bus::new();
    let mut cpu = Cpu::new();
    zebes::cpu::flags::set(&mut cpu.status, OVERFLOW, true);

    let extra_cycles = cpu.clv(Operand::Accumulator, &mut bus);

    assert!(!contains(cpu.status, OVERFLOW));
    assert_eq!(extra_cycles, 0);
}

#[test]
fn instructions_cmp_sets_carry_and_zero_when_equal() {
    let mut bus = Bus::new();
    let mut cpu = Cpu::new();
    cpu.a = 0x42;
    bus.write(0x0000, 0x42);

    let extra_cycles = cpu.cmp(operand_at(0x0000), &mut bus);

    // A == memory: no borrow needed (CARRY set), and the subtraction
    // result is exactly 0 (ZERO set).
    assert!(contains(cpu.status, CARRY));
    assert!(contains(cpu.status, ZERO));
    assert!(!contains(cpu.status, NEGATIVE));
    assert_eq!(extra_cycles, 0);
}

#[test]
fn instructions_cmp_sets_carry_without_zero_when_a_is_greater() {
    let mut bus = Bus::new();
    let mut cpu = Cpu::new();
    cpu.a = 0x50;
    bus.write(0x0000, 0x10);

    cpu.cmp(operand_at(0x0000), &mut bus);

    assert!(contains(cpu.status, CARRY));
    assert!(!contains(cpu.status, ZERO));
}

#[test]
fn instructions_cmp_clears_carry_when_a_is_less_than_memory() {
    let mut bus = Bus::new();
    let mut cpu = Cpu::new();
    cpu.a = 0x10;
    bus.write(0x0000, 0x50);

    cpu.cmp(operand_at(0x0000), &mut bus);

    assert!(!contains(cpu.status, CARRY));
    assert!(!contains(cpu.status, ZERO));
}

#[test]
fn instructions_cmp_sets_negative_when_result_high_bit_set() {
    let mut bus = Bus::new();
    let mut cpu = Cpu::new();
    cpu.a = 0x10;
    bus.write(0x0000, 0x20);

    cpu.cmp(operand_at(0x0000), &mut bus);

    // 0x10 - 0x20 = -0x10, low byte (0xF0) has bit 7 set.
    assert!(contains(cpu.status, NEGATIVE));
}

#[test]
fn instructions_cmp_returns_one_extra_cycle_when_page_crossed() {
    let mut bus = Bus::new();
    let mut cpu = Cpu::new();
    cpu.a = 0x10;
    bus.write(0x0000, 0x10);

    let operand = Operand::Address {
        address: 0x0000,
        page_crossed: true,
    };
    let extra_cycles = cpu.cmp(operand, &mut bus);

    assert_eq!(extra_cycles, 1);
}

#[test]
fn instructions_cpx_sets_carry_without_zero_when_a_is_greater() {
    let mut bus = Bus::new();
    let mut cpu = Cpu::new();
    cpu.x = 0x50;
    bus.write(0x0000, 0x10);

    cpu.cpx(operand_at(0x0000), &mut bus);

    assert!(contains(cpu.status, CARRY));
    assert!(!contains(cpu.status, ZERO));
}

#[test]
fn instructions_cpx_clears_carry_when_a_is_less_than_memory() {
    let mut bus = Bus::new();
    let mut cpu = Cpu::new();
    cpu.x = 0x10;
    bus.write(0x0000, 0x50);

    cpu.cpx(operand_at(0x0000), &mut bus);

    assert!(!contains(cpu.status, CARRY));
    assert!(!contains(cpu.status, ZERO));
}

#[test]
fn instructions_cpx_sets_negative_when_result_high_bit_set() {
    let mut bus = Bus::new();
    let mut cpu = Cpu::new();
    cpu.x = 0x10;
    bus.write(0x0000, 0x20);

    cpu.cpx(operand_at(0x0000), &mut bus);

    // 0x10 - 0x20 = -0x10, low byte (0xF0) has bit 7 set.
    assert!(contains(cpu.status, NEGATIVE));
}

#[test]
fn instructions_cpx_returns_one_extra_cycle_when_page_crossed() {
    let mut bus = Bus::new();
    let mut cpu = Cpu::new();
    cpu.x = 0x10;
    bus.write(0x0000, 0x10);

    let operand = Operand::Address {
        address: 0x0000,
        page_crossed: true,
    };
    let extra_cycles = cpu.cpx(operand, &mut bus);

    assert_eq!(extra_cycles, 1);
}

#[test]
fn instructions_cpy_sets_carry_without_zero_when_a_is_greater() {
    let mut bus = Bus::new();
    let mut cpu = Cpu::new();
    cpu.y = 0x50;
    bus.write(0x0000, 0x10);

    cpu.cpy(operand_at(0x0000), &mut bus);

    assert!(contains(cpu.status, CARRY));
    assert!(!contains(cpu.status, ZERO));
}

#[test]
fn instructions_cpy_clears_carry_when_a_is_less_than_memory() {
    let mut bus = Bus::new();
    let mut cpu = Cpu::new();
    cpu.y = 0x10;
    bus.write(0x0000, 0x50);

    cpu.cpy(operand_at(0x0000), &mut bus);

    assert!(!contains(cpu.status, CARRY));
    assert!(!contains(cpu.status, ZERO));
}

#[test]
fn instructions_cpy_sets_negative_when_result_high_bit_set() {
    let mut bus = Bus::new();
    let mut cpu = Cpu::new();
    cpu.y = 0x10;
    bus.write(0x0000, 0x20);

    cpu.cpy(operand_at(0x0000), &mut bus);

    // 0x10 - 0x20 = -0x10, low byte (0xF0) has bit 7 set.
    assert!(contains(cpu.status, NEGATIVE));
}

#[test]
fn instructions_cpy_returns_one_extra_cycle_when_page_crossed() {
    let mut bus = Bus::new();
    let mut cpu = Cpu::new();
    cpu.y = 0x10;
    bus.write(0x0000, 0x10);

    let operand = Operand::Address {
        address: 0x0000,
        page_crossed: true,
    };
    let extra_cycles = cpu.cpx(operand, &mut bus);

    assert_eq!(extra_cycles, 1);
}

#[test]
fn instructions_dec_subtracts_one_from_memory() {
    let mut bus = Bus::new();
    let mut cpu = Cpu::new();
    bus.write(0x0000, 0x10);

    let extra_cycles = cpu.dec(operand_at(0x0000), &mut bus);

    assert_eq!(bus.peek(0x0000), 0x0F);
    assert_eq!(extra_cycles, 0);
}

#[test]
fn instructions_dec_wraps_from_zero_to_0xff() {
    let mut bus = Bus::new();
    let mut cpu = Cpu::new();
    bus.write(0x0000, 0x00);

    cpu.dec(operand_at(0x0000), &mut bus);

    // Decrementing 0x00 must wrap to 0xFF.
    assert_eq!(bus.peek(0x0000), 0xFF);
    assert!(contains(cpu.status, NEGATIVE)); // 0xFF has bit 7 set
    assert!(!contains(cpu.status, ZERO));
}

#[test]
fn instructions_dec_sets_zero_when_result_is_zero() {
    let mut bus = Bus::new();
    let mut cpu = Cpu::new();
    bus.write(0x0000, 0x01);

    cpu.dec(operand_at(0x0000), &mut bus);

    assert_eq!(bus.peek(0x0000), 0x00);
    assert!(contains(cpu.status, ZERO));
    assert!(!contains(cpu.status, NEGATIVE));
}

#[test]
fn instructions_dec_sets_negative_when_result_high_bit_set() {
    let mut bus = Bus::new();
    let mut cpu = Cpu::new();
    bus.write(0x0000, 0x00); // will wrap to 0xFF, bit 7 set

    cpu.dec(operand_at(0x0000), &mut bus);

    assert!(contains(cpu.status, NEGATIVE));
}

#[test]
fn instructions_dex_subtracts_one_from_x() {
    let mut bus = Bus::new();
    let mut cpu = Cpu::new();
    cpu.x = 0x10;

    let extra_cycles = cpu.dex(Operand::Accumulator, &mut bus);

    assert_eq!(cpu.x, 0x0F);
    assert_eq!(extra_cycles, 0);
}

#[test]
fn instructions_dex_wraps_from_zero_to_0xff() {
    let mut bus = Bus::new();
    let mut cpu = Cpu::new();
    cpu.x = 0x00;

    cpu.dex(Operand::Accumulator, &mut bus);

    assert_eq!(cpu.x, 0xFF);
    assert!(contains(cpu.status, NEGATIVE));
    assert!(!contains(cpu.status, ZERO));
}

#[test]
fn instructions_dex_sets_zero_when_result_is_zero() {
    let mut bus = Bus::new();
    let mut cpu = Cpu::new();
    cpu.x = 0x01;

    cpu.dex(Operand::Accumulator, &mut bus);

    assert_eq!(cpu.x, 0x00);
    assert!(contains(cpu.status, ZERO));
}

#[test]
fn instructions_dey_subtracts_one_from_y() {
    let mut bus = Bus::new();
    let mut cpu = Cpu::new();
    cpu.y = 0x10;

    let extra_cycles = cpu.dey(Operand::Accumulator, &mut bus);

    assert_eq!(cpu.y, 0x0F);
    assert_eq!(extra_cycles, 0);
}

#[test]
fn instructions_dey_wraps_from_zero_to_0xff() {
    let mut bus = Bus::new();
    let mut cpu = Cpu::new();
    cpu.y = 0x00;

    cpu.dey(Operand::Accumulator, &mut bus);

    assert_eq!(cpu.y, 0xFF);
    assert!(contains(cpu.status, NEGATIVE));
    assert!(!contains(cpu.status, ZERO));
}

#[test]
fn instructions_dey_sets_zero_when_result_is_zero() {
    let mut bus = Bus::new();
    let mut cpu = Cpu::new();
    cpu.y = 0x01;

    cpu.dey(Operand::Accumulator, &mut bus);

    assert_eq!(cpu.y, 0x00);
    assert!(contains(cpu.status, ZERO));
}

#[test]
fn instructions_eor_xors_accumulator_with_memory() {
    let mut bus = Bus::new();
    let mut cpu = Cpu::new();
    cpu.a = 0b1100_1100;
    bus.write(0x0000, 0b1010_1010);

    let extra_cycles = cpu.eor(operand_at(0x0000), &mut bus);

    assert_eq!(cpu.a, 0b0110_0110);
    assert_eq!(extra_cycles, 0);
}

#[test]
fn instructions_eor_with_0xff_inverts_all_bits() {
    let mut bus = Bus::new();
    let mut cpu = Cpu::new();
    cpu.a = 0b1010_0101;
    bus.write(0x0000, 0xFF);

    cpu.eor(operand_at(0x0000), &mut bus);

    assert_eq!(cpu.a, 0b0101_1010);
}

#[test]
fn instructions_eor_sets_zero_when_operands_are_identical() {
    let mut bus = Bus::new();
    let mut cpu = Cpu::new();
    cpu.a = 0x77;
    bus.write(0x0000, 0x77);

    cpu.eor(operand_at(0x0000), &mut bus);

    assert_eq!(cpu.a, 0x00);
    assert!(contains(cpu.status, ZERO));
}

#[test]
fn instructions_eor_sets_negative_when_result_high_bit_set() {
    let mut bus = Bus::new();
    let mut cpu = Cpu::new();
    cpu.a = 0x00;
    bus.write(0x0000, 0x80);

    cpu.eor(operand_at(0x0000), &mut bus);

    assert!(contains(cpu.status, NEGATIVE));
}

#[test]
fn instructions_eor_returns_one_extra_cycle_when_page_crossed() {
    let mut bus = Bus::new();
    let mut cpu = Cpu::new();
    cpu.a = 0x0F;
    bus.write(0x0000, 0xF0);

    let operand = Operand::Address {
        address: 0x0000,
        page_crossed: true,
    };
    let extra_cycles = cpu.eor(operand, &mut bus);

    assert_eq!(extra_cycles, 1);
}

#[test]
fn instructions_inc_adds_one_to_memory() {
    let mut bus = Bus::new();
    let mut cpu = Cpu::new();
    bus.write(0x0000, 0x10);

    let extra_cycles = cpu.inc(operand_at(0x0000), &mut bus);

    assert_eq!(bus.peek(0x0000), 0x11);
    assert_eq!(extra_cycles, 0);
}

#[test]
fn instructions_inc_wraps_from_0xff_to_zero() {
    let mut bus = Bus::new();
    let mut cpu = Cpu::new();
    bus.write(0x0000, 0xFF);

    cpu.inc(operand_at(0x0000), &mut bus);

    assert_eq!(bus.peek(0x0000), 0x00);
    assert!(contains(cpu.status, ZERO));
    assert!(!contains(cpu.status, NEGATIVE));
}

#[test]
fn instructions_inx_adds_one_to_x() {
    let mut bus = Bus::new();
    let mut cpu = Cpu::new();
    cpu.x = 0x10;

    let extra_cycles = cpu.inx(Operand::Accumulator, &mut bus);

    assert_eq!(cpu.x, 0x11);
    assert_eq!(extra_cycles, 0);
}

#[test]
fn instructions_inx_wraps_from_0xff_to_zero() {
    let mut bus = Bus::new();
    let mut cpu = Cpu::new();
    cpu.x = 0xFF;

    cpu.inx(Operand::Accumulator, &mut bus);

    assert_eq!(cpu.x, 0x00);
    assert!(contains(cpu.status, ZERO));
}

#[test]
fn instructions_iny_adds_one_to_y() {
    let mut bus = Bus::new();
    let mut cpu = Cpu::new();
    cpu.y = 0x10;

    let extra_cycles = cpu.iny(Operand::Accumulator, &mut bus);

    assert_eq!(cpu.y, 0x11);
    assert_eq!(extra_cycles, 0);
}

#[test]
fn instructions_iny_wraps_from_0xff_to_zero() {
    let mut bus = Bus::new();
    let mut cpu = Cpu::new();
    cpu.y = 0xFF;

    cpu.iny(Operand::Accumulator, &mut bus);

    assert_eq!(cpu.y, 0x00);
    assert!(contains(cpu.status, ZERO));
}
