use zebes::bus::Bus;
use zebes::cpu::Cpu;
use zebes::cpu::addressing::Operand;
use zebes::cpu::addressing::operand_at;
use zebes::cpu::flags::CARRY;
use zebes::cpu::flags::NEGATIVE;
use zebes::cpu::flags::OVERFLOW;
use zebes::cpu::flags::ZERO;

fn assert_branch_not_taken(branch_fn: fn(&mut Cpu, Operand, &mut Bus) -> u8, cpu: &mut Cpu) {
    let mut bus = Bus::new();
    cpu.pc = 0x1000;
    let operand = operand_at(0x2000);
    let extra_cycles = branch_fn(cpu, operand, &mut bus);
    assert_eq!(cpu.pc, 0x1000);
    assert_eq!(extra_cycles, 0);
}

fn assert_branch_taken(
    branch_fn: fn(&mut Cpu, Operand, &mut Bus) -> u8,
    cpu: &mut Cpu,
    target: u16,
    expected_extra_cycles: u8,
) {
    let mut bus = Bus::new();
    let operand = operand_at(target);
    let extra_cycles = branch_fn(cpu, operand, &mut bus);
    assert_eq!(cpu.pc, target);
    assert_eq!(extra_cycles, expected_extra_cycles);
}

#[test]
fn branch_bcc_does_not_branch_when_carry_is_set() {
    let mut cpu = Cpu::new();
    zebes::cpu::flags::set(&mut cpu.status, CARRY, true);
    assert_branch_not_taken(Cpu::bcc, &mut cpu);
}

#[test]
fn branch_bcc_branches_when_carry_is_clear_same_page() {
    let mut cpu = Cpu::new();
    cpu.pc = 0x1000;
    zebes::cpu::flags::set(&mut cpu.status, CARRY, false);
    assert_branch_taken(Cpu::bcc, &mut cpu, 0x1010, 1);
}

#[test]
fn branch_bcc_branch_taken_adds_two_cycles_when_page_crossed() {
    let mut cpu = Cpu::new();
    cpu.pc = 0x10F0;
    zebes::cpu::flags::set(&mut cpu.status, CARRY, false);
    assert_branch_taken(Cpu::bcc, &mut cpu, 0x1105, 2);
}

#[test]
fn branch_bcs_does_not_branch_when_carry_clear() {
    let mut cpu = Cpu::new();
    zebes::cpu::flags::set(&mut cpu.status, CARRY, false);
    assert_branch_not_taken(Cpu::bcs, &mut cpu);
}

#[test]
fn branch_bcs_branches_when_carry_set_same_page() {
    let mut cpu = Cpu::new();
    cpu.pc = 0x1000;
    zebes::cpu::flags::set(&mut cpu.status, CARRY, true);
    assert_branch_taken(Cpu::bcs, &mut cpu, 0x1010, 1);
}

#[test]
fn branch_bcs_branches_across_page_boundary() {
    let mut cpu = Cpu::new();
    cpu.pc = 0x10F0;
    zebes::cpu::flags::set(&mut cpu.status, CARRY, true);
    assert_branch_taken(Cpu::bcs, &mut cpu, 0x1105, 2);
}

#[test]
fn branch_beq_does_not_branch_when_zero_clear() {
    let mut cpu = Cpu::new();
    zebes::cpu::flags::set(&mut cpu.status, ZERO, false);
    assert_branch_not_taken(Cpu::beq, &mut cpu);
}

#[test]
fn branch_beq_branches_when_zero_set_same_page() {
    let mut cpu = Cpu::new();
    cpu.pc = 0x1000;
    zebes::cpu::flags::set(&mut cpu.status, ZERO, true);
    assert_branch_taken(Cpu::beq, &mut cpu, 0x1010, 1);
}

#[test]
fn branch_beq_branches_across_page_boundary() {
    let mut cpu = Cpu::new();
    cpu.pc = 0x10F0;
    zebes::cpu::flags::set(&mut cpu.status, ZERO, true);
    assert_branch_taken(Cpu::beq, &mut cpu, 0x1105, 2);
}

#[test]
fn branch_bne_branches_when_zero_clear() {
    let mut cpu = Cpu::new();
    cpu.pc = 0x1000;
    zebes::cpu::flags::set(&mut cpu.status, ZERO, false);
    assert_branch_taken(Cpu::bne, &mut cpu, 0x1010, 1);
}

#[test]
fn branch_bne_does_not_branch_when_zero_is_set() {
    let mut cpu = Cpu::new();
    zebes::cpu::flags::set(&mut cpu.status, ZERO, true);
    assert_branch_not_taken(Cpu::bne, &mut cpu);
}

#[test]
fn branch_bne_branches_across_page_boundary() {
    let mut cpu = Cpu::new();
    cpu.pc = 0x10F0;
    zebes::cpu::flags::set(&mut cpu.status, ZERO, false);
    assert_branch_taken(Cpu::bne, &mut cpu, 0x1105, 2);
}

#[test]
fn branch_bpl_branches_when_negative_clear() {
    let mut cpu = Cpu::new();
    cpu.pc = 0x1000;
    zebes::cpu::flags::set(&mut cpu.status, NEGATIVE, false);
    assert_branch_taken(Cpu::bpl, &mut cpu, 0x1010, 1);
}

#[test]
fn branch_bpl_does_not_branch_when_negative_is_set() {
    let mut cpu = Cpu::new();
    zebes::cpu::flags::set(&mut cpu.status, NEGATIVE, true);
    assert_branch_not_taken(Cpu::bpl, &mut cpu);
}

#[test]
fn branch_bpl_branches_across_page_boundary() {
    let mut cpu = Cpu::new();
    cpu.pc = 0x10F0;
    zebes::cpu::flags::set(&mut cpu.status, NEGATIVE, false);
    assert_branch_taken(Cpu::bpl, &mut cpu, 0x1105, 2);
}

#[test]
fn branch_bmi_does_not_branch_when_negative_clear() {
    let mut cpu = Cpu::new();
    zebes::cpu::flags::set(&mut cpu.status, NEGATIVE, false);
    assert_branch_not_taken(Cpu::bmi, &mut cpu);
}

#[test]
fn branch_bmi_branches_when_negative_set_same_page() {
    let mut cpu = Cpu::new();
    cpu.pc = 0x1000;
    zebes::cpu::flags::set(&mut cpu.status, NEGATIVE, true);
    assert_branch_taken(Cpu::bmi, &mut cpu, 0x1010, 1);
}

#[test]
fn branch_bmi_branches_across_page_boundary() {
    let mut cpu = Cpu::new();
    cpu.pc = 0x10F0;
    zebes::cpu::flags::set(&mut cpu.status, NEGATIVE, true);
    assert_branch_taken(Cpu::bmi, &mut cpu, 0x1105, 2);
}

#[test]
fn branch_bvc_branches_when_overflow_clear() {
    let mut cpu = Cpu::new();
    cpu.pc = 0x1000;
    zebes::cpu::flags::set(&mut cpu.status, OVERFLOW, false);
    assert_branch_taken(Cpu::bvc, &mut cpu, 0x1010, 1);
}

#[test]
fn branch_bvc_does_not_branch_when_overflow_is_set() {
    let mut cpu = Cpu::new();
    zebes::cpu::flags::set(&mut cpu.status, OVERFLOW, true);
    assert_branch_not_taken(Cpu::bvc, &mut cpu);
}

#[test]
fn branch_bvc_branches_across_page_boundary() {
    let mut cpu = Cpu::new();
    cpu.pc = 0x10F0;
    zebes::cpu::flags::set(&mut cpu.status, OVERFLOW, false);
    assert_branch_taken(Cpu::bvc, &mut cpu, 0x1105, 2);
}

#[test]
fn branch_bvs_branches_when_overflow_is_set() {
    let mut cpu = Cpu::new();
    cpu.pc = 0x1000;
    zebes::cpu::flags::set(&mut cpu.status, OVERFLOW, true);
    assert_branch_taken(Cpu::bvs, &mut cpu, 0x1010, 1);
}

#[test]
fn branch_bvs_does_not_branch_when_overflow_is_clear() {
    let mut cpu = Cpu::new();
    zebes::cpu::flags::set(&mut cpu.status, OVERFLOW, false);
    assert_branch_not_taken(Cpu::bvs, &mut cpu);
}

#[test]
fn branch_bvs_branches_across_page_boundary() {
    let mut cpu = Cpu::new();
    cpu.pc = 0x10F0;
    zebes::cpu::flags::set(&mut cpu.status, OVERFLOW, true);
    assert_branch_taken(Cpu::bvs, &mut cpu, 0x1105, 2);
}
