use zebes::bus::Bus;
use zebes::cpu::Cpu;
use zebes::cpu::addressing::Operand;
use zebes::cpu::addressing::operand_at;
use zebes::cpu::addressing::page_crossed;

#[test]
fn ram_bus_access_lda_loads_memory_into_accumulator() {
    let mut bus = Bus::new();
    let mut cpu = Cpu::new();
    bus.write(0x0000, 0x42);

    let extra_cycles = cpu.lda(operand_at(0x0000), &mut bus);

    assert_eq!(cpu.a, 0x42);
    assert_eq!(extra_cycles, 0);
}

#[test]
fn ram_bus_access_lda_returns_extra_cycle_when_page_crossed() {
    let mut bus = Bus::new();
    let mut cpu = Cpu::new();
    bus.write(0x0000, 0x10);

    let operand = Operand::Address {
        address: 0x0000,
        page_crossed: true,
    };
    let extra_cycles = cpu.lda(operand, &mut bus);

    assert_eq!(extra_cycles, 1);
}

#[test]
fn ram_bus_access_ldx_loads_memory_into_x() {
    let mut bus = Bus::new();
    let mut cpu = Cpu::new();
    bus.write(0x0000, 0x42);

    let extra_cycles = cpu.ldx(operand_at(0x0000), &mut bus);

    assert_eq!(cpu.x, 0x42);
    assert_eq!(extra_cycles, 0);
}

#[test]
fn ram_bus_access_ldy_loads_memory_into_y() {
    let mut bus = Bus::new();
    let mut cpu = Cpu::new();
    bus.write(0x0000, 0x42);

    let extra_cycles = cpu.ldy(operand_at(0x0000), &mut bus);

    assert_eq!(cpu.y, 0x42);
    assert_eq!(extra_cycles, 0);
}
