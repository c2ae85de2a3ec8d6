use zebes::bus::Bus;
use zebes::cpu::Cpu;
use zebes::cpu::addressing::Operand;

#[test]
fn nop_does_nothing_and_returns_zero_cycles() {
    let mut bus = Bus::new();
    let mut cpu = Cpu::new();
    cpu.a = 0x11;
    cpu.x = 0x22;
    cpu.y = 0x33;
    cpu.pc = 0x1000;
    let status_before = cpu.status;
    bus.write(0x0000, 0xAB);

    let extra_cycles = cpu.nop(Operand::Accumulator, &mut bus);

    assert_eq!(cpu.a, 0x11);
    assert_eq!(cpu.x, 0x22);
    assert_eq!(cpu.y, 0x33);
    assert_eq!(cpu.pc, 0x1000);
    assert_eq!(cpu.status, status_before);
    assert_eq!(bus.peek(0x0000), 0xAB);
    assert_eq!(extra_cycles, 0);
}
