use zebes::cpu::Cpu;
use zebes::cpu_bus::CpuBus;
use zebes::cpu::instructions::Instruction;
use zebes::disassembler::{disassemble, OperandInfo};
use zebes::tracer::{
    bytes_string, instruction_text, mnemonic_str, operand_string, push_decimal, push_hex_byte,
    push_hex_word, push_padded_left, push_padded_right, trace,
};

#[test]
fn hex_digits_are_upper_case_and_zero_filled() {
    let mut s = String::new();
    push_hex_byte(&mut s, 0x0A);
    push_hex_byte(&mut s, 0xF0);
    push_hex_word(&mut s, 0xBEEF);
    push_hex_word(&mut s, 0x0042);
    assert_eq!(s, "0AF0BEEF0042");
}

#[test]
fn decimal_has_no_leading_zeros() {
    let mut s = String::new();
    push_decimal(&mut s, 0);
    s.push('|');
    push_decimal(&mut s, 12345);
    s.push('|');
    push_decimal(&mut s, u64::MAX);
    assert_eq!(s, "0|12345|18446744073709551615");
}

#[test]
fn padding_fills_to_width_and_never_cuts() {
    let mut s = String::new();
    push_padded_left(&mut s, "7", 3);
    push_padded_left(&mut s, "1234", 3);
    push_padded_right(&mut s, "ab", 4);
    push_padded_right(&mut s, "abcdef", 4);
    assert_eq!(s, "  71234ab  abcdef");
}

#[test]
fn operands_are_written_as_assembly() {
    let cases = [
        (OperandInfo::Implied, ""),
        (OperandInfo::Accumulator, "A"),
        (OperandInfo::Immediate { value: 0x05 }, "#$05"),
        (OperandInfo::ZeroPage { address: 0x10, value: 0xAB }, "$10 = AB"),
        (OperandInfo::ZeroPageX { base: 0xF0, effective: 0x05, value: 0x01 }, "$F0,X @ 05 = 01"),
        (OperandInfo::ZeroPageY { base: 0x20, effective: 0x22, value: 0x33 }, "$20,Y @ 22 = 33"),
        (OperandInfo::Relative { target: 0xC72A }, "$C72A"),
        (OperandInfo::Absolute { address: 0xC5F5, value: None }, "$C5F5"),
        (OperandInfo::Absolute { address: 0x0200, value: Some(0x55) }, "$0200 = 55"),
        (
            OperandInfo::AbsoluteX { base: 0x0300, effective: 0x0305, value: 0x89 },
            "$0300,X @ 0305 = 89",
        ),
        (
            OperandInfo::AbsoluteY { base: 0xFFFF, effective: 0x0001, value: 0x00 },
            "$FFFF,Y @ 0001 = 00",
        ),
        (OperandInfo::Indirect { pointer: 0x02FF, target: 0x0300 }, "($02FF) = 0300"),
        (
            OperandInfo::IndirectX { base: 0x80, pointer: 0x82, effective: 0x0300, value: 0x5B },
            "($80,X) @ 82 = 0300 = 5B",
        ),
        (
            OperandInfo::IndirectY { pointer: 0x33, base: 0x0400, effective: 0x0405, value: 0x7F },
            "($33),Y = 0400 @ 0405 = 7F",
        ),
    ];
    for (operand, text) in cases {
        assert_eq!(operand_string(&operand), text);
    }
}

#[test]
fn mnemonics_are_the_instruction_names() {
    assert_eq!(mnemonic_str(Instruction::ADC), "ADC");
    assert_eq!(mnemonic_str(Instruction::TYA), "TYA");
    assert_eq!(mnemonic_str(Instruction::SHAZ), "SHAZ");
    assert_eq!(mnemonic_str(Instruction::HLT), "HLT");
}

#[test]
fn instruction_text_joins_bytes_and_operand() {
    assert_eq!(bytes_string(&vec![]), "");
    assert_eq!(bytes_string(&vec![0x4C, 0xF5, 0xC5]), "4C F5 C5");
    let mut bus = CpuBus::new();
    bus.write(0x0000, 0xA9);
    bus.write(0x0001, 0x10);
    bus.write(0x0002, 0xEA);
    let decoded = disassemble(&bus, 0x0000, 0, 0);
    assert_eq!(instruction_text(&decoded), ("A9 10".to_string(), "LDA #$10".to_string()));
    let decoded = disassemble(&bus, 0x0002, 0, 0);
    assert_eq!(instruction_text(&decoded), ("EA".to_string(), "NOP".to_string()));
}

#[test]
fn trace_line_matches_the_reference_log_layout() {
    let mut bus = CpuBus::new();
    bus.write(0x0100, 0x4C);
    bus.write(0x0101, 0xF5);
    bus.write(0x0102, 0xC5);
    let mut cpu = Cpu::new();
    cpu.set_pc(0x0100);
    assert_eq!(
        trace(&cpu, &bus),
        "0100  4C F5 C5  JMP $C5F5                       A:00 X:00 Y:00 P:24 SP:FD PPU:  0,  0 CYC:0"
    );
}

#[test]
fn trace_line_shows_operand_value_and_counters() {
    let mut bus = CpuBus::new();
    bus.write(0x0200, 0xAD);
    bus.write(0x0201, 0x00);
    bus.write(0x0202, 0x03);
    bus.write(0x0300, 0x7F);
    bus.ppu.scanline = 241;
    bus.ppu.cycle = 5;
    let mut cpu = Cpu::new();
    cpu.set_pc(0x0200);
    cpu.total_cycles = 123456789;
    assert_eq!(
        trace(&cpu, &bus),
        "0200  AD 00 03  LDA $0300 = 7F                  A:00 X:00 Y:00 P:24 SP:FD PPU:241,  5 CYC:123456789"
    );
}
