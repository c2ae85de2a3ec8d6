//! Text for CPU traces: numbers in hexadecimal and decimal, padded columns,
//! an instruction written as assembly, and one trace line per instruction.

use vstd::prelude::*;

use crate::cartridge::digit_char;
use crate::cpu::instructions::Instruction;
use crate::cpu::Cpu;
use crate::cpu_bus::{CpuBus, CpuBusView};
use crate::disassembler::{decode, disassemble, DecodedInstruction, OperandInfo};

verus! {

/// The upper-case hexadecimal digit for `d` (0 to 15).
pub open spec fn hex_char(d: int) -> char {
    if d < 10 {
        digit_char(d)
    } else {
        (55 + d) as char
    }
}

/// A byte as two hexadecimal digits.
pub open spec fn hex_byte(b: u8) -> Seq<char> {
    seq![hex_char((b / 16) as int), hex_char((b % 16) as int)]
}

/// A word as four hexadecimal digits.
pub open spec fn hex_word(w: u16) -> Seq<char> {
    seq![
        hex_char((w / 4096) as int),
        hex_char(((w / 256) % 16) as int),
        hex_char(((w / 16) % 16) as int),
        hex_char((w % 16) as int),
    ]
}

/// `n` in decimal, without leading zeros.
pub open spec fn decimal(n: nat) -> Seq<char>
    decreases n,
{
    if n < 10 {
        seq![hex_char(n as int)]
    } else {
        decimal(n / 10) + seq![hex_char((n % 10) as int)]
    }
}

/// `n` spaces.
pub open spec fn spaces(n: nat) -> Seq<char> {
    Seq::new(n, |i: int| ' ')
}

/// `text` followed by spaces up to `width` characters.
pub open spec fn pad_right(text: Seq<char>, width: nat) -> Seq<char> {
    if text.len() < width {
        text + spaces((width - text.len()) as nat)
    } else {
        text
    }
}

/// `text` preceded by spaces up to `width` characters.
pub open spec fn pad_left(text: Seq<char>, width: nat) -> Seq<char> {
    if text.len() < width {
        spaces((width - text.len()) as nat) + text
    } else {
        text
    }
}

/// The digit `d` as a one-character string.
fn hex_digit_str(d: u8) -> (s: &'static str)
    requires
        d < 16,
    ensures
        s@ == seq![hex_char(d as int)],
{
    proof {
        reveal_strlit("0");
        reveal_strlit("1");
        reveal_strlit("2");
        reveal_strlit("3");
        reveal_strlit("4");
        reveal_strlit("5");
        reveal_strlit("6");
        reveal_strlit("7");
        reveal_strlit("8");
        reveal_strlit("9");
        reveal_strlit("A");
        reveal_strlit("B");
        reveal_strlit("C");
        reveal_strlit("D");
        reveal_strlit("E");
        reveal_strlit("F");
    }
    match d {
        0 => "0",
        1 => "1",
        2 => "2",
        3 => "3",
        4 => "4",
        5 => "5",
        6 => "6",
        7 => "7",
        8 => "8",
        9 => "9",
        10 => "A",
        11 => "B",
        12 => "C",
        13 => "D",
        14 => "E",
        _ => "F",
    }
}

/// Appends a byte in hexadecimal.
pub fn push_hex_byte(s: &mut String, b: u8)
    ensures
        final(s)@ == old(s)@ + hex_byte(b),
{
    s.append(hex_digit_str(b / 16));
    s.append(hex_digit_str(b % 16));
    assert(s@ =~= old(s)@ + hex_byte(b));
}

/// Appends a word in hexadecimal.
pub fn push_hex_word(s: &mut String, w: u16)
    ensures
        final(s)@ == old(s)@ + hex_word(w),
{
    s.append(hex_digit_str((w / 4096) as u8));
    s.append(hex_digit_str(((w / 256) % 16) as u8));
    s.append(hex_digit_str(((w / 16) % 16) as u8));
    s.append(hex_digit_str((w % 16) as u8));
    assert(s@ =~= old(s)@ + hex_word(w));
}

/// Appends `n` in decimal.
pub fn push_decimal(s: &mut String, n: u64)
    ensures
        final(s)@ == old(s)@ + decimal(n as nat),
    decreases n,
{
    let ghost start = s@;
    if n >= 10 {
        push_decimal(s, n / 10);
    }
    s.append(hex_digit_str((n % 10) as u8));
    assert(s@ =~= start + decimal(n as nat));
}

/// Appends `n` spaces.
pub fn push_spaces(s: &mut String, n: usize)
    ensures
        final(s)@ == old(s)@ + spaces(n as nat),
{
    let ghost start = s@;
    let mut i: usize = 0;
    while i < n
        invariant
            i <= n,
            s@ == start + spaces(i as nat),
        decreases n - i,
    {
        proof {
            reveal_strlit(" ");
        }
        s.append(" ");
        i = i + 1;
        assert(s@ =~= start + spaces(i as nat));
    }
}

/// Appends `text` and then spaces up to `width` characters.
pub fn push_padded_right(s: &mut String, text: &str, width: usize)
    ensures
        final(s)@ == old(s)@ + pad_right(text@, width as nat),
{
    let len = text.unicode_len();
    s.append(text);
    if len < width {
        push_spaces(s, width - len);
        assert(s@ =~= old(s)@ + pad_right(text@, width as nat));
    }
}

/// Appends spaces up to `width` characters and then `text`.
pub fn push_padded_left(s: &mut String, text: &str, width: usize)
    ensures
        final(s)@ == old(s)@ + pad_left(text@, width as nat),
{
    let len = text.unicode_len();
    if len < width {
        push_spaces(s, width - len);
    }
    s.append(text);
    assert(s@ =~= old(s)@ + pad_left(text@, width as nat));
}

/// The instruction's mnemonic, as assembly writes it.
pub open spec fn mnemonic(instruction: Instruction) -> Seq<char> {
    match instruction {
        Instruction::ADC => "ADC"@,
        Instruction::AND => "AND"@,
        Instruction::ASL => "ASL"@,
        Instruction::BCC => "BCC"@,
        Instruction::BCS => "BCS"@,
        Instruction::BEQ => "BEQ"@,
        Instruction::BIT => "BIT"@,
        Instruction::BMI => "BMI"@,
        Instruction::BNE => "BNE"@,
        Instruction::BPL => "BPL"@,
        Instruction::BRK => "BRK"@,
        Instruction::BVC => "BVC"@,
        Instruction::BVS => "BVS"@,
        Instruction::CLC => "CLC"@,
        Instruction::CLD => "CLD"@,
        Instruction::CLI => "CLI"@,
        Instruction::CLV => "CLV"@,
        Instruction::CMP => "CMP"@,
        Instruction::CPX => "CPX"@,
        Instruction::CPY => "CPY"@,
        Instruction::DEC => "DEC"@,
        Instruction::DEX => "DEX"@,
        Instruction::DEY => "DEY"@,
        Instruction::EOR => "EOR"@,
        Instruction::INC => "INC"@,
        Instruction::INX => "INX"@,
        Instruction::INY => "INY"@,
        Instruction::JMP => "JMP"@,
        Instruction::JSR => "JSR"@,
        Instruction::LDA => "LDA"@,
        Instruction::LDX => "LDX"@,
        Instruction::LDY => "LDY"@,
        Instruction::LSR => "LSR"@,
        Instruction::NOP => "NOP"@,
        Instruction::ORA => "ORA"@,
        Instruction::PHA => "PHA"@,
        Instruction::PHP => "PHP"@,
        Instruction::PLA => "PLA"@,
        Instruction::PLP => "PLP"@,
        Instruction::ROL => "ROL"@,
        Instruction::ROR => "ROR"@,
        Instruction::RTI => "RTI"@,
        Instruction::RTS => "RTS"@,
        Instruction::SBC => "SBC"@,
        Instruction::SEC => "SEC"@,
        Instruction::SED => "SED"@,
        Instruction::SEI => "SEI"@,
        Instruction::STA => "STA"@,
        Instruction::STX => "STX"@,
        Instruction::STY => "STY"@,
        Instruction::TAX => "TAX"@,
        Instruction::TAY => "TAY"@,
        Instruction::TSX => "TSX"@,
        Instruction::TXA => "TXA"@,
        Instruction::TXS => "TXS"@,
        Instruction::TYA => "TYA"@,
        Instruction::ISB => "ISB"@,
        Instruction::DCP => "DCP"@,
        Instruction::AXS => "AXS"@,
        Instruction::LAS => "LAS"@,
        Instruction::LAX => "LAX"@,
        Instruction::AHX => "AHX"@,
        Instruction::SAX => "SAX"@,
        Instruction::XAA => "XAA"@,
        Instruction::SXA => "SXA"@,
        Instruction::RRA => "RRA"@,
        Instruction::TAS => "TAS"@,
        Instruction::SYA => "SYA"@,
        Instruction::ARR => "ARR"@,
        Instruction::SRE => "SRE"@,
        Instruction::ALR => "ALR"@,
        Instruction::RLA => "RLA"@,
        Instruction::ANC => "ANC"@,
        Instruction::SHAZ => "SHAZ"@,
        Instruction::ATX => "ATX"@,
        Instruction::SHAA => "SHAA"@,
        Instruction::SLO => "SLO"@,
        Instruction::HLT => "HLT"@,
    }
}

/// The instruction's mnemonic as a string.
pub fn mnemonic_str(instruction: Instruction) -> (s: &'static str)
    ensures
        s@ == mnemonic(instruction),
{
    match instruction {
        Instruction::ADC => "ADC",
        Instruction::AND => "AND",
        Instruction::ASL => "ASL",
        Instruction::BCC => "BCC",
        Instruction::BCS => "BCS",
        Instruction::BEQ => "BEQ",
        Instruction::BIT => "BIT",
        Instruction::BMI => "BMI",
        Instruction::BNE => "BNE",
        Instruction::BPL => "BPL",
        Instruction::BRK => "BRK",
        Instruction::BVC => "BVC",
        Instruction::BVS => "BVS",
        Instruction::CLC => "CLC",
        Instruction::CLD => "CLD",
        Instruction::CLI => "CLI",
        Instruction::CLV => "CLV",
        Instruction::CMP => "CMP",
        Instruction::CPX => "CPX",
        Instruction::CPY => "CPY",
        Instruction::DEC => "DEC",
        Instruction::DEX => "DEX",
        Instruction::DEY => "DEY",
        Instruction::EOR => "EOR",
        Instruction::INC => "INC",
        Instruction::INX => "INX",
        Instruction::INY => "INY",
        Instruction::JMP => "JMP",
        Instruction::JSR => "JSR",
        Instruction::LDA => "LDA",
        Instruction::LDX => "LDX",
        Instruction::LDY => "LDY",
        Instruction::LSR => "LSR",
        Instruction::NOP => "NOP",
        Instruction::ORA => "ORA",
        Instruction::PHA => "PHA",
        Instruction::PHP => "PHP",
        Instruction::PLA => "PLA",
        Instruction::PLP => "PLP",
        Instruction::ROL => "ROL",
        Instruction::ROR => "ROR",
        Instruction::RTI => "RTI",
        Instruction::RTS => "RTS",
        Instruction::SBC => "SBC",
        Instruction::SEC => "SEC",
        Instruction::SED => "SED",
        Instruction::SEI => "SEI",
        Instruction::STA => "STA",
        Instruction::STX => "STX",
        Instruction::STY => "STY",
        Instruction::TAX => "TAX",
        Instruction::TAY => "TAY",
        Instruction::TSX => "TSX",
        Instruction::TXA => "TXA",
        Instruction::TXS => "TXS",
        Instruction::TYA => "TYA",
        Instruction::ISB => "ISB",
        Instruction::DCP => "DCP",
        Instruction::AXS => "AXS",
        Instruction::LAS => "LAS",
        Instruction::LAX => "LAX",
        Instruction::AHX => "AHX",
        Instruction::SAX => "SAX",
        Instruction::XAA => "XAA",
        Instruction::SXA => "SXA",
        Instruction::RRA => "RRA",
        Instruction::TAS => "TAS",
        Instruction::SYA => "SYA",
        Instruction::ARR => "ARR",
        Instruction::SRE => "SRE",
        Instruction::ALR => "ALR",
        Instruction::RLA => "RLA",
        Instruction::ANC => "ANC",
        Instruction::SHAZ => "SHAZ",
        Instruction::ATX => "ATX",
        Instruction::SHAA => "SHAA",
        Instruction::SLO => "SLO",
        Instruction::HLT => "HLT",
    }
}

/// What the operand refers to, as assembly text with the values it reads.
pub open spec fn operand_text(operand: OperandInfo) -> Seq<char> {
    match operand {
        OperandInfo::Implied => Seq::empty(),
        OperandInfo::Accumulator => "A"@,
        OperandInfo::Immediate { value } => "#$"@ + hex_byte(value),
        OperandInfo::ZeroPage { address, value } => "$"@ + hex_byte(address) + " = "@ + hex_byte(
            value,
        ),
        OperandInfo::ZeroPageX { base, effective, value } => "$"@ + hex_byte(base) + ",X @ "@
            + hex_byte(effective) + " = "@ + hex_byte(value),
        OperandInfo::ZeroPageY { base, effective, value } => "$"@ + hex_byte(base) + ",Y @ "@
            + hex_byte(effective) + " = "@ + hex_byte(value),
        OperandInfo::Relative { target } => "$"@ + hex_word(target),
        OperandInfo::Absolute { address, value } => match value {
            Some(v) => "$"@ + hex_word(address) + " = "@ + hex_byte(v),
            None => "$"@ + hex_word(address),
        },
        OperandInfo::AbsoluteX { base, effective, value } => "$"@ + hex_word(base) + ",X @ "@
            + hex_word(effective) + " = "@ + hex_byte(value),
        OperandInfo::AbsoluteY { base, effective, value } => "$"@ + hex_word(base) + ",Y @ "@
            + hex_word(effective) + " = "@ + hex_byte(value),
        OperandInfo::Indirect { pointer, target } => "($"@ + hex_word(pointer) + ") = "@ + hex_word(
            target,
        ),
        OperandInfo::IndirectX { base, pointer, effective, value } => "($"@ + hex_byte(base)
            + ",X) @ "@ + hex_byte(pointer) + " = "@ + hex_word(effective) + " = "@ + hex_byte(value),
        OperandInfo::IndirectY { pointer, base, effective, value } => "($"@ + hex_byte(pointer)
            + "),Y = "@ + hex_word(base) + " @ "@ + hex_word(effective) + " = "@ + hex_byte(value),
    }
}

/// Writes the operand as assembly text.
pub fn operand_string(operand: &OperandInfo) -> (s: String)
    ensures
        s@ == operand_text(*operand),
{
    let mut s = String::new();
    match *operand {
        OperandInfo::Implied => {},
        OperandInfo::Accumulator => s.append("A"),
        OperandInfo::Immediate { value } => {
            s.append("#$");
            push_hex_byte(&mut s, value);
        },
        OperandInfo::ZeroPage { address, value } => {
            s.append("$");
            push_hex_byte(&mut s, address);
            s.append(" = ");
            push_hex_byte(&mut s, value);
        },
        OperandInfo::ZeroPageX { base, effective, value } => {
            s.append("$");
            push_hex_byte(&mut s, base);
            s.append(",X @ ");
            push_hex_byte(&mut s, effective);
            s.append(" = ");
            push_hex_byte(&mut s, value);
        },
        OperandInfo::ZeroPageY { base, effective, value } => {
            s.append("$");
            push_hex_byte(&mut s, base);
            s.append(",Y @ ");
            push_hex_byte(&mut s, effective);
            s.append(" = ");
            push_hex_byte(&mut s, value);
        },
        OperandInfo::Relative { target } => {
            s.append("$");
            push_hex_word(&mut s, target);
        },
        OperandInfo::Absolute { address, value } => {
            s.append("$");
            push_hex_word(&mut s, address);
            if let Some(v) = value {
                s.append(" = ");
                push_hex_byte(&mut s, v);
            }
        },
        OperandInfo::AbsoluteX { base, effective, value } => {
            s.append("$");
            push_hex_word(&mut s, base);
            s.append(",X @ ");
            push_hex_word(&mut s, effective);
            s.append(" = ");
            push_hex_byte(&mut s, value);
        },
        OperandInfo::AbsoluteY { base, effective, value } => {
            s.append("$");
            push_hex_word(&mut s, base);
            s.append(",Y @ ");
            push_hex_word(&mut s, effective);
            s.append(" = ");
            push_hex_byte(&mut s, value);
        },
        OperandInfo::Indirect { pointer, target } => {
            s.append("($");
            push_hex_word(&mut s, pointer);
            s.append(") = ");
            push_hex_word(&mut s, target);
        },
        OperandInfo::IndirectX { base, pointer, effective, value } => {
            s.append("($");
            push_hex_byte(&mut s, base);
            s.append(",X) @ ");
            push_hex_byte(&mut s, pointer);
            s.append(" = ");
            push_hex_word(&mut s, effective);
            s.append(" = ");
            push_hex_byte(&mut s, value);
        },
        OperandInfo::IndirectY { pointer, base, effective, value } => {
            s.append("($");
            push_hex_byte(&mut s, pointer);
            s.append("),Y = ");
            push_hex_word(&mut s, base);
            s.append(" @ ");
            push_hex_word(&mut s, effective);
            s.append(" = ");
            push_hex_byte(&mut s, value);
        },
    }
    assert(s@ =~= operand_text(*operand));
    s
}

/// Bytes in hexadecimal, separated by single spaces.
pub open spec fn bytes_text(bytes: Seq<u8>) -> Seq<char>
    decreases bytes.len(),
{
    if bytes.len() == 0 {
        Seq::empty()
    } else if bytes.len() == 1 {
        hex_byte(bytes[0])
    } else {
        bytes_text(bytes.drop_last()) + " "@ + hex_byte(bytes.last())
    }
}

/// An instruction as assembly: the mnemonic, then a space and the operand
/// when there is one.
pub open spec fn assembly_text(instruction: Instruction, operand: OperandInfo) -> Seq<char> {
    if operand_text(operand).len() == 0 {
        mnemonic(instruction)
    } else {
        mnemonic(instruction) + " "@ + operand_text(operand)
    }
}

/// Writes bytes in hexadecimal, separated by single spaces.
pub fn bytes_string(bytes: &Vec<u8>) -> (s: String)
    ensures
        s@ == bytes_text(bytes@),
{
    let mut s = String::new();
    let mut i: usize = 0;
    assert(bytes@.take(0) =~= Seq::<u8>::empty());
    while i < bytes.len()
        invariant
            i <= bytes.len(),
            s@ == bytes_text(bytes@.take(i as int)),
        decreases bytes.len() - i,
    {
        let ghost before = s@;
        if i > 0 {
            s.append(" ");
        }
        push_hex_byte(&mut s, bytes[i]);
        let ghost next = bytes@.take(i + 1);
        assert(next.drop_last() =~= bytes@.take(i as int));
        assert(next.last() == bytes@[i as int]);
        if i == 0 {
            assert(s@ =~= hex_byte(bytes@[0]));
        } else {
            assert(s@ =~= before + " "@ + hex_byte(bytes@[i as int]));
        }
        i = i + 1;
    }
    assert(bytes@.take(bytes.len() as int) =~= bytes@);
    s
}

/// The instruction's bytes in hexadecimal and the instruction as assembly.
pub fn instruction_text(decoded: &DecodedInstruction) -> (r: (String, String))
    ensures
        r.0@ == bytes_text(decoded.bytes@),
        r.1@ == assembly_text(decoded.instruction, decoded.operand),
{
    let bytes = bytes_string(&decoded.bytes);
    let operand = operand_string(&decoded.operand);
    let mut assembly = String::from_str(mnemonic_str(decoded.instruction));
    if operand.as_str().unicode_len() > 0 {
        assembly.append(" ");
        assembly.append(operand.as_str());
    }
    (bytes, assembly)
}

/// One trace line for the instruction at the program counter, in the layout
/// of the nestest reference log: address, bytes, assembly, registers, the
/// PPU's line and dot, and the CPU's cycle count.
pub open spec fn trace_text(cpu: Cpu, bus: CpuBusView) -> Seq<char> {
    let d = decode(bus, cpu.pc, cpu.x, cpu.y);
    hex_word(cpu.pc) + "  "@ + pad_right(bytes_text(d.bytes), 8) + "  "@ + pad_right(
        assembly_text(d.instruction, d.operand),
        32,
    ) + "A:"@ + hex_byte(cpu.a) + " X:"@ + hex_byte(cpu.x) + " Y:"@ + hex_byte(cpu.y) + " P:"@
        + hex_byte(cpu.status) + " SP:"@ + hex_byte(cpu.sp) + " PPU:"@ + pad_left(
        decimal(bus.ppu.scanline as nat),
        3,
    ) + ","@ + pad_left(decimal(bus.ppu.cycle as nat), 3) + " CYC:"@ + decimal(
        cpu.total_cycles as nat,
    )
}

/// One trace line for the instruction at the program counter.
pub fn trace(cpu: &Cpu, bus: &CpuBus) -> (s: String)
    ensures
        s@ == trace_text(*cpu, bus@),
{
    let pc = cpu.pc();
    let decoded = disassemble(bus, pc, cpu.x(), cpu.y());
    let (bytes, assembly) = instruction_text(&decoded);
    let mut s = String::new();
    push_hex_word(&mut s, pc);
    s.append("  ");
    push_padded_right(&mut s, bytes.as_str(), 8);
    s.append("  ");
    push_padded_right(&mut s, assembly.as_str(), 32);
    s.append("A:");
    push_hex_byte(&mut s, cpu.a());
    s.append(" X:");
    push_hex_byte(&mut s, cpu.x());
    s.append(" Y:");
    push_hex_byte(&mut s, cpu.y());
    s.append(" P:");
    push_hex_byte(&mut s, cpu.status());
    s.append(" SP:");
    push_hex_byte(&mut s, cpu.sp());
    s.append(" PPU:");
    let mut line = String::new();
    push_decimal(&mut line, bus.ppu.scanline() as u64);
    push_padded_left(&mut s, line.as_str(), 3);
    s.append(",");
    let mut dot = String::new();
    push_decimal(&mut dot, bus.ppu.cycle() as u64);
    push_padded_left(&mut s, dot.as_str(), 3);
    s.append(" CYC:");
    push_decimal(&mut s, cpu.total_cycles());
    assert(s@ =~= trace_text(*cpu, bus@));
    s
}

/// The value of a decimal or upper-case hexadecimal digit.
pub open spec fn digit_value(c: char) -> int {
    if c <= '9' {
        c as int - 48
    } else {
        c as int - 55
    }
}

/// Whether `c` is a digit in base `base` (10 or 16, upper-case letters).
pub open spec fn is_digit(c: char, base: int) -> bool {
    ('0' <= c <= '9' && c as int - 48 < base) || (base == 16 && 'A' <= c <= 'F')
}

/// The number the digits of `s` write in base `base`, most significant
/// first.
pub open spec fn digits_value(s: Seq<char>, base: int) -> int
    decreases s.len(),
{
    if s.len() == 0 {
        0
    } else {
        digits_value(s.drop_last(), base) * base + digit_value(s.last())
    }
}

/// The digit of `d` reads back as `d`.
proof fn lemma_hex_char(d: int)
    requires
        0 <= d < 16,
    ensures
        is_digit(hex_char(d), 16),
        d < 10 ==> is_digit(hex_char(d), 10),
        digit_value(hex_char(d)) == d,
{
}

/// Hexadecimal text reads back as the number written: a byte as exactly two
/// digits, a word as exactly four.
pub proof fn lemma_hex_reads_back(b: u8, w: u16)
    ensures
        hex_byte(b).len() == 2,
        forall|i: int| 0 <= i < 2 ==> is_digit(#[trigger] hex_byte(b)[i], 16),
        digits_value(hex_byte(b), 16) == b,
        hex_word(w).len() == 4,
        forall|i: int| 0 <= i < 4 ==> is_digit(#[trigger] hex_word(w)[i], 16),
        digits_value(hex_word(w), 16) == w,
{
    lemma_hex_char((b / 16) as int);
    lemma_hex_char((b % 16) as int);
    lemma_hex_char((w / 4096) as int);
    lemma_hex_char(((w / 256) % 16) as int);
    lemma_hex_char(((w / 16) % 16) as int);
    lemma_hex_char((w % 16) as int);
    let h = hex_byte(b);
    assert(h.drop_last().drop_last().len() == 0);
    let q = hex_word(w);
    assert(q.drop_last().drop_last().drop_last().drop_last().len() == 0);
    reveal_with_fuel(digits_value, 5);
}

/// Decimal text reads back as the number written, uses decimal digits only,
/// and has no leading zero (except for 0 itself).
pub proof fn lemma_decimal_reads_back(n: nat)
    ensures
        decimal(n).len() >= 1,
        forall|i: int| 0 <= i < decimal(n).len() ==> is_digit(#[trigger] decimal(n)[i], 10),
        digits_value(decimal(n), 10) == n,
        n > 0 ==> decimal(n)[0] != '0',
    decreases n,
{
    if n < 10 {
        lemma_hex_char(n as int);
        assert(decimal(n).drop_last() =~= Seq::<char>::empty());
        assert(digits_value(Seq::<char>::empty(), 10) == 0);
    } else {
        lemma_decimal_reads_back(n / 10);
        lemma_hex_char((n % 10) as int);
        let d = decimal(n);
        assert(d.drop_last() =~= decimal(n / 10));
        assert(d.last() == hex_char((n % 10) as int));
        assert(digits_value(d, 10) == digits_value(decimal(n / 10), 10) * 10 + digit_value(
            d.last(),
        ));
        assert forall|i: int| 0 <= i < d.len() implies is_digit(#[trigger] d[i], 10) by {
            if i < d.len() - 1 {
                assert(d[i] == decimal(n / 10)[i]);
            }
        }
        assert(d[0] == decimal(n / 10)[0]);
    }
}

/// Padding makes a column `width` characters wide without cutting: right
/// padding keeps the text at the start and fills the rest with spaces, left
/// padding keeps it at the end.
pub proof fn lemma_padding(text: Seq<char>, width: nat)
    ensures
        pad_right(text, width).len() == if text.len() < width {
            width
        } else {
            text.len()
        },
        pad_left(text, width).len() == pad_right(text, width).len(),
        pad_right(text, width).subrange(0, text.len() as int) == text,
        forall|i: int|
            text.len() <= i < width ==> #[trigger] pad_right(text, width)[i] == ' ',
        pad_left(text, width).subrange(
            pad_left(text, width).len() - text.len(),
            pad_left(text, width).len() as int,
        ) == text,
        forall|i: int|
            0 <= i < width - text.len() ==> #[trigger] pad_left(text, width)[i] == ' ',
{
    assert(pad_right(text, width).subrange(0, text.len() as int) =~= text);
    assert(pad_left(text, width).subrange(
        pad_left(text, width).len() - text.len(),
        pad_left(text, width).len() as int,
    ) =~= text);
}

} // verus!
