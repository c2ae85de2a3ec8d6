use zebes::bus::Bus;
use zebes::cartridge::mapper000::Mapper000;
use zebes::cartridge::mapper001::Mapper001;
use zebes::cartridge::mapper002::Mapper002;
use zebes::cartridge::mapper003::Mapper003;
use zebes::cartridge::mapper004::Mapper004;
use zebes::cartridge::{ines_file_complete, Cartridge, Mapper, Mirroring};
use zebes::cpu::addressing::operand_at;
use zebes::cpu::flags::{BREAK, CARRY, INTERRUPT_DISABLE, NEGATIVE, OVERFLOW, UNUSED, ZERO};
use zebes::cpu::Cpu;
use zebes::cpu_bus::CpuBus;
use zebes::debugger::{Command, DebugState, Key, ViewMode};
use zebes::disassembler::{disassemble, OperandInfo};
use zebes::nes::Nes;
use zebes::ppu::flags::{
    CTRL_NMI_ENABLE, MASK_SHOW_BACKGROUND, MASK_SHOW_BACKGROUND_LEFT, MASK_SHOW_SPRITES,
    MASK_SHOW_SPRITES_LEFT, STATUS_SPRITE_ZERO_HIT, STATUS_VBLANK,
};
use zebes::ppu::palette::Rgb;
use zebes::ppu::ppu_bus::PpuBus;
use zebes::ppu::sprites::reverse_bits;
use zebes::ppu::Ppu;

fn has(status: u8, flag: u8) -> bool {
    status & flag != 0
}

/// A 16 KiB NROM image whose reset vector points at $8000, holding `program`
/// at $8000 and `nmi` (if any) at $8100 with the NMI vector pointing there.
fn nrom_image(program: &[u8], nmi: &[u8]) -> Vec<u8> {
    let mut data = vec![0x4E, 0x45, 0x53, 0x1A, 1, 1, 0, 0, 0, 0, 0, 0, 0, 0, 0, 0];
    let mut prg = vec![0xEAu8; 0x4000];
    prg[..program.len()].copy_from_slice(program);
    prg[0x100..0x100 + nmi.len()].copy_from_slice(nmi);
    prg[0x3FFA] = 0x00;
    prg[0x3FFB] = 0x81;
    prg[0x3FFC] = 0x00;
    prg[0x3FFD] = 0x80;
    data.extend_from_slice(&prg);
    data.extend_from_slice(&vec![0u8; 0x2000]);
    data
}

#[test]
fn law_pla_restores_what_pha_pushed() {
    let mut bus = Bus::new();
    let mut cpu = Cpu::new();
    cpu.a = 0x9C;
    let sp = cpu.sp;
    cpu.pha(operand_at(0), &mut bus);
    cpu.a = 0x00;
    cpu.pla(operand_at(0), &mut bus);
    assert_eq!(cpu.a, 0x9C);
    assert_eq!(cpu.sp, sp);
    assert!(has(cpu.status, NEGATIVE));
    assert!(!has(cpu.status, ZERO));
}

#[test]
fn law_plp_restores_what_php_pushed() {
    let mut bus = Bus::new();
    let mut cpu = Cpu::new();
    cpu.status = UNUSED | CARRY | OVERFLOW;
    let before = cpu.status;
    cpu.php(operand_at(0), &mut bus);
    cpu.status = UNUSED;
    cpu.plp(operand_at(0), &mut bus);
    assert_eq!(cpu.status, before);
    assert_eq!(cpu.sp, 0xFD);
}

#[test]
fn law_rts_returns_after_jsr() {
    let mut bus = Bus::new();
    let mut cpu = Cpu::new();
    cpu.pc = 0x0603;
    cpu.jsr(operand_at(0x0700), &mut bus);
    assert_eq!(cpu.pc, 0x0700);
    cpu.rts(operand_at(0), &mut bus);
    assert_eq!(cpu.pc, 0x0603);
    assert_eq!(cpu.sp, 0xFD);
}

#[test]
fn law_rti_returns_past_brk_padding() {
    let mut bus = Bus::new();
    let mut cpu = Cpu::new();
    cpu.pc = 0x0401;
    cpu.status = UNUSED | ZERO;
    cpu.brk(operand_at(0), &mut bus);
    assert!(has(cpu.status, INTERRUPT_DISABLE));
    cpu.rti(operand_at(0), &mut bus);
    assert_eq!(cpu.pc, 0x0402);
    assert_eq!(cpu.status, UNUSED | ZERO);
    assert_eq!(cpu.sp, 0xFD);
}

#[test]
fn law_rti_returns_from_nmi() {
    let mut bus = Bus::new();
    // NMI vector at $FFFA/$FFFB, which the work-RAM bus mirrors to $07FA/$07FB.
    bus.write(0xFFFA, 0x34);
    bus.write(0xFFFB, 0x02);
    let mut cpu = Cpu::new();
    cpu.pc = 0x0123;
    cpu.status = UNUSED | CARRY;
    cpu.nmi(&mut bus);
    assert_eq!(cpu.pc, 0x0234);
    assert_eq!(cpu.cycles, 7);
    assert_eq!(bus.peek(0x01FB), UNUSED | CARRY);
    assert!(!has(bus.peek(0x01FB), BREAK));
    cpu.rti(operand_at(0), &mut bus);
    assert_eq!(cpu.pc, 0x0123);
    assert_eq!(cpu.status, UNUSED | CARRY);
}

#[test]
fn law_adc_adds_with_carry() {
    let mut bus = Bus::new();
    let mut cpu = Cpu::new();
    cpu.a = 0x7F;
    bus.write(0x0010, 0x01);
    cpu.adc(operand_at(0x0010), &mut bus);
    assert_eq!(cpu.a, 0x80);
    assert!(has(cpu.status, OVERFLOW));
    assert!(has(cpu.status, NEGATIVE));
    assert!(!has(cpu.status, CARRY));
}

#[test]
fn law_sbc_is_adc_of_complement() {
    let mut bus = Bus::new();
    bus.write(0x0010, 0x30);
    bus.write(0x0011, !0x30u8);
    let mut a = Cpu::new();
    a.a = 0x50;
    zebes::cpu::flags::set(&mut a.status, CARRY, true);
    let mut b = Cpu::new();
    b.a = 0x50;
    zebes::cpu::flags::set(&mut b.status, CARRY, true);
    a.sbc(operand_at(0x0010), &mut bus);
    b.adc(operand_at(0x0011), &mut bus);
    assert_eq!(a.a, 0x20);
    assert_eq!(a.a, b.a);
    assert_eq!(a.status, b.status);
}

#[test]
fn law_compare_reports_order() {
    let mut bus = Bus::new();
    bus.write(0x0020, 0x40);
    let mut cpu = Cpu::new();
    cpu.a = 0x40;
    cpu.cmp(operand_at(0x0020), &mut bus);
    assert!(has(cpu.status, ZERO) && has(cpu.status, CARRY));
    cpu.a = 0x3F;
    cpu.cmp(operand_at(0x0020), &mut bus);
    assert!(!has(cpu.status, ZERO) && !has(cpu.status, CARRY) && has(cpu.status, NEGATIVE));
}

#[test]
fn law_dex_undoes_inx() {
    let mut bus = Bus::new();
    let mut cpu = Cpu::new();
    cpu.x = 0xFF;
    cpu.inx(operand_at(0), &mut bus);
    assert_eq!(cpu.x, 0x00);
    cpu.dex(operand_at(0), &mut bus);
    assert_eq!(cpu.x, 0xFF);
    assert!(has(cpu.status, NEGATIVE));
}

#[test]
fn law_clock_spends_instruction_cycles() {
    let mut bus = Bus::new();
    // LDA #$05 at $0000: two cycles.
    bus.write(0x0000, 0xA9);
    bus.write(0x0001, 0x05);
    let mut cpu = Cpu::new();
    cpu.clock(&mut bus);
    assert_eq!(cpu.a, 0x05);
    assert_eq!(cpu.pc, 0x0002);
    assert_eq!(cpu.cycles, 1);
    cpu.clock(&mut bus);
    assert_eq!(cpu.cycles, 0);
    assert_eq!(cpu.total_cycles, 2);
}

#[test]
fn law_work_ram_mirrors_every_2k() {
    let mut bus = CpuBus::new();
    bus.write(0x0123, 0x5A);
    assert_eq!(bus.read(0x0923), 0x5A);
    assert_eq!(bus.read(0x1123), 0x5A);
    assert_eq!(bus.read(0x1923), 0x5A);
    let mut ram = Bus::new();
    ram.write(0x1FFF, 0x11);
    assert_eq!(ram.peek(0x07FF), 0x11);
}

#[test]
fn law_nametable_mirroring_follows_cartridge() {
    let mut vertical = PpuBus::new().with_cartridge(
        Cartridge::try_from_ines(&nrom_with_flags(0x01)).unwrap(),
    );
    vertical.write(0x2005, 0x77);
    assert_eq!(vertical.read(0x2805), 0x77);
    assert_eq!(vertical.read(0x2405), 0x00);
    let mut horizontal = PpuBus::new().with_cartridge(
        Cartridge::try_from_ines(&nrom_with_flags(0x00)).unwrap(),
    );
    horizontal.write(0x2005, 0x66);
    assert_eq!(horizontal.read(0x2405), 0x66);
    assert_eq!(horizontal.read(0x2805), 0x00);
    assert_eq!(horizontal.read(0x3005), 0x66);
}

fn nrom_with_flags(flags6: u8) -> Vec<u8> {
    let mut data = nrom_image(&[], &[]);
    data[6] = flags6;
    data
}

#[test]
fn law_palette_backdrop_mirrors() {
    let mut bus = PpuBus::new();
    bus.write(0x3F10, 0x21);
    assert_eq!(bus.read(0x3F00), 0x21);
    bus.write(0x3F05, 0x15);
    assert_eq!(bus.read(0x3F25), 0x15);
    assert_eq!(bus.read(0x3FE5), 0x15);
    assert_eq!(bus.read(0x3F15), 0x00);
}

#[test]
fn law_coarse_x_and_y_increments() {
    let mut ppu = Ppu::new();
    ppu.v = 0x041E;
    ppu.increment_coarse_x();
    assert_eq!(ppu.v, 0x041F);
    ppu.increment_coarse_x();
    assert_eq!(ppu.v, 0x0000);
    ppu.v = 0x7000 | (5 << 5) | 0x0400 | 0x03;
    ppu.increment_y();
    assert_eq!(ppu.v, (6 << 5) | 0x0400 | 0x03);
}

#[test]
fn law_frame_is_262_lines_of_341_dots() {
    let mut ppu = Ppu::new();
    let mut dots = 0u32;
    while ppu.frame() == 0 {
        ppu.clock();
        dots += 1;
    }
    assert_eq!(dots, 341 * 262);
    assert_eq!((ppu.scanline(), ppu.cycle()), (0, 0));
}

#[test]
fn law_odd_frames_are_one_dot_shorter_when_rendering() {
    let mut ppu = Ppu::new();
    ppu.mask = MASK_SHOW_BACKGROUND;
    ppu.frame = 1;
    ppu.scanline = 261;
    ppu.cycle = 339;
    ppu.clock();
    assert_eq!((ppu.scanline(), ppu.cycle(), ppu.frame()), (0, 0, 2));
    ppu.scanline = 261;
    ppu.cycle = 339;
    ppu.clock();
    assert_eq!((ppu.scanline(), ppu.cycle(), ppu.frame()), (261, 340, 2));
}

#[test]
fn law_vblank_raises_nmi_when_enabled() {
    let mut ppu = Ppu::new();
    ppu.ctrl = CTRL_NMI_ENABLE;
    ppu.scanline = 241;
    ppu.cycle = 1;
    ppu.clock();
    assert!(has(ppu.status, STATUS_VBLANK));
    assert!(ppu.take_nmi());
    assert!(!ppu.take_nmi());
    ppu.scanline = 261;
    ppu.cycle = 1;
    ppu.clock();
    assert!(!has(ppu.status, STATUS_VBLANK));
}

#[test]
fn law_status_read_clears_vblank_and_latch() {
    let mut ppu = Ppu::new();
    ppu.status = STATUS_VBLANK;
    ppu.cpu_write(0x2005, 0x10);
    assert!(ppu.w);
    assert_eq!(ppu.cpu_read(0x2002), STATUS_VBLANK);
    assert_eq!(ppu.cpu_read(0x2002), 0);
    assert!(!ppu.w);
}

#[test]
fn law_ppuaddr_then_buffered_data_reads() {
    let mut ppu = Ppu::new();
    ppu.cpu_write(0x2006, 0x21);
    ppu.cpu_write(0x2006, 0x08);
    assert_eq!(ppu.v, 0x2108);
    ppu.cpu_write(0x2007, 0xAB);
    ppu.cpu_write(0x2007, 0xCD);
    ppu.cpu_write(0x2006, 0x21);
    ppu.cpu_write(0x2006, 0x08);
    let stale = ppu.cpu_read(0x2007);
    assert_eq!(stale, 0x00);
    assert_eq!(ppu.cpu_read(0x2007), 0xAB);
    assert_eq!(ppu.cpu_read(0x2007), 0xCD);
    ppu.cpu_write(0x2006, 0x3F);
    ppu.cpu_write(0x2006, 0x01);
    ppu.cpu_write(0x2007, 0x2A);
    ppu.cpu_write(0x2006, 0x3F);
    ppu.cpu_write(0x2006, 0x01);
    assert_eq!(ppu.cpu_read(0x2007), 0x2A);
}

#[test]
fn law_oam_dma_copies_a_ram_page() {
    let mut bus = CpuBus::new();
    for i in 0..256u16 {
        bus.write(0x0300 + i, (i as u8).wrapping_mul(3));
    }
    bus.write(0x4014, 0x03);
    assert!(bus.dma_pending);
    for i in 0..256usize {
        assert_eq!(bus.ppu.oam[i], (i as u8).wrapping_mul(3));
    }
    assert_eq!(bus.ppu.oam_address, 0);
}

#[test]
fn law_controller_reports_buttons_in_order() {
    let mut bus = CpuBus::new();
    bus.set_controller_state(0, 0b1010_0101);
    bus.write(0x4016, 1);
    assert_eq!(bus.read(0x4016), 0x41);
    assert_eq!(bus.read(0x4016), 0x41);
    bus.write(0x4016, 0);
    let bits: Vec<u8> = (0..10).map(|_| bus.read(0x4016)).collect();
    assert_eq!(bits, vec![0x41, 0x40, 0x41, 0x40, 0x40, 0x41, 0x40, 0x41, 0x41, 0x41]);
}

#[test]
fn law_nrom_16k_is_mirrored() {
    let mut prg = vec![0u8; 0x4000];
    prg[0x0123] = 0x99;
    let m = Mapper000::new(prg, vec![0u8; 0x2000], Mirroring::Vertical);
    assert_eq!(m.cpu_read(0x8123), Some(0x99));
    assert_eq!(m.cpu_read(0xC123), Some(0x99));
    assert_eq!(m.cpu_read(0x6000), None);
}

#[test]
fn law_uxrom_switches_low_bank_and_fixes_last() {
    let mut prg = vec![0u8; 0x4000 * 4];
    for bank in 0..4 {
        prg[bank * 0x4000] = bank as u8 + 0x10;
    }
    let mut m = Mapper002::new(prg, vec![0u8; 0x2000], Mirroring::Horizontal);
    assert_eq!(m.cpu_read(0x8000), Some(0x10));
    assert_eq!(m.cpu_read(0xC000), Some(0x13));
    m.cpu_write(0x8000, 2);
    assert_eq!(m.cpu_read(0x8000), Some(0x12));
    assert_eq!(m.cpu_read(0xC000), Some(0x13));
    m.cpu_write(0xFFFF, 6);
    assert_eq!(m.cpu_read(0x8000), Some(0x12));
}

#[test]
fn law_cnrom_selects_chr_bank() {
    let mut chr = vec![0u8; 0x2000 * 2];
    chr[0x2000 + 5] = 0x44;
    let mut m = Mapper003::new(vec![0u8; 0x4000], chr, Mirroring::Vertical);
    assert_eq!(m.ppu_read(0x0005), Some(0x00));
    m.cpu_write(0x8000, 1);
    assert_eq!(m.ppu_read(0x0005), Some(0x44));
}

#[test]
fn law_mmc1_serial_load_and_reset() {
    let mut prg = vec![0u8; 0x4000 * 4];
    for bank in 0..4 {
        prg[bank * 0x4000] = bank as u8;
    }
    let mut m = Mapper001::new(prg, vec![0u8; 0x2000], Mirroring::Horizontal);
    // Load PRG bank 2 (0b00010) into $E000, least significant bit first.
    for bit in [0u8, 1, 0, 0, 0] {
        m.cpu_write(0xE000, bit);
    }
    assert_eq!(m.cpu_read(0x8000), Some(2));
    assert_eq!(m.cpu_read(0xC000), Some(3));
    // Control = 0b00011: horizontal mirroring.
    for bit in [1u8, 1, 0, 0, 0] {
        m.cpu_write(0x8000, bit);
    }
    assert!(m.mirroring() == Mirroring::Horizontal);
    // A reset write in the middle discards the partial value.
    m.cpu_write(0x8000, 0);
    m.cpu_write(0x8000, 0x80);
    for bit in [0u8, 1, 0, 0, 0] {
        m.cpu_write(0x8000, bit);
    }
    assert!(m.mirroring() == Mirroring::Vertical);
}

#[test]
fn law_mmc3_irq_fires_after_latch_plus_one_edges() {
    let mut m = Mapper004::new(vec![0u8; 0x8000], vec![0u8; 0x2000], Mirroring::Vertical);
    m.cpu_write(0xC000, 2); // latch
    m.cpu_write(0xC001, 0); // reload
    m.cpu_write(0xE001, 0); // enable
    let mut edges = 0;
    while !m.irq_pending() {
        m.ppu_read(0x0000);
        m.ppu_read(0x1000);
        edges += 1;
        assert!(edges <= 3);
    }
    assert_eq!(edges, 3);
    m.cpu_write(0xE000, 0);
    assert!(!m.irq_pending());
}

#[test]
fn law_decode_length_matches_cpu_fetch() {
    let mut bus = Bus::new();
    // LDA $0234,X ; BNE -4 ; JMP ($02FF)
    let program = [0xBD, 0x34, 0x02, 0xD0, 0xFC, 0x6C, 0xFF, 0x02];
    bus.load_bytes(&program, 0x0100);
    bus.write(0x0236, 0x9F);
    bus.write(0x02FF, 0x78);
    bus.write(0x0200, 0x56);
    let d = disassemble(&bus, 0x0100, 2, 0);
    assert_eq!(d.bytes, vec![0xBD, 0x34, 0x02]);
    assert_eq!(d.next, 0x0103);
    assert_eq!(d.operand, OperandInfo::AbsoluteX { base: 0x0234, effective: 0x0236, value: 0x9F });
    let b = disassemble(&bus, 0x0103, 2, 0);
    assert_eq!(b.operand, OperandInfo::Relative { target: 0x0101 });
    assert_eq!(b.next, 0x0105);
    let j = disassemble(&bus, 0x0105, 2, 0);
    assert_eq!(j.operand, OperandInfo::Indirect { pointer: 0x02FF, target: 0x5678 });
    let mut cpu = Cpu::new();
    cpu.pc = 0x0100;
    cpu.x = 2;
    cpu.clock(&mut bus);
    assert_eq!(cpu.pc, d.next);
}

#[test]
fn law_debugger_toggles_are_involutions() {
    let mut state = DebugState::new();
    assert_eq!(state.handle_key(Key::ToggleView), Command::Nothing);
    assert_eq!(state.view_mode, ViewMode::Ppu);
    state.handle_key(Key::ToggleView);
    assert_eq!(state, DebugState::new());
    state.handle_key(Key::ToggleRun);
    assert!(state.running);
    assert_eq!(state.handle_key(Key::StepCycle), Command::Clock);
    assert!(!state.running);
    state.handle_key(Key::ScrollUp);
    assert_eq!(state.mem_base, 0);
    state.mem_base = 0xFFF8;
    state.handle_key(Key::ScrollDown);
    assert_eq!(state.mem_base, 0xFFFF);
    assert_eq!(state.handle_key(Key::Quit), Command::Quit);
}

#[test]
fn law_reverse_bits_is_an_involution() {
    assert_eq!(reverse_bits(0b1100_0001), 0b1000_0011);
    for b in 0..=255u8 {
        assert_eq!(reverse_bits(reverse_bits(b)), b);
        assert_eq!(reverse_bits(b), b.reverse_bits());
    }
}

#[test]
fn ines_rejects_bad_magic_and_short_header() {
    match Cartridge::try_from_ines(&[0x4E, 0x45, 0x53]) {
        Err(e) => assert_eq!(e, "invalid iNES file"),
        Ok(_) => panic!("short header accepted"),
    }
    let mut data = nrom_image(&[], &[]);
    data[3] = 0x00;
    match Cartridge::try_from_ines(&data) {
        Err(e) => assert_eq!(e, "invalid iNES file"),
        Ok(_) => panic!("bad magic accepted"),
    }
}

#[test]
fn ines_reports_unsupported_mapper_number() {
    let mut data = nrom_image(&[], &[]);
    data[6] = 0x50;
    data[7] = 0x40; // mapper 0x45 = 69
    match Cartridge::try_from_ines(&data) {
        Err(e) => assert_eq!(e, "mapper 69 not supported yet"),
        Ok(_) => panic!("unsupported mapper accepted"),
    }
    data[6] = 0x00;
    data[7] = 0xF0; // mapper 240
    match Cartridge::try_from_ines(&data) {
        Err(e) => assert_eq!(e, "mapper 240 not supported yet"),
        Ok(_) => panic!("unsupported mapper accepted"),
    }
    data[6] = 0x50; // mapper 5
    data[7] = 0x00;
    match Cartridge::try_from_ines(&data) {
        Err(e) => assert_eq!(e, "mapper 5 not supported yet"),
        Ok(_) => panic!("unsupported mapper accepted"),
    }
    data[6] = 0x40; // mapper 4 (MMC3), not yet supported
    data[7] = 0x00;
    match Cartridge::try_from_ines(&data) {
        Err(e) => assert_eq!(e, "mapper 4 not supported yet"),
        Ok(_) => panic!("unsupported mapper accepted"),
    }
    data[6] = 0x30; // mapper 3 is the last one accepted
    assert!(Cartridge::try_from_ines(&data).is_ok());
}

#[test]
fn ines_skips_trainer_and_reads_images() {
    let mut data = vec![0x4E, 0x45, 0x53, 0x1A, 1, 0, 0b0000_0100, 0, 0, 0, 0, 0, 0, 0, 0, 0];
    data.extend_from_slice(&vec![0xEEu8; 512]);
    let mut prg = vec![0u8; 0x4000];
    prg[0] = 0x42;
    data.extend_from_slice(&prg);
    let cart = Cartridge::try_from_ines(&data).unwrap();
    assert_eq!(cart.cpu_read(0x8000), Some(0x42));
    assert_eq!(cart.cpu_read(0xC000), Some(0x42));
    assert!(cart.mirroring() == Mirroring::Horizontal);
}

#[test]
fn nes_runs_program_and_takes_nmi() {
    // LDA #$80 ; STA $2000 (enable NMI) ; loop: JMP loop
    let program = [0xA9, 0x80, 0x8D, 0x00, 0x20, 0x4C, 0x05, 0x80];
    // NMI handler: INC $10 ; RTI
    let handler = [0xE6, 0x10, 0x40];
    let mut nes = Nes::new();
    assert!(nes.load(&nrom_image(&program, &handler)).is_ok());
    nes.reset();
    assert_eq!(nes.cpu().pc(), 0x8000);
    let mut clocks = 0u32;
    while nes.bus().peek(0x0010) == 0 {
        assert!(nes.can_clock());
        nes.clock();
        clocks += 1;
        assert!(clocks < 40_000);
    }
    // Vertical blank starts at line 241 dot 1, three PPU dots per CPU cycle.
    assert!(clocks >= (241 * 341 + 1) / 3);
    while nes.cpu().pc() >= 0x8100 || nes.cpu().cycles() != 0 {
        nes.clock();
    }
    assert_eq!(nes.bus().peek(0x0010), 1);
    assert!(nes.cpu().pc() >= 0x8005 && nes.cpu().pc() <= 0x8007);
}

#[test]
fn nes_load_error_leaves_console_unchanged() {
    let mut nes = Nes::new();
    nes.cpu_mut().set_pc(0x1234);
    match nes.load(&[1, 2, 3]) {
        Err(e) => assert_eq!(e, "invalid iNES file"),
        Ok(()) => panic!("garbage accepted"),
    }
    assert_eq!(nes.cpu().pc(), 0x1234);
}

#[test]
fn nes_unofficial_opcode_stops_clocking() {
    let program = [0x02];
    let mut nes = Nes::new();
    nes.load(&nrom_image(&program, &[])).unwrap();
    nes.reset();
    for _ in 0..7 {
        assert!(nes.can_clock());
        nes.clock();
    }
    assert!(!nes.can_clock());
}

fn sprite_over_background(attr: u8) -> Ppu {
    let mut ppu = Ppu::new();
    ppu.mask = MASK_SHOW_BACKGROUND | MASK_SHOW_SPRITES | MASK_SHOW_BACKGROUND_LEFT
        | MASK_SHOW_SPRITES_LEFT;
    ppu.bus.write(0x3F01, 0x16);
    ppu.bus.write(0x3F11, 0x2A);
    ppu.bg_pattern_shift_lo = 0x8000;
    ppu.secondary_oam_count = 1;
    ppu.sprite_x_counter[0] = 0;
    ppu.sprite_pattern_lo[0] = 0x80;
    ppu.sprite_attr[0] = attr;
    ppu.sprite_zero_in_range = true;
    ppu.scanline = 5;
    ppu.cycle = 11;
    ppu
}

#[test]
fn law_sprite_priority_and_zero_hit() {
    let mut front = sprite_over_background(0x00);
    front.render_pixel();
    assert!(has(front.status, STATUS_SPRITE_ZERO_HIT));
    assert_eq!(front.framebuffer()[5 * 256 + 10], Rgb { r: 0x4C, g: 0xD0, b: 0x20 });
    let mut behind = sprite_over_background(0x20);
    behind.render_pixel();
    assert!(has(behind.status, STATUS_SPRITE_ZERO_HIT));
    assert_eq!(behind.framebuffer()[5 * 256 + 10], Rgb { r: 0x98, g: 0x22, b: 0x20 });
    let mut no_background = sprite_over_background(0x20);
    no_background.bg_pattern_shift_lo = 0;
    no_background.render_pixel();
    assert!(!has(no_background.status, STATUS_SPRITE_ZERO_HIT));
    assert_eq!(no_background.framebuffer()[5 * 256 + 10], Rgb { r: 0x4C, g: 0xD0, b: 0x20 });
    let mut last_column = sprite_over_background(0x00);
    last_column.cycle = 256;
    last_column.render_pixel();
    assert!(!has(last_column.status, STATUS_SPRITE_ZERO_HIT));
}

#[test]
fn law_mmc3_chr_inversion_swaps_halves() {
    let mut chr = vec![0u8; 0x2000];
    chr[5 * 0x400 + 3] = 0x77;
    let mut m = Mapper004::new(vec![0u8; 0x8000], chr, Mirroring::Vertical);
    m.cpu_write(0x8000, 2);
    m.cpu_write(0x8001, 5);
    assert_eq!(m.ppu_read(0x1003), Some(0x77));
    assert_eq!(m.ppu_read(0x0003), Some(0x00));
    m.cpu_write(0x8000, 0x80);
    assert_eq!(m.ppu_read(0x0003), Some(0x77));
    let mut prg = vec![0u8; 0x8000];
    prg[0x6000] = 0xE7;
    let mut m = Mapper004::new(prg, vec![0u8; 0x2000], Mirroring::Vertical);
    assert_eq!(m.cpu_read(0xE000), Some(0xE7));
    m.cpu_write(0x8000, 0x40);
    assert_eq!(m.cpu_read(0xE000), Some(0xE7));
}

#[test]
fn law_oam_dma_starts_at_oamaddr_and_wraps() {
    let mut bus = CpuBus::new();
    for i in 0..256u16 {
        bus.write(0x0500 + i, i as u8 ^ 0x5A);
    }
    bus.write(0x2003, 0xF0);
    bus.write(0x4014, 0x05);
    assert!(bus.dma_pending);
    for i in 0..256usize {
        let k = (0xF0 + i) % 256;
        assert_eq!(bus.ppu.oam[k], i as u8 ^ 0x5A);
    }
    assert_eq!(bus.ppu.oam_address, 0xF0);
}

#[test]
fn law_both_controllers_report_independently() {
    let mut bus = CpuBus::new();
    bus.set_controller_state(0, 0b0000_0011);
    bus.set_controller_state(1, 0b1000_0100);
    bus.write(0x4016, 1);
    bus.write(0x4016, 0);
    // Three reads of port 1 do not move port 2.
    assert_eq!(bus.read(0x4016), 0x41);
    assert_eq!(bus.read(0x4016), 0x41);
    assert_eq!(bus.read(0x4016), 0x40);
    let second: Vec<u8> = (0..9).map(|_| bus.read(0x4017)).collect();
    assert_eq!(second, vec![0x40, 0x40, 0x41, 0x40, 0x40, 0x40, 0x40, 0x41, 0x41]);
    // Port 1 carries on where it stopped.
    let first: Vec<u8> = (0..6).map(|_| bus.read(0x4016)).collect();
    assert_eq!(first, vec![0x40, 0x40, 0x40, 0x40, 0x40, 0x41]);
}

#[test]
fn law_mmc1_fifth_write_address_picks_register() {
    let mut prg = vec![0u8; 0x4000 * 4];
    for bank in 0..4 {
        prg[bank * 0x4000] = bank as u8;
    }
    let mut chr = vec![0u8; 0x4000];
    chr[0x2000] = 0x77;
    let mut m = Mapper001::new(prg, chr, Mirroring::Horizontal);
    // The first four writes may go anywhere in $8000-$FFFF; the fifth picks
    // the register: $E000 is the PRG bank.
    for (address, bit) in [(0x8000u16, 0u8), (0xA000, 1), (0xC000, 0), (0x9FFF, 0), (0xE000, 0)] {
        m.cpu_write(address, bit);
    }
    assert_eq!(m.cpu_read(0x8000), Some(2));
    assert_eq!(m.cpu_read(0xC000), Some(3));
    // Fifth write at $A000: CHR bank 0 = 2, the second 8 KiB bank in 8 KiB mode.
    assert_eq!(m.ppu_read(0x0000), Some(0x00));
    for (address, bit) in [(0xE000u16, 0u8), (0xC000, 1), (0x8000, 0), (0x8000, 0), (0xA000, 0)] {
        m.cpu_write(address, bit);
    }
    assert_eq!(m.ppu_read(0x0000), Some(0x77));
    assert_eq!(m.cpu_read(0x8000), Some(2));
}

#[test]
fn law_uxrom_accepts_short_chr_image() {
    let prg = vec![0u8; 0x4000 * 2];
    let mut m = Mapper002::new(prg, vec![1, 2, 3], Mirroring::Vertical);
    assert_eq!(m.ppu_read(0x0001), Some(2));
    assert_eq!(m.ppu_read(0x0003), None);
    m.ppu_write(0x0002, 9);
    assert_eq!(m.ppu_read(0x0002), Some(9));
    m.ppu_write(0x1000, 9);
    assert_eq!(m.ppu_read(0x1000), None);
    assert_eq!(m.ppu_read(0x0000), Some(1));
}

#[test]
fn law_rendering_dots_leave_nmi_request_alone() {
    let mut ppu = Ppu::new();
    ppu.ctrl = CTRL_NMI_ENABLE;
    ppu.mask = MASK_SHOW_BACKGROUND | MASK_SHOW_SPRITES;
    ppu.scanline = 10;
    ppu.cycle = 0;
    for _ in 0..341 * 5 {
        ppu.clock();
    }
    assert!(!ppu.take_nmi());
    ppu.scanline = 241;
    ppu.cycle = 1;
    ppu.clock();
    assert!(ppu.take_nmi());
}

#[test]
fn law_increment_y_keeps_bit_15() {
    let mut ppu = Ppu::new();
    ppu.v = 0x8000 | 0x7000 | (29 << 5) | 0x0005;
    ppu.increment_y();
    assert_eq!(ppu.v, 0x8000 | 0x0800 | 0x0005);
    ppu.v = 0x8000 | 0x2000 | 0x0001;
    ppu.increment_y();
    assert_eq!(ppu.v, 0x8000 | 0x3000 | 0x0001);
}

#[test]
fn ines_file_complete_checks_announced_sizes() {
    let data = nrom_image(&[], &[]);
    assert!(ines_file_complete(&data));
    assert!(!ines_file_complete(&data[..data.len() - 1]));
    // Not an iNES file at all: loading reports the error itself.
    assert!(ines_file_complete(&[1, 2, 3]));
    assert!(ines_file_complete(&[0u8; 40]));
    // A trainer adds 512 bytes to what the header announces.
    let mut header = vec![0x4E, 0x45, 0x53, 0x1A, 0, 0, 0b0000_0100, 0, 0, 0, 0, 0, 0, 0, 0, 0];
    header.extend_from_slice(&vec![0u8; 511]);
    assert!(!ines_file_complete(&header));
    header.push(0);
    assert!(ines_file_complete(&header));
}

#[test]
fn nes_run_frame_stops_at_the_next_frame() {
    // loop: JMP loop
    let mut nes = Nes::new();
    assert!(nes.load(&nrom_image(&[0x4C, 0x00, 0x80], &[])).is_ok());
    nes.reset();
    assert!(!nes.run_frame(100));
    assert_eq!(nes.bus().ppu.frame(), 0);
    assert!(nes.run_frame(u32::MAX));
    assert_eq!(nes.bus().ppu.frame(), 1);
    assert_eq!(nes.bus().ppu.scanline(), 0);
    assert!(nes.bus().ppu.cycle() <= 2);
    // A whole frame is 341 * 262 dots, three per clock.
    assert!(!nes.run_frame(29_000));
    assert!(nes.run_frame(1_000));
    assert_eq!(nes.bus().ppu.frame(), 2);
}

#[test]
fn nes_runs_stop_at_unofficial_opcode() {
    // $02 is an unofficial (halting) opcode.
    let mut nes = Nes::new();
    assert!(nes.load(&nrom_image(&[0x02], &[])).is_ok());
    nes.reset();
    assert!(!nes.run_frame(u32::MAX));
    assert!(!nes.can_clock());
    assert_eq!(nes.bus().ppu.frame(), 0);
    assert!(!nes.run_to_next_instruction(u32::MAX));
}

#[test]
fn nes_run_to_next_instruction() {
    // NOP ; loop: JMP loop
    let mut nes = Nes::new();
    assert!(nes.load(&nrom_image(&[0xEA, 0x4C, 0x01, 0x80], &[])).is_ok());
    nes.reset();
    assert_eq!(nes.cpu().pc(), 0x8000);
    assert!(nes.run_to_next_instruction(100));
    assert_eq!(nes.cpu().pc(), 0x8001);
    // A jump to its own address never moves the program counter.
    assert!(!nes.run_to_next_instruction(1_000));
    assert_eq!(nes.cpu().pc(), 0x8001);
    assert!(nes.can_clock());
}

#[test]
fn mapper_boards_report_their_register_invariants() {
    let mut m = Mapper001::new(vec![0u8; 0x8000], vec![0u8; 0x2000], Mirroring::Vertical);
    assert_eq!(m.serial_port(), (0, 0));
    m.cpu_write(0x8000, 1);
    m.cpu_write(0x8000, 1);
    assert_eq!(m.serial_port(), (0x18, 2));
    m.cpu_write(0x8000, 0x80);
    assert_eq!(m.serial_port(), (0, 0));
    let mut m = Mapper004::new(vec![0u8; 0x8000], vec![0u8; 0x2000], Mirroring::Vertical);
    assert_eq!(m.bank_select(), 0);
    m.cpu_write(0x8000, 0xFE);
    assert_eq!(m.bank_select(), 6);
}

#[test]
fn law_oam_dma_leaves_work_ram_alone() {
    let mut bus = CpuBus::new();
    for i in 0..0x800u16 {
        bus.write(i, (i % 251) as u8);
    }
    bus.write(0x2003, 0x07);
    bus.write(0x4014, 0x02);
    for i in 0..0x800u16 {
        assert_eq!(bus.read(i), (i % 251) as u8);
    }
    assert_eq!(bus.ppu.oam[0x07], (0x0200 % 251) as u8);
}
