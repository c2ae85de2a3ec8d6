use zebes::ppu::Ppu;

#[test]
fn increment_coarse_x_wraps_at_31_and_toggles_nametable() {
    let mut ppu = Ppu::new();
    ppu.v = 0x001F; // coarse X = 31

    ppu.increment_coarse_x();

    assert_eq!(ppu.v & 0x001F, 0); // coarse X wrapped to 0
    assert_eq!(ppu.v & 0x0400, 0x0400); // horizontal nametable bit toggled
}

#[test]
fn increment_coarse_x_does_not_toggle_nametable_below_31() {
    let mut ppu = Ppu::new();
    ppu.v = 0x0005;

    ppu.increment_coarse_x();

    assert_eq!(ppu.v & 0x001F, 6);
    assert_eq!(ppu.v & 0x0400, 0);
}

#[test]
fn increment_y_bumps_fine_y_when_not_at_max() {
    let mut ppu = Ppu::new();
    ppu.v = 0x0000; // fine Y = 0

    ppu.increment_y();

    assert_eq!((ppu.v >> 12) & 0x07, 1);
}

#[test]
fn increment_y_wraps_coarse_y_at_29_and_toggles_nametable() {
    let mut ppu = Ppu::new();
    ppu.v = 0x7000 | (29 << 5); // fine Y = 7, coarse Y = 29

    ppu.increment_y();

    assert_eq!((ppu.v >> 12) & 0x07, 0); // fine Y wrapped
    assert_eq!((ppu.v & 0x03E0) >> 5, 0); // coarse Y wrapped
    assert_eq!(ppu.v & 0x0800, 0x0800); // vertical nametable toggled
}

#[test]
fn increment_y_wraps_coarse_y_at_31_without_toggling_nametable() {
    let mut ppu = Ppu::new();
    ppu.v = 0x7000 | (31 << 5);

    ppu.increment_y();

    assert_eq!((ppu.v & 0x03E0) >> 5, 0);
    assert_eq!(ppu.v & 0x0800, 0);
}

#[test]
fn copy_horizontal_bits_copies_coarse_x_and_nametable_only() {
    let mut ppu = Ppu::new();
    ppu.v = 0x7BE0; // everything except horizontal bits set
    ppu.t = 0x041F; // only horizontal bits set

    ppu.copy_horizontal_bits();

    assert_eq!(ppu.v, 0x7BE0 | 0x041F);
}

#[test]
fn copy_vertical_bits_copies_fine_y_coarse_y_and_nametable_only() {
    let mut ppu = Ppu::new();
    ppu.v = 0x041F; // horizontal bits set
    ppu.t = 0x7BE0; // vertical bits set

    ppu.copy_vertical_bits();

    assert_eq!(ppu.v, 0x041F | 0x7BE0);
}

#[test]
fn reload_shift_registers_loads_low_byte_only() {
    let mut ppu = Ppu::new();
    ppu.bg_pattern_shift_lo = 0xAB00;
    ppu.bg_pattern_shift_hi = 0xCD00;
    ppu.next_tile_lo = 0x11;
    ppu.next_tile_hi = 0x22;
    ppu.next_tile_attr = 0b10;

    ppu.reload_shift_registers();

    assert_eq!(ppu.bg_pattern_shift_lo, 0xAB11);
    assert_eq!(ppu.bg_pattern_shift_hi, 0xCD22);
    assert_eq!(ppu.bg_attr_shift_lo & 0x00FF, 0x00); // attr bit 0 clear -> 0x00 fill
    assert_eq!(ppu.bg_attr_shift_hi & 0x00FF, 0xFF); // attr bit 1 set -> 0xFF fill
}

#[test]
fn shift_register_shifts_all_four_registers_left() {
    let mut ppu = Ppu::new();
    ppu.bg_pattern_shift_lo = 0x8001;
    ppu.bg_pattern_shift_hi = 0x0001;
    ppu.bg_attr_shift_lo = 0x0001;
    ppu.bg_attr_shift_hi = 0x0001;

    ppu.shift_register();

    assert_eq!(ppu.bg_pattern_shift_lo, 0x0002);
    assert_eq!(ppu.bg_pattern_shift_hi, 0x0002);
    assert_eq!(ppu.bg_attr_shift_lo, 0x0002);
    assert_eq!(ppu.bg_attr_shift_hi, 0x0002);
}

#[test]
fn fetch_nametable_byte_reads_from_current_v_address() {
    let mut ppu = Ppu::new();
    ppu.v = 0x0005; // low 12 bits -> nametable offset 5
    ppu.bus.write(0x2005, 0x42);

    ppu.fetch_nametable_byte();

    assert_eq!(ppu.next_tile_id, 0x42);
}

#[test]
fn fetch_attribute_byte_selects_top_left_quadrant() {
    let mut ppu = Ppu::new();
    // coarse X = 0, coarse Y = 0 -> bit1 of both clear -> shift 0
    ppu.v = 0 | (0 << 5);
    let address = 0x23C0 | (ppu.v & 0x0C00) | ((ppu.v >> 4) & 0x38) | ((ppu.v >> 2) & 0x07);
    ppu.bus.write(address, 0b11_10_01_00);

    ppu.fetch_attribute_byte();

    assert_eq!(ppu.next_tile_attr, 0b00); // bits 1:0 of the byte
}

#[test]
fn fetch_attribute_byte_selects_top_right_quadrant() {
    let mut ppu = Ppu::new();
    // coarse X = 2 (bit1 set), coarse Y = 0 (bit1 clear) -> shift 2
    ppu.v = 2 | (0 << 5);
    let address = 0x23C0 | (ppu.v & 0x0C00) | ((ppu.v >> 4) & 0x38) | ((ppu.v >> 2) & 0x07);
    ppu.bus.write(address, 0b11_10_01_00);

    ppu.fetch_attribute_byte();

    assert_eq!(ppu.next_tile_attr, 0b01); // bits 3:2
}

#[test]
fn fetch_attribute_byte_selects_bottom_left_quadrant() {
    let mut ppu = Ppu::new();
    // coarse X = 0 (bit1 clear), coarse Y = 2 (bit1 set) -> shift 4
    ppu.v = 0 | (2 << 5);
    let address = 0x23C0 | (ppu.v & 0x0C00) | ((ppu.v >> 4) & 0x38) | ((ppu.v >> 2) & 0x07);
    ppu.bus.write(address, 0b11_10_01_00);

    ppu.fetch_attribute_byte();

    assert_eq!(ppu.next_tile_attr, 0b10); // bits 5:4
}

#[test]
fn fetch_attribute_byte_selects_bottom_right_quadrant() {
    let mut ppu = Ppu::new();
    // coarse X = 2, coarse Y = 2 -> both bit1 set -> shift 6
    ppu.v = 2 | (2 << 5);
    let address = 0x23C0 | (ppu.v & 0x0C00) | ((ppu.v >> 4) & 0x38) | ((ppu.v >> 2) & 0x07);
    ppu.bus.write(address, 0b11_10_01_00);

    ppu.fetch_attribute_byte();

    assert_eq!(ppu.next_tile_attr, 0b11); // bits 7:6
}
