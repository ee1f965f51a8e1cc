use nes_core::ppu::render::reverse_bits;
use nes_core::ppu::{MirrorMode, Ppu, FRAME_BYTES, PALETTE};

/// Sets the VRAM address through the address register.
fn set_vram_addr(ppu: &mut Ppu, addr: u16) {
    ppu.cpu_read(0x2002);
    ppu.cpu_write(0x2006, (addr >> 8) as u8);
    ppu.cpu_write(0x2006, addr as u8);
}

/// Runs the PPU until its cursor stands at the given scanline and dot.
fn run_to(ppu: &mut Ppu, scanline: i16, dot: u16) {
    let mut guard = 0u32;
    while !(ppu.scanline == scanline && ppu.cycle == dot) {
        ppu.clock();
        guard += 1;
        assert!(guard < 200_000, "cursor never reached ({}, {})", scanline, dot);
    }
}

#[test]
fn power_on_state() {
    let ppu = Ppu::new();
    assert_eq!(ppu.frame_buffer.len(), FRAME_BYTES);
    assert_eq!(FRAME_BYTES, 256 * 240 * 4);
    assert!(ppu.frame_buffer.iter().all(|&b| b == 0));
    assert!(ppu.secondary_oam.iter().all(|&b| b == 0xFF));
    assert_eq!((ppu.scanline, ppu.cycle), (0, 0));
    assert_eq!(ppu.sprite_count, 0);
    assert_eq!(ppu.mirror_mode, MirrorMode::Horizontal);
    assert_eq!(ppu.chr_bank_offsets, [0, 0x400, 0x800, 0xC00, 0x1000, 0x1400, 0x1800, 0x1C00]);
    assert!(ppu.chr_data.is_empty());
}

#[test]
fn reset_clears_registers_and_keeps_memories() {
    let mut ppu = Ppu::new();
    ppu.cpu_write(0x2000, 0xFF);
    ppu.cpu_write(0x2001, 0x1E);
    ppu.ppu_write(0x2005, 0x77);
    ppu.ppu_write(0x3F01, 0x11);
    ppu.oam[3] = 9;
    ppu.sprite_count = 5;
    ppu.scanline = 100;
    ppu.cycle = 200;
    ppu.frame_complete = true;
    ppu.reset();
    assert_eq!((ppu.ctrl, ppu.mask, ppu.status, ppu.oam_addr), (0, 0, 0, 0));
    assert_eq!((ppu.v, ppu.t, ppu.fine_x, ppu.write_latch), (0, 0, 0, false));
    assert_eq!((ppu.scanline, ppu.cycle), (-1, 0));
    assert!(!ppu.frame_complete && !ppu.odd_frame);
    assert_eq!(ppu.sprite_count, 0);
    assert_eq!(ppu.ppu_read(0x2005), 0x77);
    assert_eq!(ppu.ppu_read(0x3F01), 0x11);
    assert_eq!(ppu.oam[3], 9);
}

#[test]
fn palette_mirrors_read_the_same_entries() {
    for x in [0x0u16, 0x4, 0x8, 0xC] {
        let mut ppu = Ppu::new();
        ppu.ppu_write(0x3F00 + x, 0x21 + x as u8);
        assert_eq!(ppu.ppu_read(0x3F10 + x), 0x21 + x as u8);
        assert_eq!(ppu.ppu_read(0x3F10 + x), ppu.ppu_read(0x3F00 + x));
        ppu.ppu_write(0x3F10 + x, 0x05);
        assert_eq!(ppu.ppu_read(0x3F00 + x), 0x05);
        assert_eq!(ppu.ppu_read(0x3F10 + x), ppu.ppu_read(0x3F00 + x));
    }
    // the other entries of the sprite palettes are their own
    let mut ppu = Ppu::new();
    ppu.ppu_write(0x3F01, 0x0A);
    ppu.ppu_write(0x3F11, 0x0B);
    assert_eq!((ppu.ppu_read(0x3F01), ppu.ppu_read(0x3F11)), (0x0A, 0x0B));
    // the palette repeats every 32 bytes
    assert_eq!(ppu.ppu_read(0x3F21), 0x0A);
    assert_eq!(ppu.ppu_read(0x3FF1), 0x0B);
    assert_eq!(ppu.mirror_palette_addr(0x3F10), 0);
    assert_eq!(ppu.mirror_palette_addr(0x3F1C), 0x0C);
    assert_eq!(ppu.mirror_palette_addr(0x3F1D), 0x1D);
}

#[test]
fn palette_mirrors_through_the_data_register() {
    let mut ppu = Ppu::new();
    set_vram_addr(&mut ppu, 0x3F10);
    ppu.cpu_write(0x2007, 0x2A);
    set_vram_addr(&mut ppu, 0x3F00);
    assert_eq!(ppu.cpu_read(0x2007), 0x2A);
    set_vram_addr(&mut ppu, 0x3F10);
    assert_eq!(ppu.cpu_read(0x2007), 0x2A);
}

#[test]
fn status_register_is_read_only() {
    let mut ppu = Ppu::new();
    ppu.cpu_write(0x2000, 0x13);
    ppu.cpu_write(0x2001, 0x1E);
    ppu.cpu_write(0x2005, 0x55);
    ppu.status = 0xE0;
    let before = (
        ppu.ctrl,
        ppu.mask,
        ppu.status,
        ppu.oam_addr,
        ppu.v,
        ppu.t,
        ppu.fine_x,
        ppu.write_latch,
        ppu.data_buffer,
        ppu.nmi_occurred,
    );
    ppu.cpu_write(0x2002, 0xFF);
    ppu.cpu_write(0x200A, 0x00);
    let after = (
        ppu.ctrl,
        ppu.mask,
        ppu.status,
        ppu.oam_addr,
        ppu.v,
        ppu.t,
        ppu.fine_x,
        ppu.write_latch,
        ppu.data_buffer,
        ppu.nmi_occurred,
    );
    assert_eq!(before, after);
    assert!(ppu.oam.iter().all(|&b| b == 0));
    assert!(ppu.palette.iter().all(|&b| b == 0));
}

#[test]
fn reading_status_clears_toggle_and_vblank() {
    let mut ppu = Ppu::new();
    ppu.cpu_write(0x2005, 0x55);
    assert!(ppu.write_latch);
    ppu.status = 0xE0;
    ppu.data_buffer = 0x1F;
    assert_eq!(ppu.cpu_read(0x2002), 0xFF);
    assert_eq!(ppu.status, 0x60);
    assert!(!ppu.write_latch);
    assert_eq!(ppu.cpu_read(0x2002), 0x7F);
    assert_eq!(ppu.status, 0x60);
}

#[test]
fn write_only_registers_read_zero() {
    let mut ppu = Ppu::new();
    ppu.cpu_write(0x2000, 0xAA);
    ppu.cpu_write(0x2001, 0xBB);
    for reg in [0x2000u16, 0x2001, 0x2003, 0x2005, 0x2006] {
        assert_eq!(ppu.cpu_read(reg), 0);
    }
    assert_eq!((ppu.ctrl, ppu.mask), (0xAA, 0xBB));
}

#[test]
fn scroll_and_address_writes_build_t_and_v() {
    let mut ppu = Ppu::new();
    ppu.cpu_write(0x2000, 0x03);
    assert_eq!(ppu.t, 0x0C00);
    ppu.cpu_write(0x2005, 0x7D);
    assert_eq!(ppu.fine_x, 5);
    assert_eq!(ppu.t, 0x0C0F);
    assert!(ppu.write_latch);
    ppu.cpu_write(0x2005, 0x5E);
    assert_eq!(ppu.t, 0x6D6F);
    assert!(!ppu.write_latch);
    assert_eq!(ppu.v, 0);
    ppu.cpu_write(0x2006, 0x3D);
    assert_eq!(ppu.t, 0x3D6F);
    assert_eq!(ppu.v, 0);
    ppu.cpu_write(0x2006, 0xF0);
    assert_eq!(ppu.t, 0x3DF0);
    assert_eq!(ppu.v, 0x3DF0);
    // the first address write keeps only six bits
    ppu.cpu_write(0x2006, 0xFF);
    assert_eq!(ppu.t, 0x3FF0);
}

#[test]
fn data_register_reads_are_buffered_below_the_palette() {
    let mut ppu = Ppu::new();
    ppu.ppu_write(0x2000, 0xAB);
    ppu.ppu_write(0x2001, 0xCD);
    set_vram_addr(&mut ppu, 0x2000);
    assert_eq!(ppu.cpu_read(0x2007), 0x00);
    assert_eq!(ppu.v, 0x2001);
    assert_eq!(ppu.cpu_read(0x2007), 0xAB);
    assert_eq!(ppu.cpu_read(0x2007), 0xCD);
    assert_eq!(ppu.v, 0x2003);
}

#[test]
fn data_register_steps_by_one_or_thirty_two() {
    let mut ppu = Ppu::new();
    set_vram_addr(&mut ppu, 0x2000);
    ppu.cpu_write(0x2007, 1);
    ppu.cpu_write(0x2007, 2);
    assert_eq!(ppu.v, 0x2002);
    assert_eq!((ppu.ppu_read(0x2000), ppu.ppu_read(0x2001)), (1, 2));
    ppu.cpu_write(0x2000, 0x04);
    set_vram_addr(&mut ppu, 0x2000);
    ppu.cpu_write(0x2007, 7);
    ppu.cpu_write(0x2007, 8);
    assert_eq!(ppu.v, 0x2040);
    assert_eq!((ppu.ppu_read(0x2000), ppu.ppu_read(0x2020)), (7, 8));
}

#[test]
fn palette_reads_are_not_buffered() {
    let mut ppu = Ppu::new();
    ppu.ppu_write(0x3F05, 0x17);
    ppu.ppu_write(0x2F05, 0x99);
    set_vram_addr(&mut ppu, 0x3F05);
    assert_eq!(ppu.cpu_read(0x2007), 0x17);
    // the buffer took the nametable byte that lies under the palette
    assert_eq!(ppu.data_buffer, 0x99);
}

#[test]
fn sprite_memory_through_its_registers() {
    let mut ppu = Ppu::new();
    ppu.cpu_write(0x2003, 0xFE);
    ppu.cpu_write(0x2004, 0x11);
    ppu.cpu_write(0x2004, 0x22);
    ppu.cpu_write(0x2004, 0x33);
    assert_eq!((ppu.oam[0xFE], ppu.oam[0xFF], ppu.oam[0x00]), (0x11, 0x22, 0x33));
    assert_eq!(ppu.oam_addr, 0x01);
    ppu.cpu_write(0x2003, 0xFF);
    assert_eq!(ppu.cpu_read(0x2004), 0x22);
    assert_eq!(ppu.oam_addr, 0xFF);
    ppu.write_oam(0x10, 0x77);
    assert_eq!(ppu.oam[0x10], 0x77);
}

#[test]
fn nametable_mirroring() {
    let tables = [0x2000u16, 0x2400, 0x2800, 0x2C00];
    // which tables share memory with the first, in each mode
    let cases = [
        (MirrorMode::Horizontal, [true, true, false, false]),
        (MirrorMode::Vertical, [true, false, true, false]),
        (MirrorMode::SingleScreenLow, [true, true, true, true]),
        (MirrorMode::SingleScreenHigh, [true, true, true, true]),
        (MirrorMode::FourScreen, [true, false, true, false]),
    ];
    for (mode, shared) in cases {
        let mut ppu = Ppu::new();
        ppu.set_mirror_mode(mode);
        ppu.ppu_write(0x2000 + 5, 0x5A);
        for (table, same) in tables.iter().zip(shared) {
            let expected = if same { 0x5A } else { 0 };
            assert_eq!(ppu.ppu_read(table + 5), expected, "{:?} {:04X}", mode, table);
        }
        // the range repeats from 0x3000
        assert_eq!(ppu.ppu_read(0x3005), 0x5A);
    }
}

#[test]
fn nametable_index_values() {
    let mut ppu = Ppu::new();
    ppu.set_mirror_mode(MirrorMode::Horizontal);
    assert_eq!(ppu.mirror_nametable_addr(0x2005), 0x005);
    assert_eq!(ppu.mirror_nametable_addr(0x2405), 0x005);
    assert_eq!(ppu.mirror_nametable_addr(0x2805), 0x405);
    assert_eq!(ppu.mirror_nametable_addr(0x2C05), 0x405);
    ppu.set_mirror_mode(MirrorMode::Vertical);
    assert_eq!(ppu.mirror_nametable_addr(0x2405), 0x405);
    assert_eq!(ppu.mirror_nametable_addr(0x2805), 0x005);
    ppu.set_mirror_mode(MirrorMode::SingleScreenLow);
    assert_eq!(ppu.mirror_nametable_addr(0x2FFF), 0x3FF);
    ppu.set_mirror_mode(MirrorMode::SingleScreenHigh);
    assert_eq!(ppu.mirror_nametable_addr(0x2000), 0x400);
    assert_eq!(ppu.mirror_nametable_addr(0x2FFF), 0x7FF);
    ppu.set_mirror_mode(MirrorMode::FourScreen);
    assert_eq!(ppu.mirror_nametable_addr(0x2FFF), 0x7FF);
    assert_eq!(ppu.mirror_nametable_addr(0x27FF), 0x7FF);
}

#[test]
fn single_screens_are_the_two_halves_of_the_ram() {
    let mut ppu = Ppu::new();
    ppu.set_mirror_mode(MirrorMode::SingleScreenLow);
    ppu.ppu_write(0x2000, 1);
    ppu.set_mirror_mode(MirrorMode::SingleScreenHigh);
    ppu.ppu_write(0x2000, 2);
    assert_eq!((ppu.nametable[0], ppu.nametable[0x400]), (1, 2));
}

#[test]
fn pattern_memory_direct_and_banked() {
    let mut ppu = Ppu::new();
    // nothing connected
    assert_eq!(ppu.ppu_read(0x0000), 0);
    // RAM is addressed directly and can be written
    ppu.set_chr_data(vec![0; 8192], true);
    ppu.ppu_write(0x1234, 0x56);
    assert_eq!(ppu.ppu_read(0x1234), 0x56);
    assert_eq!(ppu.chr_data[0x1234], 0x56);
    // ROM goes through the bank table and cannot be written
    let mut rom = vec![0u8; 16384];
    rom[0x2000 + 0x0123] = 0xAA;
    rom[0x0400 * 3 + 5] = 0xBB;
    ppu.set_chr_data(rom, false);
    assert_eq!(ppu.ppu_read(0x0123), 0);
    ppu.set_chr_bank_offsets([0x2000, 0x0C00, 0, 0, 0, 0, 0, 0]);
    assert_eq!(ppu.ppu_read(0x0123), 0xAA);
    assert_eq!(ppu.ppu_read(0x0405), 0xBB);
    ppu.ppu_write(0x0123, 0x01);
    assert_eq!(ppu.ppu_read(0x0123), 0xAA);
    // offsets wrap around the size of the memory
    ppu.set_chr_bank_offsets([0x6000, 0, 0, 0, 0, 0, 0, 0]);
    assert_eq!(ppu.ppu_read(0x0123), 0xAA);
    // a window marked writable takes writes although the memory is ROM
    ppu.set_chr_bank_offsets([0, 0x0400, 0x0800, 0, 0, 0, 0, 0]);
    ppu.set_chr_writable_mask(0x02);
    ppu.ppu_write(0x0405, 0xCC);
    ppu.ppu_write(0x0805, 0xDD);
    assert_eq!(ppu.ppu_read(0x0405), 0xCC);
    assert_eq!(ppu.ppu_read(0x0805), 0);
}

#[test]
fn addresses_above_the_space_wrap_into_it() {
    let mut ppu = Ppu::new();
    ppu.ppu_write(0x6005, 0x31);
    assert_eq!(ppu.ppu_read(0x2005), 0x31);
    assert_eq!(ppu.ppu_read(0xA005), 0x31);
}

#[test]
fn reverse_bits_values() {
    assert_eq!(reverse_bits(0x00), 0x00);
    assert_eq!(reverse_bits(0x01), 0x80);
    assert_eq!(reverse_bits(0x80), 0x01);
    assert_eq!(reverse_bits(0xD2), 0x4B);
    assert_eq!(reverse_bits(0xF0), 0x0F);
    assert_eq!(reverse_bits(0xFF), 0xFF);
}

#[test]
fn reverse_bits_is_an_involution() {
    for b in 0..=255u8 {
        assert_eq!(reverse_bits(reverse_bits(b)), b);
        assert_eq!(reverse_bits(b), b.reverse_bits());
    }
}

#[test]
fn scroll_counters() {
    let mut ppu = Ppu::new();
    // without rendering the counters stand still
    ppu.v = 0x001F;
    ppu.increment_scroll_x();
    ppu.increment_scroll_y();
    assert_eq!(ppu.v, 0x001F);
    ppu.cpu_write(0x2001, 0x08);
    // coarse X wraps into the neighbouring nametable
    ppu.increment_scroll_x();
    assert_eq!(ppu.v, 0x0400);
    ppu.increment_scroll_x();
    assert_eq!(ppu.v, 0x0401);
    // fine Y counts up to 7, then coarse Y moves on
    ppu.v = 0x6000;
    ppu.increment_scroll_y();
    assert_eq!(ppu.v, 0x7000);
    ppu.increment_scroll_y();
    assert_eq!(ppu.v, 0x0020);
    // row 29 wraps to row 0 of the nametable below
    ppu.v = 0x7000 | (29 << 5);
    ppu.increment_scroll_y();
    assert_eq!(ppu.v, 0x0800);
    // row 31 wraps to row 0 of the same nametable
    ppu.v = 0x7000 | (31 << 5);
    ppu.increment_scroll_y();
    assert_eq!(ppu.v, 0x0000);
    // the transfers copy the horizontal and the vertical bits of t
    ppu.t = 0x7FFF;
    ppu.v = 0;
    ppu.transfer_address_x();
    assert_eq!(ppu.v, 0x041F);
    ppu.v = 0;
    ppu.transfer_address_y();
    assert_eq!(ppu.v, 0x7BE0);
}

#[test]
fn background_shifters_load_and_shift() {
    let mut ppu = Ppu::new();
    ppu.cpu_write(0x2001, 0x08);
    ppu.bg_shifter_pattern_lo = 0x1234;
    ppu.bg_shifter_pattern_hi = 0x5678;
    ppu.bg_next_tile_lsb = 0xAB;
    ppu.bg_next_tile_msb = 0xCD;
    ppu.bg_next_tile_attr = 0x02;
    ppu.load_bg_shifters();
    assert_eq!(ppu.bg_shifter_pattern_lo, 0x12AB);
    assert_eq!(ppu.bg_shifter_pattern_hi, 0x56CD);
    assert_eq!(ppu.bg_shifter_attr_lo, 0x0000);
    assert_eq!(ppu.bg_shifter_attr_hi, 0x00FF);
    ppu.cycle = 300;
    ppu.update_shifters();
    assert_eq!(ppu.bg_shifter_pattern_lo, 0x2556);
    assert_eq!(ppu.bg_shifter_attr_hi, 0x01FE);
}

#[test]
fn sprite_counters_run_down_before_the_shifters_move() {
    let mut ppu = Ppu::new();
    ppu.cpu_write(0x2001, 0x10);
    ppu.sprite_count = 2;
    ppu.secondary_oam[3] = 2;
    ppu.secondary_oam[7] = 0;
    ppu.sprite_shifter_lo = [0x81; 8];
    ppu.sprite_shifter_hi = [0x40; 8];
    ppu.cycle = 10;
    ppu.update_shifters();
    assert_eq!(ppu.secondary_oam[3], 1);
    assert_eq!((ppu.sprite_shifter_lo[0], ppu.sprite_shifter_hi[0]), (0x81, 0x40));
    assert_eq!((ppu.sprite_shifter_lo[1], ppu.sprite_shifter_hi[1]), (0x02, 0x80));
    // sprites that are not selected are left alone
    assert_eq!(ppu.sprite_shifter_lo[2], 0x81);
    // outside the visible dots the sprites stand still
    ppu.cycle = 330;
    ppu.update_shifters();
    assert_eq!(ppu.secondary_oam[3], 1);
    assert_eq!(ppu.sprite_shifter_lo[1], 0x02);
}

#[test]
fn sprite_evaluation_selects_at_most_eight() {
    let mut ppu = Ppu::new();
    for i in 0..64 {
        ppu.oam[i * 4] = 200;
    }
    for i in 0..10 {
        ppu.oam[i * 4] = 10;
        ppu.oam[i * 4 + 1] = i as u8;
        ppu.oam[i * 4 + 2] = 0x20;
        ppu.oam[i * 4 + 3] = (i * 8) as u8;
    }
    ppu.scanline = 12;
    ppu.evaluate_sprites();
    assert_eq!(ppu.sprite_count, 8);
    assert!(ppu.status & 0x20 != 0);
    assert!(ppu.sprite_zero_hit_possible);
    for i in 0..8 {
        assert_eq!(
            &ppu.secondary_oam[i * 4..i * 4 + 4],
            &[10, i as u8, 0x20, (i * 8) as u8]
        );
    }
}

#[test]
fn sprite_evaluation_without_overflow() {
    let mut ppu = Ppu::new();
    for i in 0..64 {
        ppu.oam[i * 4] = 200;
    }
    for i in [3usize, 17, 63] {
        ppu.oam[i * 4] = 50;
        ppu.oam[i * 4 + 1] = i as u8;
    }
    ppu.scanline = 57;
    ppu.evaluate_sprites();
    assert_eq!(ppu.sprite_count, 3);
    assert_eq!(ppu.status & 0x20, 0);
    assert!(!ppu.sprite_zero_hit_possible);
    assert_eq!(
        (ppu.secondary_oam[1], ppu.secondary_oam[5], ppu.secondary_oam[9]),
        (3, 17, 63)
    );
    assert!(ppu.secondary_oam[12..].iter().all(|&b| b == 0xFF));
    // a line below the sprites' eight lines selects none
    ppu.scanline = 58;
    ppu.evaluate_sprites();
    assert_eq!(ppu.sprite_count, 0);
    // tall sprites cover sixteen lines
    ppu.cpu_write(0x2000, 0x20);
    ppu.scanline = 65;
    ppu.evaluate_sprites();
    assert_eq!(ppu.sprite_count, 3);
    ppu.scanline = 66;
    ppu.evaluate_sprites();
    assert_eq!(ppu.sprite_count, 0);
}

#[test]
fn sprite_patterns_are_fetched_with_flips() {
    let mut chr = vec![0u8; 8192];
    // tile 2 in the second pattern table: row r holds r + 1, high plane 0x80
    for r in 0..8 {
        chr[0x1000 + 2 * 16 + r] = r as u8 + 1;
        chr[0x1000 + 2 * 16 + 8 + r] = 0x80;
    }
    let mut ppu = Ppu::new();
    ppu.set_chr_data(chr, true);
    ppu.cpu_write(0x2000, 0x08);
    ppu.sprite_count = 3;
    ppu.scanline = 21;
    // row 1, no flip
    ppu.secondary_oam[0..4].copy_from_slice(&[20, 2, 0x00, 0]);
    // row 1 flipped vertically is row 6
    ppu.secondary_oam[4..8].copy_from_slice(&[20, 2, 0x80, 0]);
    // row 1 flipped horizontally
    ppu.secondary_oam[8..12].copy_from_slice(&[20, 2, 0x40, 0]);
    ppu.load_sprite_patterns();
    assert_eq!((ppu.sprite_shifter_lo[0], ppu.sprite_shifter_hi[0]), (0x02, 0x80));
    assert_eq!((ppu.sprite_shifter_lo[1], ppu.sprite_shifter_hi[1]), (0x07, 0x80));
    assert_eq!((ppu.sprite_shifter_lo[2], ppu.sprite_shifter_hi[2]), (0x40, 0x01));
}

#[test]
fn tall_sprite_patterns_use_the_tile_pair() {
    let mut chr = vec![0u8; 8192];
    // tiles 4 and 5 of the second pattern table
    for r in 0..8 {
        chr[0x1000 + 4 * 16 + r] = 0x10 + r as u8;
        chr[0x1000 + 5 * 16 + r] = 0x20 + r as u8;
    }
    let mut ppu = Ppu::new();
    ppu.set_chr_data(chr, true);
    ppu.cpu_write(0x2000, 0x20);
    ppu.sprite_count = 2;
    ppu.scanline = 30;
    // tile number 5: table from bit 0, pair begins at tile 4; row 10
    ppu.secondary_oam[0..4].copy_from_slice(&[20, 5, 0x00, 0]);
    // the same flipped vertically: row 5
    ppu.secondary_oam[4..8].copy_from_slice(&[20, 5, 0x80, 0]);
    ppu.load_sprite_patterns();
    assert_eq!(ppu.sprite_shifter_lo[0], 0x22);
    assert_eq!(ppu.sprite_shifter_lo[1], 0x15);
}

#[test]
fn vertical_blank_begins_at_line_241_dot_1() {
    let mut ppu = Ppu::new();
    ppu.reset();
    ppu.cpu_write(0x2000, 0x80);
    run_to(&mut ppu, 241, 1);
    assert_eq!(ppu.status & 0x80, 0);
    assert!(!ppu.nmi_occurred);
    ppu.clock();
    assert_eq!(ppu.status & 0x80, 0x80);
    assert!(ppu.nmi_occurred);
    assert!(ppu.check_nmi());
    assert!(!ppu.check_nmi());
    // the flag is cleared on dot 1 of the pre-render line
    run_to(&mut ppu, -1, 1);
    assert_eq!(ppu.status & 0x80, 0x80);
    ppu.clock();
    assert_eq!(ppu.status & 0xE0, 0);
}

#[test]
fn no_nmi_when_it_is_disabled() {
    let mut ppu = Ppu::new();
    ppu.reset();
    run_to(&mut ppu, 241, 2);
    assert_eq!(ppu.status & 0x80, 0x80);
    assert!(!ppu.nmi_occurred);
    // switching NMI on during vertical blank raises it at once
    ppu.cpu_write(0x2000, 0x80);
    assert!(ppu.nmi_occurred);
}

#[test]
fn a_frame_is_262_lines_of_341_dots() {
    let mut ppu = Ppu::new();
    ppu.reset();
    let mut dots = 0u32;
    while !ppu.frame_complete {
        ppu.clock();
        dots += 1;
    }
    assert_eq!(dots, 262 * 341);
    assert_eq!((ppu.scanline, ppu.cycle), (-1, 0));
    assert!(ppu.odd_frame);
}

#[test]
fn odd_frames_skip_a_dot_while_rendering() {
    let mut ppu = Ppu::new();
    ppu.reset();
    ppu.cpu_write(0x2001, 0x08);
    let mut lengths = Vec::new();
    for _ in 0..3 {
        ppu.frame_complete = false;
        let mut dots = 0u32;
        while !ppu.frame_complete {
            ppu.clock();
            dots += 1;
        }
        lengths.push(dots);
    }
    assert_eq!(lengths, vec![89342, 89341, 89342]);
}

#[test]
fn scanline_signal_on_dot_260_while_rendering() {
    let mut ppu = Ppu::new();
    ppu.reset();
    run_to(&mut ppu, 5, 261);
    assert!(!ppu.scanline_irq);
    ppu.cpu_write(0x2001, 0x18);
    run_to(&mut ppu, 6, 260);
    assert!(!ppu.scanline_irq);
    ppu.clock();
    assert!(ppu.scanline_irq);
    assert!(ppu.check_scanline_irq());
    assert!(!ppu.check_scanline_irq());
    // not on the lines of vertical blank
    run_to(&mut ppu, 240, 0);
    ppu.check_scanline_irq();
    run_to(&mut ppu, 260, 340);
    assert!(!ppu.scanline_irq);
}

#[test]
fn no_scanline_signal_on_the_pre_render_line() {
    let mut ppu = Ppu::new();
    ppu.reset();
    ppu.cpu_write(0x2001, 0x18);
    assert_eq!(ppu.scanline, -1);
    run_to(&mut ppu, -1, 260);
    ppu.clock();
    assert_eq!((ppu.scanline, ppu.cycle), (-1, 261));
    assert!(!ppu.scanline_irq);
    run_to(&mut ppu, 0, 260);
    assert!(!ppu.scanline_irq);
    ppu.clock();
    assert!(ppu.scanline_irq);
}

#[test]
fn one_scanline_signal_for_each_visible_line() {
    let mut ppu = Ppu::new();
    ppu.reset();
    ppu.cpu_write(0x2001, 0x18);
    let mut signals = 0;
    for _ in 0..89342 {
        ppu.clock();
        if ppu.check_scanline_irq() {
            signals += 1;
        }
    }
    assert_eq!(signals, 240);
}

#[test]
fn picture_shows_the_universal_background_colour() {
    let mut ppu = Ppu::new();
    ppu.reset();
    ppu.ppu_write(0x3F00, 0x21);
    while !ppu.frame_complete {
        ppu.clock();
    }
    assert_eq!(PALETTE[0x21], (76, 154, 236));
    assert_eq!(&ppu.frame_buffer[0..4], &[76, 154, 236, 255]);
    let last = FRAME_BYTES - 4;
    assert_eq!(&ppu.frame_buffer[last..], &[76, 154, 236, 255]);
    assert!(ppu.frame_buffer.chunks(4).all(|p| p == [76, 154, 236, 255]));
}

#[test]
fn palette_table_values() {
    assert_eq!(PALETTE.len(), 64);
    assert_eq!(PALETTE[0x00], (84, 84, 84));
    assert_eq!(PALETTE[0x0F], (0, 0, 0));
    assert_eq!(PALETTE[0x20], (236, 238, 236));
    assert_eq!(PALETTE[0x3D], (160, 162, 160));
}

#[test]
fn background_is_drawn_from_nametable_and_patterns() {
    let mut chr = vec![0u8; 8192];
    // tile 1: low plane set, so every pixel has pattern value 1
    for r in 0..8 {
        chr[16 + r] = 0xFF;
    }
    let mut ppu = Ppu::new();
    ppu.set_chr_data(chr, true);
    ppu.reset();
    // the second tile of the first row is tile 1, in palette 0
    ppu.ppu_write(0x2001, 1);
    ppu.ppu_write(0x3F00, 0x0F);
    ppu.ppu_write(0x3F01, 0x20);
    ppu.cpu_write(0x2001, 0x0A);
    while !ppu.frame_complete {
        ppu.clock();
    }
    let pixel = |x: usize, y: usize| {
        let o = (y * 256 + x) * 4;
        (ppu.frame_buffer[o], ppu.frame_buffer[o + 1], ppu.frame_buffer[o + 2])
    };
    assert_eq!(pixel(7, 0), (0, 0, 0));
    assert_eq!(pixel(8, 0), (236, 238, 236));
    assert_eq!(pixel(15, 7), (236, 238, 236));
    assert_eq!(pixel(16, 0), (0, 0, 0));
    assert_eq!(pixel(8, 8), (0, 0, 0));
}

#[test]
fn sprite_zero_hit() {
    // every pattern byte set: all tiles are opaque
    let mut ppu = Ppu::new();
    ppu.set_chr_data(vec![0xFF; 8192], true);
    ppu.reset();
    for i in 0..64 {
        ppu.oam[i * 4] = 0xF0;
    }
    // sprite 0 shows on line 30 from x = 20
    ppu.oam[0] = 29;
    ppu.oam[1] = 0;
    ppu.oam[2] = 0;
    ppu.oam[3] = 20;
    ppu.cpu_write(0x2001, 0x1E);
    run_to(&mut ppu, 30, 20);
    assert_eq!(ppu.status & 0x40, 0);
    run_to(&mut ppu, 30, 29);
    assert_eq!(ppu.status & 0x40, 0x40);
    // the flag stays until the pre-render line
    run_to(&mut ppu, 200, 0);
    assert_eq!(ppu.cpu_read(0x2002) & 0x40, 0x40);
    run_to(&mut ppu, -1, 2);
    assert_eq!(ppu.status & 0x40, 0);
}

#[test]
fn no_sprite_zero_hit_over_a_transparent_background() {
    // sprite patterns opaque, background tile 0 transparent
    let mut chr = vec![0u8; 8192];
    for b in chr[0x1000..].iter_mut() {
        *b = 0xFF;
    }
    let mut ppu = Ppu::new();
    ppu.set_chr_data(chr, true);
    ppu.reset();
    for i in 0..64 {
        ppu.oam[i * 4] = 0xF0;
    }
    ppu.oam[0] = 29;
    ppu.oam[3] = 20;
    // sprites take their patterns from the second table
    ppu.cpu_write(0x2000, 0x08);
    ppu.cpu_write(0x2001, 0x1E);
    ppu.ppu_write(0x3F00, 0x0F);
    ppu.ppu_write(0x3F13, 0x20);
    run_to(&mut ppu, 31, 0);
    assert_eq!(ppu.status & 0x40, 0);
    // but the sprite is in the picture
    let o = (30 * 256 + 20) * 4;
    assert_eq!(&ppu.frame_buffer[o..o + 4], &[236, 238, 236, 255]);
    let o = (30 * 256 + 19) * 4;
    assert_eq!(&ppu.frame_buffer[o..o + 4], &[0, 0, 0, 255]);
}
