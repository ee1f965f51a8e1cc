use nes_core::mappers::{
    create_mapper, Mapper, Mapper0, Mapper1, Mapper11, Mapper113, Mapper15, Mapper16, Mapper2,
    Mapper202, Mapper225, Mapper227, Mapper23, Mapper245, Mapper253, Mapper3, Mapper4, Mapper66,
    Mapper7, Mapper71, MapperTrait, MapperWriteResult,
};
use nes_core::ppu::MirrorMode;

/// The mirroring that a write reports, if it reports one.
fn mirror_of(result: Option<MapperWriteResult>) -> Option<MirrorMode> {
    result.and_then(|r| r.mirror_mode)
}

#[test]
fn write_results() {
    let none = MapperWriteResult::none();
    assert!(!none.irq);
    assert_eq!(none.mirror_mode, None);
    let with = MapperWriteResult::with_mirror(MirrorMode::Vertical);
    assert!(!with.irq);
    assert_eq!(with.mirror_mode, Some(MirrorMode::Vertical));
}

#[test]
fn mapper0_maps_program_memory_once_or_twice() {
    let one = Mapper0::new(1, 1);
    assert_eq!(one.cpu_read(0x7FFF), None);
    assert_eq!(one.cpu_read(0x8000), Some(0));
    assert_eq!(one.cpu_read(0xBFFF), Some(0x3FFF));
    assert_eq!(one.cpu_read(0xC000), Some(0));
    assert_eq!(one.cpu_read(0xFFFC), Some(0x3FFC));
    let two = Mapper0::new(2, 1);
    assert_eq!(two.cpu_read(0xC000), Some(0x4000));
    assert_eq!(two.cpu_read(0xFFFF), Some(0x7FFF));
    assert_eq!(one.ppu_read(0x1234), Some(0x1234));
    assert_eq!(one.ppu_read(0x2000), None);
    assert_eq!(one.ppu_write(0x1234), None);
    assert_eq!(Mapper0::new(1, 0).ppu_write(0x1234), Some(0x1234));
    let mut m = Mapper0::new(1, 1);
    assert!(m.cpu_write(0x8000, 0xFF).is_none());
    assert_eq!(m.cpu_read(0x8000), Some(0));
    assert!(!m.check_irq());
    assert_eq!(m.chr_writable_mask(), 0);
}

#[test]
fn mapper1_serial_writes_fill_a_register_on_the_fifth() {
    let mut m = Mapper1::new(8, 2);
    // at power-on the last bank is fixed at 0xC000
    assert_eq!(m.cpu_read(0x8000), Some(0));
    assert_eq!(m.cpu_read(0xC000), Some(7 * 16384));
    // program bank 2, lowest bit first
    for bit in [0u8, 1, 0, 0] {
        assert!(m.cpu_write(0xE000, bit).is_none());
    }
    let result = m.cpu_write(0xE000, 0);
    assert_eq!(mirror_of(result), Some(MirrorMode::SingleScreenLow));
    assert_eq!(m.prg_bank, 2);
    assert_eq!(m.shift_register, 0x10);
    assert_eq!(m.cpu_read(0x8000), Some(2 * 16384));
    assert_eq!(m.cpu_read(0xBFFF), Some(2 * 16384 + 0x3FFF));
    assert_eq!(m.cpu_read(0xC000), Some(7 * 16384));
    assert_eq!(m.cpu_read(0x6000), None);
}

#[test]
fn mapper1_control_register_selects_modes_and_mirroring() {
    let mut m = Mapper1::new(8, 4);
    let mut write5 = |m: &mut Mapper1, addr: u16, value: u8| {
        let mut last = None;
        for i in 0..5 {
            last = m.cpu_write(addr, (value >> i) & 1);
        }
        last
    };
    // control 0x12: vertical mirroring, 32 KiB program mode, 4 KiB pattern mode
    assert_eq!(mirror_of(write5(&mut m, 0x8000, 0x12)), Some(MirrorMode::Vertical));
    assert_eq!(m.control, 0x12);
    write5(&mut m, 0xE000, 0x05);
    assert_eq!(m.cpu_read(0x8000), Some(4 * 16384));
    assert_eq!(m.cpu_read(0xC000), Some(4 * 16384 + 0x4000));
    write5(&mut m, 0xA000, 0x03);
    write5(&mut m, 0xC000, 0x06);
    assert_eq!((m.chr_bank0, m.chr_bank1), (3, 6));
    assert_eq!(m.ppu_read(0x0010), Some(3 * 4096 + 0x10));
    assert_eq!(m.ppu_read(0x1010), Some(6 * 4096 + 0x10));
    // control 0x0B: horizontal mirroring, first bank fixed, 8 KiB pattern mode
    assert_eq!(mirror_of(write5(&mut m, 0x8000, 0x0B)), Some(MirrorMode::Horizontal));
    assert_eq!(m.cpu_read(0x8000), Some(0));
    assert_eq!(m.cpu_read(0xC000), Some(5 * 16384));
    assert_eq!(m.ppu_read(0x1010), Some(2 * 4096 + 0x1010));
    // control 1: one screen, the upper
    assert_eq!(mirror_of(write5(&mut m, 0x8000, 0x01)), Some(MirrorMode::SingleScreenHigh));
    // a write with bit 7 set starts the sequence over and fixes the last bank
    m.cpu_write(0x8000, 1);
    m.cpu_write(0x8000, 1);
    assert!(m.cpu_write(0x8000, 0x80).is_none());
    assert_eq!(m.shift_register, 0x10);
    assert_eq!(m.control, 0x0D);
    // pattern banks wrap around what the cartridge has
    write5(&mut m, 0xA000, 0x1F);
    write5(&mut m, 0x8000, 0x1C);
    assert_eq!(m.ppu_read(0x0000), Some(7 * 4096));
    m.reset();
    assert_eq!((m.control, m.prg_bank, m.chr_bank0, m.shift_register), (0x0C, 0, 0, 0x10));
    assert_eq!(Mapper1::new(2, 0).ppu_write(0x0100), Some(0x0100));
    assert_eq!(Mapper1::new(2, 1).ppu_write(0x0100), None);
}

#[test]
fn mapper2_switches_the_low_bank() {
    let mut m = Mapper2::new(4, 0);
    assert_eq!(m.cpu_read(0x8000), Some(0));
    assert_eq!(m.cpu_read(0xC000), Some(3 * 16384));
    assert!(m.cpu_write(0x9234, 0x02).is_none());
    assert_eq!(m.cpu_read(0x8000), Some(2 * 16384));
    assert_eq!(m.cpu_read(0xBFFF), Some(2 * 16384 + 0x3FFF));
    assert_eq!(m.cpu_read(0xC000), Some(3 * 16384));
    assert_eq!(m.cpu_read(0xFFFF), Some(3 * 16384 + 0x3FFF));
    // writes below 0x8000 have no effect
    m.cpu_write(0x7FFF, 0x01);
    assert_eq!(m.selected_bank, 2);
    // only the low four bits count
    m.cpu_write(0x8000, 0xF3);
    assert_eq!(m.selected_bank, 3);
    assert_eq!(m.ppu_read(0x0FFF), Some(0x0FFF));
    assert_eq!(m.ppu_write(0x0FFF), Some(0x0FFF));
    m.reset();
    assert_eq!(m.selected_bank, 0);
    // without program banks the last bank is bank 0
    assert_eq!(Mapper2::new(0, 0).cpu_read(0xC000), Some(0));
}

#[test]
fn mapper3_switches_the_pattern_bank() {
    let mut m = Mapper3::new(2, 4);
    assert_eq!(m.cpu_read(0xC000), Some(0x4000));
    m.cpu_write(0x8000, 0x07);
    assert_eq!(m.selected_chr_bank, 3);
    assert_eq!(m.ppu_read(0x0000), Some(3 * 8192));
    assert_eq!(m.ppu_read(0x1FFF), Some(3 * 8192 + 0x1FFF));
    assert_eq!(m.ppu_read(0x2000), None);
    assert_eq!(m.ppu_write(0x0000), None);
    m.reset();
    assert_eq!(m.ppu_read(0x0000), Some(0));
}

#[test]
fn mapper4_program_banks() {
    let mut m = Mapper4::new(8, 8);
    m.cpu_write(0x8000, 6);
    m.cpu_write(0x8001, 5);
    m.cpu_write(0x8000, 7);
    m.cpu_write(0x8001, 9);
    assert_eq!(m.cpu_read(0x8000), Some(5 * 8192));
    assert_eq!(m.cpu_read(0xA000), Some(9 * 8192));
    assert_eq!(m.cpu_read(0xC000), Some(14 * 8192));
    assert_eq!(m.cpu_read(0xE000), Some(15 * 8192));
    assert_eq!(m.cpu_read(0xFFFF), Some(15 * 8192 + 0x1FFF));
    // the bank mode exchanges 0x8000 and 0xC000
    m.cpu_write(0x8000, 0x46);
    assert_eq!(m.cpu_read(0x8000), Some(14 * 8192));
    assert_eq!(m.cpu_read(0xC000), Some(5 * 8192));
    assert_eq!(m.get_prg_bank(0xA000), 9);
    assert_eq!(m.cpu_read(0x7FFF), None);
}

#[test]
fn mapper4_pattern_banks() {
    let mut m = Mapper4::new(8, 8);
    for (reg, value) in [(0u8, 5u8), (1, 8), (2, 20), (3, 21), (4, 22), (5, 23)] {
        m.cpu_write(0x8000, reg);
        m.cpu_write(0x8001, value);
    }
    let banks: Vec<u32> = (0..8).map(|w| m.get_chr_bank(w * 0x400)).collect();
    assert_eq!(banks, vec![4, 5, 8, 9, 20, 21, 22, 23]);
    assert_eq!(m.ppu_read(0x0400), Some(5 * 1024));
    assert_eq!(m.ppu_read(0x13FF), Some(20 * 1024 + 0x3FF));
    // inversion exchanges the halves
    m.cpu_write(0x8000, 0x80);
    let banks: Vec<u32> = (0..8).map(|w| m.get_chr_bank(w * 0x400)).collect();
    assert_eq!(banks, vec![20, 21, 22, 23, 4, 5, 8, 9]);
    assert_eq!(m.ppu_write(0x0000), None);
    assert_eq!(Mapper4::new(8, 0).ppu_write(0x0123), Some(0x0123));
}

#[test]
fn mapper4_mirroring_and_scanline_interrupt() {
    let mut m = Mapper4::new(8, 8);
    assert_eq!(mirror_of(m.cpu_write(0xA000, 1)), Some(MirrorMode::Horizontal));
    assert_eq!(mirror_of(m.cpu_write(0xA000, 0)), Some(MirrorMode::Vertical));
    assert!(m.cpu_write(0xA001, 1).is_none());
    m.cpu_write(0xC000, 3);
    m.cpu_write(0xC001, 0);
    m.cpu_write(0xE001, 0);
    // the first scanline reloads the counter, the fourth brings it to zero
    for _ in 0..3 {
        m.scanline();
        assert!(!m.check_irq());
    }
    assert_eq!(m.irq_counter, 1);
    m.scanline();
    assert!(m.check_irq());
    assert!(!m.check_irq());
    // at zero the counter reloads
    m.scanline();
    assert_eq!(m.irq_counter, 3);
    // disabled, it raises nothing, and what was raised is withdrawn
    for _ in 0..3 {
        m.scanline();
    }
    assert!(m.irq_pending);
    m.cpu_write(0xE000, 0);
    assert!(!m.irq_pending);
    for _ in 0..8 {
        m.scanline();
    }
    assert!(!m.check_irq());
    m.reset();
    assert_eq!((m.irq_latch, m.irq_counter, m.bank_select), (0, 0, 0));
}

#[test]
fn mapper7_switches_32k_and_the_single_screen() {
    let mut m = Mapper7::new(8, 0);
    assert_eq!(mirror_of(m.cpu_write(0x8000, 0x13)), Some(MirrorMode::SingleScreenHigh));
    assert_eq!(m.cpu_read(0x8000), Some(3 * 32768));
    assert_eq!(m.cpu_read(0xFFFF), Some(3 * 32768 + 0x7FFF));
    assert_eq!(mirror_of(m.cpu_write(0xFFFF, 0x01)), Some(MirrorMode::SingleScreenLow));
    assert_eq!(m.cpu_read(0x8000), Some(32768));
    assert!(m.cpu_write(0x4020, 0x13).is_none());
    assert_eq!(m.ppu_write(0x1000), Some(0x1000));
}

#[test]
fn mapper11_and_66_split_one_register() {
    let mut m = Mapper11::new(4, 4);
    m.cpu_write(0x8000, 0x21);
    assert_eq!((m.prg_bank, m.chr_bank), (1, 2));
    assert_eq!(m.cpu_read(0x8000), Some(32768));
    assert_eq!(m.ppu_read(0x0100), Some(2 * 8192 + 0x100));
    // banks wrap around the bank counts
    m.cpu_write(0x8000, 0x73);
    assert_eq!(m.cpu_read(0x8000), Some(3 * 32768));
    assert_eq!(m.ppu_read(0x0000), Some(3 * 8192));
    assert_eq!(m.ppu_write(0x0000), None);
    let mut m = Mapper66::new(4, 4);
    m.cpu_write(0x8000, 0x21);
    assert_eq!((m.prg_bank, m.chr_bank), (2, 1));
    assert_eq!(m.cpu_read(0x8000), Some(2 * 32768));
    assert_eq!(m.ppu_read(0x0100), Some(8192 + 0x100));
    m.cpu_write(0x7FFF, 0x33);
    assert_eq!((m.prg_bank, m.chr_bank), (2, 1));
    m.reset();
    assert_eq!((m.prg_bank, m.chr_bank), (0, 0));
}

#[test]
fn mapper15_layouts() {
    let mut m = Mapper15::new(16, 0);
    let windows = |m: &Mapper15| -> Vec<u32> {
        [0x8000u16, 0xA000, 0xC000, 0xE000]
            .iter()
            .map(|&a| m.cpu_read(a).unwrap() / 8192)
            .collect()
    };
    assert_eq!(mirror_of(m.cpu_write(0x8000, 0x03)), Some(MirrorMode::Vertical));
    assert_eq!(windows(&m), vec![6, 7, 8, 9]);
    assert_eq!(mirror_of(m.cpu_write(0x8001, 0x43)), Some(MirrorMode::Horizontal));
    assert_eq!(windows(&m), vec![6, 7, 14, 15]);
    m.cpu_write(0x8002, 0x83);
    assert_eq!(windows(&m), vec![7, 7, 7, 7]);
    m.cpu_write(0x8002, 0x03);
    assert_eq!(windows(&m), vec![6, 6, 6, 6]);
    m.cpu_write(0x8003, 0x03);
    assert_eq!(windows(&m), vec![6, 7, 6, 7]);
    assert_eq!(m.cpu_read(0x9234), Some(6 * 8192 + 0x1234));
    // banks wrap around the 32 banks of 8 KiB
    m.cpu_write(0x8000, 0x1F);
    assert_eq!(windows(&m), vec![30, 31, 0, 1]);
    m.reset();
    assert_eq!(windows(&m), vec![0, 1, 2, 3]);
}

#[test]
fn mapper16_banks_and_cycle_counter() {
    let mut m = Mapper16::new(8, 4);
    m.cpu_write(0x6000, 5);
    m.cpu_write(0x8003, 33);
    m.cpu_write(0x6008, 0x12);
    assert_eq!(m.ppu_read(0x0000), Some(5 * 1024));
    assert_eq!(m.ppu_read(0x0C10), Some(1024 + 0x10));
    assert_eq!(m.cpu_read(0x8000), Some(2 * 16384));
    assert_eq!(m.cpu_read(0xC000), Some(7 * 16384));
    assert_eq!(mirror_of(m.cpu_write(0x6009, 1)), Some(MirrorMode::Horizontal));
    assert_eq!(mirror_of(m.cpu_write(0x6009, 2)), Some(MirrorMode::SingleScreenLow));
    assert!(m.cpu_write(0x5FF9, 1).is_none());
    assert_eq!(m.mirror_mode, MirrorMode::SingleScreenLow);
    m.cpu_write(0x600B, 0x03);
    m.cpu_write(0x600C, 0x01);
    assert_eq!(m.irq_latch, 0x0103);
    m.cpu_write(0x600C, 0x00);
    m.cpu_write(0x600A, 0x01);
    assert_eq!(m.irq_counter, 3);
    for _ in 0..3 {
        m.cpu_clock();
        assert!(!m.check_irq());
    }
    m.cpu_clock();
    assert_eq!(m.irq_counter, -1);
    assert!(m.check_irq());
    assert!(!m.check_irq());
    // stopped, the counter stands still
    m.cpu_write(0x600A, 0x00);
    m.cpu_clock();
    assert_eq!(m.irq_counter, 3);
    assert!(!m.check_irq());
    // it does not count below the least value
    m.irq_enabled = true;
    m.irq_counter = i32::MIN;
    m.cpu_clock();
    assert_eq!(m.irq_counter, i32::MIN);
    assert!(m.check_irq());
}

#[test]
fn mapper23_banks() {
    let mut m = Mapper23::new(8, 4);
    m.cpu_write(0x8000, 0x23);
    m.cpu_write(0xA002, 0x05);
    assert_eq!((m.prg_bank0, m.prg_bank1), (3, 5));
    assert_eq!(m.cpu_read(0x8000), Some(3 * 8192));
    assert_eq!(m.cpu_read(0xA000), Some(5 * 8192));
    assert_eq!(m.cpu_read(0xC000), Some(14 * 8192));
    assert_eq!(m.cpu_read(0xE000), Some(15 * 8192));
    assert!(m.cpu_write(0x9002, 0x02).is_none());
    assert_eq!(m.prg_swap_mode, 1);
    assert_eq!(m.cpu_read(0x8000), Some(14 * 8192));
    assert_eq!(m.cpu_read(0xC000), Some(3 * 8192));
    assert_eq!(mirror_of(m.cpu_write(0x9000, 3)), Some(MirrorMode::SingleScreenHigh));
    assert_eq!(mirror_of(m.cpu_write(0x9001, 0)), Some(MirrorMode::Vertical));
    // pattern registers are written a nibble at a time
    m.cpu_write(0xB000, 0x05);
    m.cpu_write(0xB001, 0x01);
    m.cpu_write(0xB002, 0x0F);
    m.cpu_write(0xE003, 0x01);
    m.cpu_write(0xE002, 0x02);
    assert_eq!(m.chr_bank_regs, [0x15, 0x0F, 0, 0, 0, 0, 0, 0x12]);
    assert_eq!(m.ppu_read(0x0000), Some(0x15 * 1024));
    assert_eq!(m.ppu_read(0x0400), Some(0x0F * 1024));
    assert_eq!(m.ppu_read(0x1C01), Some(0x12 * 1024 + 1));
    // other address bits are not decoded
    m.cpu_write(0xB0FC, 0x07);
    assert_eq!(m.chr_bank_regs[0], 0x17);
    m.cpu_write(0x7001, 0xFF);
    assert_eq!(m.chr_bank_regs[0], 0x17);
    assert_eq!(m.ppu_write(0x0000), None);
}

#[test]
fn mapper23_interrupt_counter() {
    let mut m = Mapper23::new(8, 4);
    m.cpu_write(0xF000, 0x0E);
    m.cpu_write(0xF001, 0x0F);
    assert_eq!(m.irq_latch, 0xFE);
    m.cpu_write(0xF002, 0x02);
    assert!(m.irq_enabled);
    assert_eq!((m.irq_counter, m.irq_prescaler), (0xFE, 341));
    // the prescaler takes 114 CPU cycles, in steps of 3, to run out
    for _ in 0..113 {
        m.cpu_clock();
    }
    assert_eq!((m.irq_counter, m.irq_prescaler), (0xFE, 2));
    m.cpu_clock();
    assert_eq!((m.irq_counter, m.irq_prescaler), (0xFF, 340));
    assert!(!m.check_irq());
    for _ in 0..114 {
        m.cpu_clock();
    }
    assert_eq!((m.irq_counter, m.irq_prescaler), (0xFE, 339));
    assert!(m.check_irq());
    assert!(!m.check_irq());
    // the acknowledge takes the enable from bit 0 of the control
    m.cpu_write(0xF003, 0);
    assert!(!m.irq_enabled);
    m.cpu_clock();
    assert_eq!(m.irq_prescaler, 339);
    m.cpu_write(0xF002, 0x01);
    assert!(!m.irq_enabled);
    m.cpu_write(0xF003, 0);
    assert!(m.irq_enabled);
    // the counter runs on CPU cycles: a scanline does not move it
    let before = (m.irq_counter, m.irq_prescaler);
    m.scanline();
    assert_eq!((m.irq_counter, m.irq_prescaler), before);
    m.cpu_clock();
    assert_eq!(m.irq_prescaler, before.1 - 3);
}

#[test]
fn mapper71_bank_and_single_screen() {
    let mut m = Mapper71::new(8, 0);
    assert!(m.cpu_write(0xC000, 0x15).is_none());
    assert_eq!(m.cpu_read(0x8000), Some(5 * 16384));
    assert_eq!(m.cpu_read(0xC000), Some(7 * 16384));
    assert_eq!(mirror_of(m.cpu_write(0x9000, 0x10)), Some(MirrorMode::SingleScreenHigh));
    assert_eq!(mirror_of(m.cpu_write(0x9FFF, 0x00)), Some(MirrorMode::SingleScreenLow));
    // writes from 0x8000 to 0x8FFF and from 0xA000 to 0xBFFF do nothing
    assert!(m.cpu_write(0x8000, 0x03).is_none());
    assert!(m.cpu_write(0xA000, 0x03).is_none());
    assert_eq!(m.selected_bank, 5);
}

#[test]
fn mapper113_register_lies_below_the_cartridge_range() {
    let mut m = Mapper113::new(8, 16);
    assert_eq!(mirror_of(m.cpu_write(0x4100, 0xCA)), Some(MirrorMode::Vertical));
    assert_eq!((m.prg_bank, m.chr_bank), (1, 10));
    assert_eq!(m.cpu_read(0x8000), Some(32768));
    assert_eq!(m.ppu_read(0x0000), Some(10 * 8192));
    assert_eq!(mirror_of(m.cpu_write(0x5FFF, 0x07)), Some(MirrorMode::Horizontal));
    assert_eq!((m.prg_bank, m.chr_bank), (0, 7));
    assert!(m.cpu_write(0x40FF, 0xFF).is_none());
    assert!(m.cpu_write(0x6000, 0xFF).is_none());
    assert!(m.cpu_write(0x8000, 0xFF).is_none());
    assert_eq!((m.prg_bank, m.chr_bank), (0, 7));
}

#[test]
fn mapper202_takes_everything_from_the_address() {
    let mut m = Mapper202::new(8, 8);
    assert_eq!(mirror_of(m.cpu_write(0x8006, 0xFF)), Some(MirrorMode::Vertical));
    assert_eq!((m.prg_bank, m.chr_bank, m.prg_mode), (3, 3, 0));
    assert_eq!(m.cpu_read(0x8000), Some(3 * 16384));
    assert_eq!(m.cpu_read(0xC000), Some(3 * 16384));
    assert_eq!(m.ppu_read(0x0010), Some(3 * 8192 + 0x10));
    assert_eq!(mirror_of(m.cpu_write(0x8005, 0x00)), Some(MirrorMode::Horizontal));
    assert_eq!((m.prg_bank, m.prg_mode), (2, 1));
    assert_eq!(m.cpu_read(0x8000), Some(32768));
    assert_eq!(m.cpu_read(0xC000), Some(32768 + 0x4000));
    m.cpu_write(0x800F, 0x00);
    assert_eq!((m.prg_bank, m.prg_mode), (7, 0));
    // offsets wrap around the program memory
    let mut small = Mapper202::new(2, 0);
    small.cpu_write(0x8006, 0);
    assert_eq!(small.cpu_read(0x8000), Some(16384));
    assert_eq!(small.ppu_read(0x0100), Some(0x0100));
    assert_eq!(small.ppu_write(0x0100), Some(0x0100));
    assert_eq!(Mapper202::new(0, 0).cpu_read(0x8000), Some(0));
}

#[test]
fn mapper225_takes_everything_from_the_address() {
    let mut m = Mapper225::new(128, 128);
    assert_eq!(mirror_of(m.cpu_write(0x8143, 0)), Some(MirrorMode::Horizontal));
    assert_eq!((m.prg_bank, m.chr_bank, m.prg_mode), (5, 3, 0));
    assert_eq!(m.cpu_read(0x8000), Some(2 * 32768));
    assert_eq!(m.cpu_read(0xC000), Some(2 * 32768 + 0x4000));
    assert_eq!(m.ppu_read(0x0001), Some(3 * 8192 + 1));
    m.cpu_write(0x9143, 0);
    assert_eq!(m.prg_mode, 1);
    assert_eq!(m.cpu_read(0x8000), Some(5 * 16384));
    assert_eq!(m.cpu_read(0xC000), Some(5 * 16384));
    assert_eq!(mirror_of(m.cpu_write(0xF143, 0)), Some(MirrorMode::Vertical));
    assert_eq!((m.prg_bank, m.chr_bank, m.prg_mode), (69, 67, 1));
    assert_eq!(m.cpu_read(0x8000), Some(69 * 16384));
    assert_eq!(m.ppu_read(0x0000), Some(67 * 8192));
    assert!(m.cpu_write(0x7FFF, 0).is_none());
    assert_eq!(m.prg_bank, 69);
}

#[test]
fn mapper227_modes() {
    let mut m = Mapper227::new(64, 0);
    // inner bank 5, outer bank 1, O = 0, L = 0: switchable low, first of the outer bank high
    assert_eq!(mirror_of(m.cpu_write(0x8000 | (5 << 2) | (1 << 5), 0)), Some(MirrorMode::Vertical));
    assert_eq!((m.inner_bank, m.outer_bank), (5, 1));
    assert!(!m.s_bit && !m.o_bit && !m.l_bit);
    assert_eq!(m.cpu_read(0x8000), Some(13 * 16384));
    assert_eq!(m.cpu_read(0xC000), Some(8 * 16384));
    // L = 1: the last of the outer bank high
    m.cpu_write(0x8000 | (5 << 2) | (1 << 5) | (1 << 9), 0);
    assert_eq!(m.cpu_read(0xC000), Some(15 * 16384));
    // O = 1, S = 0: the bank in both halves
    m.cpu_write(0x8000 | (5 << 2) | (1 << 5) | (1 << 7), 0);
    assert_eq!(m.cpu_read(0x8000), Some(13 * 16384));
    assert_eq!(m.cpu_read(0xC000), Some(13 * 16384));
    // O = 1, S = 1: 32 KiB
    assert_eq!(
        mirror_of(m.cpu_write(0x8000 | (5 << 2) | (1 << 5) | (1 << 7) | 3, 0)),
        Some(MirrorMode::Horizontal)
    );
    assert_eq!(m.cpu_read(0x8000), Some(6 * 32768));
    assert_eq!(m.cpu_read(0xC000), Some(6 * 32768 + 0x4000));
    // the outer bank has a third bit at address bit 8
    m.cpu_write(0x8000 | (1 << 8) | (3 << 5), 0);
    assert_eq!(m.outer_bank, 7);
    m.reset();
    assert_eq!((m.inner_bank, m.outer_bank, m.mirror_mode), (0, 0, MirrorMode::Vertical));
}

#[test]
fn mapper245_banks() {
    let mut m = Mapper245::new(32, 0);
    m.cpu_write(0x8000, 6);
    m.cpu_write(0x8001, 5);
    m.cpu_write(0x8000, 7);
    m.cpu_write(0x8001, 9);
    assert_eq!(m.cpu_read(0x8000), Some(5 * 8192));
    assert_eq!(m.cpu_read(0xA000), Some(9 * 8192));
    assert_eq!(m.cpu_read(0xC000), Some(62 * 8192));
    assert_eq!(m.cpu_read(0xE000), Some(63 * 8192));
    // bit 1 of the first register puts 0x40 on top of the program banks:
    // those wrap around the 64 banks there are
    m.cpu_write(0x8000, 0);
    m.cpu_write(0x8001, 0x02);
    assert_eq!(m.prg_high_bit, 0x40);
    assert_eq!(m.cpu_read(0x8000), Some(5 * 8192));
    let mut big = Mapper245::new(64, 0);
    big.cpu_write(0x8000, 0);
    big.cpu_write(0x8001, 0x02);
    big.cpu_write(0x8000, 6);
    big.cpu_write(0x8001, 5);
    assert_eq!(big.cpu_read(0x8000), Some(0x45 * 8192));
    // bit 6 of the select exchanges 0x8000 and 0xC000
    big.cpu_write(0x8000, 0x46);
    assert_eq!(big.cpu_read(0x8000), Some(126 * 8192));
    assert_eq!(big.cpu_read(0xC000), Some(0x45 * 8192));
    assert_eq!(mirror_of(big.cpu_write(0xA000, 1)), Some(MirrorMode::Horizontal));
    assert_eq!(big.ppu_read(0x1FFF), Some(0x1FFF));
    assert_eq!(big.ppu_write(0x1FFF), Some(0x1FFF));
    // the scanline counter is that of mapper 4
    big.cpu_write(0xC000, 1);
    big.cpu_write(0xC001, 0);
    big.cpu_write(0xE001, 0);
    big.scanline();
    assert!(!big.check_irq());
    big.scanline();
    assert!(big.check_irq());
}

#[test]
fn mapper253_program_banks_and_rom_windows() {
    let mut m = Mapper253::new(8, 4);
    assert_eq!(m.chr_rom_size, 4 * 8192);
    m.cpu_write(0x8000, 0x13);
    m.cpu_write(0xA000, 0x05);
    assert_eq!(m.cpu_read(0x8000), Some(3 * 8192));
    assert_eq!(m.cpu_read(0xA000), Some(5 * 8192));
    assert_eq!(m.cpu_read(0xC000), Some(14 * 8192));
    assert_eq!(m.cpu_read(0xE000), Some(15 * 8192));
    assert_eq!(mirror_of(m.cpu_write(0x9000, 1)), Some(MirrorMode::Horizontal));
    // 0xB000 is register 0, 0xB008 register 1, 0xC000 register 2, ...
    m.cpu_write(0xB000, 0x07);
    m.cpu_write(0xB004, 0x01);
    m.cpu_write(0xB008, 0x09);
    m.cpu_write(0xC000, 0x0A);
    m.cpu_write(0xE008, 0x0B);
    assert_eq!(m.chr_lo, [0x17, 0x09, 0x0A, 0, 0, 0, 0, 0x0B]);
    assert_eq!(m.ppu_read(0x0000), Some(0x17 * 1024));
    assert_eq!(m.ppu_read(0x0410), Some(0x09 * 1024 + 0x10));
    assert_eq!(m.ppu_read(0x1C00), Some(0x0B * 1024));
    assert_eq!(m.ppu_write(0x0000), None);
    assert_eq!(m.chr_writable_mask(), 0);
    // the high nibble write also stores the high bits
    m.cpu_write(0xB004, 0x31);
    assert_eq!((m.chr_lo[0], m.chr_hi[0]), (0x17, 0x03));
    assert_eq!(m.ppu_read(0x0000), Some(((0x317 % 32) as u32) * 1024));
}

#[test]
fn mapper253_ram_windows() {
    let mut m = Mapper253::new(8, 4);
    // registers 2 and 5 hold 4 and 5: those windows show RAM
    m.cpu_write(0xC000, 0x04);
    m.cpu_write(0xD008, 0x05);
    assert_eq!(m.get_chr_offset(2), (4 * 8192 + 2 * 1024, true));
    assert_eq!(m.get_chr_offset(5), (4 * 8192 + 4096 + 1024, true));
    assert_eq!(m.get_chr_offset(0), (0, false));
    assert_eq!(m.chr_writable_mask(), 0b0010_0100);
    assert_eq!(m.ppu_read(0x0801), Some(4 * 8192 + 2 * 1024 + 1));
    assert_eq!(m.ppu_write(0x0801), Some(4 * 8192 + 2 * 1024 + 1));
    assert_eq!(m.ppu_write(0x0001), None);
    // 0x88 in the first register locks the RAM windows, 0xC8 unlocks them
    m.cpu_write(0xB000, 0x08);
    m.cpu_write(0xB004, 0x08);
    assert_eq!(m.chr_lo[0], 0x88);
    assert!(m.vlock);
    assert_eq!(m.chr_writable_mask(), 0);
    assert_eq!(m.ppu_read(0x0801), Some(4 * 1024 + 1));
    m.cpu_write(0xB004, 0x0C);
    assert_eq!(m.chr_lo[0], 0xC8);
    assert!(!m.vlock);
    assert_eq!(m.chr_writable_mask(), 0b0010_0100);
    // without pattern ROM everything is RAM
    let ram = Mapper253::new(8, 0);
    assert_eq!(ram.chr_writable_mask(), 0xFF);
    assert_eq!(ram.ppu_read(0x1234), Some(0x1234));
    assert_eq!(ram.ppu_write(0x1234), Some(0x1234));
}

#[test]
fn mapper253_interrupt_registers() {
    let mut m = Mapper253::new(8, 4);
    m.cpu_write(0xF000, 0x0D);
    m.cpu_write(0xF004, 0x0F);
    assert_eq!(m.irq_latch, 0xFD);
    m.cpu_write(0xF008, 0x03);
    assert!(m.irq_enabled);
    assert_eq!((m.irq_counter, m.irq_prescaler), (0xFD, 341));
    for _ in 0..114 * 3 {
        m.cpu_clock();
    }
    assert_eq!(m.irq_counter, 0xFD);
    assert!(m.check_irq());
    m.cpu_write(0xF00C, 0);
    assert!(m.irq_enabled);
    m.cpu_write(0xF008, 0x00);
    assert!(!m.irq_enabled);
    // the counter runs on CPU cycles: a scanline does not move it
    m.cpu_write(0xF008, 0x02);
    assert_eq!((m.irq_counter, m.irq_prescaler), (0xFD, 341));
    m.scanline();
    assert_eq!((m.irq_counter, m.irq_prescaler), (0xFD, 341));
    m.cpu_clock();
    assert_eq!((m.irq_counter, m.irq_prescaler), (0xFD, 338));
}

#[test]
fn create_mapper_chooses_by_number() {
    assert!(matches!(create_mapper(0, 1, 1), Mapper::M0(_)));
    assert!(matches!(create_mapper(1, 1, 1), Mapper::M1(_)));
    assert!(matches!(create_mapper(2, 1, 1), Mapper::M2(_)));
    assert!(matches!(create_mapper(3, 1, 1), Mapper::M3(_)));
    assert!(matches!(create_mapper(4, 1, 1), Mapper::M4(_)));
    assert!(matches!(create_mapper(7, 1, 1), Mapper::M7(_)));
    assert!(matches!(create_mapper(11, 1, 1), Mapper::M11(_)));
    assert!(matches!(create_mapper(15, 1, 1), Mapper::M15(_)));
    assert!(matches!(create_mapper(16, 1, 1), Mapper::M16(_)));
    assert!(matches!(create_mapper(23, 1, 1), Mapper::M23(_)));
    assert!(matches!(create_mapper(66, 1, 1), Mapper::M66(_)));
    assert!(matches!(create_mapper(71, 1, 1), Mapper::M71(_)));
    assert!(matches!(create_mapper(113, 1, 1), Mapper::M113(_)));
    assert!(matches!(create_mapper(202, 1, 1), Mapper::M202(_)));
    assert!(matches!(create_mapper(225, 1, 1), Mapper::M225(_)));
    assert!(matches!(create_mapper(227, 1, 1), Mapper::M227(_)));
    assert!(matches!(create_mapper(245, 1, 1), Mapper::M245(_)));
    assert!(matches!(create_mapper(253, 1, 1), Mapper::M253(_)));
}

#[test]
fn unknown_mappers_fall_back_to_mapper0() {
    for id in [5u8, 9, 10, 64, 99, 255] {
        let mut m = create_mapper(id, 2, 1);
        assert!(matches!(m, Mapper::M0(_)));
        assert_eq!(m.cpu_read(0xC000), Some(0x4000));
        assert!(m.cpu_write(0x8000, 1).is_none());
        assert_eq!(m.cpu_read(0xC000), Some(0x4000));
    }
}

#[test]
fn the_chosen_mapper_answers_through_the_sum_type() {
    let mut m = create_mapper(2, 4, 0);
    m.cpu_write(0x8000, 2);
    assert_eq!(m.cpu_read(0x8000), Some(2 * 16384));
    assert_eq!(m.cpu_read(0xC000), Some(3 * 16384));
    assert_eq!(m.ppu_read(0x0100), Some(0x0100));
    assert_eq!(m.ppu_write(0x0100), Some(0x0100));
    assert_eq!(m.chr_writable_mask(), 0);
    m.scanline();
    m.cpu_clock();
    assert!(!m.check_irq());
    m.reset();
    assert_eq!(m.cpu_read(0x8000), Some(0));
    let mut m = create_mapper(4, 8, 8);
    m.cpu_write(0xC000, 0);
    m.cpu_write(0xE001, 0);
    m.scanline();
    assert!(m.check_irq());
    assert!(!m.check_irq());
    let mut m = create_mapper(16, 8, 8);
    m.cpu_write(0x600A, 1);
    m.cpu_clock();
    assert!(m.check_irq());
    assert_eq!(create_mapper(253, 8, 0).chr_writable_mask(), 0xFF);
}
