//! Mapper 23 and its variant 253: nibble-wise bank registers and a cycle
//! counter with a prescaler.

use vstd::prelude::*;
use crate::ppu::MirrorMode;
use crate::mappers::{
    MapperTrait, MapperWriteResult, at_least_one, from_end, mirror_from_bits, set_register,
    units, window, write_nibble, zero_registers,
};

verus! {

/// Mapper 23: two switchable 8 KiB program banks, eight 1 KiB pattern banks
/// whose registers are written a nibble at a time, and a cycle counter
/// with a prescaler that interrupts.
#[derive(Debug, Clone, Copy)]
pub struct Mapper23 {
    /// Number of 16 KiB program banks.
    pub prg_banks: u8,
    /// Number of 8 KiB pattern banks; 0 means pattern RAM.
    pub chr_banks: u8,
    pub prg_bank0: u8,
    pub prg_bank1: u8,
    /// The pattern bank of each 1 KiB window.
    pub chr_bank_regs: [u8; 8],
    /// Not 0: the first program bank is at `0xC000` instead of `0x8000`.
    pub prg_swap_mode: u8,
    pub mirror_mode: MirrorMode,
    /// The value the counter is reloaded with.
    pub irq_latch: u8,
    /// Bit 1 enables counting; bit 0 is what an acknowledge sets the enable to.
    pub irq_control: u8,
    /// Counts up; the interrupt is asserted when it passes 255.
    pub irq_counter: u8,
    /// Divides the clock by 341 in steps of 3; 0 to 341.
    pub irq_prescaler: i16,
    pub irq_enabled: bool,
    pub irq_pending: bool,
}

impl Mapper23 {
    /// The registers at power-on.
    pub open spec fn spec_new(prg_banks: u8, chr_banks: u8) -> Mapper23 {
        Mapper23 {
            prg_banks,
            chr_banks,
            prg_bank0: 0,
            prg_bank1: 0,
            chr_bank_regs: zero_registers(),
            prg_swap_mode: 0,
            mirror_mode: MirrorMode::Vertical,
            irq_latch: 0,
            irq_control: 0,
            irq_counter: 0,
            irq_prescaler: 0,
            irq_enabled: false,
            irq_pending: false,
        }
    }

    /// The mapper at power-on, for a cartridge with this many 16 KiB
    /// program banks and 8 KiB pattern banks.
    pub fn new(prg_banks: u8, chr_banks: u8) -> (m: Mapper23)
        ensures
            m == Mapper23::spec_new(prg_banks, chr_banks),
            m.wf(),
    {
        Mapper23 {
            prg_banks,
            chr_banks,
            prg_bank0: 0,
            prg_bank1: 0,
            chr_bank_regs: zero_registers(),
            prg_swap_mode: 0,
            mirror_mode: MirrorMode::Vertical,
            irq_latch: 0,
            irq_control: 0,
            irq_counter: 0,
            irq_prescaler: 0,
            irq_enabled: false,
            irq_pending: false,
        }
    }

    /// The 8 KiB program bank at a CPU address from `0x8000`: the first
    /// register and the second-last bank share `0x8000` and `0xC000`,
    /// exchanged by the swap mode; the second register is at `0xA000`; the
    /// last bank is at `0xE000`.
    pub open spec fn spec_prg_bank(self, addr: u16) -> u32 {
        let place = (addr / 0x2000) % 4;
        let total: u32 = units(self.prg_banks, 2);
        if place == 3 {
            from_end(total, 1)
        } else if place == 1 {
            self.prg_bank1 as u32 % at_least_one(total)
        } else if (self.prg_swap_mode != 0) == (place == 0) {
            from_end(total, 2) % at_least_one(total)
        } else {
            self.prg_bank0 as u32 % at_least_one(total)
        }
    }

    fn prg_bank(&self, addr: u16) -> (bank: u32)
        ensures
            bank == self.spec_prg_bank(addr),
            bank <= 0xFFFF,
    {
        let place = (addr / 0x2000) % 4;
        let total: u32 = units(self.prg_banks, 2);
        if place == 3 {
            from_end(total, 1)
        } else if place == 1 {
            self.prg_bank1 as u32 % at_least_one(total)
        } else if (self.prg_swap_mode != 0) == (place == 0) {
            from_end(total, 2) % at_least_one(total)
        } else {
            self.prg_bank0 as u32 % at_least_one(total)
        }
    }

    /// Whether a write by the CPU to `addr` reaches a register of the mapper.
    pub open spec fn takes_writes(addr: u16) -> bool {
        addr >= 0x8000
    }

    /// A write to an address that reaches no register changes nothing and
    /// reports nothing.
    pub proof fn lemma_other_writes_do_nothing(self, addr: u16, data: u8)
        requires
            !Mapper23::takes_writes(addr),
        ensures
            self.spec_cpu_write(addr, data) == self,
            self.spec_write_result(addr, data) is None,
    {
    }

    /// An interrupt that the mapper asserts stays asserted until it is
    /// taken notice of; neither a scanline nor a CPU cycle withdraws it.
    pub proof fn lemma_irq_stays_until_polled(self)
        requires
            self.spec_irq(),
        ensures
            self.spec_scanline().spec_irq(),
            self.spec_cpu_clock().spec_irq(),
            !self.spec_check_irq().spec_irq(),
    {
    }
}

impl MapperTrait for Mapper23 {
    open spec fn wf(&self) -> bool {
        0 <= self.irq_prescaler <= 341
    }

    proof fn lemma_wf_kept(&self, addr: u16, data: u8) {
    }

    open spec fn spec_cpu_read(&self, addr: u16) -> Option<u32> {
        if addr >= 0x8000 {
            Some(window(self.spec_prg_bank(addr), 8192, addr))
        } else {
            None
        }
    }

    /// A register is selected by the top four bits of the address and its low
    /// two: `0x8000` and `0xA000` the program banks (five bits), `0x9000` the
    /// mirroring (low two 0 or 1) or the swap mode (2 or 3, from bit 1 of the
    /// data), `0xB000` to `0xE003` the low and high nibbles of the eight
    /// pattern banks, `0xF000` to `0xF003` the low and high nibble of the
    /// interrupt latch, the interrupt control and the acknowledge.
    open spec fn spec_cpu_write(&self, addr: u16, data: u8) -> Mapper23 {
        let top = addr / 0x1000;
        let low = addr % 4;
        if top == 0x8 {
            Mapper23 { prg_bank0: data % 32, ..*self }
        } else if top == 0x9 && low < 2 {
            Mapper23 { mirror_mode: mirror_from_bits(data), ..*self }
        } else if top == 0x9 {
            Mapper23 { prg_swap_mode: (data / 2) % 2, ..*self }
        } else if top == 0xA {
            Mapper23 { prg_bank1: data % 32, ..*self }
        } else if 0xB <= top <= 0xE {
            let index = (top - 0xB) * 2 + low / 2;
            Mapper23 {
                chr_bank_regs: vstd::array::spec_array_update(
                    self.chr_bank_regs,
                    index,
                    write_nibble(self.chr_bank_regs[index], data, low % 2 == 1),
                ),
                ..*self
            }
        } else if top != 0xF {
            *self
        } else if low == 0 {
            Mapper23 { irq_latch: write_nibble(self.irq_latch, data, false), ..*self }
        } else if low == 1 {
            Mapper23 { irq_latch: write_nibble(self.irq_latch, data, true), ..*self }
        } else if low == 2 {
            Mapper23 {
                irq_control: data,
                irq_enabled: (data / 2) % 2 == 1,
                irq_counter: if (data / 2) % 2 == 1 {
                    self.irq_latch
                } else {
                    self.irq_counter
                },
                irq_prescaler: if (data / 2) % 2 == 1 {
                    341
                } else {
                    self.irq_prescaler
                },
                irq_pending: false,
                ..*self
            }
        } else {
            Mapper23 { irq_enabled: self.irq_control % 2 == 1, irq_pending: false, ..*self }
        }
    }

    open spec fn spec_write_result(&self, addr: u16, data: u8) -> Option<MapperWriteResult> {
        if addr / 0x1000 == 0x9 && addr % 4 < 2 {
            Some(MapperWriteResult::with_mirror(self.spec_cpu_write(addr, data).mirror_mode))
        } else {
            None
        }
    }

    open spec fn spec_ppu_read(&self, addr: u16) -> Option<u32> {
        if addr < 0x2000 {
            Some(
                window(
                    self.chr_bank_regs[(addr / 1024) as int] as u32 % at_least_one(
                        units(self.chr_banks, 8),
                    ),
                    1024,
                    addr,
                ),
            )
        } else {
            None
        }
    }

    open spec fn spec_ppu_write(&self, addr: u16) -> Option<u32> {
        None
    }

    open spec fn spec_reset(&self) -> Mapper23 {
        Mapper23 {
            mirror_mode: self.mirror_mode,
            ..Mapper23::spec_new(self.prg_banks, self.chr_banks)
        }
    }

    /// On every CPU cycle while counting is enabled the prescaler goes down
    /// by 3; each time it reaches zero or less it is put forward by 341 and
    /// the counter goes up by one, from 255 back to the latch with the
    /// interrupt asserted: the counter moves once in 341 PPU dots.
    open spec fn spec_cpu_clock(&self) -> Mapper23 {
        if !self.irq_enabled {
            *self
        } else if self.irq_prescaler - 3 > 0 {
            Mapper23 { irq_prescaler: (self.irq_prescaler - 3) as i16, ..*self }
        } else if self.irq_counter == 0xFF {
            Mapper23 {
                irq_prescaler: (self.irq_prescaler - 3 + 341) as i16,
                irq_counter: self.irq_latch,
                irq_pending: true,
                ..*self
            }
        } else {
            Mapper23 {
                irq_prescaler: (self.irq_prescaler - 3 + 341) as i16,
                irq_counter: (self.irq_counter + 1) as u8,
                ..*self
            }
        }
    }

    open spec fn spec_irq(&self) -> bool {
        self.irq_pending
    }

    open spec fn spec_check_irq(&self) -> Mapper23 {
        Mapper23 { irq_pending: false, ..*self }
    }

    fn is_well_formed(&self) -> (ok: bool) {
        0 <= self.irq_prescaler && self.irq_prescaler <= 341
    }

    fn cpu_read(&self, addr: u16) -> (offset: Option<u32>) {
        if addr >= 0x8000 {
            Some(window(self.prg_bank(addr), 8192, addr))
        } else {
            None
        }
    }

    fn cpu_write(&mut self, addr: u16, data: u8) -> (result: Option<MapperWriteResult>) {
        let top = addr / 0x1000;
        let low = addr % 4;
        if top == 0x8 {
            self.prg_bank0 = data % 32;
        } else if top == 0x9 {
            if low < 2 {
                self.mirror_mode = mirror_from_bits(data);
                return Some(MapperWriteResult::with_mirror(self.mirror_mode));
            }
            self.prg_swap_mode = (data / 2) % 2;
        } else if top == 0xA {
            self.prg_bank1 = data % 32;
        } else if 0xB <= top && top <= 0xE {
            let index: usize = ((top - 0xB) * 2 + low / 2) as usize;
            let value = write_nibble(self.chr_bank_regs[index], data, low % 2 == 1);
            set_register(&mut self.chr_bank_regs, index, value);
        } else if top == 0xF {
            if low == 0 {
                self.irq_latch = write_nibble(self.irq_latch, data, false);
            } else if low == 1 {
                self.irq_latch = write_nibble(self.irq_latch, data, true);
            } else if low == 2 {
                self.irq_control = data;
                self.irq_enabled = (data / 2) % 2 == 1;
                if (data / 2) % 2 == 1 {
                    self.irq_counter = self.irq_latch;
                    self.irq_prescaler = 341;
                }
                self.irq_pending = false;
            } else {
                self.irq_enabled = self.irq_control % 2 == 1;
                self.irq_pending = false;
            }
        }
        None
    }

    fn ppu_read(&self, addr: u16) -> (offset: Option<u32>) {
        if addr < 0x2000 {
            Some(
                window(
                    self.chr_bank_regs[(addr / 1024) as usize] as u32 % at_least_one(
                        units(self.chr_banks, 8),
                    ),
                    1024,
                    addr,
                ),
            )
        } else {
            None
        }
    }

    fn ppu_write(&self, addr: u16) -> (offset: Option<u32>) {
        None
    }

    fn reset(&mut self) {
        self.prg_bank0 = 0;
        self.prg_bank1 = 0;
        self.chr_bank_regs = zero_registers();
        self.prg_swap_mode = 0;
        self.irq_latch = 0;
        self.irq_control = 0;
        self.irq_counter = 0;
        self.irq_prescaler = 0;
        self.irq_enabled = false;
        self.irq_pending = false;
    }

    fn scanline(&mut self) {
    }

    fn cpu_clock(&mut self) {
        if self.irq_enabled {
            self.irq_prescaler = self.irq_prescaler - 3;
            if self.irq_prescaler <= 0 {
                self.irq_prescaler = self.irq_prescaler + 341;
                if self.irq_counter == 0xFF {
                    self.irq_counter = self.irq_latch;
                    self.irq_pending = true;
                } else {
                    self.irq_counter = self.irq_counter + 1;
                }
            }
        }
    }

    fn check_irq(&mut self) -> (irq: bool) {
        let pending = self.irq_pending;
        self.irq_pending = false;
        pending
    }

    fn chr_writable_mask(&self) -> (mask: u8) {
        0
    }
}

/// Mapper 253: a variant of mapper 23 whose pattern windows can be switched
/// between the cartridge's ROM and 8 KiB of RAM that lie behind it.
#[derive(Debug, Clone, Copy)]
pub struct Mapper253 {
    /// Number of 16 KiB program banks.
    pub prg_banks: u8,
    /// Number of 8 KiB pattern banks; 0 means pattern RAM.
    pub chr_banks: u8,
    pub prg_bank0: u8,
    pub prg_bank1: u8,
    /// The low byte of the pattern bank of each 1 KiB window.
    pub chr_lo: [u8; 8],
    /// The high bits of the pattern bank of each window.
    pub chr_hi: [u8; 8],
    /// Set: all windows show ROM. Clear: a window whose low bank byte is 4 or
    /// 5 shows RAM.
    pub vlock: bool,
    pub mirror_mode: MirrorMode,
    /// Size of the pattern ROM in bytes; the RAM begins there.
    pub chr_rom_size: u32,
    /// The value the counter is reloaded with.
    pub irq_latch: u8,
    /// Bit 1 enables counting; bit 0 is what an acknowledge sets the enable to.
    pub irq_control: u8,
    /// Counts up; the interrupt is asserted when it passes 255.
    pub irq_counter: u8,
    /// Divides the clock by 341 in steps of 3; 0 to 341.
    pub irq_prescaler: i16,
    pub irq_enabled: bool,
    pub irq_pending: bool,
}

impl Mapper253 {
    /// The registers at power-on.
    pub open spec fn spec_new(prg_banks: u8, chr_banks: u8) -> Mapper253 {
        Mapper253 {
            prg_banks,
            chr_banks,
            prg_bank0: 0,
            prg_bank1: 0,
            chr_lo: zero_registers(),
            chr_hi: zero_registers(),
            vlock: false,
            mirror_mode: MirrorMode::Vertical,
            chr_rom_size: (chr_banks as u32 * 8192) as u32,
            irq_latch: 0,
            irq_control: 0,
            irq_counter: 0,
            irq_prescaler: 0,
            irq_enabled: false,
            irq_pending: false,
        }
    }

    /// The mapper at power-on, for a cartridge with this many 16 KiB
    /// program banks and 8 KiB pattern banks.
    pub fn new(prg_banks: u8, chr_banks: u8) -> (m: Mapper253)
        ensures
            m == Mapper253::spec_new(prg_banks, chr_banks),
            m.wf(),
    {
        Mapper253 {
            prg_banks,
            chr_banks,
            prg_bank0: 0,
            prg_bank1: 0,
            chr_lo: zero_registers(),
            chr_hi: zero_registers(),
            vlock: false,
            mirror_mode: MirrorMode::Vertical,
            chr_rom_size: (chr_banks as u32 * 8192) as u32,
            irq_latch: 0,
            irq_control: 0,
            irq_counter: 0,
            irq_prescaler: 0,
            irq_enabled: false,
            irq_pending: false,
        }
    }

    /// Which pattern register a write to an address from `0xB000` to `0xEFFF`
    /// goes to.
    pub open spec fn spec_register_index(addr: u16) -> u16 {
        ((((addr & 8) | (addr >> 8)) >> 3).wrapping_add(2)) & 7
    }

    fn register_index(addr: u16) -> (index: usize)
        ensures
            index == Mapper253::spec_register_index(addr),
            index < 8,
    {
        let raw: u16 = (((addr & 8) | (addr >> 8)) >> 3).wrapping_add(2);
        proof {
            crate::bits::lemma_u16_and_le(raw, 7);
        }
        (raw & 7) as usize
    }

    /// Whether a pattern window shows RAM.
    pub open spec fn spec_is_chr_ram(self, region: int) -> bool {
        (self.chr_lo[region] == 4 || self.chr_lo[region] == 5) && !self.vlock
    }

    fn is_chr_ram(&self, region: usize) -> (ram: bool)
        requires
            region < 8,
        ensures
            ram == self.spec_is_chr_ram(region as int),
    {
        (self.chr_lo[region] == 4 || self.chr_lo[region] == 5) && !self.vlock
    }

    /// Where in pattern memory a window begins. A RAM window lies behind the
    /// ROM, in the 4 KiB page that bit 0 of its bank number selects, at the
    /// window's place within its half of the pattern range; a ROM window is
    /// the 1 KiB bank of its two registers, within the banks there are.
    pub open spec fn spec_get_chr_offset(self, region: int) -> u32 {
        if self.spec_is_chr_ram(region) {
            (self.chr_rom_size + (self.chr_lo[region] % 2) * 4096 + (region % 4) * 1024) as u32
        } else {
            (((self.chr_lo[region] as u32 + self.chr_hi[region] as u32 * 256) as u32
                % at_least_one(units(self.chr_banks, 8))) * 1024) as u32
        }
    }

    /// Where in pattern memory a window begins. A RAM window lies behind the
    /// ROM, in the 4 KiB page that bit 0 of its bank number selects, at the
    /// window's place within its half of the pattern range; a ROM window is
    /// the 1 KiB bank of its two registers, within the banks there are.
    pub fn get_chr_offset(&self, region: usize) -> (r: (u32, bool))
        requires
            region < 8,
            self.wf(),
        ensures
            r.0 == self.spec_get_chr_offset(region as int),
            r.1 == self.spec_is_chr_ram(region as int),
            r.0 <= 0x7FFFFFFF,
    {
        if self.is_chr_ram(region) {
            (
                self.chr_rom_size + (self.chr_lo[region] % 2) as u32 * 4096 + (region as u32 % 4)
                    * 1024,
                true,
            )
        } else {
            (
                ((self.chr_lo[region] as u32 + self.chr_hi[region] as u32 * 256) % at_least_one(
                    units(self.chr_banks, 8),
                )) * 1024,
                false,
            )
        }
    }

    /// The registers after a write to a pattern register: the low nibble of
    /// the low byte, or its high nibble together with the high bits. A
    /// write that leaves `0xC8` in the first register unlocks the RAM
    /// windows, one that leaves `0x88` locks them.
    pub open spec fn spec_write_chr(self, addr: u16, data: u8) -> Mapper253 {
        let index = Mapper253::spec_register_index(addr) as int;
        let high = (addr / 4) % 2 == 1;
        let lo = write_nibble(self.chr_lo[index], data, high);
        Mapper253 {
            chr_lo: vstd::array::spec_array_update(self.chr_lo, index, lo),
            chr_hi: if high {
                vstd::array::spec_array_update(self.chr_hi, index, data / 16)
            } else {
                self.chr_hi
            },
            vlock: if index == 0 && lo == 0xC8 {
                false
            } else if index == 0 && lo == 0x88 {
                true
            } else {
                self.vlock
            },
            ..self
        }
    }

    fn write_chr(&mut self, addr: u16, data: u8)
        requires
            old(self).wf(),
        ensures
            final(self).wf(),
            *final(self) == old(self).spec_write_chr(addr, data),
    {
        let index = Mapper253::register_index(addr);
        let high = (addr / 4) % 2 == 1;
        let lo = write_nibble(self.chr_lo[index], data, high);
        set_register(&mut self.chr_lo, index, lo);
        if high {
            set_register(&mut self.chr_hi, index, data / 16);
        }
        if index == 0 {
            if lo == 0xC8 {
                self.vlock = false;
            } else if lo == 0x88 {
                self.vlock = true;
            }
        }
    }

    /// Whether a write by the CPU to `addr` reaches a register of the mapper.
    pub open spec fn takes_writes(addr: u16) -> bool {
        addr >= 0x8000
    }

    /// A write to an address that reaches no register changes nothing and
    /// reports nothing.
    pub proof fn lemma_other_writes_do_nothing(self, addr: u16, data: u8)
        requires
            !Mapper253::takes_writes(addr),
        ensures
            self.spec_cpu_write(addr, data) == self,
            self.spec_write_result(addr, data) is None,
    {
    }

    /// An interrupt that the mapper asserts stays asserted until it is
    /// taken notice of; neither a scanline nor a CPU cycle withdraws it.
    pub proof fn lemma_irq_stays_until_polled(self)
        requires
            self.spec_irq(),
        ensures
            self.spec_scanline().spec_irq(),
            self.spec_cpu_clock().spec_irq(),
            !self.spec_check_irq().spec_irq(),
    {
    }
}

impl MapperTrait for Mapper253 {
    open spec fn wf(&self) -> bool {
        &&& self.chr_rom_size == self.chr_banks as int * 8192
        &&& 0 <= self.irq_prescaler <= 341
    }

    proof fn lemma_wf_kept(&self, addr: u16, data: u8) {
    }

    /// The two registers are at `0x8000` and `0xA000`; the last two banks are
    /// fixed at `0xC000` and `0xE000`.
    open spec fn spec_cpu_read(&self, addr: u16) -> Option<u32> {
        let place = (addr / 0x2000) % 4;
        let total: u32 = units(self.prg_banks, 2);
        if addr < 0x8000 {
            None
        } else if place == 0 {
            Some(window(self.prg_bank0 as u32 % at_least_one(total), 8192, addr))
        } else if place == 1 {
            Some(window(self.prg_bank1 as u32 % at_least_one(total), 8192, addr))
        } else if place == 2 {
            Some(window(from_end(total, 2), 8192, addr))
        } else {
            Some(window(from_end(total, 1), 8192, addr))
        }
    }

    /// A register is selected by the top four bits of the address: `0x8000` and
    /// `0xA000` the program banks, `0x9000` the mirroring, `0xB000` to `0xE000`
    /// the pattern registers, `0xF000` the interrupt registers, of which bits
    /// 3-2 of the address select the low and high nibble of the latch, the
    /// control and the acknowledge.
    open spec fn spec_cpu_write(&self, addr: u16, data: u8) -> Mapper253 {
        let top = addr / 0x1000;
        let sel = (addr / 4) % 4;
        if top == 0x8 {
            Mapper253 { prg_bank0: data, ..*self }
        } else if top == 0xA {
            Mapper253 { prg_bank1: data, ..*self }
        } else if top == 0x9 {
            Mapper253 { mirror_mode: mirror_from_bits(data), ..*self }
        } else if 0xB <= top <= 0xE {
            self.spec_write_chr(addr, data)
        } else if top != 0xF {
            *self
        } else if sel == 0 {
            Mapper253 { irq_latch: write_nibble(self.irq_latch, data, false), ..*self }
        } else if sel == 1 {
            Mapper253 { irq_latch: write_nibble(self.irq_latch, data, true), ..*self }
        } else if sel == 2 {
            Mapper253 {
                irq_control: data,
                irq_enabled: (data / 2) % 2 == 1,
                irq_counter: if (data / 2) % 2 == 1 {
                    self.irq_latch
                } else {
                    self.irq_counter
                },
                irq_prescaler: if (data / 2) % 2 == 1 {
                    341
                } else {
                    self.irq_prescaler
                },
                irq_pending: false,
                ..*self
            }
        } else {
            Mapper253 { irq_enabled: self.irq_control % 2 == 1, irq_pending: false, ..*self }
        }
    }

    open spec fn spec_write_result(&self, addr: u16, data: u8) -> Option<MapperWriteResult> {
        if addr / 0x1000 == 0x9 {
            Some(MapperWriteResult::with_mirror(self.spec_cpu_write(addr, data).mirror_mode))
        } else {
            None
        }
    }

    /// Without pattern ROM the addresses map to themselves.
    open spec fn spec_ppu_read(&self, addr: u16) -> Option<u32> {
        if addr >= 0x2000 {
            None
        } else if self.chr_banks == 0 {
            Some(addr as u32)
        } else {
            Some((self.spec_get_chr_offset((addr / 1024) as int) + (addr % 1024) as u32) as u32)
        }
    }

    /// Only RAM windows take writes, and everything if there is no pattern ROM.
    open spec fn spec_ppu_write(&self, addr: u16) -> Option<u32> {
        if addr >= 0x2000 {
            None
        } else if self.spec_is_chr_ram((addr / 1024) as int) {
            Some((self.spec_get_chr_offset((addr / 1024) as int) + (addr % 1024) as u32) as u32)
        } else if self.chr_banks == 0 {
            Some(addr as u32)
        } else {
            None
        }
    }

    open spec fn spec_reset(&self) -> Mapper253 {
        Mapper253 {
            mirror_mode: self.mirror_mode,
            ..Mapper253::spec_new(self.prg_banks, self.chr_banks)
        }
    }

    /// On every CPU cycle while counting is enabled the prescaler goes down
    /// by 3; each time it reaches zero or less it is put forward by 341 and
    /// the counter goes up by one, from 255 back to the latch with the
    /// interrupt asserted: the counter moves once in 341 PPU dots.
    open spec fn spec_cpu_clock(&self) -> Mapper253 {
        if !self.irq_enabled {
            *self
        } else if self.irq_prescaler - 3 > 0 {
            Mapper253 { irq_prescaler: (self.irq_prescaler - 3) as i16, ..*self }
        } else if self.irq_counter == 0xFF {
            Mapper253 {
                irq_prescaler: (self.irq_prescaler - 3 + 341) as i16,
                irq_counter: self.irq_latch,
                irq_pending: true,
                ..*self
            }
        } else {
            Mapper253 {
                irq_prescaler: (self.irq_prescaler - 3 + 341) as i16,
                irq_counter: (self.irq_counter + 1) as u8,
                ..*self
            }
        }
    }

    open spec fn spec_irq(&self) -> bool {
        self.irq_pending
    }

    open spec fn spec_check_irq(&self) -> Mapper253 {
        Mapper253 { irq_pending: false, ..*self }
    }

    open spec fn spec_chr_writable_mask(&self) -> u8 {
        if self.chr_banks == 0 {
            0xFF
        } else {
            ((if self.spec_is_chr_ram(0) {
                1int
            } else {
                0int
            }) + (if self.spec_is_chr_ram(1) {
                2int
            } else {
                0int
            }) + (if self.spec_is_chr_ram(2) {
                4int
            } else {
                0int
            }) + (if self.spec_is_chr_ram(3) {
                8int
            } else {
                0int
            }) + (if self.spec_is_chr_ram(4) {
                16int
            } else {
                0int
            }) + (if self.spec_is_chr_ram(5) {
                32int
            } else {
                0int
            }) + (if self.spec_is_chr_ram(6) {
                64int
            } else {
                0int
            }) + (if self.spec_is_chr_ram(7) {
                128int
            } else {
                0int
            })) as u8
        }
    }

    fn is_well_formed(&self) -> (ok: bool) {
        self.chr_rom_size == self.chr_banks as u32 * 8192 && 0 <= self.irq_prescaler
            && self.irq_prescaler <= 341
    }

    fn cpu_read(&self, addr: u16) -> (offset: Option<u32>) {
        let place = (addr / 0x2000) % 4;
        let total: u32 = units(self.prg_banks, 2);
        if addr < 0x8000 {
            None
        } else if place == 0 {
            Some(window(self.prg_bank0 as u32 % at_least_one(total), 8192, addr))
        } else if place == 1 {
            Some(window(self.prg_bank1 as u32 % at_least_one(total), 8192, addr))
        } else if place == 2 {
            Some(window(from_end(total, 2), 8192, addr))
        } else {
            Some(window(from_end(total, 1), 8192, addr))
        }
    }

    fn cpu_write(&mut self, addr: u16, data: u8) -> (result: Option<MapperWriteResult>) {
        let top = addr / 0x1000;
        let sel = (addr / 4) % 4;
        if top == 0x8 {
            self.prg_bank0 = data;
        } else if top == 0xA {
            self.prg_bank1 = data;
        } else if top == 0x9 {
            self.mirror_mode = mirror_from_bits(data);
            return Some(MapperWriteResult::with_mirror(self.mirror_mode));
        } else if 0xB <= top && top <= 0xE {
            self.write_chr(addr, data);
        } else if top == 0xF {
            if sel == 0 {
                self.irq_latch = write_nibble(self.irq_latch, data, false);
            } else if sel == 1 {
                self.irq_latch = write_nibble(self.irq_latch, data, true);
            } else if sel == 2 {
                self.irq_control = data;
                self.irq_enabled = (data / 2) % 2 == 1;
                if (data / 2) % 2 == 1 {
                    self.irq_counter = self.irq_latch;
                    self.irq_prescaler = 341;
                }
                self.irq_pending = false;
            } else {
                self.irq_enabled = self.irq_control % 2 == 1;
                self.irq_pending = false;
            }
        }
        None
    }

    fn ppu_read(&self, addr: u16) -> (offset: Option<u32>) {
        if addr >= 0x2000 {
            None
        } else if self.chr_banks == 0 {
            Some(addr as u32)
        } else {
            let (offset, _) = self.get_chr_offset((addr / 1024) as usize);
            Some(offset + (addr % 1024) as u32)
        }
    }

    fn ppu_write(&self, addr: u16) -> (offset: Option<u32>) {
        if addr >= 0x2000 {
            return None;
        }
        let (offset, is_ram) = self.get_chr_offset((addr / 1024) as usize);
        if is_ram {
            Some(offset + (addr % 1024) as u32)
        } else if self.chr_banks == 0 {
            Some(addr as u32)
        } else {
            None
        }
    }

    fn reset(&mut self) {
        self.prg_bank0 = 0;
        self.prg_bank1 = 0;
        self.chr_lo = zero_registers();
        self.chr_hi = zero_registers();
        self.vlock = false;
        self.irq_latch = 0;
        self.irq_control = 0;
        self.irq_counter = 0;
        self.irq_enabled = false;
        self.irq_pending = false;
        self.irq_prescaler = 0;
    }

    fn scanline(&mut self) {
    }

    fn cpu_clock(&mut self) {
        if self.irq_enabled {
            self.irq_prescaler = self.irq_prescaler - 3;
            if self.irq_prescaler <= 0 {
                self.irq_prescaler = self.irq_prescaler + 341;
                if self.irq_counter == 0xFF {
                    self.irq_counter = self.irq_latch;
                    self.irq_pending = true;
                } else {
                    self.irq_counter = self.irq_counter + 1;
                }
            }
        }
    }

    fn check_irq(&mut self) -> (irq: bool) {
        let pending = self.irq_pending;
        self.irq_pending = false;
        pending
    }

    fn chr_writable_mask(&self) -> (mask: u8) {
        if self.chr_banks == 0 {
            return 0xFF;
        }
        let mut mask: u8 = 0;
        if self.is_chr_ram(0) {
            mask = mask + 1;
        }
        if self.is_chr_ram(1) {
            mask = mask + 2;
        }
        if self.is_chr_ram(2) {
            mask = mask + 4;
        }
        if self.is_chr_ram(3) {
            mask = mask + 8;
        }
        if self.is_chr_ram(4) {
            mask = mask + 16;
        }
        if self.is_chr_ram(5) {
            mask = mask + 32;
        }
        if self.is_chr_ram(6) {
            mask = mask + 64;
        }
        if self.is_chr_ram(7) {
            mask = mask + 128;
        }
        mask
    }
}

} // verus!
