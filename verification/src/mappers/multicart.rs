//! The multicart mappers: many games in one cartridge, chosen by a write
//! whose address carries the choice.

use vstd::prelude::*;
use crate::ppu::MirrorMode;
use crate::mappers::{
    MapperTrait, MapperWriteResult, at_least_one, direct_chr, direct_chr_ram, units, window,
    wrapped,
};

verus! {

/// Mapper 15: a multicart whose one register, written with the address as
/// well as the data, selects among four layouts of the program memory.
#[derive(Debug, Clone, Copy)]
pub struct Mapper15 {
    /// Number of 16 KiB program banks.
    pub prg_banks: u8,
    /// The address of the last register write; its low two bits are the mode.
    pub latch_addr: u16,
    /// The data of the last register write: bits 5-0 the bank, bit 6 the
    /// mirroring, bit 7 the half bank.
    pub latch_data: u8,
    pub mirror_mode: MirrorMode,
}

impl Mapper15 {
    /// The registers at power-on.
    pub open spec fn spec_new(prg_banks: u8, chr_banks: u8) -> Mapper15 {
        Mapper15 {
            prg_banks,
            latch_addr: 0,
            latch_data: 0,
            mirror_mode: MirrorMode::Vertical,
        }
    }

    /// The mapper at power-on, for a cartridge with this many 16 KiB
    /// program banks and 8 KiB pattern banks.
    pub fn new(prg_banks: u8, chr_banks: u8) -> (m: Mapper15)
        ensures
            m == Mapper15::spec_new(prg_banks, chr_banks),
            m.wf(),
    {
        Mapper15 {
            prg_banks,
            latch_addr: 0,
            latch_data: 0,
            mirror_mode: MirrorMode::Vertical,
        }
    }

    /// The 8 KiB program bank at a CPU address from `0x8000`. Mode 0: four
    /// banks in a row from twice the bank number. Mode 2: the same bank in
    /// all four windows, with the half-bank bit. Mode 1: the 16 KiB bank in
    /// the lower half, the last of its group of eight in the upper. Mode 3:
    /// the 16 KiB bank in both halves.
    pub open spec fn spec_bank(self, addr: u16) -> u32 {
        let data6: u32 = (self.latch_data % 64) as u32;
        let half: u32 = (self.latch_data / 128) as u32;
        let mode: u16 = self.latch_addr % 4;
        let place: u32 = ((addr / 0x2000) % 4) as u32;
        let bank: u32 = if mode == 0 {
            (data6 * 2 + place) as u32
        } else if mode == 2 {
            (data6 * 2 + half) as u32
        } else if mode == 1 && place >= 2 {
            (((data6 / 8) * 8 + 7) * 2 + place % 2) as u32
        } else {
            (data6 * 2 + place % 2) as u32
        };
        bank % at_least_one(units(self.prg_banks, 2))
    }

    fn bank(&self, addr: u16) -> (bank: u32)
        ensures
            bank == self.spec_bank(addr),
            bank <= 0xFFFF,
    {
        let data6: u32 = (self.latch_data % 64) as u32;
        let half: u32 = (self.latch_data / 128) as u32;
        let mode: u16 = self.latch_addr % 4;
        let place: u32 = ((addr / 0x2000) % 4) as u32;
        let bank: u32 = if mode == 0 {
            (data6 * 2 + place) as u32
        } else if mode == 2 {
            (data6 * 2 + half) as u32
        } else if mode == 1 && place >= 2 {
            (((data6 / 8) * 8 + 7) * 2 + place % 2) as u32
        } else {
            (data6 * 2 + place % 2) as u32
        };
        bank % at_least_one(units(self.prg_banks, 2))
    }

    /// Whether a write by the CPU to `addr` reaches a register of the mapper.
    pub open spec fn takes_writes(addr: u16) -> bool {
        addr >= 0x8000
    }

    /// A write to an address that reaches no register changes nothing and
    /// reports nothing.
    pub proof fn lemma_other_writes_do_nothing(self, addr: u16, data: u8)
        requires
            !Mapper15::takes_writes(addr),
        ensures
            self.spec_cpu_write(addr, data) == self,
            self.spec_write_result(addr, data) is None,
    {
    }
}

impl MapperTrait for Mapper15 {
    proof fn lemma_wf_kept(&self, addr: u16, data: u8) {
    }

    open spec fn spec_cpu_read(&self, addr: u16) -> Option<u32> {
        if addr >= 0x8000 {
            Some(window(self.spec_bank(addr), 8192, addr))
        } else {
            None
        }
    }

    /// A write anywhere from `0x8000` latches address and data; bit 6 of the
    /// data selects horizontal mirroring.
    open spec fn spec_cpu_write(&self, addr: u16, data: u8) -> Mapper15 {
        if addr >= 0x8000 {
            Mapper15 {
                latch_addr: addr,
                latch_data: data,
                mirror_mode: if data & 0x40 != 0 {
                    MirrorMode::Horizontal
                } else {
                    MirrorMode::Vertical
                },
                ..*self
            }
        } else {
            *self
        }
    }

    open spec fn spec_write_result(&self, addr: u16, data: u8) -> Option<MapperWriteResult> {
        if addr >= 0x8000 {
            Some(MapperWriteResult::with_mirror(self.spec_cpu_write(addr, data).mirror_mode))
        } else {
            None
        }
    }

    open spec fn spec_ppu_read(&self, addr: u16) -> Option<u32> {
        direct_chr(addr)
    }

    open spec fn spec_ppu_write(&self, addr: u16) -> Option<u32> {
        direct_chr(addr)
    }

    open spec fn spec_reset(&self) -> Mapper15 {
        Mapper15 { latch_addr: 0, latch_data: 0, ..*self }
    }

    fn is_well_formed(&self) -> (ok: bool) {
        true
    }

    fn cpu_read(&self, addr: u16) -> (offset: Option<u32>) {
        if addr >= 0x8000 {
            Some(window(self.bank(addr), 8192, addr))
        } else {
            None
        }
    }

    fn cpu_write(&mut self, addr: u16, data: u8) -> (result: Option<MapperWriteResult>) {
        if addr >= 0x8000 {
            self.latch_addr = addr;
            self.latch_data = data;
            self.mirror_mode = if data & 0x40 != 0 {
                MirrorMode::Horizontal
            } else {
                MirrorMode::Vertical
            };
            return Some(MapperWriteResult::with_mirror(self.mirror_mode));
        }
        None
    }

    fn ppu_read(&self, addr: u16) -> (offset: Option<u32>) {
        direct_chr(addr)
    }

    fn ppu_write(&self, addr: u16) -> (offset: Option<u32>) {
        direct_chr(addr)
    }

    fn reset(&mut self) {
        self.latch_addr = 0;
        self.latch_data = 0;
    }

    fn scanline(&mut self) {
    }

    fn cpu_clock(&mut self) {
    }

    fn check_irq(&mut self) -> (irq: bool) {
        false
    }

    fn chr_writable_mask(&self) -> (mask: u8) {
        0
    }
}

/// Mapper 202: a multicart that takes bank, mode and mirroring from the
/// address of the write.
#[derive(Debug, Clone, Copy)]
pub struct Mapper202 {
    /// Number of 16 KiB program banks.
    pub prg_banks: u8,
    /// Number of 8 KiB pattern banks; 0 means pattern RAM.
    pub chr_banks: u8,
    /// The 16 KiB program bank.
    pub prg_bank: u8,
    /// The 8 KiB pattern bank.
    pub chr_bank: u8,
    /// 0: the 16 KiB bank in both halves; 1: a 32 KiB bank.
    pub prg_mode: u8,
    pub mirror_mode: MirrorMode,
}

impl Mapper202 {
    /// The registers at power-on.
    pub open spec fn spec_new(prg_banks: u8, chr_banks: u8) -> Mapper202 {
        Mapper202 {
            prg_banks,
            chr_banks,
            prg_bank: 0,
            chr_bank: 0,
            prg_mode: 0,
            mirror_mode: MirrorMode::Vertical,
        }
    }

    /// The mapper at power-on, for a cartridge with this many 16 KiB
    /// program banks and 8 KiB pattern banks.
    pub fn new(prg_banks: u8, chr_banks: u8) -> (m: Mapper202)
        ensures
            m == Mapper202::spec_new(prg_banks, chr_banks),
            m.wf(),
    {
        Mapper202 {
            prg_banks,
            chr_banks,
            prg_bank: 0,
            chr_bank: 0,
            prg_mode: 0,
            mirror_mode: MirrorMode::Vertical,
        }
    }

    /// Whether a write by the CPU to `addr` reaches a register of the mapper.
    pub open spec fn takes_writes(addr: u16) -> bool {
        addr >= 0x8000
    }

    /// A write to an address that reaches no register changes nothing and
    /// reports nothing.
    pub proof fn lemma_other_writes_do_nothing(self, addr: u16, data: u8)
        requires
            !Mapper202::takes_writes(addr),
        ensures
            self.spec_cpu_write(addr, data) == self,
            self.spec_write_result(addr, data) is None,
    {
    }
}

impl MapperTrait for Mapper202 {
    proof fn lemma_wf_kept(&self, addr: u16, data: u8) {
    }

    /// Offsets wrap around the size of the program memory; without program
    /// memory every address reads offset 0.
    open spec fn spec_cpu_read(&self, addr: u16) -> Option<u32> {
        if addr < 0x8000 {
            None
        } else if self.prg_banks == 0 {
            Some(0)
        } else if self.prg_mode == 0 {
            Some(wrapped(window(self.prg_bank as u32, 16384, addr), units(self.prg_banks, 16384)))
        } else {
            Some(
                wrapped(
                    window((self.prg_bank / 2) as u32, 32768, addr),
                    units(self.prg_banks, 16384),
                ),
            )
        }
    }

    /// A write anywhere from `0x8000`: bits 3-1 of the address are the bank for
    /// program and pattern memory, bit 0 selects horizontal mirroring, and
    /// the mode is 32 KiB when bits 0 and 3 differ.
    open spec fn spec_cpu_write(&self, addr: u16, data: u8) -> Mapper202 {
        if addr >= 0x8000 {
            Mapper202 {
                prg_bank: ((addr / 2) % 8) as u8,
                chr_bank: ((addr / 2) % 8) as u8,
                prg_mode: if addr % 2 != (addr / 8) % 2 {
                    1
                } else {
                    0
                },
                mirror_mode: if addr % 2 == 1 {
                    MirrorMode::Horizontal
                } else {
                    MirrorMode::Vertical
                },
                ..*self
            }
        } else {
            *self
        }
    }

    open spec fn spec_write_result(&self, addr: u16, data: u8) -> Option<MapperWriteResult> {
        if addr >= 0x8000 {
            Some(MapperWriteResult::with_mirror(self.spec_cpu_write(addr, data).mirror_mode))
        } else {
            None
        }
    }

    open spec fn spec_ppu_read(&self, addr: u16) -> Option<u32> {
        if addr >= 0x2000 {
            None
        } else if self.chr_banks == 0 {
            Some(addr as u32)
        } else {
            Some(wrapped(window(self.chr_bank as u32, 8192, addr), units(self.chr_banks, 8192)))
        }
    }

    open spec fn spec_ppu_write(&self, addr: u16) -> Option<u32> {
        direct_chr_ram(addr, self.chr_banks)
    }

    open spec fn spec_reset(&self) -> Mapper202 {
        Mapper202 { prg_bank: 0, chr_bank: 0, prg_mode: 0, ..*self }
    }

    fn is_well_formed(&self) -> (ok: bool) {
        true
    }

    fn cpu_read(&self, addr: u16) -> (offset: Option<u32>) {
        if addr < 0x8000 {
            None
        } else if self.prg_banks == 0 {
            Some(0)
        } else if self.prg_mode == 0 {
            Some(wrapped(window(self.prg_bank as u32, 16384, addr), units(self.prg_banks, 16384)))
        } else {
            Some(
                wrapped(
                    window((self.prg_bank / 2) as u32, 32768, addr),
                    units(self.prg_banks, 16384),
                ),
            )
        }
    }

    fn cpu_write(&mut self, addr: u16, data: u8) -> (result: Option<MapperWriteResult>) {
        if addr >= 0x8000 {
            let bank: u8 = ((addr / 2) % 8) as u8;
            self.prg_bank = bank;
            self.chr_bank = bank;
            self.prg_mode = if addr % 2 != (addr / 8) % 2 {
                1
            } else {
                0
            };
            self.mirror_mode = if addr % 2 == 1 {
                MirrorMode::Horizontal
            } else {
                MirrorMode::Vertical
            };
            return Some(MapperWriteResult::with_mirror(self.mirror_mode));
        }
        None
    }

    fn ppu_read(&self, addr: u16) -> (offset: Option<u32>) {
        if addr >= 0x2000 {
            None
        } else if self.chr_banks == 0 {
            Some(addr as u32)
        } else {
            Some(wrapped(window(self.chr_bank as u32, 8192, addr), units(self.chr_banks, 8192)))
        }
    }

    fn ppu_write(&self, addr: u16) -> (offset: Option<u32>) {
        direct_chr_ram(addr, self.chr_banks)
    }

    fn reset(&mut self) {
        self.prg_bank = 0;
        self.chr_bank = 0;
        self.prg_mode = 0;
    }

    fn scanline(&mut self) {
    }

    fn cpu_clock(&mut self) {
    }

    fn check_irq(&mut self) -> (irq: bool) {
        false
    }

    fn chr_writable_mask(&self) -> (mask: u8) {
        0
    }
}

/// Mapper 225: a multicart for up to 2 MiB of program and 1 MiB of pattern
/// memory, with everything taken from the address of the write.
#[derive(Debug, Clone, Copy)]
pub struct Mapper225 {
    /// Number of 16 KiB program banks.
    pub prg_banks: u8,
    /// Number of 8 KiB pattern banks; 0 means pattern RAM.
    pub chr_banks: u8,
    /// The 16 KiB program bank, seven bits.
    pub prg_bank: u16,
    /// The 8 KiB pattern bank, seven bits.
    pub chr_bank: u16,
    /// 0: a 32 KiB bank; 1: the 16 KiB bank in both halves.
    pub prg_mode: u8,
    pub mirror_mode: MirrorMode,
}

impl Mapper225 {
    /// The registers at power-on.
    pub open spec fn spec_new(prg_banks: u8, chr_banks: u8) -> Mapper225 {
        Mapper225 {
            prg_banks,
            chr_banks,
            prg_bank: 0,
            chr_bank: 0,
            prg_mode: 0,
            mirror_mode: MirrorMode::Vertical,
        }
    }

    /// The mapper at power-on, for a cartridge with this many 16 KiB
    /// program banks and 8 KiB pattern banks.
    pub fn new(prg_banks: u8, chr_banks: u8) -> (m: Mapper225)
        ensures
            m == Mapper225::spec_new(prg_banks, chr_banks),
            m.wf(),
    {
        Mapper225 {
            prg_banks,
            chr_banks,
            prg_bank: 0,
            chr_bank: 0,
            prg_mode: 0,
            mirror_mode: MirrorMode::Vertical,
        }
    }

    /// Whether a write by the CPU to `addr` reaches a register of the mapper.
    pub open spec fn takes_writes(addr: u16) -> bool {
        addr >= 0x8000
    }

    /// A write to an address that reaches no register changes nothing and
    /// reports nothing.
    pub proof fn lemma_other_writes_do_nothing(self, addr: u16, data: u8)
        requires
            !Mapper225::takes_writes(addr),
        ensures
            self.spec_cpu_write(addr, data) == self,
            self.spec_write_result(addr, data) is None,
    {
    }
}

impl MapperTrait for Mapper225 {
    proof fn lemma_wf_kept(&self, addr: u16, data: u8) {
    }

    /// Offsets wrap around the size of the program memory; without program
    /// memory every address reads offset 0.
    open spec fn spec_cpu_read(&self, addr: u16) -> Option<u32> {
        if addr < 0x8000 {
            None
        } else if self.prg_banks == 0 {
            Some(0)
        } else if self.prg_mode == 0 {
            Some(
                wrapped(
                    window(((self.prg_bank / 2) % 64) as u32, 32768, addr),
                    units(self.prg_banks, 16384),
                ),
            )
        } else {
            Some(wrapped(window(self.prg_bank as u32, 16384, addr), units(self.prg_banks, 16384)))
        }
    }

    /// A write anywhere from `0x8000`: bits 5-0 of the address are the pattern
    /// bank, bits 11-6 the program bank, bit 14 the seventh bit of both, bit 12
    /// the mode, bit 13 vertical mirroring.
    open spec fn spec_cpu_write(&self, addr: u16, data: u8) -> Mapper225 {
        if addr >= 0x8000 {
            Mapper225 {
                chr_bank: (addr % 64 + ((addr / 0x4000) % 2) * 64) as u16,
                prg_bank: ((addr / 64) % 64 + ((addr / 0x4000) % 2) * 64) as u16,
                prg_mode: ((addr / 0x1000) % 2) as u8,
                mirror_mode: if (addr / 0x2000) % 2 == 1 {
                    MirrorMode::Vertical
                } else {
                    MirrorMode::Horizontal
                },
                ..*self
            }
        } else {
            *self
        }
    }

    open spec fn spec_write_result(&self, addr: u16, data: u8) -> Option<MapperWriteResult> {
        if addr >= 0x8000 {
            Some(MapperWriteResult::with_mirror(self.spec_cpu_write(addr, data).mirror_mode))
        } else {
            None
        }
    }

    open spec fn spec_ppu_read(&self, addr: u16) -> Option<u32> {
        if addr >= 0x2000 {
            None
        } else if self.chr_banks == 0 {
            Some(addr as u32)
        } else {
            Some(wrapped(window(self.chr_bank as u32, 8192, addr), units(self.chr_banks, 8192)))
        }
    }

    open spec fn spec_ppu_write(&self, addr: u16) -> Option<u32> {
        direct_chr_ram(addr, self.chr_banks)
    }

    open spec fn spec_reset(&self) -> Mapper225 {
        Mapper225 { prg_bank: 0, chr_bank: 0, prg_mode: 0, ..*self }
    }

    fn is_well_formed(&self) -> (ok: bool) {
        true
    }

    fn cpu_read(&self, addr: u16) -> (offset: Option<u32>) {
        if addr < 0x8000 {
            None
        } else if self.prg_banks == 0 {
            Some(0)
        } else if self.prg_mode == 0 {
            Some(
                wrapped(
                    window(((self.prg_bank / 2) % 64) as u32, 32768, addr),
                    units(self.prg_banks, 16384),
                ),
            )
        } else {
            Some(wrapped(window(self.prg_bank as u32, 16384, addr), units(self.prg_banks, 16384)))
        }
    }

    fn cpu_write(&mut self, addr: u16, data: u8) -> (result: Option<MapperWriteResult>) {
        if addr >= 0x8000 {
            let high: u16 = ((addr / 0x4000) % 2) * 64;
            self.chr_bank = addr % 64 + high;
            self.prg_bank = (addr / 64) % 64 + high;
            self.prg_mode = ((addr / 0x1000) % 2) as u8;
            self.mirror_mode = if (addr / 0x2000) % 2 == 1 {
                MirrorMode::Vertical
            } else {
                MirrorMode::Horizontal
            };
            return Some(MapperWriteResult::with_mirror(self.mirror_mode));
        }
        None
    }

    fn ppu_read(&self, addr: u16) -> (offset: Option<u32>) {
        if addr >= 0x2000 {
            None
        } else if self.chr_banks == 0 {
            Some(addr as u32)
        } else {
            Some(wrapped(window(self.chr_bank as u32, 8192, addr), units(self.chr_banks, 8192)))
        }
    }

    fn ppu_write(&self, addr: u16) -> (offset: Option<u32>) {
        direct_chr_ram(addr, self.chr_banks)
    }

    fn reset(&mut self) {
        self.prg_bank = 0;
        self.chr_bank = 0;
        self.prg_mode = 0;
    }

    fn scanline(&mut self) {
    }

    fn cpu_clock(&mut self) {
    }

    fn check_irq(&mut self) -> (irq: bool) {
        false
    }

    fn chr_writable_mask(&self) -> (mask: u8) {
        0
    }
}

/// Mapper 227: a multicart with an inner and an outer bank number and
/// three mode bits, all taken from the address of the write.
#[derive(Debug, Clone, Copy)]
pub struct Mapper227 {
    /// Number of 16 KiB program banks.
    pub prg_banks: u8,
    /// Number of 8 KiB pattern banks; 0 means pattern RAM.
    pub chr_banks: u8,
    /// Address bit 0: the program window is 32 KiB wide.
    pub s_bit: bool,
    /// Address bit 7: `0xC000` follows the selected bank instead of being fixed.
    pub o_bit: bool,
    /// Address bit 9: the fixed bank is the last of the outer bank, not the first.
    pub l_bit: bool,
    /// The 16 KiB bank within the outer bank, 0 to 7.
    pub inner_bank: u8,
    /// The outer bank of 128 KiB, 0 to 7.
    pub outer_bank: u8,
    pub mirror_mode: MirrorMode,
}

impl Mapper227 {
    /// The registers at power-on.
    pub open spec fn spec_new(prg_banks: u8, chr_banks: u8) -> Mapper227 {
        Mapper227 {
            prg_banks,
            chr_banks,
            s_bit: false,
            o_bit: false,
            l_bit: false,
            inner_bank: 0,
            outer_bank: 0,
            mirror_mode: MirrorMode::Vertical,
        }
    }

    /// The mapper at power-on, for a cartridge with this many 16 KiB
    /// program banks and 8 KiB pattern banks.
    pub fn new(prg_banks: u8, chr_banks: u8) -> (m: Mapper227)
        ensures
            m == Mapper227::spec_new(prg_banks, chr_banks),
            m.wf(),
    {
        Mapper227 {
            prg_banks,
            chr_banks,
            s_bit: false,
            o_bit: false,
            l_bit: false,
            inner_bank: 0,
            outer_bank: 0,
            mirror_mode: MirrorMode::Vertical,
        }
    }

    /// The selected bank, counted in banks of `halves` times 16 KiB.
    pub open spec fn spec_block(self, halves: u8) -> u32 {
        ((self.outer_bank * 8 + self.inner_bank) / halves as int) as u32
    }

    /// A bank of 16 KiB of the outer bank.
    pub open spec fn spec_fixed(self, inner: u8) -> u32 {
        (self.outer_bank * 8 + inner) as u32
    }

    fn block(&self, halves: u8) -> (bank: u32)
        requires
            halves == 1 || halves == 2,
        ensures
            bank == self.spec_block(halves),
            bank <= 0xFFFF,
    {
        (self.outer_bank as u32 * 8 + self.inner_bank as u32) / halves as u32
    }

    fn fixed(&self, inner: u8) -> (bank: u32)
        ensures
            bank == self.spec_fixed(inner),
            bank <= 0xFFFF,
    {
        self.outer_bank as u32 * 8 + inner as u32
    }

    /// Whether a write by the CPU to `addr` reaches a register of the mapper.
    pub open spec fn takes_writes(addr: u16) -> bool {
        addr >= 0x8000
    }

    /// A write to an address that reaches no register changes nothing and
    /// reports nothing.
    pub proof fn lemma_other_writes_do_nothing(self, addr: u16, data: u8)
        requires
            !Mapper227::takes_writes(addr),
        ensures
            self.spec_cpu_write(addr, data) == self,
            self.spec_write_result(addr, data) is None,
    {
    }
}

impl MapperTrait for Mapper227 {
    proof fn lemma_wf_kept(&self, addr: u16, data: u8) {
    }

    /// With O and S set the selected bank is a 32 KiB bank. With O alone, or
    /// below `0xC000`, it is a 16 KiB bank. From `0xC000` without O a bank of
    /// the outer bank is fixed: its last with L, else its first. Offsets wrap
    /// around the size of the program memory; without program memory every
    /// address reads offset 0.
    open spec fn spec_cpu_read(&self, addr: u16) -> Option<u32> {
        if addr < 0x8000 {
            None
        } else if self.prg_banks == 0 {
            Some(0)
        } else if self.o_bit && self.s_bit {
            Some(wrapped(window(self.spec_block(2), 32768, addr), units(self.prg_banks, 16384)))
        } else if self.o_bit || addr < 0xC000 {
            Some(wrapped(window(self.spec_block(1), 16384, addr), units(self.prg_banks, 16384)))
        } else if self.l_bit {
            Some(wrapped(window(self.spec_fixed(7), 16384, addr), units(self.prg_banks, 16384)))
        } else {
            Some(wrapped(window(self.spec_fixed(0), 16384, addr), units(self.prg_banks, 16384)))
        }
    }

    /// A write anywhere from `0x8000`: of the address, bit 0 is S, bit 1
    /// horizontal mirroring, bits 4-2 the inner bank, bits 6-5 with bit 8 on
    /// top the outer bank, bit 7 is O and bit 9 is L.
    open spec fn spec_cpu_write(&self, addr: u16, data: u8) -> Mapper227 {
        if addr >= 0x8000 {
            Mapper227 {
                s_bit: addr % 2 == 1,
                mirror_mode: if (addr / 2) % 2 == 1 {
                    MirrorMode::Horizontal
                } else {
                    MirrorMode::Vertical
                },
                inner_bank: ((addr / 4) % 8) as u8,
                outer_bank: ((addr / 32) % 4 + ((addr / 256) % 2) * 4) as u8,
                o_bit: (addr / 128) % 2 == 1,
                l_bit: (addr / 512) % 2 == 1,
                ..*self
            }
        } else {
            *self
        }
    }

    open spec fn spec_write_result(&self, addr: u16, data: u8) -> Option<MapperWriteResult> {
        if addr >= 0x8000 {
            Some(MapperWriteResult::with_mirror(self.spec_cpu_write(addr, data).mirror_mode))
        } else {
            None
        }
    }

    open spec fn spec_ppu_read(&self, addr: u16) -> Option<u32> {
        direct_chr(addr)
    }

    open spec fn spec_ppu_write(&self, addr: u16) -> Option<u32> {
        direct_chr(addr)
    }

    open spec fn spec_reset(&self) -> Mapper227 {
        Mapper227::spec_new(self.prg_banks, self.chr_banks)
    }

    fn is_well_formed(&self) -> (ok: bool) {
        true
    }

    fn cpu_read(&self, addr: u16) -> (offset: Option<u32>) {
        if addr < 0x8000 {
            None
        } else if self.prg_banks == 0 {
            Some(0)
        } else if self.o_bit && self.s_bit {
            Some(wrapped(window(self.block(2), 32768, addr), units(self.prg_banks, 16384)))
        } else if self.o_bit || addr < 0xC000 {
            Some(wrapped(window(self.block(1), 16384, addr), units(self.prg_banks, 16384)))
        } else if self.l_bit {
            Some(wrapped(window(self.fixed(7), 16384, addr), units(self.prg_banks, 16384)))
        } else {
            Some(wrapped(window(self.fixed(0), 16384, addr), units(self.prg_banks, 16384)))
        }
    }

    fn cpu_write(&mut self, addr: u16, data: u8) -> (result: Option<MapperWriteResult>) {
        if addr >= 0x8000 {
            self.s_bit = addr % 2 == 1;
            self.mirror_mode = if (addr / 2) % 2 == 1 {
                MirrorMode::Horizontal
            } else {
                MirrorMode::Vertical
            };
            self.inner_bank = ((addr / 4) % 8) as u8;
            self.outer_bank = ((addr / 32) % 4 + ((addr / 256) % 2) * 4) as u8;
            self.o_bit = (addr / 128) % 2 == 1;
            self.l_bit = (addr / 512) % 2 == 1;
            return Some(MapperWriteResult::with_mirror(self.mirror_mode));
        }
        None
    }

    fn ppu_read(&self, addr: u16) -> (offset: Option<u32>) {
        direct_chr(addr)
    }

    fn ppu_write(&self, addr: u16) -> (offset: Option<u32>) {
        direct_chr(addr)
    }

    fn reset(&mut self) {
        self.s_bit = false;
        self.o_bit = false;
        self.l_bit = false;
        self.inner_bank = 0;
        self.outer_bank = 0;
        self.mirror_mode = MirrorMode::Vertical;
    }

    fn scanline(&mut self) {
    }

    fn cpu_clock(&mut self) {
    }

    fn check_irq(&mut self) -> (irq: bool) {
        false
    }

    fn chr_writable_mask(&self) -> (mask: u8) {
        0
    }
}

} // verus!
