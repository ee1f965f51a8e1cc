//! The mappers with a single bank register, or none.

use vstd::prelude::*;
use crate::ppu::MirrorMode;
use crate::mappers::{
    MapperTrait, MapperWriteResult, at_least_one, direct_chr, direct_chr_ram, from_end, window,
};

verus! {

/// Mapper 0: no bank switching. 16 KiB of program memory appear twice,
/// 32 KiB once.
#[derive(Debug, Clone, Copy)]
pub struct Mapper0 {
    /// Number of 16 KiB program banks.
    pub prg_banks: u8,
    /// Number of 8 KiB pattern banks; 0 means pattern RAM.
    pub chr_banks: u8,
}

impl Mapper0 {
    /// The registers at power-on.
    pub open spec fn spec_new(prg_banks: u8, chr_banks: u8) -> Mapper0 {
        Mapper0 {
            prg_banks,
            chr_banks,
        }
    }

    /// The mapper at power-on, for a cartridge with this many 16 KiB
    /// program banks and 8 KiB pattern banks.
    pub fn new(prg_banks: u8, chr_banks: u8) -> (m: Mapper0)
        ensures
            m == Mapper0::spec_new(prg_banks, chr_banks),
            m.wf(),
    {
        Mapper0 {
            prg_banks,
            chr_banks,
        }
    }

    /// Whether a write by the CPU to `addr` reaches a register of the mapper.
    pub open spec fn takes_writes(addr: u16) -> bool {
        false
    }

    /// A write to an address that reaches no register changes nothing and
    /// reports nothing.
    pub proof fn lemma_other_writes_do_nothing(self, addr: u16, data: u8)
        requires
            !Mapper0::takes_writes(addr),
        ensures
            self.spec_cpu_write(addr, data) == self,
            self.spec_write_result(addr, data) is None,
    {
    }
}

impl MapperTrait for Mapper0 {
    proof fn lemma_wf_kept(&self, addr: u16, data: u8) {
    }

    /// With one bank the upper half of the range repeats the lower.
    open spec fn spec_cpu_read(&self, addr: u16) -> Option<u32> {
        if addr >= 0x8000 {
            if self.prg_banks > 1 {
                Some((addr % 0x8000) as u32)
            } else {
                Some((addr % 0x4000) as u32)
            }
        } else {
            None
        }
    }

    open spec fn spec_cpu_write(&self, addr: u16, data: u8) -> Mapper0 {
        *self
    }

    open spec fn spec_write_result(&self, addr: u16, data: u8) -> Option<MapperWriteResult> {
        None
    }

    open spec fn spec_ppu_read(&self, addr: u16) -> Option<u32> {
        direct_chr(addr)
    }

    open spec fn spec_ppu_write(&self, addr: u16) -> Option<u32> {
        direct_chr_ram(addr, self.chr_banks)
    }

    open spec fn spec_reset(&self) -> Mapper0 {
        *self
    }

    fn is_well_formed(&self) -> (ok: bool) {
        true
    }

    fn cpu_read(&self, addr: u16) -> (offset: Option<u32>) {
        if addr >= 0x8000 {
            if self.prg_banks > 1 {
                Some((addr % 0x8000) as u32)
            } else {
                Some((addr % 0x4000) as u32)
            }
        } else {
            None
        }
    }

    fn cpu_write(&mut self, addr: u16, data: u8) -> (result: Option<MapperWriteResult>) {
        None
    }

    fn ppu_read(&self, addr: u16) -> (offset: Option<u32>) {
        direct_chr(addr)
    }

    fn ppu_write(&self, addr: u16) -> (offset: Option<u32>) {
        direct_chr_ram(addr, self.chr_banks)
    }

    fn reset(&mut self) {
    }

    fn scanline(&mut self) {
    }

    fn cpu_clock(&mut self) {
    }

    fn check_irq(&mut self) -> (irq: bool) {
        false
    }

    fn chr_writable_mask(&self) -> (mask: u8) {
        0
    }
}

/// Mapper 2: a switchable 16 KiB program bank at `0x8000` and the last bank
/// fixed at `0xC000`.
#[derive(Debug, Clone, Copy)]
pub struct Mapper2 {
    /// Number of 16 KiB program banks.
    pub prg_banks: u8,
    /// The bank at `0x8000`.
    pub selected_bank: u8,
}

impl Mapper2 {
    /// The registers at power-on.
    pub open spec fn spec_new(prg_banks: u8, chr_banks: u8) -> Mapper2 {
        Mapper2 {
            prg_banks,
            selected_bank: 0,
        }
    }

    /// The mapper at power-on, for a cartridge with this many 16 KiB
    /// program banks and 8 KiB pattern banks.
    pub fn new(prg_banks: u8, chr_banks: u8) -> (m: Mapper2)
        ensures
            m == Mapper2::spec_new(prg_banks, chr_banks),
            m.wf(),
    {
        Mapper2 {
            prg_banks,
            selected_bank: 0,
        }
    }

    /// Whether a write by the CPU to `addr` reaches a register of the mapper.
    pub open spec fn takes_writes(addr: u16) -> bool {
        addr >= 0x8000
    }

    /// A write to an address that reaches no register changes nothing and
    /// reports nothing.
    pub proof fn lemma_other_writes_do_nothing(self, addr: u16, data: u8)
        requires
            !Mapper2::takes_writes(addr),
        ensures
            self.spec_cpu_write(addr, data) == self,
            self.spec_write_result(addr, data) is None,
    {
    }
}

impl MapperTrait for Mapper2 {
    proof fn lemma_wf_kept(&self, addr: u16, data: u8) {
    }

    open spec fn spec_cpu_read(&self, addr: u16) -> Option<u32> {
        if addr >= 0xC000 {
            Some(window(from_end(self.prg_banks as u32, 1), 16384, addr))
        } else if addr >= 0x8000 {
            Some(window(self.selected_bank as u32, 16384, addr))
        } else {
            None
        }
    }

    /// A write anywhere from `0x8000` selects the bank with its low four bits.
    open spec fn spec_cpu_write(&self, addr: u16, data: u8) -> Mapper2 {
        if addr >= 0x8000 {
            Mapper2 { selected_bank: data % 16, ..*self }
        } else {
            *self
        }
    }

    open spec fn spec_write_result(&self, addr: u16, data: u8) -> Option<MapperWriteResult> {
        None
    }

    open spec fn spec_ppu_read(&self, addr: u16) -> Option<u32> {
        direct_chr(addr)
    }

    open spec fn spec_ppu_write(&self, addr: u16) -> Option<u32> {
        direct_chr(addr)
    }

    open spec fn spec_reset(&self) -> Mapper2 {
        Mapper2 { selected_bank: 0, ..*self }
    }

    fn is_well_formed(&self) -> (ok: bool) {
        true
    }

    fn cpu_read(&self, addr: u16) -> (offset: Option<u32>) {
        if addr >= 0xC000 {
            Some(window(from_end(self.prg_banks as u32, 1), 16384, addr))
        } else if addr >= 0x8000 {
            Some(window(self.selected_bank as u32, 16384, addr))
        } else {
            None
        }
    }

    fn cpu_write(&mut self, addr: u16, data: u8) -> (result: Option<MapperWriteResult>) {
        if addr >= 0x8000 {
            self.selected_bank = data % 16;
        }
        None
    }

    fn ppu_read(&self, addr: u16) -> (offset: Option<u32>) {
        direct_chr(addr)
    }

    fn ppu_write(&self, addr: u16) -> (offset: Option<u32>) {
        direct_chr(addr)
    }

    fn reset(&mut self) {
        self.selected_bank = 0;
    }

    fn scanline(&mut self) {
    }

    fn cpu_clock(&mut self) {
    }

    fn check_irq(&mut self) -> (irq: bool) {
        false
    }

    fn chr_writable_mask(&self) -> (mask: u8) {
        0
    }
}

/// Mapper 3: fixed program memory and a switchable 8 KiB pattern bank.
#[derive(Debug, Clone, Copy)]
pub struct Mapper3 {
    /// Number of 16 KiB program banks.
    pub prg_banks: u8,
    /// Number of 8 KiB pattern banks; 0 means pattern RAM.
    pub chr_banks: u8,
    /// The pattern bank.
    pub selected_chr_bank: u8,
}

impl Mapper3 {
    /// The registers at power-on.
    pub open spec fn spec_new(prg_banks: u8, chr_banks: u8) -> Mapper3 {
        Mapper3 {
            prg_banks,
            chr_banks,
            selected_chr_bank: 0,
        }
    }

    /// The mapper at power-on, for a cartridge with this many 16 KiB
    /// program banks and 8 KiB pattern banks.
    pub fn new(prg_banks: u8, chr_banks: u8) -> (m: Mapper3)
        ensures
            m == Mapper3::spec_new(prg_banks, chr_banks),
            m.wf(),
    {
        Mapper3 {
            prg_banks,
            chr_banks,
            selected_chr_bank: 0,
        }
    }

    /// Whether a write by the CPU to `addr` reaches a register of the mapper.
    pub open spec fn takes_writes(addr: u16) -> bool {
        addr >= 0x8000
    }

    /// A write to an address that reaches no register changes nothing and
    /// reports nothing.
    pub proof fn lemma_other_writes_do_nothing(self, addr: u16, data: u8)
        requires
            !Mapper3::takes_writes(addr),
        ensures
            self.spec_cpu_write(addr, data) == self,
            self.spec_write_result(addr, data) is None,
    {
    }
}

impl MapperTrait for Mapper3 {
    proof fn lemma_wf_kept(&self, addr: u16, data: u8) {
    }

    open spec fn spec_cpu_read(&self, addr: u16) -> Option<u32> {
        if addr >= 0x8000 {
            if self.prg_banks > 1 {
                Some((addr % 0x8000) as u32)
            } else {
                Some((addr % 0x4000) as u32)
            }
        } else {
            None
        }
    }

    /// A write anywhere from `0x8000` selects the pattern bank with its low two
    /// bits.
    open spec fn spec_cpu_write(&self, addr: u16, data: u8) -> Mapper3 {
        if addr >= 0x8000 {
            Mapper3 { selected_chr_bank: data % 4, ..*self }
        } else {
            *self
        }
    }

    open spec fn spec_write_result(&self, addr: u16, data: u8) -> Option<MapperWriteResult> {
        None
    }

    open spec fn spec_ppu_read(&self, addr: u16) -> Option<u32> {
        if addr < 0x2000 {
            Some(window(self.selected_chr_bank as u32, 8192, addr))
        } else {
            None
        }
    }

    open spec fn spec_ppu_write(&self, addr: u16) -> Option<u32> {
        None
    }

    open spec fn spec_reset(&self) -> Mapper3 {
        Mapper3 { selected_chr_bank: 0, ..*self }
    }

    fn is_well_formed(&self) -> (ok: bool) {
        true
    }

    fn cpu_read(&self, addr: u16) -> (offset: Option<u32>) {
        if addr >= 0x8000 {
            if self.prg_banks > 1 {
                Some((addr % 0x8000) as u32)
            } else {
                Some((addr % 0x4000) as u32)
            }
        } else {
            None
        }
    }

    fn cpu_write(&mut self, addr: u16, data: u8) -> (result: Option<MapperWriteResult>) {
        if addr >= 0x8000 {
            self.selected_chr_bank = data % 4;
        }
        None
    }

    fn ppu_read(&self, addr: u16) -> (offset: Option<u32>) {
        if addr < 0x2000 {
            Some(window(self.selected_chr_bank as u32, 8192, addr))
        } else {
            None
        }
    }

    fn ppu_write(&self, addr: u16) -> (offset: Option<u32>) {
        None
    }

    fn reset(&mut self) {
        self.selected_chr_bank = 0;
    }

    fn scanline(&mut self) {
    }

    fn cpu_clock(&mut self) {
    }

    fn check_irq(&mut self) -> (irq: bool) {
        false
    }

    fn chr_writable_mask(&self) -> (mask: u8) {
        0
    }
}

/// Mapper 7: a switchable 32 KiB program bank and single-screen
/// nametables.
#[derive(Debug, Clone, Copy)]
pub struct Mapper7 {
    /// Number of 16 KiB program banks.
    pub prg_banks: u8,
    /// The 32 KiB bank.
    pub selected_bank: u8,
    pub mirror_mode: MirrorMode,
}

impl Mapper7 {
    /// The registers at power-on.
    pub open spec fn spec_new(prg_banks: u8, chr_banks: u8) -> Mapper7 {
        Mapper7 {
            prg_banks,
            selected_bank: 0,
            mirror_mode: MirrorMode::SingleScreenLow,
        }
    }

    /// The mapper at power-on, for a cartridge with this many 16 KiB
    /// program banks and 8 KiB pattern banks.
    pub fn new(prg_banks: u8, chr_banks: u8) -> (m: Mapper7)
        ensures
            m == Mapper7::spec_new(prg_banks, chr_banks),
            m.wf(),
    {
        Mapper7 {
            prg_banks,
            selected_bank: 0,
            mirror_mode: MirrorMode::SingleScreenLow,
        }
    }

    /// Whether a write by the CPU to `addr` reaches a register of the mapper.
    pub open spec fn takes_writes(addr: u16) -> bool {
        addr >= 0x8000
    }

    /// A write to an address that reaches no register changes nothing and
    /// reports nothing.
    pub proof fn lemma_other_writes_do_nothing(self, addr: u16, data: u8)
        requires
            !Mapper7::takes_writes(addr),
        ensures
            self.spec_cpu_write(addr, data) == self,
            self.spec_write_result(addr, data) is None,
    {
    }
}

impl MapperTrait for Mapper7 {
    proof fn lemma_wf_kept(&self, addr: u16, data: u8) {
    }

    open spec fn spec_cpu_read(&self, addr: u16) -> Option<u32> {
        if addr >= 0x8000 {
            Some(window(self.selected_bank as u32, 32768, addr))
        } else {
            None
        }
    }

    /// A write anywhere from `0x8000`: the low three bits select the bank, bit 4
    /// the nametable.
    open spec fn spec_cpu_write(&self, addr: u16, data: u8) -> Mapper7 {
        if addr >= 0x8000 {
            Mapper7 {
                selected_bank: data % 8,
                mirror_mode: if data & 0x10 != 0 {
                    MirrorMode::SingleScreenHigh
                } else {
                    MirrorMode::SingleScreenLow
                },
                ..*self
            }
        } else {
            *self
        }
    }

    open spec fn spec_write_result(&self, addr: u16, data: u8) -> Option<MapperWriteResult> {
        if addr >= 0x8000 {
            Some(MapperWriteResult::with_mirror(self.spec_cpu_write(addr, data).mirror_mode))
        } else {
            None
        }
    }

    open spec fn spec_ppu_read(&self, addr: u16) -> Option<u32> {
        direct_chr(addr)
    }

    open spec fn spec_ppu_write(&self, addr: u16) -> Option<u32> {
        direct_chr(addr)
    }

    open spec fn spec_reset(&self) -> Mapper7 {
        Mapper7 { selected_bank: 0, mirror_mode: MirrorMode::SingleScreenLow, ..*self }
    }

    fn is_well_formed(&self) -> (ok: bool) {
        true
    }

    fn cpu_read(&self, addr: u16) -> (offset: Option<u32>) {
        if addr >= 0x8000 {
            Some(window(self.selected_bank as u32, 32768, addr))
        } else {
            None
        }
    }

    fn cpu_write(&mut self, addr: u16, data: u8) -> (result: Option<MapperWriteResult>) {
        if addr >= 0x8000 {
            self.selected_bank = data % 8;
            self.mirror_mode = if data & 0x10 != 0 {
                MirrorMode::SingleScreenHigh
            } else {
                MirrorMode::SingleScreenLow
            };
            return Some(MapperWriteResult::with_mirror(self.mirror_mode));
        }
        None
    }

    fn ppu_read(&self, addr: u16) -> (offset: Option<u32>) {
        direct_chr(addr)
    }

    fn ppu_write(&self, addr: u16) -> (offset: Option<u32>) {
        direct_chr(addr)
    }

    fn reset(&mut self) {
        self.selected_bank = 0;
        self.mirror_mode = MirrorMode::SingleScreenLow;
    }

    fn scanline(&mut self) {
    }

    fn cpu_clock(&mut self) {
    }

    fn check_irq(&mut self) -> (irq: bool) {
        false
    }

    fn chr_writable_mask(&self) -> (mask: u8) {
        0
    }
}

/// Mapper 11: a 32 KiB program bank and an 8 KiB pattern bank in one
/// register.
#[derive(Debug, Clone, Copy)]
pub struct Mapper11 {
    /// Number of 16 KiB program banks.
    pub prg_banks: u8,
    /// Number of 8 KiB pattern banks; 0 means pattern RAM.
    pub chr_banks: u8,
    /// The 32 KiB program bank.
    pub prg_bank: u8,
    /// The 8 KiB pattern bank.
    pub chr_bank: u8,
}

impl Mapper11 {
    /// The registers at power-on.
    pub open spec fn spec_new(prg_banks: u8, chr_banks: u8) -> Mapper11 {
        Mapper11 {
            prg_banks,
            chr_banks,
            prg_bank: 0,
            chr_bank: 0,
        }
    }

    /// The mapper at power-on, for a cartridge with this many 16 KiB
    /// program banks and 8 KiB pattern banks.
    pub fn new(prg_banks: u8, chr_banks: u8) -> (m: Mapper11)
        ensures
            m == Mapper11::spec_new(prg_banks, chr_banks),
            m.wf(),
    {
        Mapper11 {
            prg_banks,
            chr_banks,
            prg_bank: 0,
            chr_bank: 0,
        }
    }

    /// Whether a write by the CPU to `addr` reaches a register of the mapper.
    pub open spec fn takes_writes(addr: u16) -> bool {
        addr >= 0x8000
    }

    /// A write to an address that reaches no register changes nothing and
    /// reports nothing.
    pub proof fn lemma_other_writes_do_nothing(self, addr: u16, data: u8)
        requires
            !Mapper11::takes_writes(addr),
        ensures
            self.spec_cpu_write(addr, data) == self,
            self.spec_write_result(addr, data) is None,
    {
    }
}

impl MapperTrait for Mapper11 {
    proof fn lemma_wf_kept(&self, addr: u16, data: u8) {
    }

    open spec fn spec_cpu_read(&self, addr: u16) -> Option<u32> {
        if addr >= 0x8000 {
            Some(window(self.prg_bank as u32 % at_least_one(self.prg_banks as u32), 32768, addr))
        } else {
            None
        }
    }

    /// A write anywhere from `0x8000`: the low two bits select the program
    /// bank, the high four the pattern bank.
    open spec fn spec_cpu_write(&self, addr: u16, data: u8) -> Mapper11 {
        if addr >= 0x8000 {
            Mapper11 {
                prg_bank: data % 4,
                chr_bank: data / 16,
                ..*self
            }
        } else {
            *self
        }
    }

    open spec fn spec_write_result(&self, addr: u16, data: u8) -> Option<MapperWriteResult> {
        None
    }

    open spec fn spec_ppu_read(&self, addr: u16) -> Option<u32> {
        if addr < 0x2000 {
            Some(window(self.chr_bank as u32 % at_least_one(self.chr_banks as u32), 8192, addr))
        } else {
            None
        }
    }

    open spec fn spec_ppu_write(&self, addr: u16) -> Option<u32> {
        None
    }

    open spec fn spec_reset(&self) -> Mapper11 {
        Mapper11 { prg_bank: 0, chr_bank: 0, ..*self }
    }

    fn is_well_formed(&self) -> (ok: bool) {
        true
    }

    fn cpu_read(&self, addr: u16) -> (offset: Option<u32>) {
        if addr >= 0x8000 {
            Some(window(self.prg_bank as u32 % at_least_one(self.prg_banks as u32), 32768, addr))
        } else {
            None
        }
    }

    fn cpu_write(&mut self, addr: u16, data: u8) -> (result: Option<MapperWriteResult>) {
        if addr >= 0x8000 {
            self.prg_bank = data % 4;
            self.chr_bank = data / 16;
        }
        None
    }

    fn ppu_read(&self, addr: u16) -> (offset: Option<u32>) {
        if addr < 0x2000 {
            Some(window(self.chr_bank as u32 % at_least_one(self.chr_banks as u32), 8192, addr))
        } else {
            None
        }
    }

    fn ppu_write(&self, addr: u16) -> (offset: Option<u32>) {
        None
    }

    fn reset(&mut self) {
        self.prg_bank = 0;
        self.chr_bank = 0;
    }

    fn scanline(&mut self) {
    }

    fn cpu_clock(&mut self) {
    }

    fn check_irq(&mut self) -> (irq: bool) {
        false
    }

    fn chr_writable_mask(&self) -> (mask: u8) {
        0
    }
}

/// Mapper 66: a 32 KiB program bank and an 8 KiB pattern bank in one
/// register.
#[derive(Debug, Clone, Copy)]
pub struct Mapper66 {
    /// Number of 16 KiB program banks.
    pub prg_banks: u8,
    /// Number of 8 KiB pattern banks; 0 means pattern RAM.
    pub chr_banks: u8,
    /// The 32 KiB program bank.
    pub prg_bank: u8,
    /// The 8 KiB pattern bank.
    pub chr_bank: u8,
}

impl Mapper66 {
    /// The registers at power-on.
    pub open spec fn spec_new(prg_banks: u8, chr_banks: u8) -> Mapper66 {
        Mapper66 {
            prg_banks,
            chr_banks,
            prg_bank: 0,
            chr_bank: 0,
        }
    }

    /// The mapper at power-on, for a cartridge with this many 16 KiB
    /// program banks and 8 KiB pattern banks.
    pub fn new(prg_banks: u8, chr_banks: u8) -> (m: Mapper66)
        ensures
            m == Mapper66::spec_new(prg_banks, chr_banks),
            m.wf(),
    {
        Mapper66 {
            prg_banks,
            chr_banks,
            prg_bank: 0,
            chr_bank: 0,
        }
    }

    /// Whether a write by the CPU to `addr` reaches a register of the mapper.
    pub open spec fn takes_writes(addr: u16) -> bool {
        addr >= 0x8000
    }

    /// A write to an address that reaches no register changes nothing and
    /// reports nothing.
    pub proof fn lemma_other_writes_do_nothing(self, addr: u16, data: u8)
        requires
            !Mapper66::takes_writes(addr),
        ensures
            self.spec_cpu_write(addr, data) == self,
            self.spec_write_result(addr, data) is None,
    {
    }
}

impl MapperTrait for Mapper66 {
    proof fn lemma_wf_kept(&self, addr: u16, data: u8) {
    }

    open spec fn spec_cpu_read(&self, addr: u16) -> Option<u32> {
        if addr >= 0x8000 {
            Some(window(self.prg_bank as u32 % at_least_one(self.prg_banks as u32), 32768, addr))
        } else {
            None
        }
    }

    /// A write anywhere from `0x8000`: bits 5-4 select the program bank, the low
    /// two bits the pattern bank.
    open spec fn spec_cpu_write(&self, addr: u16, data: u8) -> Mapper66 {
        if addr >= 0x8000 {
            Mapper66 {
                prg_bank: (data / 16) % 4,
                chr_bank: data % 4,
                ..*self
            }
        } else {
            *self
        }
    }

    open spec fn spec_write_result(&self, addr: u16, data: u8) -> Option<MapperWriteResult> {
        None
    }

    open spec fn spec_ppu_read(&self, addr: u16) -> Option<u32> {
        if addr < 0x2000 {
            Some(window(self.chr_bank as u32 % at_least_one(self.chr_banks as u32), 8192, addr))
        } else {
            None
        }
    }

    open spec fn spec_ppu_write(&self, addr: u16) -> Option<u32> {
        None
    }

    open spec fn spec_reset(&self) -> Mapper66 {
        Mapper66 { prg_bank: 0, chr_bank: 0, ..*self }
    }

    fn is_well_formed(&self) -> (ok: bool) {
        true
    }

    fn cpu_read(&self, addr: u16) -> (offset: Option<u32>) {
        if addr >= 0x8000 {
            Some(window(self.prg_bank as u32 % at_least_one(self.prg_banks as u32), 32768, addr))
        } else {
            None
        }
    }

    fn cpu_write(&mut self, addr: u16, data: u8) -> (result: Option<MapperWriteResult>) {
        if addr >= 0x8000 {
            self.prg_bank = (data / 16) % 4;
            self.chr_bank = data % 4;
        }
        None
    }

    fn ppu_read(&self, addr: u16) -> (offset: Option<u32>) {
        if addr < 0x2000 {
            Some(window(self.chr_bank as u32 % at_least_one(self.chr_banks as u32), 8192, addr))
        } else {
            None
        }
    }

    fn ppu_write(&self, addr: u16) -> (offset: Option<u32>) {
        None
    }

    fn reset(&mut self) {
        self.prg_bank = 0;
        self.chr_bank = 0;
    }

    fn scanline(&mut self) {
    }

    fn cpu_clock(&mut self) {
    }

    fn check_irq(&mut self) -> (irq: bool) {
        false
    }

    fn chr_writable_mask(&self) -> (mask: u8) {
        0
    }
}

/// Mapper 71: like mapper 2, with a register for single-screen nametables.
#[derive(Debug, Clone, Copy)]
pub struct Mapper71 {
    /// Number of 16 KiB program banks.
    pub prg_banks: u8,
    /// The bank at `0x8000`.
    pub selected_bank: u8,
    pub mirror_mode: MirrorMode,
}

impl Mapper71 {
    /// The registers at power-on.
    pub open spec fn spec_new(prg_banks: u8, chr_banks: u8) -> Mapper71 {
        Mapper71 {
            prg_banks,
            selected_bank: 0,
            mirror_mode: MirrorMode::Horizontal,
        }
    }

    /// The mapper at power-on, for a cartridge with this many 16 KiB
    /// program banks and 8 KiB pattern banks.
    pub fn new(prg_banks: u8, chr_banks: u8) -> (m: Mapper71)
        ensures
            m == Mapper71::spec_new(prg_banks, chr_banks),
            m.wf(),
    {
        Mapper71 {
            prg_banks,
            selected_bank: 0,
            mirror_mode: MirrorMode::Horizontal,
        }
    }

    /// Whether a write by the CPU to `addr` reaches a register of the mapper.
    pub open spec fn takes_writes(addr: u16) -> bool {
        (addr >= 0x9000 && addr < 0xA000) || addr >= 0xC000
    }

    /// A write to an address that reaches no register changes nothing and
    /// reports nothing.
    pub proof fn lemma_other_writes_do_nothing(self, addr: u16, data: u8)
        requires
            !Mapper71::takes_writes(addr),
        ensures
            self.spec_cpu_write(addr, data) == self,
            self.spec_write_result(addr, data) is None,
    {
    }
}

impl MapperTrait for Mapper71 {
    proof fn lemma_wf_kept(&self, addr: u16, data: u8) {
    }

    open spec fn spec_cpu_read(&self, addr: u16) -> Option<u32> {
        if addr >= 0xC000 {
            Some(window(from_end(self.prg_banks as u32, 1), 16384, addr))
        } else if addr >= 0x8000 {
            Some(window(self.selected_bank as u32, 16384, addr))
        } else {
            None
        }
    }

    /// A write from `0x9000` to `0x9FFF` selects the nametable with bit 4; a
    /// write from `0xC000` selects the bank with its low four bits.
    open spec fn spec_cpu_write(&self, addr: u16, data: u8) -> Mapper71 {
        if addr >= 0x9000 && addr < 0xA000 {
            Mapper71 {
                mirror_mode: if data & 0x10 != 0 {
                    MirrorMode::SingleScreenHigh
                } else {
                    MirrorMode::SingleScreenLow
                },
                ..*self
            }
        } else if addr >= 0xC000 {
            Mapper71 { selected_bank: data % 16, ..*self }
        } else {
            *self
        }
    }

    open spec fn spec_write_result(&self, addr: u16, data: u8) -> Option<MapperWriteResult> {
        if addr >= 0x9000 && addr < 0xA000 {
            Some(MapperWriteResult::with_mirror(self.spec_cpu_write(addr, data).mirror_mode))
        } else {
            None
        }
    }

    open spec fn spec_ppu_read(&self, addr: u16) -> Option<u32> {
        direct_chr(addr)
    }

    open spec fn spec_ppu_write(&self, addr: u16) -> Option<u32> {
        direct_chr(addr)
    }

    open spec fn spec_reset(&self) -> Mapper71 {
        Mapper71 { selected_bank: 0, ..*self }
    }

    fn is_well_formed(&self) -> (ok: bool) {
        true
    }

    fn cpu_read(&self, addr: u16) -> (offset: Option<u32>) {
        if addr >= 0xC000 {
            Some(window(from_end(self.prg_banks as u32, 1), 16384, addr))
        } else if addr >= 0x8000 {
            Some(window(self.selected_bank as u32, 16384, addr))
        } else {
            None
        }
    }

    fn cpu_write(&mut self, addr: u16, data: u8) -> (result: Option<MapperWriteResult>) {
        if addr >= 0x9000 && addr < 0xA000 {
            self.mirror_mode = if data & 0x10 != 0 {
                MirrorMode::SingleScreenHigh
            } else {
                MirrorMode::SingleScreenLow
            };
            return Some(MapperWriteResult::with_mirror(self.mirror_mode));
        } else if addr >= 0xC000 {
            self.selected_bank = data % 16;
        }
        None
    }

    fn ppu_read(&self, addr: u16) -> (offset: Option<u32>) {
        direct_chr(addr)
    }

    fn ppu_write(&self, addr: u16) -> (offset: Option<u32>) {
        direct_chr(addr)
    }

    fn reset(&mut self) {
        self.selected_bank = 0;
    }

    fn scanline(&mut self) {
    }

    fn cpu_clock(&mut self) {
    }

    fn check_irq(&mut self) -> (irq: bool) {
        false
    }

    fn chr_writable_mask(&self) -> (mask: u8) {
        0
    }
}

/// Mapper 113: program and pattern banks and the mirroring in one register
/// below the usual range.
#[derive(Debug, Clone, Copy)]
pub struct Mapper113 {
    /// Number of 16 KiB program banks.
    pub prg_banks: u8,
    /// Number of 8 KiB pattern banks; 0 means pattern RAM.
    pub chr_banks: u8,
    /// The 32 KiB program bank.
    pub prg_bank: u8,
    /// The 8 KiB pattern bank.
    pub chr_bank: u8,
    pub mirror_mode: MirrorMode,
}

impl Mapper113 {
    /// The registers at power-on.
    pub open spec fn spec_new(prg_banks: u8, chr_banks: u8) -> Mapper113 {
        Mapper113 {
            prg_banks,
            chr_banks,
            prg_bank: 0,
            chr_bank: 0,
            mirror_mode: MirrorMode::Vertical,
        }
    }

    /// The mapper at power-on, for a cartridge with this many 16 KiB
    /// program banks and 8 KiB pattern banks.
    pub fn new(prg_banks: u8, chr_banks: u8) -> (m: Mapper113)
        ensures
            m == Mapper113::spec_new(prg_banks, chr_banks),
            m.wf(),
    {
        Mapper113 {
            prg_banks,
            chr_banks,
            prg_bank: 0,
            chr_bank: 0,
            mirror_mode: MirrorMode::Vertical,
        }
    }

    /// Whether a write by the CPU to `addr` reaches a register of the mapper.
    pub open spec fn takes_writes(addr: u16) -> bool {
        addr >= 0x4100 && addr < 0x6000
    }

    /// A write to an address that reaches no register changes nothing and
    /// reports nothing.
    pub proof fn lemma_other_writes_do_nothing(self, addr: u16, data: u8)
        requires
            !Mapper113::takes_writes(addr),
        ensures
            self.spec_cpu_write(addr, data) == self,
            self.spec_write_result(addr, data) is None,
    {
    }
}

impl MapperTrait for Mapper113 {
    proof fn lemma_wf_kept(&self, addr: u16, data: u8) {
    }

    open spec fn spec_cpu_read(&self, addr: u16) -> Option<u32> {
        if addr >= 0x8000 {
            Some(window(self.prg_bank as u32 % at_least_one(self.prg_banks as u32), 32768, addr))
        } else {
            None
        }
    }

    /// A write from `0x4100` to `0x5FFF`: bits 5-3 select the program bank, bits
    /// 2-0 with bit 6 on top the pattern bank, bit 7 vertical mirroring.
    open spec fn spec_cpu_write(&self, addr: u16, data: u8) -> Mapper113 {
        if addr >= 0x4100 && addr < 0x6000 {
            Mapper113 {
                prg_bank: (data / 8) % 8,
                chr_bank: (data % 8 + ((data / 64) % 2) * 8) as u8,
                mirror_mode: if data >= 128 {
                    MirrorMode::Vertical
                } else {
                    MirrorMode::Horizontal
                },
                ..*self
            }
        } else {
            *self
        }
    }

    open spec fn spec_write_result(&self, addr: u16, data: u8) -> Option<MapperWriteResult> {
        if addr >= 0x4100 && addr < 0x6000 {
            Some(MapperWriteResult::with_mirror(self.spec_cpu_write(addr, data).mirror_mode))
        } else {
            None
        }
    }

    open spec fn spec_ppu_read(&self, addr: u16) -> Option<u32> {
        if addr < 0x2000 {
            Some(window(self.chr_bank as u32 % at_least_one(self.chr_banks as u32), 8192, addr))
        } else {
            None
        }
    }

    open spec fn spec_ppu_write(&self, addr: u16) -> Option<u32> {
        None
    }

    open spec fn spec_reset(&self) -> Mapper113 {
        Mapper113 { prg_bank: 0, chr_bank: 0, ..*self }
    }

    fn is_well_formed(&self) -> (ok: bool) {
        true
    }

    fn cpu_read(&self, addr: u16) -> (offset: Option<u32>) {
        if addr >= 0x8000 {
            Some(window(self.prg_bank as u32 % at_least_one(self.prg_banks as u32), 32768, addr))
        } else {
            None
        }
    }

    fn cpu_write(&mut self, addr: u16, data: u8) -> (result: Option<MapperWriteResult>) {
        if addr >= 0x4100 && addr < 0x6000 {
            self.prg_bank = (data / 8) % 8;
            self.chr_bank = (data % 8 + ((data / 64) % 2) * 8) as u8;
            self.mirror_mode = if data >= 128 {
                    MirrorMode::Vertical
                } else {
                    MirrorMode::Horizontal
                };
            return Some(MapperWriteResult::with_mirror(self.mirror_mode));
        }
        None
    }

    fn ppu_read(&self, addr: u16) -> (offset: Option<u32>) {
        if addr < 0x2000 {
            Some(window(self.chr_bank as u32 % at_least_one(self.chr_banks as u32), 8192, addr))
        } else {
            None
        }
    }

    fn ppu_write(&self, addr: u16) -> (offset: Option<u32>) {
        None
    }

    fn reset(&mut self) {
        self.prg_bank = 0;
        self.chr_bank = 0;
    }

    fn scanline(&mut self) {
    }

    fn cpu_clock(&mut self) {
    }

    fn check_irq(&mut self) -> (irq: bool) {
        false
    }

    fn chr_writable_mask(&self) -> (mask: u8) {
        0
    }
}

} // verus!
