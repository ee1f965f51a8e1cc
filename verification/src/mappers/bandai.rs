//! Mapper 16.

use vstd::prelude::*;
use crate::ppu::MirrorMode;
use crate::mappers::{
    MapperTrait, MapperWriteResult, at_least_one, from_end, mirror_from_bits, set_register,
    units, window, zero_registers,
};

verus! {

/// Mapper 16: a 16 KiB program bank, eight 1 KiB pattern banks, and a
/// counter of CPU cycles that interrupts when it runs out.
#[derive(Debug, Clone, Copy)]
pub struct Mapper16 {
    /// Number of 16 KiB program banks.
    pub prg_banks: u8,
    /// Number of 8 KiB pattern banks; 0 means pattern RAM.
    pub chr_banks: u8,
    /// The pattern bank of each 1 KiB window.
    pub chr_bank_regs: [u8; 8],
    /// The bank at `0x8000`.
    pub prg_bank: u8,
    /// CPU cycles left; the interrupt is asserted while it is below zero.
    pub irq_counter: i32,
    /// The value the counter starts from.
    pub irq_latch: u16,
    pub irq_enabled: bool,
    pub irq_pending: bool,
    pub mirror_mode: MirrorMode,
}

impl Mapper16 {
    /// The registers at power-on.
    pub open spec fn spec_new(prg_banks: u8, chr_banks: u8) -> Mapper16 {
        Mapper16 {
            prg_banks,
            chr_banks,
            chr_bank_regs: zero_registers(),
            prg_bank: 0,
            irq_counter: 0,
            irq_latch: 0,
            irq_enabled: false,
            irq_pending: false,
            mirror_mode: MirrorMode::Vertical,
        }
    }

    /// The mapper at power-on, for a cartridge with this many 16 KiB
    /// program banks and 8 KiB pattern banks.
    pub fn new(prg_banks: u8, chr_banks: u8) -> (m: Mapper16)
        ensures
            m == Mapper16::spec_new(prg_banks, chr_banks),
            m.wf(),
    {
        Mapper16 {
            prg_banks,
            chr_banks,
            chr_bank_regs: zero_registers(),
            prg_bank: 0,
            irq_counter: 0,
            irq_latch: 0,
            irq_enabled: false,
            irq_pending: false,
            mirror_mode: MirrorMode::Vertical,
        }
    }

    /// Whether a write by the CPU to `addr` reaches a register of the mapper.
    pub open spec fn takes_writes(addr: u16) -> bool {
        addr >= 0x6000
    }

    /// A write to an address that reaches no register changes nothing and
    /// reports nothing.
    pub proof fn lemma_other_writes_do_nothing(self, addr: u16, data: u8)
        requires
            !Mapper16::takes_writes(addr),
        ensures
            self.spec_cpu_write(addr, data) == self,
            self.spec_write_result(addr, data) is None,
    {
    }

    /// An interrupt that the mapper asserts stays asserted until it is
    /// taken notice of; neither a scanline nor a CPU cycle withdraws it.
    pub proof fn lemma_irq_stays_until_polled(self)
        requires
            self.spec_irq(),
        ensures
            self.spec_scanline().spec_irq(),
            self.spec_cpu_clock().spec_irq(),
            !self.spec_check_irq().spec_irq(),
    {
    }
}

impl MapperTrait for Mapper16 {
    proof fn lemma_wf_kept(&self, addr: u16, data: u8) {
    }

    open spec fn spec_cpu_read(&self, addr: u16) -> Option<u32> {
        if addr >= 0xC000 {
            Some(window(from_end(self.prg_banks as u32, 1), 16384, addr))
        } else if addr >= 0x8000 {
            Some(window(self.prg_bank as u32 % at_least_one(self.prg_banks as u32), 16384, addr))
        } else {
            None
        }
    }

    /// The registers are at every address from `0x6000`, selected by its low
    /// four bits: 0 to 7 the pattern banks, 8 the program bank, 9 the
    /// mirroring, 10 starts or stops the counter from the latch and withdraws
    /// the interrupt, 11 and 12 are the low and high byte of the latch.
    open spec fn spec_cpu_write(&self, addr: u16, data: u8) -> Mapper16 {
        let reg = addr % 16;
        if addr < 0x6000 {
            *self
        } else if reg < 8 {
            Mapper16 {
                chr_bank_regs: vstd::array::spec_array_update(self.chr_bank_regs, reg as int, data),
                ..*self
            }
        } else if reg == 8 {
            Mapper16 { prg_bank: data % 16, ..*self }
        } else if reg == 9 {
            Mapper16 { mirror_mode: mirror_from_bits(data), ..*self }
        } else if reg == 0x0A {
            Mapper16 {
                irq_enabled: data % 2 == 1,
                irq_counter: self.irq_latch as i32,
                irq_pending: false,
                ..*self
            }
        } else if reg == 0x0B {
            Mapper16 { irq_latch: (self.irq_latch & 0xFF00) | data as u16, ..*self }
        } else if reg == 0x0C {
            Mapper16 { irq_latch: (self.irq_latch & 0x00FF) | ((data as u16) << 8), ..*self }
        } else {
            *self
        }
    }

    open spec fn spec_write_result(&self, addr: u16, data: u8) -> Option<MapperWriteResult> {
        if addr >= 0x6000 && addr % 16 == 9 {
            Some(MapperWriteResult::with_mirror(self.spec_cpu_write(addr, data).mirror_mode))
        } else {
            None
        }
    }

    open spec fn spec_ppu_read(&self, addr: u16) -> Option<u32> {
        if addr < 0x2000 {
            Some(
                window(
                    self.chr_bank_regs[(addr / 1024) as int] as u32 % at_least_one(
                        units(self.chr_banks, 8),
                    ),
                    1024,
                    addr,
                ),
            )
        } else {
            None
        }
    }

    open spec fn spec_ppu_write(&self, addr: u16) -> Option<u32> {
        None
    }

    open spec fn spec_reset(&self) -> Mapper16 {
        Mapper16 {
            mirror_mode: self.mirror_mode,
            ..Mapper16::spec_new(self.prg_banks, self.chr_banks)
        }
    }

    /// While the counter is enabled it counts down by one per CPU cycle, not
    /// below the least value it can hold, and asserts the interrupt while it
    /// is below zero.
    open spec fn spec_cpu_clock(&self) -> Mapper16 {
        if !self.irq_enabled {
            *self
        } else {
            let counter: i32 = if self.irq_counter > i32::MIN {
                (self.irq_counter - 1) as i32
            } else {
                self.irq_counter
            };
            Mapper16 {
                irq_counter: counter,
                irq_pending: self.irq_pending || counter < 0,
                ..*self
            }
        }
    }

    open spec fn spec_irq(&self) -> bool {
        self.irq_pending
    }

    open spec fn spec_check_irq(&self) -> Mapper16 {
        Mapper16 { irq_pending: false, ..*self }
    }

    fn is_well_formed(&self) -> (ok: bool) {
        true
    }

    fn cpu_read(&self, addr: u16) -> (offset: Option<u32>) {
        if addr >= 0xC000 {
            Some(window(from_end(self.prg_banks as u32, 1), 16384, addr))
        } else if addr >= 0x8000 {
            Some(window(self.prg_bank as u32 % at_least_one(self.prg_banks as u32), 16384, addr))
        } else {
            None
        }
    }

    fn cpu_write(&mut self, addr: u16, data: u8) -> (result: Option<MapperWriteResult>) {
        if addr < 0x6000 {
            return None;
        }
        let reg = addr % 16;
        if reg < 8 {
            set_register(&mut self.chr_bank_regs, reg as usize, data);
        } else if reg == 8 {
            self.prg_bank = data % 16;
        } else if reg == 9 {
            self.mirror_mode = mirror_from_bits(data);
            return Some(MapperWriteResult::with_mirror(self.mirror_mode));
        } else if reg == 0x0A {
            self.irq_enabled = data % 2 == 1;
            self.irq_counter = self.irq_latch as i32;
            self.irq_pending = false;
        } else if reg == 0x0B {
            self.irq_latch = (self.irq_latch & 0xFF00) | data as u16;
        } else if reg == 0x0C {
            self.irq_latch = (self.irq_latch & 0x00FF) | ((data as u16) << 8);
        }
        None
    }

    fn ppu_read(&self, addr: u16) -> (offset: Option<u32>) {
        if addr < 0x2000 {
            Some(
                window(
                    self.chr_bank_regs[(addr / 1024) as usize] as u32 % at_least_one(
                        units(self.chr_banks, 8),
                    ),
                    1024,
                    addr,
                ),
            )
        } else {
            None
        }
    }

    fn ppu_write(&self, addr: u16) -> (offset: Option<u32>) {
        None
    }

    fn reset(&mut self) {
        self.chr_bank_regs = zero_registers();
        self.prg_bank = 0;
        self.irq_counter = 0;
        self.irq_latch = 0;
        self.irq_enabled = false;
        self.irq_pending = false;
    }

    fn scanline(&mut self) {
    }

    fn cpu_clock(&mut self) {
        if self.irq_enabled {
            if self.irq_counter > i32::MIN {
                self.irq_counter = self.irq_counter - 1;
            }
            if self.irq_counter < 0 {
                self.irq_pending = true;
            }
        }
    }

    fn check_irq(&mut self) -> (irq: bool) {
        let pending = self.irq_pending;
        self.irq_pending = false;
        pending
    }

    fn chr_writable_mask(&self) -> (mask: u8) {
        0
    }
}

} // verus!
