//! Mapper 4 and its variant 245: bank registers behind a select register,
//! and a scanline counter.

use vstd::prelude::*;
use crate::ppu::MirrorMode;
use crate::mappers::{
    MapperTrait, MapperWriteResult, at_least_one, direct_chr, direct_chr_ram, from_end,
    set_register, units, window, zero_registers,
};

verus! {

/// Mapper 4: two switchable 8 KiB program banks beside two fixed ones, six
/// pattern banks of 2 KiB and 1 KiB, and a scanline counter that
/// interrupts.
#[derive(Debug, Clone, Copy)]
pub struct Mapper4 {
    /// Number of 16 KiB program banks.
    pub prg_banks: u8,
    /// Number of 8 KiB pattern banks; 0 means pattern RAM.
    pub chr_banks: u8,
    /// The bank registers R0 to R7.
    pub registers: [u8; 8],
    /// Which bank register the next data write goes to, 0 to 7.
    pub bank_select: u8,
    /// The switchable program bank R6 is at `0xC000` instead of `0x8000`.
    pub prg_rom_bank_mode: bool,
    /// The two halves of the pattern range are exchanged.
    pub chr_a12_inversion: bool,
    pub mirror_mode: MirrorMode,
    /// Scanlines left until the interrupt.
    pub irq_counter: u8,
    /// The value the counter is reloaded with.
    pub irq_latch: u8,
    pub irq_enabled: bool,
    /// The counter is to be reloaded at the next scanline.
    pub irq_reload: bool,
    pub irq_pending: bool,
}

impl Mapper4 {
    /// The registers at power-on.
    pub open spec fn spec_new(prg_banks: u8, chr_banks: u8) -> Mapper4 {
        Mapper4 {
            prg_banks,
            chr_banks,
            registers: zero_registers(),
            bank_select: 0,
            prg_rom_bank_mode: false,
            chr_a12_inversion: false,
            mirror_mode: MirrorMode::Vertical,
            irq_counter: 0,
            irq_latch: 0,
            irq_enabled: false,
            irq_reload: false,
            irq_pending: false,
        }
    }

    /// The mapper at power-on, for a cartridge with this many 16 KiB
    /// program banks and 8 KiB pattern banks.
    pub fn new(prg_banks: u8, chr_banks: u8) -> (m: Mapper4)
        ensures
            m == Mapper4::spec_new(prg_banks, chr_banks),
            m.wf(),
    {
        Mapper4 {
            prg_banks,
            chr_banks,
            registers: zero_registers(),
            bank_select: 0,
            prg_rom_bank_mode: false,
            chr_a12_inversion: false,
            mirror_mode: MirrorMode::Vertical,
            irq_counter: 0,
            irq_latch: 0,
            irq_enabled: false,
            irq_reload: false,
            irq_pending: false,
        }
    }

    /// The 8 KiB program bank at a CPU address from `0x8000`: R6 and the
    /// second-last bank share `0x8000` and `0xC000`, exchanged by the bank
    /// mode; R7 is at `0xA000`; the last bank is at `0xE000`.
    pub open spec fn spec_get_prg_bank(self, addr: u16) -> u32 {
        let place = (addr / 0x2000) % 4;
        if place == 1 {
            (self.registers[7] % 64) as u32
        } else if place == 3 {
            from_end(units(self.prg_banks, 2), 1)
        } else if self.prg_rom_bank_mode == (place == 0) {
            from_end(units(self.prg_banks, 2), 2)
        } else {
            (self.registers[6] % 64) as u32
        }
    }

    /// The 1 KiB pattern bank at a PPU address below `0x2000`. Without
    /// inversion R0 and R1 each give a pair of banks, an even one and the
    /// next, in the lower half, and R2 to R5 one bank each in the upper
    /// half; inversion exchanges the halves.
    pub open spec fn spec_get_chr_bank(self, addr: u16) -> u32 {
        let region = (addr / 1024) % 8;
        let place = if self.chr_a12_inversion {
            (region + 4) % 8
        } else {
            region as int
        };
        if place < 4 {
            (self.registers[place / 2] - self.registers[place / 2] % 2 + place % 2) as u32
        } else {
            self.registers[place - 2] as u32
        }
    }

    /// The 8 KiB program bank at a CPU address from `0x8000`: R6 and the
    /// second-last bank share `0x8000` and `0xC000`, exchanged by the bank
    /// mode; R7 is at `0xA000`; the last bank is at `0xE000`.
    pub fn get_prg_bank(&self, addr: u16) -> (bank: u32)
        requires
            addr >= 0x8000,
        ensures
            bank == self.spec_get_prg_bank(addr),
            bank <= 0xFFFF,
    {
        let place = (addr / 0x2000) % 4;
        if place == 1 {
            (self.registers[7] % 64) as u32
        } else if place == 3 {
            from_end(units(self.prg_banks, 2), 1)
        } else if self.prg_rom_bank_mode == (place == 0) {
            from_end(units(self.prg_banks, 2), 2)
        } else {
            (self.registers[6] % 64) as u32
        }
    }

    /// The 1 KiB pattern bank at a PPU address below `0x2000`. Without
    /// inversion R0 and R1 each give a pair of banks, an even one and the
    /// next, in the lower half, and R2 to R5 one bank each in the upper
    /// half; inversion exchanges the halves.
    pub fn get_chr_bank(&self, addr: u16) -> (bank: u32)
        requires
            addr < 0x2000,
        ensures
            bank == self.spec_get_chr_bank(addr),
            bank <= 0xFFFF,
    {
        let region: usize = ((addr / 1024) % 8) as usize;
        let place: usize = if self.chr_a12_inversion {
            (region + 4) % 8
        } else {
            region
        };
        if place < 4 {
            let pair = self.registers[place / 2];
            (pair - pair % 2) as u32 + (place % 2) as u32
        } else {
            self.registers[place - 2] as u32
        }
    }

    /// Whether a write by the CPU to `addr` reaches a register of the mapper.
    pub open spec fn takes_writes(addr: u16) -> bool {
        addr >= 0x8000
    }

    /// A write to an address that reaches no register changes nothing and
    /// reports nothing.
    pub proof fn lemma_other_writes_do_nothing(self, addr: u16, data: u8)
        requires
            !Mapper4::takes_writes(addr),
        ensures
            self.spec_cpu_write(addr, data) == self,
            self.spec_write_result(addr, data) is None,
    {
    }

    /// An interrupt that the mapper asserts stays asserted until it is
    /// taken notice of; neither a scanline nor a CPU cycle withdraws it.
    pub proof fn lemma_irq_stays_until_polled(self)
        requires
            self.spec_irq(),
        ensures
            self.spec_scanline().spec_irq(),
            self.spec_cpu_clock().spec_irq(),
            !self.spec_check_irq().spec_irq(),
    {
    }
}

impl MapperTrait for Mapper4 {
    open spec fn wf(&self) -> bool {
        self.bank_select < 8
    }

    proof fn lemma_wf_kept(&self, addr: u16, data: u8) {
    }

    open spec fn spec_cpu_read(&self, addr: u16) -> Option<u32> {
        if addr >= 0x8000 {
            Some(window(self.spec_get_prg_bank(addr), 8192, addr))
        } else {
            None
        }
    }

    /// The registers come in four pairs, at even and odd addresses of each
    /// quarter of the range from `0x8000`: bank select and bank data, mirroring,
    /// interrupt latch and reload, interrupt disable and enable.
    open spec fn spec_cpu_write(&self, addr: u16, data: u8) -> Mapper4 {
        let place = (addr / 0x2000) % 4;
        let even = addr % 2 == 0;
        if addr < 0x8000 {
            *self
        } else if place == 0 && even {
            Mapper4 {
                bank_select: data % 8,
                prg_rom_bank_mode: data & 0x40 != 0,
                chr_a12_inversion: data >= 128,
                ..*self
            }
        } else if place == 0 {
            Mapper4 {
                registers: vstd::array::spec_array_update(
                    self.registers,
                    self.bank_select as int,
                    data,
                ),
                ..*self
            }
        } else if place == 1 && even {
            Mapper4 {
                mirror_mode: if data % 2 == 1 {
                    MirrorMode::Horizontal
                } else {
                    MirrorMode::Vertical
                },
                ..*self
            }
        } else if place == 1 {
            *self
        } else if place == 2 && even {
            Mapper4 { irq_latch: data, ..*self }
        } else if place == 2 {
            Mapper4 { irq_reload: true, ..*self }
        } else if even {
            Mapper4 { irq_enabled: false, irq_pending: false, ..*self }
        } else {
            Mapper4 { irq_enabled: true, ..*self }
        }
    }

    open spec fn spec_write_result(&self, addr: u16, data: u8) -> Option<MapperWriteResult> {
        if addr >= 0xA000 && addr < 0xC000 && addr % 2 == 0 {
            Some(MapperWriteResult::with_mirror(self.spec_cpu_write(addr, data).mirror_mode))
        } else {
            None
        }
    }

    open spec fn spec_ppu_read(&self, addr: u16) -> Option<u32> {
        if addr < 0x2000 {
            Some(window(self.spec_get_chr_bank(addr), 1024, addr))
        } else {
            None
        }
    }

    open spec fn spec_ppu_write(&self, addr: u16) -> Option<u32> {
        direct_chr_ram(addr, self.chr_banks)
    }

    open spec fn spec_reset(&self) -> Mapper4 {
        Mapper4::spec_new(self.prg_banks, self.chr_banks)
    }

    /// The scanline counter is reloaded from the latch when it is zero or a
    /// reload is due, else it counts down; at zero it asserts the interrupt
    /// if that is enabled.
    open spec fn spec_scanline(&self) -> Mapper4 {
        let counter = if self.irq_counter == 0 || self.irq_reload {
            self.irq_latch
        } else {
            (self.irq_counter - 1) as u8
        };
        Mapper4 {
            irq_counter: counter,
            irq_reload: false,
            irq_pending: self.irq_pending || (counter == 0 && self.irq_enabled),
            ..*self
        }
    }

    open spec fn spec_irq(&self) -> bool {
        self.irq_pending
    }

    open spec fn spec_check_irq(&self) -> Mapper4 {
        Mapper4 { irq_pending: false, ..*self }
    }

    fn is_well_formed(&self) -> (ok: bool) {
        self.bank_select < 8
    }

    fn cpu_read(&self, addr: u16) -> (offset: Option<u32>) {
        if addr >= 0x8000 {
            Some(window(self.get_prg_bank(addr), 8192, addr))
        } else {
            None
        }
    }

    fn cpu_write(&mut self, addr: u16, data: u8) -> (result: Option<MapperWriteResult>) {
        if addr >= 0x8000 {
            let even = addr % 2 == 0;
            let place = (addr / 0x2000) % 4;
            if place == 0 {
                if even {
                    self.bank_select = data % 8;
                    self.prg_rom_bank_mode = (data & 0x40) != 0;
                    self.chr_a12_inversion = data >= 128;
                } else {
                    set_register(&mut self.registers, self.bank_select as usize, data);
                }
            } else if place == 1 {
                if even {
                    self.mirror_mode = if data % 2 == 1 {
                        MirrorMode::Horizontal
                    } else {
                        MirrorMode::Vertical
                    };
                    return Some(MapperWriteResult::with_mirror(self.mirror_mode));
                }
            } else if place == 2 {
                if even {
                    self.irq_latch = data;
                } else {
                    self.irq_reload = true;
                }
            } else {
                if even {
                    self.irq_enabled = false;
                    self.irq_pending = false;
                } else {
                    self.irq_enabled = true;
                }
            }
        }
        None
    }

    fn ppu_read(&self, addr: u16) -> (offset: Option<u32>) {
        if addr < 0x2000 {
            Some(window(self.get_chr_bank(addr), 1024, addr))
        } else {
            None
        }
    }

    fn ppu_write(&self, addr: u16) -> (offset: Option<u32>) {
        direct_chr_ram(addr, self.chr_banks)
    }

    fn reset(&mut self) {
        self.registers = zero_registers();
        self.bank_select = 0;
        self.prg_rom_bank_mode = false;
        self.chr_a12_inversion = false;
        self.mirror_mode = MirrorMode::Vertical;
        self.irq_counter = 0;
        self.irq_latch = 0;
        self.irq_enabled = false;
        self.irq_reload = false;
        self.irq_pending = false;
    }

    fn scanline(&mut self) {
        if self.irq_counter == 0 || self.irq_reload {
            self.irq_counter = self.irq_latch;
            self.irq_reload = false;
        } else {
            self.irq_counter = self.irq_counter - 1;
        }
        if self.irq_counter == 0 && self.irq_enabled {
            self.irq_pending = true;
        }
    }

    fn cpu_clock(&mut self) {
    }

    fn check_irq(&mut self) -> (irq: bool) {
        let pending = self.irq_pending;
        self.irq_pending = false;
        pending
    }

    fn chr_writable_mask(&self) -> (mask: u8) {
        0
    }
}

/// Mapper 245: a variant of mapper 4 with pattern RAM, in which bit 1 of
/// the first bank register supplies a high bit of the program bank.
#[derive(Debug, Clone, Copy)]
pub struct Mapper245 {
    /// Number of 16 KiB program banks.
    pub prg_banks: u8,
    /// Number of 8 KiB pattern banks; 0 means pattern RAM.
    pub chr_banks: u8,
    /// The bank registers.
    pub bank_regs: [u8; 8],
    /// Bits 2-0 select the bank register written next; bit 6 is the bank mode.
    pub bank_select: u8,
    pub mirror_mode: MirrorMode,
    /// Scanlines left until the interrupt.
    pub irq_counter: u8,
    /// The value the counter is reloaded with.
    pub irq_latch: u8,
    pub irq_enabled: bool,
    /// The counter is to be reloaded at the next scanline.
    pub irq_reload: bool,
    pub irq_pending: bool,
    /// `0x40` if bit 1 of the first bank register is set, else 0.
    pub prg_high_bit: u8,
}

impl Mapper245 {
    /// The registers at power-on.
    pub open spec fn spec_new(prg_banks: u8, chr_banks: u8) -> Mapper245 {
        Mapper245 {
            prg_banks,
            chr_banks,
            bank_regs: zero_registers(),
            bank_select: 0,
            mirror_mode: MirrorMode::Vertical,
            irq_counter: 0,
            irq_latch: 0,
            irq_enabled: false,
            irq_reload: false,
            irq_pending: false,
            prg_high_bit: 0,
        }
    }

    /// The mapper at power-on, for a cartridge with this many 16 KiB
    /// program banks and 8 KiB pattern banks.
    pub fn new(prg_banks: u8, chr_banks: u8) -> (m: Mapper245)
        ensures
            m == Mapper245::spec_new(prg_banks, chr_banks),
            m.wf(),
    {
        Mapper245 {
            prg_banks,
            chr_banks,
            bank_regs: zero_registers(),
            bank_select: 0,
            mirror_mode: MirrorMode::Vertical,
            irq_counter: 0,
            irq_latch: 0,
            irq_enabled: false,
            irq_reload: false,
            irq_pending: false,
            prg_high_bit: 0,
        }
    }

    /// A switchable 8 KiB program bank: a bank register with the high bit
    /// put on top, within the banks there are.
    pub open spec fn spec_switchable(self, reg: int) -> u32 {
        (self.bank_regs[reg] | self.prg_high_bit) as u32 % at_least_one(units(self.prg_banks, 2))
    }

    fn switchable(&self, reg: usize) -> (bank: u32)
        requires
            reg < 8,
        ensures
            bank == self.spec_switchable(reg as int),
            bank <= 0xFFFF,
    {
        (self.bank_regs[reg] | self.prg_high_bit) as u32 % at_least_one(units(self.prg_banks, 2))
    }

    /// Whether a write by the CPU to `addr` reaches a register of the mapper.
    pub open spec fn takes_writes(addr: u16) -> bool {
        addr >= 0x8000
    }

    /// A write to an address that reaches no register changes nothing and
    /// reports nothing.
    pub proof fn lemma_other_writes_do_nothing(self, addr: u16, data: u8)
        requires
            !Mapper245::takes_writes(addr),
        ensures
            self.spec_cpu_write(addr, data) == self,
            self.spec_write_result(addr, data) is None,
    {
    }

    /// An interrupt that the mapper asserts stays asserted until it is
    /// taken notice of; neither a scanline nor a CPU cycle withdraws it.
    pub proof fn lemma_irq_stays_until_polled(self)
        requires
            self.spec_irq(),
        ensures
            self.spec_scanline().spec_irq(),
            self.spec_cpu_clock().spec_irq(),
            !self.spec_check_irq().spec_irq(),
    {
    }
}

impl MapperTrait for Mapper245 {
    proof fn lemma_wf_kept(&self, addr: u16, data: u8) {
    }

    /// As in mapper 4: register 6 and the second-last bank share `0x8000` and
    /// `0xC000`, exchanged by bit 6 of the bank select; register 7 is at
    /// `0xA000`; the last bank is at `0xE000`.
    open spec fn spec_cpu_read(&self, addr: u16) -> Option<u32> {
        let place = (addr / 0x2000) % 4;
        if addr < 0x8000 {
            None
        } else if place == 1 {
            Some(window(self.spec_switchable(7), 8192, addr))
        } else if place == 3 {
            Some(window(from_end(units(self.prg_banks, 2), 1), 8192, addr))
        } else if (self.bank_select & 0x40 != 0) == (place == 0) {
            Some(window(from_end(units(self.prg_banks, 2), 2), 8192, addr))
        } else {
            Some(window(self.spec_switchable(6), 8192, addr))
        }
    }

    /// The register pairs of mapper 4. A write to the first bank register
    /// also sets the high program bit from bit 1 of the data.
    open spec fn spec_cpu_write(&self, addr: u16, data: u8) -> Mapper245 {
        let place = (addr / 0x2000) % 4;
        let odd = addr % 2 == 1;
        if addr < 0x8000 {
            *self
        } else if place == 0 && odd {
            Mapper245 {
                bank_regs: vstd::array::spec_array_update(
                    self.bank_regs,
                    self.bank_select as int % 8,
                    data,
                ),
                prg_high_bit: if self.bank_select % 8 != 0 {
                    self.prg_high_bit
                } else if data & 0x02 != 0 {
                    0x40
                } else {
                    0
                },
                ..*self
            }
        } else if place == 0 {
            Mapper245 { bank_select: data, ..*self }
        } else if place == 1 && !odd {
            Mapper245 {
                mirror_mode: if data % 2 == 1 {
                    MirrorMode::Horizontal
                } else {
                    MirrorMode::Vertical
                },
                ..*self
            }
        } else if place == 1 {
            *self
        } else if place == 2 && odd {
            Mapper245 { irq_reload: true, ..*self }
        } else if place == 2 {
            Mapper245 { irq_latch: data, ..*self }
        } else if odd {
            Mapper245 { irq_enabled: true, ..*self }
        } else {
            Mapper245 { irq_enabled: false, irq_pending: false, ..*self }
        }
    }

    open spec fn spec_write_result(&self, addr: u16, data: u8) -> Option<MapperWriteResult> {
        if addr >= 0xA000 && addr < 0xC000 && addr % 2 == 0 {
            Some(MapperWriteResult::with_mirror(self.spec_cpu_write(addr, data).mirror_mode))
        } else {
            None
        }
    }

    open spec fn spec_ppu_read(&self, addr: u16) -> Option<u32> {
        direct_chr(addr)
    }

    open spec fn spec_ppu_write(&self, addr: u16) -> Option<u32> {
        direct_chr(addr)
    }

    open spec fn spec_reset(&self) -> Mapper245 {
        Mapper245 {
            mirror_mode: self.mirror_mode,
            ..Mapper245::spec_new(self.prg_banks, self.chr_banks)
        }
    }

    /// The scanline counter is reloaded from the latch when it is zero or a
    /// reload is due, else it counts down; at zero it asserts the interrupt
    /// if that is enabled.
    open spec fn spec_scanline(&self) -> Mapper245 {
        let counter = if self.irq_counter == 0 || self.irq_reload {
            self.irq_latch
        } else {
            (self.irq_counter - 1) as u8
        };
        Mapper245 {
            irq_counter: counter,
            irq_reload: false,
            irq_pending: self.irq_pending || (counter == 0 && self.irq_enabled),
            ..*self
        }
    }

    open spec fn spec_irq(&self) -> bool {
        self.irq_pending
    }

    open spec fn spec_check_irq(&self) -> Mapper245 {
        Mapper245 { irq_pending: false, ..*self }
    }

    fn is_well_formed(&self) -> (ok: bool) {
        true
    }

    fn cpu_read(&self, addr: u16) -> (offset: Option<u32>) {
        let place = (addr / 0x2000) % 4;
        if addr < 0x8000 {
            None
        } else if place == 1 {
            Some(window(self.switchable(7), 8192, addr))
        } else if place == 3 {
            Some(window(from_end(units(self.prg_banks, 2), 1), 8192, addr))
        } else if (self.bank_select & 0x40 != 0) == (place == 0) {
            Some(window(from_end(units(self.prg_banks, 2), 2), 8192, addr))
        } else {
            Some(window(self.switchable(6), 8192, addr))
        }
    }

    fn cpu_write(&mut self, addr: u16, data: u8) -> (result: Option<MapperWriteResult>) {
        if addr >= 0x8000 {
            let odd = addr % 2 == 1;
            let place = (addr / 0x2000) % 4;
            if place == 0 {
                if odd {
                    let reg: usize = (self.bank_select % 8) as usize;
                    set_register(&mut self.bank_regs, reg, data);
                    if reg == 0 {
                        self.prg_high_bit = if data & 0x02 != 0 {
                            0x40
                        } else {
                            0
                        };
                    }
                } else {
                    self.bank_select = data;
                }
            } else if place == 1 {
                if !odd {
                    self.mirror_mode = if data % 2 == 1 {
                        MirrorMode::Horizontal
                    } else {
                        MirrorMode::Vertical
                    };
                    return Some(MapperWriteResult::with_mirror(self.mirror_mode));
                }
            } else if place == 2 {
                if odd {
                    self.irq_reload = true;
                } else {
                    self.irq_latch = data;
                }
            } else {
                if odd {
                    self.irq_enabled = true;
                } else {
                    self.irq_enabled = false;
                    self.irq_pending = false;
                }
            }
        }
        None
    }

    fn ppu_read(&self, addr: u16) -> (offset: Option<u32>) {
        direct_chr(addr)
    }

    fn ppu_write(&self, addr: u16) -> (offset: Option<u32>) {
        direct_chr(addr)
    }

    fn reset(&mut self) {
        self.bank_regs = zero_registers();
        self.bank_select = 0;
        self.irq_counter = 0;
        self.irq_latch = 0;
        self.irq_enabled = false;
        self.irq_reload = false;
        self.irq_pending = false;
        self.prg_high_bit = 0;
    }

    fn scanline(&mut self) {
        if self.irq_counter == 0 || self.irq_reload {
            self.irq_counter = self.irq_latch;
            self.irq_reload = false;
        } else {
            self.irq_counter = self.irq_counter - 1;
        }
        if self.irq_counter == 0 && self.irq_enabled {
            self.irq_pending = true;
        }
    }

    fn cpu_clock(&mut self) {
    }

    fn check_irq(&mut self) -> (irq: bool) {
        let pending = self.irq_pending;
        self.irq_pending = false;
        pending
    }

    fn chr_writable_mask(&self) -> (mask: u8) {
        0
    }
}

} // verus!
