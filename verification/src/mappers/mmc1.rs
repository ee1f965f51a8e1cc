//! Mapper 1, the serial-shift mapper.

use vstd::prelude::*;
use crate::ppu::MirrorMode;
use crate::mappers::{
    MapperTrait, MapperWriteResult, at_least_one, direct_chr_ram, from_end, units, window,
};

verus! {

/// Mapper 1: registers that are written one bit at a time through a
/// five-bit shift register.
#[derive(Debug, Clone, Copy)]
pub struct Mapper1 {
    /// Number of 16 KiB program banks.
    pub prg_banks: u8,
    /// Number of 8 KiB pattern banks; 0 means pattern RAM.
    pub chr_banks: u8,
    /// The shift register; the bit that marks its fifth write starts at bit 4.
    pub shift_register: u8,
    /// Bits 1-0 mirroring, bits 3-2 program bank mode, bit 4 pattern bank mode.
    pub control: u8,
    pub chr_bank0: u8,
    pub chr_bank1: u8,
    pub prg_bank: u8,
}

impl Mapper1 {
    /// The registers at power-on.
    pub open spec fn spec_new(prg_banks: u8, chr_banks: u8) -> Mapper1 {
        Mapper1 {
            prg_banks,
            chr_banks,
            shift_register: 0x10,
            control: 0x0C,
            chr_bank0: 0,
            chr_bank1: 0,
            prg_bank: 0,
        }
    }

    /// The mapper at power-on, for a cartridge with this many 16 KiB
    /// program banks and 8 KiB pattern banks.
    pub fn new(prg_banks: u8, chr_banks: u8) -> (m: Mapper1)
        ensures
            m == Mapper1::spec_new(prg_banks, chr_banks),
            m.wf(),
    {
        Mapper1 {
            prg_banks,
            chr_banks,
            shift_register: 0x10,
            control: 0x0C,
            chr_bank0: 0,
            chr_bank1: 0,
            prg_bank: 0,
        }
    }

    /// The arrangement that the low two bits of the control register select.
    pub open spec fn spec_mirror(control: u8) -> MirrorMode {
        if control % 4 == 0 {
            MirrorMode::SingleScreenLow
        } else if control % 4 == 1 {
            MirrorMode::SingleScreenHigh
        } else if control % 4 == 2 {
            MirrorMode::Vertical
        } else {
            MirrorMode::Horizontal
        }
    }

    /// The shift register after it took bit 0 of `data` in at the top.
    pub open spec fn spec_shifted(self, data: u8) -> u8 {
        (self.shift_register >> 1) | ((data & 0x01) << 4)
    }

    /// Whether the next write is the fifth, which fills a register.
    pub open spec fn spec_completes(self) -> bool {
        self.shift_register % 2 == 1
    }

    /// Whether a write by the CPU to `addr` reaches a register of the mapper.
    pub open spec fn takes_writes(addr: u16) -> bool {
        addr >= 0x8000
    }

    /// A write to an address that reaches no register changes nothing and
    /// reports nothing.
    pub proof fn lemma_other_writes_do_nothing(self, addr: u16, data: u8)
        requires
            !Mapper1::takes_writes(addr),
        ensures
            self.spec_cpu_write(addr, data) == self,
            self.spec_write_result(addr, data) is None,
    {
    }
}

impl MapperTrait for Mapper1 {
    proof fn lemma_wf_kept(&self, addr: u16, data: u8) {
    }

    /// Program bank mode 0 and 1: one 32 KiB bank, the bank number taken even.
    /// Mode 2: the first bank fixed at `0x8000`, the selected one at `0xC000`.
    /// Mode 3: the selected bank at `0x8000`, the last one fixed at `0xC000`.
    open spec fn spec_cpu_read(&self, addr: u16) -> Option<u32> {
        if addr < 0x8000 {
            None
        } else if (self.control / 4) % 4 <= 1 {
            Some(window(((self.prg_bank % 16) / 2) as u32, 32768, addr))
        } else if (self.control / 4) % 4 == 2 {
            if addr < 0xC000 {
                Some(window(0, 16384, addr))
            } else {
                Some(window(self.prg_bank as u32, 16384, addr))
            }
        } else {
            if addr < 0xC000 {
                Some(window(self.prg_bank as u32, 16384, addr))
            } else {
                Some(window(from_end(self.prg_banks as u32, 1), 16384, addr))
            }
        }
    }

    /// A write from `0x8000` with bit 7 set clears the shift register and fixes
    /// the last bank. Any other shifts bit 0 in; the fifth such write moves
    /// the five bits into the register that bits 14-13 of the address select.
    open spec fn spec_cpu_write(&self, addr: u16, data: u8) -> Mapper1 {
        if addr < 0x8000 {
            *self
        } else if data >= 128 {
            Mapper1 { shift_register: 0x10, control: self.control | 0x0C, ..*self }
        } else if self.spec_completes() {
            let value = self.spec_shifted(data);
            let target = (addr / 0x2000) % 4;
            Mapper1 {
                shift_register: 0x10,
                control: if target == 0 {
                    value
                } else {
                    self.control
                },
                chr_bank0: if target == 1 {
                    value
                } else {
                    self.chr_bank0
                },
                chr_bank1: if target == 2 {
                    value
                } else {
                    self.chr_bank1
                },
                prg_bank: if target == 3 {
                    value % 16
                } else {
                    self.prg_bank
                },
                ..*self
            }
        } else {
            Mapper1 { shift_register: self.spec_shifted(data), ..*self }
        }
    }

    open spec fn spec_write_result(&self, addr: u16, data: u8) -> Option<MapperWriteResult> {
        if addr >= 0x8000 && data < 128 && self.spec_completes() {
            Some(
                MapperWriteResult::with_mirror(
                    Mapper1::spec_mirror(self.spec_cpu_write(addr, data).control),
                ),
            )
        } else {
            None
        }
    }

    /// Pattern bank mode 0: one 8 KiB bank, the bank number taken even. Mode 1:
    /// two 4 KiB banks.
    open spec fn spec_ppu_read(&self, addr: u16) -> Option<u32> {
        if addr >= 0x2000 {
            None
        } else if (self.control / 16) % 2 == 0 {
            Some(
                (((self.chr_bank0 % 32) / 2 * 2) as u32 % at_least_one(units(self.chr_banks, 2))
                    * 4096 + addr as u32) as u32,
            )
        } else if addr < 0x1000 {
            Some(window(self.chr_bank0 as u32 % at_least_one(units(self.chr_banks, 2)), 4096, addr))
        } else {
            Some(window(self.chr_bank1 as u32 % at_least_one(units(self.chr_banks, 2)), 4096, addr))
        }
    }

    open spec fn spec_ppu_write(&self, addr: u16) -> Option<u32> {
        direct_chr_ram(addr, self.chr_banks)
    }

    open spec fn spec_reset(&self) -> Mapper1 {
        Mapper1 {
            shift_register: 0x10,
            control: 0x0C,
            chr_bank0: 0,
            chr_bank1: 0,
            prg_bank: 0,
            ..*self
        }
    }

    fn is_well_formed(&self) -> (ok: bool) {
        true
    }

    fn cpu_read(&self, addr: u16) -> (offset: Option<u32>) {
        if addr < 0x8000 {
            None
        } else if (self.control / 4) % 4 <= 1 {
            Some(window(((self.prg_bank % 16) / 2) as u32, 32768, addr))
        } else if (self.control / 4) % 4 == 2 {
            if addr < 0xC000 {
                Some(window(0, 16384, addr))
            } else {
                Some(window(self.prg_bank as u32, 16384, addr))
            }
        } else {
            if addr < 0xC000 {
                Some(window(self.prg_bank as u32, 16384, addr))
            } else {
                Some(window(from_end(self.prg_banks as u32, 1), 16384, addr))
            }
        }
    }

    fn cpu_write(&mut self, addr: u16, data: u8) -> (result: Option<MapperWriteResult>) {
        if addr >= 0x8000 {
            if data >= 128 {
                self.shift_register = 0x10;
                self.control = self.control | 0x0C;
                return None;
            }
            let complete = self.shift_register % 2 == 1;
            self.shift_register = (self.shift_register >> 1) | ((data & 0x01) << 4);
            if complete {
                let target = (addr / 0x2000) % 4;
                let value = self.shift_register;
                if target == 0 {
                    self.control = value;
                } else if target == 1 {
                    self.chr_bank0 = value;
                } else if target == 2 {
                    self.chr_bank1 = value;
                } else {
                    self.prg_bank = value % 16;
                }
                self.shift_register = 0x10;
                let mirror = if self.control % 4 == 0 {
                    MirrorMode::SingleScreenLow
                } else if self.control % 4 == 1 {
                    MirrorMode::SingleScreenHigh
                } else if self.control % 4 == 2 {
                    MirrorMode::Vertical
                } else {
                    MirrorMode::Horizontal
                };
                return Some(MapperWriteResult::with_mirror(mirror));
            }
        }
        None
    }

    fn ppu_read(&self, addr: u16) -> (offset: Option<u32>) {
        if addr >= 0x2000 {
            None
        } else if (self.control / 16) % 2 == 0 {
            Some(
                (((self.chr_bank0 % 32) / 2 * 2) as u32 % at_least_one(units(self.chr_banks, 2))
                    * 4096 + addr as u32) as u32,
            )
        } else if addr < 0x1000 {
            Some(window(self.chr_bank0 as u32 % at_least_one(units(self.chr_banks, 2)), 4096, addr))
        } else {
            Some(window(self.chr_bank1 as u32 % at_least_one(units(self.chr_banks, 2)), 4096, addr))
        }
    }

    fn ppu_write(&self, addr: u16) -> (offset: Option<u32>) {
        direct_chr_ram(addr, self.chr_banks)
    }

    fn reset(&mut self) {
        self.shift_register = 0x10;
        self.control = 0x0C;
        self.chr_bank0 = 0;
        self.chr_bank1 = 0;
        self.prg_bank = 0;
    }

    fn scanline(&mut self) {
    }

    fn cpu_clock(&mut self) {
    }

    fn check_irq(&mut self) -> (irq: bool) {
        false
    }

    fn chr_writable_mask(&self) -> (mask: u8) {
        0
    }
}

} // verus!
