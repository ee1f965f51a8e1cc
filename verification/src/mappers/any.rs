//! Any one of the supported mappers, chosen by the number in the cartridge
//! header.

use vstd::prelude::*;
use crate::mappers::{MapperTrait, MapperWriteResult};
use crate::mappers::{
    Mapper0, Mapper1, Mapper11, Mapper113, Mapper15, Mapper16, Mapper2, Mapper202, Mapper225,
    Mapper227, Mapper23, Mapper245, Mapper253, Mapper3, Mapper4, Mapper66, Mapper7, Mapper71,
};

verus! {

/// A mapper of one of the supported kinds.
#[derive(Debug, Clone, Copy)]
pub enum Mapper {
    /// Mapper 0: no bank switching.
    M0(Mapper0),
    /// Mapper 1: serial shift register.
    M1(Mapper1),
    /// Mapper 2: switchable low program bank.
    M2(Mapper2),
    /// Mapper 3: switchable pattern bank.
    M3(Mapper3),
    /// Mapper 4: bank registers and scanline counter.
    M4(Mapper4),
    /// Mapper 7: 32 KiB program bank, single screen.
    M7(Mapper7),
    /// Mapper 11: program and pattern bank in one register.
    M11(Mapper11),
    /// Mapper 15: multicart with four layouts.
    M15(Mapper15),
    /// Mapper 16: cycle counter.
    M16(Mapper16),
    /// Mapper 23: nibble-wise registers and cycle counter.
    M23(Mapper23),
    /// Mapper 66: program and pattern bank in one register.
    M66(Mapper66),
    /// Mapper 71: switchable low program bank, single screen.
    M71(Mapper71),
    /// Mapper 113: register below the usual range.
    M113(Mapper113),
    /// Mapper 202: multicart.
    M202(Mapper202),
    /// Mapper 225: multicart.
    M225(Mapper225),
    /// Mapper 227: multicart.
    M227(Mapper227),
    /// Mapper 245: variant of 4 with pattern RAM.
    M245(Mapper245),
    /// Mapper 253: variant of 23 with RAM windows.
    M253(Mapper253),
}

/// Whether a mapper number is one of the supported ones.
pub open spec fn supported(mapper_id: u8) -> bool {
    mapper_id <= 4 || mapper_id == 7 || mapper_id == 11 || mapper_id == 15 || mapper_id == 16
        || mapper_id == 23 || mapper_id == 66 || mapper_id == 71 || mapper_id == 113
        || mapper_id == 202 || mapper_id == 225 || mapper_id == 227 || mapper_id == 245
        || mapper_id == 253
}

/// The mapper for a mapper number at power-on. A number that is not
/// supported gets mapper 0, so that the cartridge can still be tried.
pub open spec fn spec_create_mapper(mapper_id: u8, prg_banks: u8, chr_banks: u8) -> Mapper {
    if mapper_id == 1 {
        Mapper::M1(Mapper1::spec_new(prg_banks, chr_banks))
    } else if mapper_id == 2 {
        Mapper::M2(Mapper2::spec_new(prg_banks, chr_banks))
    } else if mapper_id == 3 {
        Mapper::M3(Mapper3::spec_new(prg_banks, chr_banks))
    } else if mapper_id == 4 {
        Mapper::M4(Mapper4::spec_new(prg_banks, chr_banks))
    } else if mapper_id == 7 {
        Mapper::M7(Mapper7::spec_new(prg_banks, chr_banks))
    } else if mapper_id == 11 {
        Mapper::M11(Mapper11::spec_new(prg_banks, chr_banks))
    } else if mapper_id == 15 {
        Mapper::M15(Mapper15::spec_new(prg_banks, chr_banks))
    } else if mapper_id == 16 {
        Mapper::M16(Mapper16::spec_new(prg_banks, chr_banks))
    } else if mapper_id == 23 {
        Mapper::M23(Mapper23::spec_new(prg_banks, chr_banks))
    } else if mapper_id == 66 {
        Mapper::M66(Mapper66::spec_new(prg_banks, chr_banks))
    } else if mapper_id == 71 {
        Mapper::M71(Mapper71::spec_new(prg_banks, chr_banks))
    } else if mapper_id == 113 {
        Mapper::M113(Mapper113::spec_new(prg_banks, chr_banks))
    } else if mapper_id == 202 {
        Mapper::M202(Mapper202::spec_new(prg_banks, chr_banks))
    } else if mapper_id == 225 {
        Mapper::M225(Mapper225::spec_new(prg_banks, chr_banks))
    } else if mapper_id == 227 {
        Mapper::M227(Mapper227::spec_new(prg_banks, chr_banks))
    } else if mapper_id == 245 {
        Mapper::M245(Mapper245::spec_new(prg_banks, chr_banks))
    } else if mapper_id == 253 {
        Mapper::M253(Mapper253::spec_new(prg_banks, chr_banks))
    } else {
        Mapper::M0(Mapper0::spec_new(prg_banks, chr_banks))
    }
}

/// Makes the mapper that a cartridge header asks for.
pub fn create_mapper(mapper_id: u8, prg_banks: u8, chr_banks: u8) -> (mapper: Mapper)
    ensures
        mapper == spec_create_mapper(mapper_id, prg_banks, chr_banks),
        mapper.wf(),
{
    match mapper_id {
        1 => Mapper::M1(Mapper1::new(prg_banks, chr_banks)),
        2 => Mapper::M2(Mapper2::new(prg_banks, chr_banks)),
        3 => Mapper::M3(Mapper3::new(prg_banks, chr_banks)),
        4 => Mapper::M4(Mapper4::new(prg_banks, chr_banks)),
        7 => Mapper::M7(Mapper7::new(prg_banks, chr_banks)),
        11 => Mapper::M11(Mapper11::new(prg_banks, chr_banks)),
        15 => Mapper::M15(Mapper15::new(prg_banks, chr_banks)),
        16 => Mapper::M16(Mapper16::new(prg_banks, chr_banks)),
        23 => Mapper::M23(Mapper23::new(prg_banks, chr_banks)),
        66 => Mapper::M66(Mapper66::new(prg_banks, chr_banks)),
        71 => Mapper::M71(Mapper71::new(prg_banks, chr_banks)),
        113 => Mapper::M113(Mapper113::new(prg_banks, chr_banks)),
        202 => Mapper::M202(Mapper202::new(prg_banks, chr_banks)),
        225 => Mapper::M225(Mapper225::new(prg_banks, chr_banks)),
        227 => Mapper::M227(Mapper227::new(prg_banks, chr_banks)),
        245 => Mapper::M245(Mapper245::new(prg_banks, chr_banks)),
        253 => Mapper::M253(Mapper253::new(prg_banks, chr_banks)),
        _ => Mapper::M0(Mapper0::new(prg_banks, chr_banks)),
    }
}

/// A mapper number that is not supported gets the mapper without bank
/// switching.
pub proof fn lemma_unknown_mapper_falls_back(mapper_id: u8, prg_banks: u8, chr_banks: u8)
    requires
        !supported(mapper_id),
    ensures
        spec_create_mapper(mapper_id, prg_banks, chr_banks) == Mapper::M0(
            Mapper0::spec_new(prg_banks, chr_banks),
        ),
{
}

impl MapperTrait for Mapper {
    open spec fn wf(&self) -> bool {
        match *self {
            Mapper::M0(m) => m.wf(),
            Mapper::M1(m) => m.wf(),
            Mapper::M2(m) => m.wf(),
            Mapper::M3(m) => m.wf(),
            Mapper::M4(m) => m.wf(),
            Mapper::M7(m) => m.wf(),
            Mapper::M11(m) => m.wf(),
            Mapper::M15(m) => m.wf(),
            Mapper::M16(m) => m.wf(),
            Mapper::M23(m) => m.wf(),
            Mapper::M66(m) => m.wf(),
            Mapper::M71(m) => m.wf(),
            Mapper::M113(m) => m.wf(),
            Mapper::M202(m) => m.wf(),
            Mapper::M225(m) => m.wf(),
            Mapper::M227(m) => m.wf(),
            Mapper::M245(m) => m.wf(),
            Mapper::M253(m) => m.wf(),
        }
    }

    open spec fn spec_cpu_read(&self, addr: u16) -> Option<u32> {
        match *self {
            Mapper::M0(m) => m.spec_cpu_read(addr),
            Mapper::M1(m) => m.spec_cpu_read(addr),
            Mapper::M2(m) => m.spec_cpu_read(addr),
            Mapper::M3(m) => m.spec_cpu_read(addr),
            Mapper::M4(m) => m.spec_cpu_read(addr),
            Mapper::M7(m) => m.spec_cpu_read(addr),
            Mapper::M11(m) => m.spec_cpu_read(addr),
            Mapper::M15(m) => m.spec_cpu_read(addr),
            Mapper::M16(m) => m.spec_cpu_read(addr),
            Mapper::M23(m) => m.spec_cpu_read(addr),
            Mapper::M66(m) => m.spec_cpu_read(addr),
            Mapper::M71(m) => m.spec_cpu_read(addr),
            Mapper::M113(m) => m.spec_cpu_read(addr),
            Mapper::M202(m) => m.spec_cpu_read(addr),
            Mapper::M225(m) => m.spec_cpu_read(addr),
            Mapper::M227(m) => m.spec_cpu_read(addr),
            Mapper::M245(m) => m.spec_cpu_read(addr),
            Mapper::M253(m) => m.spec_cpu_read(addr),
        }
    }

    open spec fn spec_cpu_write(&self, addr: u16, data: u8) -> Mapper {
        match *self {
            Mapper::M0(m) => Mapper::M0(m.spec_cpu_write(addr, data)),
            Mapper::M1(m) => Mapper::M1(m.spec_cpu_write(addr, data)),
            Mapper::M2(m) => Mapper::M2(m.spec_cpu_write(addr, data)),
            Mapper::M3(m) => Mapper::M3(m.spec_cpu_write(addr, data)),
            Mapper::M4(m) => Mapper::M4(m.spec_cpu_write(addr, data)),
            Mapper::M7(m) => Mapper::M7(m.spec_cpu_write(addr, data)),
            Mapper::M11(m) => Mapper::M11(m.spec_cpu_write(addr, data)),
            Mapper::M15(m) => Mapper::M15(m.spec_cpu_write(addr, data)),
            Mapper::M16(m) => Mapper::M16(m.spec_cpu_write(addr, data)),
            Mapper::M23(m) => Mapper::M23(m.spec_cpu_write(addr, data)),
            Mapper::M66(m) => Mapper::M66(m.spec_cpu_write(addr, data)),
            Mapper::M71(m) => Mapper::M71(m.spec_cpu_write(addr, data)),
            Mapper::M113(m) => Mapper::M113(m.spec_cpu_write(addr, data)),
            Mapper::M202(m) => Mapper::M202(m.spec_cpu_write(addr, data)),
            Mapper::M225(m) => Mapper::M225(m.spec_cpu_write(addr, data)),
            Mapper::M227(m) => Mapper::M227(m.spec_cpu_write(addr, data)),
            Mapper::M245(m) => Mapper::M245(m.spec_cpu_write(addr, data)),
            Mapper::M253(m) => Mapper::M253(m.spec_cpu_write(addr, data)),
        }
    }

    open spec fn spec_write_result(&self, addr: u16, data: u8) -> Option<MapperWriteResult> {
        match *self {
            Mapper::M0(m) => m.spec_write_result(addr, data),
            Mapper::M1(m) => m.spec_write_result(addr, data),
            Mapper::M2(m) => m.spec_write_result(addr, data),
            Mapper::M3(m) => m.spec_write_result(addr, data),
            Mapper::M4(m) => m.spec_write_result(addr, data),
            Mapper::M7(m) => m.spec_write_result(addr, data),
            Mapper::M11(m) => m.spec_write_result(addr, data),
            Mapper::M15(m) => m.spec_write_result(addr, data),
            Mapper::M16(m) => m.spec_write_result(addr, data),
            Mapper::M23(m) => m.spec_write_result(addr, data),
            Mapper::M66(m) => m.spec_write_result(addr, data),
            Mapper::M71(m) => m.spec_write_result(addr, data),
            Mapper::M113(m) => m.spec_write_result(addr, data),
            Mapper::M202(m) => m.spec_write_result(addr, data),
            Mapper::M225(m) => m.spec_write_result(addr, data),
            Mapper::M227(m) => m.spec_write_result(addr, data),
            Mapper::M245(m) => m.spec_write_result(addr, data),
            Mapper::M253(m) => m.spec_write_result(addr, data),
        }
    }

    open spec fn spec_ppu_read(&self, addr: u16) -> Option<u32> {
        match *self {
            Mapper::M0(m) => m.spec_ppu_read(addr),
            Mapper::M1(m) => m.spec_ppu_read(addr),
            Mapper::M2(m) => m.spec_ppu_read(addr),
            Mapper::M3(m) => m.spec_ppu_read(addr),
            Mapper::M4(m) => m.spec_ppu_read(addr),
            Mapper::M7(m) => m.spec_ppu_read(addr),
            Mapper::M11(m) => m.spec_ppu_read(addr),
            Mapper::M15(m) => m.spec_ppu_read(addr),
            Mapper::M16(m) => m.spec_ppu_read(addr),
            Mapper::M23(m) => m.spec_ppu_read(addr),
            Mapper::M66(m) => m.spec_ppu_read(addr),
            Mapper::M71(m) => m.spec_ppu_read(addr),
            Mapper::M113(m) => m.spec_ppu_read(addr),
            Mapper::M202(m) => m.spec_ppu_read(addr),
            Mapper::M225(m) => m.spec_ppu_read(addr),
            Mapper::M227(m) => m.spec_ppu_read(addr),
            Mapper::M245(m) => m.spec_ppu_read(addr),
            Mapper::M253(m) => m.spec_ppu_read(addr),
        }
    }

    open spec fn spec_ppu_write(&self, addr: u16) -> Option<u32> {
        match *self {
            Mapper::M0(m) => m.spec_ppu_write(addr),
            Mapper::M1(m) => m.spec_ppu_write(addr),
            Mapper::M2(m) => m.spec_ppu_write(addr),
            Mapper::M3(m) => m.spec_ppu_write(addr),
            Mapper::M4(m) => m.spec_ppu_write(addr),
            Mapper::M7(m) => m.spec_ppu_write(addr),
            Mapper::M11(m) => m.spec_ppu_write(addr),
            Mapper::M15(m) => m.spec_ppu_write(addr),
            Mapper::M16(m) => m.spec_ppu_write(addr),
            Mapper::M23(m) => m.spec_ppu_write(addr),
            Mapper::M66(m) => m.spec_ppu_write(addr),
            Mapper::M71(m) => m.spec_ppu_write(addr),
            Mapper::M113(m) => m.spec_ppu_write(addr),
            Mapper::M202(m) => m.spec_ppu_write(addr),
            Mapper::M225(m) => m.spec_ppu_write(addr),
            Mapper::M227(m) => m.spec_ppu_write(addr),
            Mapper::M245(m) => m.spec_ppu_write(addr),
            Mapper::M253(m) => m.spec_ppu_write(addr),
        }
    }

    open spec fn spec_reset(&self) -> Mapper {
        match *self {
            Mapper::M0(m) => Mapper::M0(m.spec_reset()),
            Mapper::M1(m) => Mapper::M1(m.spec_reset()),
            Mapper::M2(m) => Mapper::M2(m.spec_reset()),
            Mapper::M3(m) => Mapper::M3(m.spec_reset()),
            Mapper::M4(m) => Mapper::M4(m.spec_reset()),
            Mapper::M7(m) => Mapper::M7(m.spec_reset()),
            Mapper::M11(m) => Mapper::M11(m.spec_reset()),
            Mapper::M15(m) => Mapper::M15(m.spec_reset()),
            Mapper::M16(m) => Mapper::M16(m.spec_reset()),
            Mapper::M23(m) => Mapper::M23(m.spec_reset()),
            Mapper::M66(m) => Mapper::M66(m.spec_reset()),
            Mapper::M71(m) => Mapper::M71(m.spec_reset()),
            Mapper::M113(m) => Mapper::M113(m.spec_reset()),
            Mapper::M202(m) => Mapper::M202(m.spec_reset()),
            Mapper::M225(m) => Mapper::M225(m.spec_reset()),
            Mapper::M227(m) => Mapper::M227(m.spec_reset()),
            Mapper::M245(m) => Mapper::M245(m.spec_reset()),
            Mapper::M253(m) => Mapper::M253(m.spec_reset()),
        }
    }

    open spec fn spec_scanline(&self) -> Mapper {
        match *self {
            Mapper::M0(m) => Mapper::M0(m.spec_scanline()),
            Mapper::M1(m) => Mapper::M1(m.spec_scanline()),
            Mapper::M2(m) => Mapper::M2(m.spec_scanline()),
            Mapper::M3(m) => Mapper::M3(m.spec_scanline()),
            Mapper::M4(m) => Mapper::M4(m.spec_scanline()),
            Mapper::M7(m) => Mapper::M7(m.spec_scanline()),
            Mapper::M11(m) => Mapper::M11(m.spec_scanline()),
            Mapper::M15(m) => Mapper::M15(m.spec_scanline()),
            Mapper::M16(m) => Mapper::M16(m.spec_scanline()),
            Mapper::M23(m) => Mapper::M23(m.spec_scanline()),
            Mapper::M66(m) => Mapper::M66(m.spec_scanline()),
            Mapper::M71(m) => Mapper::M71(m.spec_scanline()),
            Mapper::M113(m) => Mapper::M113(m.spec_scanline()),
            Mapper::M202(m) => Mapper::M202(m.spec_scanline()),
            Mapper::M225(m) => Mapper::M225(m.spec_scanline()),
            Mapper::M227(m) => Mapper::M227(m.spec_scanline()),
            Mapper::M245(m) => Mapper::M245(m.spec_scanline()),
            Mapper::M253(m) => Mapper::M253(m.spec_scanline()),
        }
    }

    open spec fn spec_cpu_clock(&self) -> Mapper {
        match *self {
            Mapper::M0(m) => Mapper::M0(m.spec_cpu_clock()),
            Mapper::M1(m) => Mapper::M1(m.spec_cpu_clock()),
            Mapper::M2(m) => Mapper::M2(m.spec_cpu_clock()),
            Mapper::M3(m) => Mapper::M3(m.spec_cpu_clock()),
            Mapper::M4(m) => Mapper::M4(m.spec_cpu_clock()),
            Mapper::M7(m) => Mapper::M7(m.spec_cpu_clock()),
            Mapper::M11(m) => Mapper::M11(m.spec_cpu_clock()),
            Mapper::M15(m) => Mapper::M15(m.spec_cpu_clock()),
            Mapper::M16(m) => Mapper::M16(m.spec_cpu_clock()),
            Mapper::M23(m) => Mapper::M23(m.spec_cpu_clock()),
            Mapper::M66(m) => Mapper::M66(m.spec_cpu_clock()),
            Mapper::M71(m) => Mapper::M71(m.spec_cpu_clock()),
            Mapper::M113(m) => Mapper::M113(m.spec_cpu_clock()),
            Mapper::M202(m) => Mapper::M202(m.spec_cpu_clock()),
            Mapper::M225(m) => Mapper::M225(m.spec_cpu_clock()),
            Mapper::M227(m) => Mapper::M227(m.spec_cpu_clock()),
            Mapper::M245(m) => Mapper::M245(m.spec_cpu_clock()),
            Mapper::M253(m) => Mapper::M253(m.spec_cpu_clock()),
        }
    }

    open spec fn spec_irq(&self) -> bool {
        match *self {
            Mapper::M0(m) => m.spec_irq(),
            Mapper::M1(m) => m.spec_irq(),
            Mapper::M2(m) => m.spec_irq(),
            Mapper::M3(m) => m.spec_irq(),
            Mapper::M4(m) => m.spec_irq(),
            Mapper::M7(m) => m.spec_irq(),
            Mapper::M11(m) => m.spec_irq(),
            Mapper::M15(m) => m.spec_irq(),
            Mapper::M16(m) => m.spec_irq(),
            Mapper::M23(m) => m.spec_irq(),
            Mapper::M66(m) => m.spec_irq(),
            Mapper::M71(m) => m.spec_irq(),
            Mapper::M113(m) => m.spec_irq(),
            Mapper::M202(m) => m.spec_irq(),
            Mapper::M225(m) => m.spec_irq(),
            Mapper::M227(m) => m.spec_irq(),
            Mapper::M245(m) => m.spec_irq(),
            Mapper::M253(m) => m.spec_irq(),
        }
    }

    open spec fn spec_check_irq(&self) -> Mapper {
        match *self {
            Mapper::M0(m) => Mapper::M0(m.spec_check_irq()),
            Mapper::M1(m) => Mapper::M1(m.spec_check_irq()),
            Mapper::M2(m) => Mapper::M2(m.spec_check_irq()),
            Mapper::M3(m) => Mapper::M3(m.spec_check_irq()),
            Mapper::M4(m) => Mapper::M4(m.spec_check_irq()),
            Mapper::M7(m) => Mapper::M7(m.spec_check_irq()),
            Mapper::M11(m) => Mapper::M11(m.spec_check_irq()),
            Mapper::M15(m) => Mapper::M15(m.spec_check_irq()),
            Mapper::M16(m) => Mapper::M16(m.spec_check_irq()),
            Mapper::M23(m) => Mapper::M23(m.spec_check_irq()),
            Mapper::M66(m) => Mapper::M66(m.spec_check_irq()),
            Mapper::M71(m) => Mapper::M71(m.spec_check_irq()),
            Mapper::M113(m) => Mapper::M113(m.spec_check_irq()),
            Mapper::M202(m) => Mapper::M202(m.spec_check_irq()),
            Mapper::M225(m) => Mapper::M225(m.spec_check_irq()),
            Mapper::M227(m) => Mapper::M227(m.spec_check_irq()),
            Mapper::M245(m) => Mapper::M245(m.spec_check_irq()),
            Mapper::M253(m) => Mapper::M253(m.spec_check_irq()),
        }
    }

    open spec fn spec_chr_writable_mask(&self) -> u8 {
        match *self {
            Mapper::M0(m) => m.spec_chr_writable_mask(),
            Mapper::M1(m) => m.spec_chr_writable_mask(),
            Mapper::M2(m) => m.spec_chr_writable_mask(),
            Mapper::M3(m) => m.spec_chr_writable_mask(),
            Mapper::M4(m) => m.spec_chr_writable_mask(),
            Mapper::M7(m) => m.spec_chr_writable_mask(),
            Mapper::M11(m) => m.spec_chr_writable_mask(),
            Mapper::M15(m) => m.spec_chr_writable_mask(),
            Mapper::M16(m) => m.spec_chr_writable_mask(),
            Mapper::M23(m) => m.spec_chr_writable_mask(),
            Mapper::M66(m) => m.spec_chr_writable_mask(),
            Mapper::M71(m) => m.spec_chr_writable_mask(),
            Mapper::M113(m) => m.spec_chr_writable_mask(),
            Mapper::M202(m) => m.spec_chr_writable_mask(),
            Mapper::M225(m) => m.spec_chr_writable_mask(),
            Mapper::M227(m) => m.spec_chr_writable_mask(),
            Mapper::M245(m) => m.spec_chr_writable_mask(),
            Mapper::M253(m) => m.spec_chr_writable_mask(),
        }
    }

    proof fn lemma_wf_kept(&self, addr: u16, data: u8) {
        match *self {
            Mapper::M0(m) => m.lemma_wf_kept(addr, data),
            Mapper::M1(m) => m.lemma_wf_kept(addr, data),
            Mapper::M2(m) => m.lemma_wf_kept(addr, data),
            Mapper::M3(m) => m.lemma_wf_kept(addr, data),
            Mapper::M4(m) => m.lemma_wf_kept(addr, data),
            Mapper::M7(m) => m.lemma_wf_kept(addr, data),
            Mapper::M11(m) => m.lemma_wf_kept(addr, data),
            Mapper::M15(m) => m.lemma_wf_kept(addr, data),
            Mapper::M16(m) => m.lemma_wf_kept(addr, data),
            Mapper::M23(m) => m.lemma_wf_kept(addr, data),
            Mapper::M66(m) => m.lemma_wf_kept(addr, data),
            Mapper::M71(m) => m.lemma_wf_kept(addr, data),
            Mapper::M113(m) => m.lemma_wf_kept(addr, data),
            Mapper::M202(m) => m.lemma_wf_kept(addr, data),
            Mapper::M225(m) => m.lemma_wf_kept(addr, data),
            Mapper::M227(m) => m.lemma_wf_kept(addr, data),
            Mapper::M245(m) => m.lemma_wf_kept(addr, data),
            Mapper::M253(m) => m.lemma_wf_kept(addr, data),
        }
    }

    fn is_well_formed(&self) -> (ok: bool) {
        match self {
            Mapper::M0(m) => m.is_well_formed(),
            Mapper::M1(m) => m.is_well_formed(),
            Mapper::M2(m) => m.is_well_formed(),
            Mapper::M3(m) => m.is_well_formed(),
            Mapper::M4(m) => m.is_well_formed(),
            Mapper::M7(m) => m.is_well_formed(),
            Mapper::M11(m) => m.is_well_formed(),
            Mapper::M15(m) => m.is_well_formed(),
            Mapper::M16(m) => m.is_well_formed(),
            Mapper::M23(m) => m.is_well_formed(),
            Mapper::M66(m) => m.is_well_formed(),
            Mapper::M71(m) => m.is_well_formed(),
            Mapper::M113(m) => m.is_well_formed(),
            Mapper::M202(m) => m.is_well_formed(),
            Mapper::M225(m) => m.is_well_formed(),
            Mapper::M227(m) => m.is_well_formed(),
            Mapper::M245(m) => m.is_well_formed(),
            Mapper::M253(m) => m.is_well_formed(),
        }
    }

    fn cpu_read(&self, addr: u16) -> (offset: Option<u32>) {
        match self {
            Mapper::M0(m) => m.cpu_read(addr),
            Mapper::M1(m) => m.cpu_read(addr),
            Mapper::M2(m) => m.cpu_read(addr),
            Mapper::M3(m) => m.cpu_read(addr),
            Mapper::M4(m) => m.cpu_read(addr),
            Mapper::M7(m) => m.cpu_read(addr),
            Mapper::M11(m) => m.cpu_read(addr),
            Mapper::M15(m) => m.cpu_read(addr),
            Mapper::M16(m) => m.cpu_read(addr),
            Mapper::M23(m) => m.cpu_read(addr),
            Mapper::M66(m) => m.cpu_read(addr),
            Mapper::M71(m) => m.cpu_read(addr),
            Mapper::M113(m) => m.cpu_read(addr),
            Mapper::M202(m) => m.cpu_read(addr),
            Mapper::M225(m) => m.cpu_read(addr),
            Mapper::M227(m) => m.cpu_read(addr),
            Mapper::M245(m) => m.cpu_read(addr),
            Mapper::M253(m) => m.cpu_read(addr),
        }
    }

    fn cpu_write(&mut self, addr: u16, data: u8) -> (result: Option<MapperWriteResult>) {
        match self {
            Mapper::M0(m) => m.cpu_write(addr, data),
            Mapper::M1(m) => m.cpu_write(addr, data),
            Mapper::M2(m) => m.cpu_write(addr, data),
            Mapper::M3(m) => m.cpu_write(addr, data),
            Mapper::M4(m) => m.cpu_write(addr, data),
            Mapper::M7(m) => m.cpu_write(addr, data),
            Mapper::M11(m) => m.cpu_write(addr, data),
            Mapper::M15(m) => m.cpu_write(addr, data),
            Mapper::M16(m) => m.cpu_write(addr, data),
            Mapper::M23(m) => m.cpu_write(addr, data),
            Mapper::M66(m) => m.cpu_write(addr, data),
            Mapper::M71(m) => m.cpu_write(addr, data),
            Mapper::M113(m) => m.cpu_write(addr, data),
            Mapper::M202(m) => m.cpu_write(addr, data),
            Mapper::M225(m) => m.cpu_write(addr, data),
            Mapper::M227(m) => m.cpu_write(addr, data),
            Mapper::M245(m) => m.cpu_write(addr, data),
            Mapper::M253(m) => m.cpu_write(addr, data),
        }
    }

    fn ppu_read(&self, addr: u16) -> (offset: Option<u32>) {
        match self {
            Mapper::M0(m) => m.ppu_read(addr),
            Mapper::M1(m) => m.ppu_read(addr),
            Mapper::M2(m) => m.ppu_read(addr),
            Mapper::M3(m) => m.ppu_read(addr),
            Mapper::M4(m) => m.ppu_read(addr),
            Mapper::M7(m) => m.ppu_read(addr),
            Mapper::M11(m) => m.ppu_read(addr),
            Mapper::M15(m) => m.ppu_read(addr),
            Mapper::M16(m) => m.ppu_read(addr),
            Mapper::M23(m) => m.ppu_read(addr),
            Mapper::M66(m) => m.ppu_read(addr),
            Mapper::M71(m) => m.ppu_read(addr),
            Mapper::M113(m) => m.ppu_read(addr),
            Mapper::M202(m) => m.ppu_read(addr),
            Mapper::M225(m) => m.ppu_read(addr),
            Mapper::M227(m) => m.ppu_read(addr),
            Mapper::M245(m) => m.ppu_read(addr),
            Mapper::M253(m) => m.ppu_read(addr),
        }
    }

    fn ppu_write(&self, addr: u16) -> (offset: Option<u32>) {
        match self {
            Mapper::M0(m) => m.ppu_write(addr),
            Mapper::M1(m) => m.ppu_write(addr),
            Mapper::M2(m) => m.ppu_write(addr),
            Mapper::M3(m) => m.ppu_write(addr),
            Mapper::M4(m) => m.ppu_write(addr),
            Mapper::M7(m) => m.ppu_write(addr),
            Mapper::M11(m) => m.ppu_write(addr),
            Mapper::M15(m) => m.ppu_write(addr),
            Mapper::M16(m) => m.ppu_write(addr),
            Mapper::M23(m) => m.ppu_write(addr),
            Mapper::M66(m) => m.ppu_write(addr),
            Mapper::M71(m) => m.ppu_write(addr),
            Mapper::M113(m) => m.ppu_write(addr),
            Mapper::M202(m) => m.ppu_write(addr),
            Mapper::M225(m) => m.ppu_write(addr),
            Mapper::M227(m) => m.ppu_write(addr),
            Mapper::M245(m) => m.ppu_write(addr),
            Mapper::M253(m) => m.ppu_write(addr),
        }
    }

    fn reset(&mut self) {
        match self {
            Mapper::M0(m) => m.reset(),
            Mapper::M1(m) => m.reset(),
            Mapper::M2(m) => m.reset(),
            Mapper::M3(m) => m.reset(),
            Mapper::M4(m) => m.reset(),
            Mapper::M7(m) => m.reset(),
            Mapper::M11(m) => m.reset(),
            Mapper::M15(m) => m.reset(),
            Mapper::M16(m) => m.reset(),
            Mapper::M23(m) => m.reset(),
            Mapper::M66(m) => m.reset(),
            Mapper::M71(m) => m.reset(),
            Mapper::M113(m) => m.reset(),
            Mapper::M202(m) => m.reset(),
            Mapper::M225(m) => m.reset(),
            Mapper::M227(m) => m.reset(),
            Mapper::M245(m) => m.reset(),
            Mapper::M253(m) => m.reset(),
        }
    }

    fn scanline(&mut self) {
        match self {
            Mapper::M0(m) => m.scanline(),
            Mapper::M1(m) => m.scanline(),
            Mapper::M2(m) => m.scanline(),
            Mapper::M3(m) => m.scanline(),
            Mapper::M4(m) => m.scanline(),
            Mapper::M7(m) => m.scanline(),
            Mapper::M11(m) => m.scanline(),
            Mapper::M15(m) => m.scanline(),
            Mapper::M16(m) => m.scanline(),
            Mapper::M23(m) => m.scanline(),
            Mapper::M66(m) => m.scanline(),
            Mapper::M71(m) => m.scanline(),
            Mapper::M113(m) => m.scanline(),
            Mapper::M202(m) => m.scanline(),
            Mapper::M225(m) => m.scanline(),
            Mapper::M227(m) => m.scanline(),
            Mapper::M245(m) => m.scanline(),
            Mapper::M253(m) => m.scanline(),
        }
    }

    fn cpu_clock(&mut self) {
        match self {
            Mapper::M0(m) => m.cpu_clock(),
            Mapper::M1(m) => m.cpu_clock(),
            Mapper::M2(m) => m.cpu_clock(),
            Mapper::M3(m) => m.cpu_clock(),
            Mapper::M4(m) => m.cpu_clock(),
            Mapper::M7(m) => m.cpu_clock(),
            Mapper::M11(m) => m.cpu_clock(),
            Mapper::M15(m) => m.cpu_clock(),
            Mapper::M16(m) => m.cpu_clock(),
            Mapper::M23(m) => m.cpu_clock(),
            Mapper::M66(m) => m.cpu_clock(),
            Mapper::M71(m) => m.cpu_clock(),
            Mapper::M113(m) => m.cpu_clock(),
            Mapper::M202(m) => m.cpu_clock(),
            Mapper::M225(m) => m.cpu_clock(),
            Mapper::M227(m) => m.cpu_clock(),
            Mapper::M245(m) => m.cpu_clock(),
            Mapper::M253(m) => m.cpu_clock(),
        }
    }

    fn check_irq(&mut self) -> (irq: bool) {
        match self {
            Mapper::M0(m) => m.check_irq(),
            Mapper::M1(m) => m.check_irq(),
            Mapper::M2(m) => m.check_irq(),
            Mapper::M3(m) => m.check_irq(),
            Mapper::M4(m) => m.check_irq(),
            Mapper::M7(m) => m.check_irq(),
            Mapper::M11(m) => m.check_irq(),
            Mapper::M15(m) => m.check_irq(),
            Mapper::M16(m) => m.check_irq(),
            Mapper::M23(m) => m.check_irq(),
            Mapper::M66(m) => m.check_irq(),
            Mapper::M71(m) => m.check_irq(),
            Mapper::M113(m) => m.check_irq(),
            Mapper::M202(m) => m.check_irq(),
            Mapper::M225(m) => m.check_irq(),
            Mapper::M227(m) => m.check_irq(),
            Mapper::M245(m) => m.check_irq(),
            Mapper::M253(m) => m.check_irq(),
        }
    }

    fn chr_writable_mask(&self) -> (mask: u8) {
        match self {
            Mapper::M0(m) => m.chr_writable_mask(),
            Mapper::M1(m) => m.chr_writable_mask(),
            Mapper::M2(m) => m.chr_writable_mask(),
            Mapper::M3(m) => m.chr_writable_mask(),
            Mapper::M4(m) => m.chr_writable_mask(),
            Mapper::M7(m) => m.chr_writable_mask(),
            Mapper::M11(m) => m.chr_writable_mask(),
            Mapper::M15(m) => m.chr_writable_mask(),
            Mapper::M16(m) => m.chr_writable_mask(),
            Mapper::M23(m) => m.chr_writable_mask(),
            Mapper::M66(m) => m.chr_writable_mask(),
            Mapper::M71(m) => m.chr_writable_mask(),
            Mapper::M113(m) => m.chr_writable_mask(),
            Mapper::M202(m) => m.chr_writable_mask(),
            Mapper::M225(m) => m.chr_writable_mask(),
            Mapper::M227(m) => m.chr_writable_mask(),
            Mapper::M245(m) => m.chr_writable_mask(),
            Mapper::M253(m) => m.chr_writable_mask(),
        }
    }
}

} // verus!
