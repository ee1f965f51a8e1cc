//! Cartridge bank switching. A mapper turns CPU and PPU addresses into
//! offsets into the cartridge's program and pattern memory, and keeps the
//! registers that games write to move the banks.

use vstd::prelude::*;
use crate::ppu::MirrorMode;

pub mod simple;
pub mod mmc1;
pub mod mmc3;
pub mod multicart;
pub mod bandai;
pub mod vrc;
pub mod any;

pub use simple::{Mapper0, Mapper2, Mapper3, Mapper7, Mapper11, Mapper66, Mapper71, Mapper113};
pub use mmc1::Mapper1;
pub use mmc3::{Mapper4, Mapper245};
pub use multicart::{Mapper15, Mapper202, Mapper225, Mapper227};
pub use bandai::Mapper16;
pub use vrc::{Mapper23, Mapper253};
pub use any::{Mapper, create_mapper, spec_create_mapper, supported};

verus! {

/// What a write to the cartridge asks of the rest of the machine.
#[derive(Debug, Clone, Copy)]
pub struct MapperWriteResult {
    /// The write raised an interrupt.
    pub irq: bool,
    /// The nametable arrangement changed to this.
    pub mirror_mode: Option<MirrorMode>,
}

impl MapperWriteResult {
    /// A result that asks for nothing.
    pub open spec fn spec_none() -> MapperWriteResult {
        MapperWriteResult { irq: false, mirror_mode: None }
    }

    /// A result that changes the nametable arrangement.
    pub open spec fn spec_with_mirror(mode: MirrorMode) -> MapperWriteResult {
        MapperWriteResult { irq: false, mirror_mode: Some(mode) }
    }

    /// A result that asks for nothing.
    #[verifier::when_used_as_spec(spec_none)]
    pub fn none() -> (r: MapperWriteResult)
        ensures
            r == MapperWriteResult::spec_none(),
    {
        MapperWriteResult { irq: false, mirror_mode: None }
    }

    /// A result that changes the nametable arrangement.
    #[verifier::when_used_as_spec(spec_with_mirror)]
    pub fn with_mirror(mode: MirrorMode) -> (r: MapperWriteResult)
        ensures
            r == MapperWriteResult::spec_with_mirror(mode),
    {
        MapperWriteResult { irq: false, mirror_mode: Some(mode) }
    }
}

/// The interface of a mapper. Each operation has a model: a function from
/// the mapper's registers to what the operation returns and leaves.
pub trait MapperTrait: Sized {
    /// What holds of the mapper's registers between any two operations.
    open spec fn wf(&self) -> bool {
        true
    }

    /// The offset into program memory that a CPU address reads from.
    spec fn spec_cpu_read(&self, addr: u16) -> Option<u32>;

    /// The registers after the CPU wrote `data` to `addr`.
    spec fn spec_cpu_write(&self, addr: u16, data: u8) -> Self;

    /// What a CPU write reports to the rest of the machine.
    spec fn spec_write_result(&self, addr: u16, data: u8) -> Option<MapperWriteResult>;

    /// The offset into pattern memory that a PPU address reads from.
    spec fn spec_ppu_read(&self, addr: u16) -> Option<u32>;

    /// The offset into pattern memory that a PPU address writes to, where
    /// the cartridge takes writes.
    spec fn spec_ppu_write(&self, addr: u16) -> Option<u32>;

    /// The registers after a reset.
    spec fn spec_reset(&self) -> Self;

    /// The registers after the PPU signalled a scanline.
    open spec fn spec_scanline(&self) -> Self {
        *self
    }

    /// The registers after one CPU cycle.
    open spec fn spec_cpu_clock(&self) -> Self {
        *self
    }

    /// Whether the mapper asserts an interrupt.
    open spec fn spec_irq(&self) -> bool {
        false
    }

    /// The registers after the interrupt was taken notice of.
    open spec fn spec_check_irq(&self) -> Self {
        *self
    }

    /// One bit per 1 KiB pattern window: the window is RAM although the
    /// cartridge's pattern memory is ROM.
    open spec fn spec_chr_writable_mask(&self) -> u8 {
        0
    }

    /// Whatever the mapper does, its registers stay as the operations need
    /// them.
    proof fn lemma_wf_kept(&self, addr: u16, data: u8)
        requires
            self.wf(),
        ensures
            self.spec_cpu_write(addr, data).wf(),
            self.spec_reset().wf(),
            self.spec_scanline().wf(),
            self.spec_cpu_clock().wf(),
            self.spec_check_irq().wf(),
    ;

    /// Tells whether the registers are as the operations need them.
    fn is_well_formed(&self) -> (ok: bool)
        ensures
            ok == self.wf(),
    ;

    fn cpu_read(&self, addr: u16) -> (offset: Option<u32>)
        requires
            self.wf(),
        ensures
            offset == self.spec_cpu_read(addr),
    ;

    fn cpu_write(&mut self, addr: u16, data: u8) -> (result: Option<MapperWriteResult>)
        requires
            old(self).wf(),
        ensures
            final(self).wf(),
            *final(self) == old(self).spec_cpu_write(addr, data),
            result == old(self).spec_write_result(addr, data),
    ;

    fn ppu_read(&self, addr: u16) -> (offset: Option<u32>)
        requires
            self.wf(),
        ensures
            offset == self.spec_ppu_read(addr),
    ;

    fn ppu_write(&self, addr: u16) -> (offset: Option<u32>)
        requires
            self.wf(),
        ensures
            offset == self.spec_ppu_write(addr),
    ;

    fn reset(&mut self)
        requires
            old(self).wf(),
        ensures
            final(self).wf(),
            *final(self) == old(self).spec_reset(),
    ;

    /// The PPU has signalled a scanline.
    fn scanline(&mut self)
        requires
            old(self).wf(),
        ensures
            final(self).wf(),
            *final(self) == old(self).spec_scanline(),
    ;

    /// A CPU cycle has passed.
    fn cpu_clock(&mut self)
        requires
            old(self).wf(),
        ensures
            final(self).wf(),
            *final(self) == old(self).spec_cpu_clock(),
    ;

    /// Tells whether the mapper asserts an interrupt, and withdraws it.
    fn check_irq(&mut self) -> (irq: bool)
        requires
            old(self).wf(),
        ensures
            final(self).wf(),
            irq == old(self).spec_irq(),
            *final(self) == old(self).spec_check_irq(),
    ;

    fn chr_writable_mask(&self) -> (mask: u8)
        requires
            self.wf(),
        ensures
            mask == self.spec_chr_writable_mask(),
    ;
}

/// A pattern address mapped to itself.
pub open spec fn spec_direct_chr(addr: u16) -> Option<u32> {
    if addr < 0x2000 {
        Some(addr as u32)
    } else {
        None
    }
}

/// A pattern address mapped to itself.
#[verifier::when_used_as_spec(spec_direct_chr)]
pub fn direct_chr(addr: u16) -> (offset: Option<u32>)
    ensures
        offset == spec_direct_chr(addr),
{
    if addr < 0x2000 {
        Some(addr as u32)
    } else {
        None
    }
}

/// A pattern address mapped to itself if the cartridge has pattern RAM,
/// which is the case when it has no pattern ROM banks.
pub open spec fn spec_direct_chr_ram(addr: u16, chr_banks: u8) -> Option<u32> {
    if addr < 0x2000 && chr_banks == 0 {
        Some(addr as u32)
    } else {
        None
    }
}

/// A pattern address mapped to itself if the cartridge has pattern RAM,
/// which is the case when it has no pattern ROM banks.
#[verifier::when_used_as_spec(spec_direct_chr_ram)]
pub fn direct_chr_ram(addr: u16, chr_banks: u8) -> (offset: Option<u32>)
    ensures
        offset == spec_direct_chr_ram(addr, chr_banks),
{
    if addr < 0x2000 && chr_banks == 0 {
        Some(addr as u32)
    } else {
        None
    }
}

/// The offset of `addr` within bank number `bank` of banks of `size` bytes.
pub open spec fn spec_window(bank: u32, size: u32, addr: u16) -> u32 {
    (bank * size + addr as u32 % size) as u32
}

/// The offset of `addr` within bank number `bank` of banks of `size` bytes.
#[verifier::when_used_as_spec(spec_window)]
pub fn window(bank: u32, size: u32, addr: u16) -> (offset: u32)
    requires
        bank <= 0xFFFF,
        0 < size <= 0x8000,
    ensures
        offset == spec_window(bank, size, addr),
{
    assert(bank * size <= 0xFFFF * 0x8000) by (nonlinear_arith)
        requires
            bank <= 0xFFFF,
            size <= 0x8000,
    ;
    bank * size + addr as u32 % size
}

/// How many banks of a smaller size a number of banks holds, or how many
/// bytes: `banks` times `each`.
pub open spec fn spec_units(banks: u8, each: u32) -> u32 {
    (banks * each) as u32
}

/// How many banks of a smaller size a number of banks holds, or how many
/// bytes: `banks` times `each`.
#[verifier::when_used_as_spec(spec_units)]
pub fn units(banks: u8, each: u32) -> (n: u32)
    requires
        each <= 0x10000,
    ensures
        n == spec_units(banks, each),
{
    assert(banks * each <= 255 * 0x10000) by (nonlinear_arith)
        requires
            banks <= 255,
            each <= 0x10000,
    ;
    banks as u32 * each
}

/// An offset wrapped around a memory of `len` bytes.
pub open spec fn spec_wrapped(offset: u32, len: u32) -> u32 {
    offset % len
}

/// An offset wrapped around a memory of `len` bytes.
#[verifier::when_used_as_spec(spec_wrapped)]
pub fn wrapped(offset: u32, len: u32) -> (w: u32)
    requires
        len > 0,
    ensures
        w == spec_wrapped(offset, len),
{
    offset % len
}

/// `n`, or 1 if `n` is zero: a bank count to divide by.
pub open spec fn spec_at_least_one(n: u32) -> u32 {
    if n == 0 {
        1
    } else {
        n
    }
}

/// `n`, or 1 if `n` is zero: a bank count to divide by.
#[verifier::when_used_as_spec(spec_at_least_one)]
pub fn at_least_one(n: u32) -> (m: u32)
    ensures
        m == spec_at_least_one(n),
{
    if n == 0 {
        1
    } else {
        n
    }
}

/// `n - k`, or 0 if `n` is smaller than `k`: the `k`-th bank from the end.
pub open spec fn spec_from_end(n: u32, k: u32) -> u32 {
    if n < k {
        0
    } else {
        (n - k) as u32
    }
}

/// `n - k`, or 0 if `n` is smaller than `k`: the `k`-th bank from the end.
#[verifier::when_used_as_spec(spec_from_end)]
pub fn from_end(n: u32, k: u32) -> (m: u32)
    ensures
        m == spec_from_end(n, k),
{
    if n < k {
        0
    } else {
        n - k
    }
}

/// Eight bank registers, all zero.
pub open spec fn spec_zero_registers() -> [u8; 8] {
    vstd::array::spec_array_fill_for_copy_type::<u8, 8>(0u8)
}

/// Eight bank registers, all zero.
#[verifier::when_used_as_spec(spec_zero_registers)]
pub fn zero_registers() -> (regs: [u8; 8])
    ensures
        regs == spec_zero_registers(),
{
    [0;8]
}

/// Writes one of a mapper's eight bank registers.
pub fn set_register(regs: &mut [u8; 8], index: usize, value: u8)
    requires
        index < 8,
    ensures
        *final(regs) == vstd::array::spec_array_update(*old(regs), index as int, value),
{
    regs[index] = value;
    assert(*regs =~= vstd::array::spec_array_update(*old(regs), index as int, value));
}

/// A register after one of its halves was written with the low four bits
/// of `data`.
pub open spec fn spec_write_nibble(reg: u8, data: u8, high: bool) -> u8 {
    if high {
        (reg & 0x0F) | ((data & 0x0F) << 4)
    } else {
        (reg & 0xF0) | (data & 0x0F)
    }
}

/// A register after one of its halves was written with the low four bits
/// of `data`.
#[verifier::when_used_as_spec(spec_write_nibble)]
pub fn write_nibble(reg: u8, data: u8, high: bool) -> (r: u8)
    ensures
        r == spec_write_nibble(reg, data, high),
{
    if high {
        (reg & 0x0F) | ((data & 0x0F) << 4)
    } else {
        (reg & 0xF0) | (data & 0x0F)
    }
}

/// The arrangement that the two mirroring bits of several mappers select.
pub open spec fn spec_mirror_from_bits(bits: u8) -> MirrorMode {
    if bits % 4 == 0 {
        MirrorMode::Vertical
    } else if bits % 4 == 1 {
        MirrorMode::Horizontal
    } else if bits % 4 == 2 {
        MirrorMode::SingleScreenLow
    } else {
        MirrorMode::SingleScreenHigh
    }
}

/// The arrangement that the two mirroring bits of several mappers select.
#[verifier::when_used_as_spec(spec_mirror_from_bits)]
pub fn mirror_from_bits(bits: u8) -> (mode: MirrorMode)
    ensures
        mode == spec_mirror_from_bits(bits),
{
    if bits % 4 == 0 {
        MirrorMode::Vertical
    } else if bits % 4 == 1 {
        MirrorMode::Horizontal
    } else if bits % 4 == 2 {
        MirrorMode::SingleScreenLow
    } else {
        MirrorMode::SingleScreenHigh
    }
}

} // verus!
