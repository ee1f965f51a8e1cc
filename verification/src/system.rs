//! The machine without its CPU: the components behind the bus, bound
//! together so that the CPU can use them as its address space.

use vstd::prelude::*;
use crate::apu::Apu;
use crate::bus::{Bus, SystemModel, assemble};
use crate::cartridge::Cartridge;
use crate::controller::Controller;
use crate::mappers::{Mapper, MapperTrait};
use crate::memory::Memory;
use crate::ppu::{Ppu, PpuModel};

verus! {

/// The components that the CPU reaches through the bus.
pub struct System {
    pub ppu: Ppu,
    pub apu: Apu,
    pub bus: Bus,
    pub cartridge: Cartridge,
    pub ctrl1: Controller,
    pub ctrl2: Controller,
}

impl View for System {
    type V = SystemModel;

    open spec fn view(&self) -> SystemModel {
        assemble(
            self.bus@,
            self.ppu@,
            self.apu,
            self.cartridge@,
            self.ctrl1,
            self.ctrl2,
        )
    }
}

/// Where each 1 KiB window of the pattern range begins in the pattern
/// memory, as the mapper has it now.
pub open spec fn bank_offsets(mapper: Mapper) -> Seq<u32> {
    Seq::new(
        8,
        |i: int|
            match mapper.spec_ppu_read((i * 0x0400) as u16) {
                Some(offset) => offset,
                None => (i * 0x0400) as u32,
            },
    )
}

impl SystemModel {
    /// The system after the PPU took over what the cartridge now says of
    /// mirroring, pattern banks and writable pattern windows.
    pub open spec fn sync_mapper_to_ppu(self) -> SystemModel {
        SystemModel {
            ppu: PpuModel {
                mirror_mode: self.cartridge.header.mirror_mode,
                chr_bank_offsets: bank_offsets(self.cartridge.mapper),
                chr_writable_mask: self.cartridge.mapper.spec_chr_writable_mask(),
                ..self.ppu
            },
            ..self
        }
    }

    /// What a write by the CPU leaves behind: the write on the bus, and
    /// after a write to the cartridge, from `0x4020`, the PPU brought up to
    /// date with the cartridge.
    pub open spec fn cpu_write(self, addr: u16, data: u8) -> SystemModel {
        if addr >= 0x4020 {
            self.bus_write(addr, data).sync_mapper_to_ppu()
        } else {
            self.bus_write(addr, data)
        }
    }

    /// Where the PPU's cursor stands and whether the frame is complete.
    pub open spec fn cursor(self) -> (i16, u16, bool) {
        (self.ppu.scanline, self.ppu.cycle, self.ppu.frame_complete)
    }
}

impl System {
    /// What holds of the system between any two operations.
    pub open spec fn wf(&self) -> bool {
        self.ppu.wf() && self.apu.wf() && self.cartridge.wf()
    }

    /// A system is well-formed exactly when its model is.
    pub proof fn lemma_wf_model(&self)
        ensures
            self.wf() == self@.wf(),
    {
    }

    /// Tells whether the system is well-formed.
    pub fn is_well_formed(&self) -> (ok: bool)
        ensures
            ok == self.wf(),
    {
        self.ppu.is_well_formed() && self.apu.is_well_formed() && self.cartridge.is_well_formed()
    }

    /// The components at power-on, with an empty cartridge slot.
    pub fn new() -> (sys: System)
        ensures
            sys.wf(),
            sys.ppu@ == PpuModel::power_on(),
            sys.apu == Apu::spec_new(),
            sys.bus@ == crate::bus::BusModel::power_on(),
            sys.cartridge@ == crate::cartridge::CartridgeModel::empty(),
            sys.ctrl1 == Controller::spec_new(),
            sys.ctrl2 == Controller::spec_new(),
    {
        System {
            ppu: Ppu::new(),
            apu: Apu::new(),
            bus: Bus::new(),
            cartridge: Cartridge::new(),
            ctrl1: Controller::new(),
            ctrl2: Controller::new(),
        }
    }

    /// Reads a byte as the CPU does.
    pub fn bus_read(&mut self, addr: u16) -> (value: u8)
        requires
            old(self).wf(),
        ensures
            final(self).wf(),
            value == old(self)@.bus_read_value(addr),
            final(self)@ == old(self)@.bus_read(addr),
    {
        self.bus.cpu_read(
            addr,
            &mut self.ppu,
            &mut self.apu,
            &self.cartridge,
            &mut self.ctrl1,
            &mut self.ctrl2,
        )
    }

    fn fill_bank_offsets(&self) -> (offsets: [u32; 8])
        requires
            self.cartridge.wf(),
        ensures
            offsets@ == bank_offsets(self.cartridge.mapper),
    {
        let mut offsets: [u32; 8] = [0;8];
        let mut i: usize = 0;
        while i < 8
            invariant
                i <= 8,
                self.cartridge.wf(),
                forall|k: int| 0 <= k < i ==> offsets@[k] == bank_offsets(self.cartridge.mapper)[k],
            decreases 8 - i,
        {
            let addr: u16 = (i * 0x0400) as u16;
            offsets[i] = match self.cartridge.mapper.ppu_read(addr) {
                Some(offset) => offset,
                None => addr as u32,
            };
            i += 1;
        }
        assert(offsets@ =~= bank_offsets(self.cartridge.mapper));
        offsets
    }

    /// Brings the PPU up to date with the cartridge: the mirroring, where
    /// the eight pattern windows begin, and which of them are writable.
    pub fn sync_mapper_to_ppu(&mut self)
        requires
            old(self).wf(),
        ensures
            final(self).wf(),
            final(self)@ == old(self)@.sync_mapper_to_ppu(),
    {
        let mirror = self.cartridge.mirror_mode();
        self.ppu.set_mirror_mode(mirror);
        let offsets = self.fill_bank_offsets();
        self.ppu.set_chr_bank_offsets(offsets);
        let mask = self.cartridge.mapper.chr_writable_mask();
        self.ppu.set_chr_writable_mask(mask);
    }

    /// Writes a byte as the CPU does.
    pub fn bus_write(&mut self, addr: u16, data: u8)
        requires
            old(self).wf(),
        ensures
            final(self).wf(),
            final(self)@ == old(self)@.cpu_write(addr, data),
    {
        self.bus.cpu_write(
            addr,
            data,
            &mut self.ppu,
            &mut self.apu,
            &mut self.cartridge,
            &mut self.ctrl1,
            &mut self.ctrl2,
        );
        if addr >= 0x4020 {
            self.sync_mapper_to_ppu();
        }
    }

    /// Runs a sprite DMA for one CPU cycle.
    pub fn dma_cycle(&mut self, odd_cycle: bool)
        requires
            old(self).wf(),
        ensures
            final(self).wf(),
            final(self)@ == old(self)@.dma_cycle(odd_cycle),
    {
        self.bus.do_dma_cycle(
            odd_cycle,
            &mut self.ppu,
            &mut self.apu,
            &self.cartridge,
            &mut self.ctrl1,
            &mut self.ctrl2,
        );
    }
}

impl Memory for System {
    type Model = SystemModel;

    open spec fn model(&self) -> SystemModel {
        self@
    }

    open spec fn inv(m: SystemModel) -> bool {
        m.wf()
    }

    open spec fn read_value(m: SystemModel, addr: u16) -> u8 {
        m.bus_read_value(addr)
    }

    open spec fn read_next(m: SystemModel, addr: u16) -> SystemModel {
        m.bus_read(addr)
    }

    open spec fn write_next(m: SystemModel, addr: u16, data: u8) -> SystemModel {
        m.cpu_write(addr, data)
    }

    fn read(&mut self, addr: u16) -> (value: u8) {
        self.bus_read(addr)
    }

    fn write(&mut self, addr: u16, data: u8) {
        self.bus_write(addr, data);
    }
}

/// A read or a write on the bus, a cycle of the sprite DMA and the update
/// of the PPU from the cartridge keep the system well-formed.
pub proof fn lemma_system_keeps_wf(m: SystemModel, addr: u16, data: u8, odd_cycle: bool)
    requires
        m.wf(),
    ensures
        m.bus_read(addr).wf(),
        m.bus_write(addr, data).wf(),
        m.cpu_write(addr, data).wf(),
        m.sync_mapper_to_ppu().wf(),
        m.dma_cycle(odd_cycle).wf(),
{
    reveal(SystemModel::bus_read);
    reveal(SystemModel::bus_write);
    reveal(SystemModel::dma_cycle);
    crate::ppu::laws::lemma_accesses_keep_wf(m.ppu, SystemModel::ppu_register(addr), data, 0);
    crate::ppu::laws::lemma_accesses_keep_wf(
        m.ppu,
        SystemModel::ppu_register(m.dma_source()),
        data,
        m.bus.dma_address,
    );
    crate::ppu::laws::lemma_accesses_keep_wf(m.ppu, 0, m.bus.dma_data, m.bus.dma_address);
    crate::apu::laws::lemma_accesses_keep_wf(m.apu, addr, data);
    crate::cartridge::lemma_cartridge_keeps_wf(m.cartridge, addr, data);
}

/// No access by the CPU ends the well-formedness of the system.
pub proof fn lemma_accesses_keep_system_wf()
    ensures
        crate::cpu::laws::kept_by_accesses::<System>(|m: SystemModel| m.wf()),
{
    let p = |m: SystemModel| m.wf();
    assert forall|m: SystemModel, addr: u16| p(m) implies #[trigger] p(
        <System as Memory>::read_next(m, addr),
    ) by {
        lemma_system_keeps_wf(m, addr, 0, false);
    }
    assert forall|m: SystemModel, addr: u16, data: u8| p(m) implies #[trigger] p(
        <System as Memory>::write_next(m, addr, data),
    ) by {
        lemma_system_keeps_wf(m, addr, data, false);
    }
}

/// No access by the CPU moves the PPU's cursor or completes the frame.
pub proof fn lemma_accesses_keep_cursor(cursor: (i16, u16, bool))
    ensures
        crate::cpu::laws::kept_by_accesses::<System>(|m: SystemModel| m.cursor() == cursor),
{
    let p = |m: SystemModel| m.cursor() == cursor;
    assert forall|m: SystemModel, addr: u16| p(m) implies #[trigger] p(
        <System as Memory>::read_next(m, addr),
    ) by {
        lemma_read_keeps_cursor(m, addr);
    }
    assert forall|m: SystemModel, addr: u16, data: u8| p(m) implies #[trigger] p(
        <System as Memory>::write_next(m, addr, data),
    ) by {
        lemma_write_keeps_cursor(m, addr, data);
    }
}

/// A read on the bus keeps the PPU well-formed, and moves neither its
/// cursor nor the APU's request for a sample.
pub proof fn lemma_read_keeps_cursor(m: SystemModel, addr: u16)
    ensures
        m.bus_read(addr).cursor() == m.cursor(),
        m.bus_read(addr).cartridge == m.cartridge,
        m.bus_read(addr).bus == m.bus,
{
    reveal(SystemModel::bus_read);
}

/// A cycle of the sprite DMA does not move the PPU's cursor.
pub proof fn lemma_dma_keeps_cursor(m: SystemModel, odd_cycle: bool)
    ensures
        m.dma_cycle(odd_cycle).cursor() == m.cursor(),
{
    reveal(SystemModel::dma_cycle);
    lemma_read_keeps_cursor(m, m.dma_source());
}

/// A write by the CPU does not move the cursor of the PPU.
pub proof fn lemma_write_keeps_cursor(m: SystemModel, addr: u16, data: u8)
    ensures
        m.cpu_write(addr, data).cursor() == m.cursor(),
{
    reveal(SystemModel::bus_write);
    assert(m.ppu.cpu_write(SystemModel::ppu_register(addr), data).scanline == m.ppu.scanline);
    assert(m.ppu.cpu_write(SystemModel::ppu_register(addr), data).cycle == m.ppu.cycle);
    assert(m.ppu.cpu_write(SystemModel::ppu_register(addr), data).frame_complete
        == m.ppu.frame_complete);
    assert(m.bus_write(addr, data).cursor() == m.cursor());
}

} // verus!
