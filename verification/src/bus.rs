//! The CPU's bus: 2 KiB of work RAM, the address decoder that routes every
//! access to the component it belongs to, and the sprite DMA.

use vstd::prelude::*;
use crate::apu::Apu;
use crate::cartridge::{Cartridge, CartridgeModel};
use crate::controller::Controller;
use crate::ppu::{Ppu, PpuModel};

pub mod laws;

verus! {

/// The bus.
pub struct Bus {
    /// Work RAM, seen four times from `0x0000` to `0x1FFF`.
    pub ram: [u8; 2048],
    /// The page that a sprite DMA copies from.
    pub dma_page: u8,
    /// The next byte of the page to copy.
    pub dma_address: u8,
    /// The byte read and not yet written.
    pub dma_data: u8,
    /// A sprite DMA is under way; the CPU stands still.
    pub dma_transfer: bool,
    /// The DMA waits for an odd cycle before it begins.
    pub dma_dummy: bool,
}

/// What a `Bus` holds, as mathematical values.
pub struct BusModel {
    pub ram: Seq<u8>,
    pub dma_page: u8,
    pub dma_address: u8,
    pub dma_data: u8,
    pub dma_transfer: bool,
    pub dma_dummy: bool,
}

impl View for Bus {
    type V = BusModel;

    open spec fn view(&self) -> BusModel {
        BusModel {
            ram: self.ram@,
            dma_page: self.dma_page,
            dma_address: self.dma_address,
            dma_data: self.dma_data,
            dma_transfer: self.dma_transfer,
            dma_dummy: self.dma_dummy,
        }
    }
}

impl BusModel {
    /// The state at power-on.
    pub open spec fn power_on() -> BusModel {
        BusModel {
            ram: Seq::new(2048, |i: int| 0u8),
            dma_page: 0,
            dma_address: 0,
            dma_data: 0,
            dma_transfer: false,
            dma_dummy: true,
        }
    }
}

/// Everything that the CPU reaches through the bus.
pub struct SystemModel {
    pub ppu: PpuModel,
    pub apu: Apu,
    pub bus: BusModel,
    pub cartridge: CartridgeModel,
    pub ctrl1: Controller,
    pub ctrl2: Controller,
}

impl SystemModel {
    /// What holds of the components between any two operations.
    pub open spec fn wf(self) -> bool {
        self.ppu.wf() && self.apu.wf() && self.cartridge.wf()
    }

    /// The register of the PPU that a bus address stands for: the eight
    /// registers repeat through `0x2000` to `0x3FFF`.
    pub open spec fn ppu_register(addr: u16) -> u16 {
        (0x2000 + addr % 8) as u16
    }

    /// The byte that the CPU reads at `addr`. The cartridge answers from
    /// `0x4020`, work RAM below `0x2000`, the PPU below `0x4000`, the
    /// controllers at `0x4016` and `0x4017`, the APU at `0x4015`; any other
    /// address reads 0.
    #[verifier::opaque]
    pub open spec fn bus_read_value(self, addr: u16) -> u8 {
        if addr >= 0x4020 {
            self.cartridge.cpu_read(addr)
        } else if addr < 0x2000 {
            self.bus.ram[addr as int % 0x0800]
        } else if addr < 0x4000 {
            self.ppu.cpu_read_value(Self::ppu_register(addr))
        } else if addr == 0x4016 {
            self.ctrl1.spec_read_value()
        } else if addr == 0x4017 {
            self.ctrl2.spec_read_value()
        } else if addr == 0x4015 {
            self.apu.spec_status()
        } else {
            0
        }
    }

    /// What a read at `addr` leaves behind: a read of a PPU register, of a
    /// controller or of the APU status changes that component.
    #[verifier::opaque]
    pub open spec fn bus_read(self, addr: u16) -> SystemModel {
        if 0x2000 <= addr < 0x4000 {
            SystemModel { ppu: self.ppu.cpu_read(Self::ppu_register(addr)), ..self }
        } else if addr == 0x4016 {
            SystemModel { ctrl1: self.ctrl1.spec_read(), ..self }
        } else if addr == 0x4017 {
            SystemModel { ctrl2: self.ctrl2.spec_read(), ..self }
        } else if addr == 0x4015 {
            SystemModel { apu: self.apu.spec_cpu_read(), ..self }
        } else {
            self
        }
    }

    /// A write to `0x4014`: a sprite DMA from page `data` begins.
    pub open spec fn start_dma(self, data: u8) -> SystemModel {
        SystemModel {
            bus: BusModel {
                dma_page: data,
                dma_address: 0,
                dma_transfer: true,
                dma_dummy: true,
                ..self.bus
            },
            ..self
        }
    }

    /// What a write of `data` to `addr` leaves behind. The cartridge takes
    /// writes from `0x4020`, work RAM below `0x2000`, the PPU below `0x4000`;
    /// `0x4014` starts a sprite DMA, `0x4016` strobes both controllers, and
    /// the APU takes `0x4000` to `0x4013`, `0x4015` and `0x4017`.
    #[verifier::opaque]
    pub open spec fn bus_write(self, addr: u16, data: u8) -> SystemModel {
        if addr >= 0x4020 {
            SystemModel { cartridge: self.cartridge.cpu_write(addr, data), ..self }
        } else if addr < 0x2000 {
            SystemModel {
                bus: BusModel { ram: self.bus.ram.update(addr as int % 0x0800, data), ..self.bus },
                ..self
            }
        } else if addr < 0x4000 {
            SystemModel { ppu: self.ppu.cpu_write(Self::ppu_register(addr), data), ..self }
        } else if addr == 0x4014 {
            self.start_dma(data)
        } else if addr == 0x4016 {
            SystemModel {
                ctrl1: self.ctrl1.spec_write(data),
                ctrl2: self.ctrl2.spec_write(data),
                ..self
            }
        } else if addr <= 0x4013 || addr == 0x4015 || addr == 0x4017 {
            SystemModel { apu: self.apu.spec_cpu_write(addr, data), ..self }
        } else {
            self
        }
    }

    /// The address that the DMA reads next.
    pub open spec fn dma_source(self) -> u16 {
        (self.bus.dma_page as int * 256 + self.bus.dma_address as int) as u16
    }

    /// One CPU cycle of a sprite DMA. It waits for an odd cycle; after
    /// that every even cycle reads a byte of the page and every odd cycle
    /// writes it to the sprite memory, until 256 bytes are copied.
    #[verifier::opaque]
    pub open spec fn dma_cycle(self, odd_cycle: bool) -> SystemModel {
        if !self.bus.dma_transfer {
            self
        } else if self.bus.dma_dummy {
            SystemModel { bus: BusModel { dma_dummy: !odd_cycle, ..self.bus }, ..self }
        } else if !odd_cycle {
            let after = self.bus_read(self.dma_source());
            SystemModel {
                bus: BusModel { dma_data: self.bus_read_value(self.dma_source()), ..after.bus },
                ..after
            }
        } else {
            SystemModel {
                ppu: self.ppu.write_oam(self.bus.dma_address, self.bus.dma_data),
                bus: BusModel {
                    dma_address: self.bus.dma_address.wrapping_add(1),
                    dma_transfer: self.bus.dma_address != 255,
                    ..self.bus
                },
                ..self
            }
        }
    }
}

/// The components put together as the bus sees them.
pub open spec fn assemble(
    bus: BusModel,
    ppu: PpuModel,
    apu: Apu,
    cartridge: CartridgeModel,
    ctrl1: Controller,
    ctrl2: Controller,
) -> SystemModel {
    SystemModel { ppu, apu, bus, cartridge, ctrl1, ctrl2 }
}

impl Bus {
    /// A bus at power-on: work RAM zero, no DMA.
    pub fn new() -> (bus: Bus)
        ensures
            bus@ == BusModel::power_on(),
    {
        let bus = Bus {
            ram: [0;2048],
            dma_page: 0,
            dma_address: 0,
            dma_data: 0,
            dma_transfer: false,
            dma_dummy: true,
        };
        assert(bus@.ram =~= BusModel::power_on().ram);
        bus
    }

    /// Clears work RAM and ends any DMA.
    pub fn reset(&mut self)
        ensures
            final(self)@ == BusModel::power_on(),
    {
        self.ram = [0;2048];
        self.dma_page = 0;
        self.dma_address = 0;
        self.dma_data = 0;
        self.dma_transfer = false;
        self.dma_dummy = true;
        assert(self@.ram =~= BusModel::power_on().ram);
    }

    /// The CPU reads the byte at `addr`.
    pub fn cpu_read(
        &self,
        addr: u16,
        ppu: &mut Ppu,
        apu: &mut Apu,
        cartridge: &Cartridge,
        ctrl1: &mut Controller,
        ctrl2: &mut Controller,
    ) -> (value: u8)
        requires
            cartridge.wf(),
        ensures
            ({
                let before = assemble(
                    self@,
                    old(ppu)@,
                    *old(apu),
                    cartridge@,
                    *old(ctrl1),
                    *old(ctrl2),
                );
                &&& value == before.bus_read_value(addr)
                &&& assemble(
                    self@,
                    final(ppu)@,
                    *final(apu),
                    cartridge@,
                    *final(ctrl1),
                    *final(ctrl2),
                ) == before.bus_read(addr)
            }),
            old(ppu).wf() ==> final(ppu).wf(),
            old(apu).wf() ==> final(apu).wf(),
    {
        reveal(SystemModel::bus_read_value);
        reveal(SystemModel::bus_read);
        if addr >= 0x4020 {
            return cartridge.cpu_read(addr);
        }
        if addr < 0x2000 {
            return self.ram[(addr % 0x0800) as usize];
        }
        if addr < 0x4000 {
            return ppu.cpu_read(0x2000 + addr % 8);
        }
        if addr == 0x4016 {
            return ctrl1.read();
        }
        if addr == 0x4017 {
            return ctrl2.read();
        }
        if addr == 0x4015 {
            return apu.cpu_read();
        }
        0
    }

    /// The CPU writes `data` to `addr`.
    pub fn cpu_write(
        &mut self,
        addr: u16,
        data: u8,
        ppu: &mut Ppu,
        apu: &mut Apu,
        cartridge: &mut Cartridge,
        ctrl1: &mut Controller,
        ctrl2: &mut Controller,
    )
        requires
            old(cartridge).wf(),
            old(apu).wf(),
        ensures
            assemble(
                final(self)@,
                final(ppu)@,
                *final(apu),
                final(cartridge)@,
                *final(ctrl1),
                *final(ctrl2),
            ) == assemble(
                old(self)@,
                old(ppu)@,
                *old(apu),
                old(cartridge)@,
                *old(ctrl1),
                *old(ctrl2),
            ).bus_write(addr, data),
            final(cartridge).wf(),
            final(apu).wf(),
            old(ppu).wf() ==> final(ppu).wf(),
    {
        reveal(SystemModel::bus_write);
        if addr >= 0x4020 {
            cartridge.cpu_write(addr, data);
            return ;
        }
        if addr < 0x2000 {
            self.ram[(addr % 0x0800) as usize] = data;
            return ;
        }
        if addr < 0x4000 {
            ppu.cpu_write(0x2000 + addr % 8, data);
            return ;
        }
        if addr == 0x4014 {
            self.dma_page = data;
            self.dma_address = 0;
            self.dma_transfer = true;
            self.dma_dummy = true;
            return ;
        }
        if addr == 0x4016 {
            ctrl1.write(data);
            ctrl2.write(data);
            return ;
        }
        if addr <= 0x4013 || addr == 0x4015 || addr == 0x4017 {
            apu.cpu_write(addr, data);
            return ;
        }
    }

    /// Runs a sprite DMA for one CPU cycle; `odd_cycle` tells whether the
    /// cycle is an odd one.
    pub fn do_dma_cycle(
        &mut self,
        odd_cycle: bool,
        ppu: &mut Ppu,
        apu: &mut Apu,
        cartridge: &Cartridge,
        ctrl1: &mut Controller,
        ctrl2: &mut Controller,
    )
        requires
            cartridge.wf(),
        ensures
            assemble(
                final(self)@,
                final(ppu)@,
                *final(apu),
                cartridge@,
                *final(ctrl1),
                *final(ctrl2),
            ) == assemble(
                old(self)@,
                old(ppu)@,
                *old(apu),
                cartridge@,
                *old(ctrl1),
                *old(ctrl2),
            ).dma_cycle(odd_cycle),
            old(ppu).wf() ==> final(ppu).wf(),
            old(apu).wf() ==> final(apu).wf(),
    {
        reveal(SystemModel::dma_cycle);
        if !self.dma_transfer {
            return ;
        }
        if self.dma_dummy {
            if odd_cycle {
                self.dma_dummy = false;
            }
        } else if !odd_cycle {
            let addr: u16 = self.dma_page as u16 * 256 + self.dma_address as u16;
            self.dma_data = self.cpu_read(addr, ppu, apu, cartridge, ctrl1, ctrl2);
        } else {
            ppu.write_oam(self.dma_address, self.dma_data);
            self.dma_address = self.dma_address.wrapping_add(1);
            if self.dma_address == 0 {
                self.dma_transfer = false;
            }
        }
    }
}

} // verus!
