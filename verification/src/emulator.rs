//! The whole machine: the CPU, the components behind its bus, and the
//! master clock that drives them in step.

use vstd::prelude::*;
use crate::apu::Apu;
use crate::bits::word;
use crate::bus::{BusModel, SystemModel};
use crate::cartridge::{CartridgeModel, load_error, loaded_cartridge};
use crate::controller::Controller;
use crate::cpu::Cpu;
use crate::cpu::laws::lemma_step_keeps;
use crate::mappers::MapperTrait;
use crate::ppu::PpuModel;
use crate::ppu::laws::lemma_clock_progress;
use crate::system::{System, lemma_accesses_keep_cursor};

pub mod state;
pub mod hex;

verus! {

/// Dots in a frame: 262 scanlines of 341 dots.
pub const DOTS_PER_FRAME: u32 = 89342;

/// The machine.
pub struct Emulator {
    pub cpu: Cpu,
    /// Everything behind the CPU's bus.
    pub sys: System,
    /// Master clock ticks since the last reset.
    pub system_clock: u64,
}

/// What an `Emulator` holds, as mathematical values.
pub struct EmulatorModel {
    pub cpu: Cpu,
    pub sys: SystemModel,
    pub system_clock: u64,
}

impl View for Emulator {
    type V = EmulatorModel;

    open spec fn view(&self) -> EmulatorModel {
        EmulatorModel { cpu: self.cpu, sys: self.sys@, system_clock: self.system_clock }
    }
}

impl EmulatorModel {
    /// What holds of the machine between any two operations.
    pub open spec fn wf(self) -> bool {
        self.sys.wf()
    }

    /// The registers of the CPU after a reset of the machine: those of a
    /// CPU at power-on, with the program counter at `pc`; the cycle count
    /// stays.
    pub open spec fn reset_cpu(self, pc: u16) -> Cpu {
        Cpu { pc, total_cycles: self.cpu.total_cycles, ..Cpu::spec_new() }
    }

    /// The machine after a reset: the mapper, the PPU, the APU and the bus
    /// are reset, the PPU is brought up to date with the cartridge, and
    /// the CPU starts at the address stored at `0xFFFC`. The contents of
    /// the cartridge stay.
    pub open spec fn reset(self) -> EmulatorModel {
        let s = (SystemModel {
            cartridge: self.sys.cartridge.reset(),
            ppu: self.sys.ppu.reset(),
            apu: self.sys.apu.spec_reset(),
            bus: BusModel::power_on(),
            ..self.sys
        }).sync_mapper_to_ppu();
        let lo = s.bus_read_value(0xFFFC);
        let s1 = s.bus_read(0xFFFC);
        let hi = s1.bus_read_value(0xFFFD);
        EmulatorModel {
            cpu: self.reset_cpu(word(lo, hi)),
            sys: s1.bus_read(0xFFFD),
            system_clock: 0,
        }
    }

    /// The machine after an image was put into the cartridge slot: if the
    /// image can be loaded, the cartridge holds it, the PPU is connected
    /// to its pattern memory, and the machine is reset; if not, nothing
    /// has changed.
    pub open spec fn load_rom(self, data: Seq<u8>) -> EmulatorModel {
        if load_error(data) is Some {
            self
        } else {
            let cartridge = loaded_cartridge(data);
            (EmulatorModel {
                sys: (SystemModel {
                    cartridge,
                    ppu: self.sys.ppu.set_chr_data(cartridge.chr_data, cartridge.chr_ram),
                    ..self.sys
                }).sync_mapper_to_ppu(),
                ..self
            }).reset()
        }
    }

    /// The PPU runs for one dot.
    pub open spec fn tick_ppu(self) -> EmulatorModel {
        EmulatorModel { sys: SystemModel { ppu: self.sys.ppu.clock(), ..self.sys }, ..self }
    }

    /// An NMI that the PPU has latched goes to the CPU.
    pub open spec fn route_nmi(self) -> EmulatorModel {
        EmulatorModel {
            cpu: Cpu { nmi_pending: self.cpu.nmi_pending || self.sys.ppu.nmi_occurred, ..self.cpu },
            sys: SystemModel { ppu: PpuModel { nmi_occurred: false, ..self.sys.ppu }, ..self.sys },
            ..self
        }
    }

    /// A scanline that the PPU has signalled goes to the mapper, and the
    /// PPU is brought up to date with what the mapper did.
    pub open spec fn route_scanline(self) -> EmulatorModel {
        if self.sys.ppu.scanline_irq {
            EmulatorModel {
                sys: (SystemModel {
                    ppu: PpuModel { scanline_irq: false, ..self.sys.ppu },
                    cartridge: self.sys.cartridge.scanline(),
                    ..self.sys
                }).sync_mapper_to_ppu(),
                ..self
            }
        } else {
            self
        }
    }

    /// One CPU cycle: of a sprite DMA if one is under way, else of the
    /// CPU.
    pub open spec fn cpu_or_dma(self) -> EmulatorModel {
        if self.sys.bus.dma_transfer {
            EmulatorModel { sys: self.sys.dma_cycle(self.system_clock % 2 == 1), ..self }
        } else {
            let (cpu, sys) = self.cpu.spec_step::<System>(self.sys);
            EmulatorModel { cpu, sys, ..self }
        }
    }

    /// A sample byte that the DMC has asked for is read and handed over.
    pub open spec fn serve_dmc(self) -> EmulatorModel {
        match self.sys.apu.dmc_read_request {
            Some(addr) => {
                let s = SystemModel {
                    apu: Apu { dmc_read_request: None, ..self.sys.apu },
                    ..self.sys
                };
                let after = s.bus_read(addr);
                EmulatorModel {
                    sys: SystemModel {
                        apu: after.apu.spec_dmc_provide_sample(s.bus_read_value(addr)),
                        ..after
                    },
                    ..self
                }
            },
            None => self,
        }
    }

    /// One CPU cycle of the APU and of the mapper, with the DMC served in
    /// between.
    pub open spec fn tick_apu(self) -> EmulatorModel {
        let s = (EmulatorModel {
            sys: SystemModel { apu: self.sys.apu.spec_clock(), ..self.sys },
            ..self
        }).serve_dmc();
        EmulatorModel {
            sys: SystemModel { cartridge: s.sys.cartridge.cpu_clock(), ..s.sys },
            ..s
        }
    }

    /// The interrupt requests of the APU and of the mapper go to the CPU;
    /// the mapper's is withdrawn by that.
    pub open spec fn route_irq(self) -> EmulatorModel {
        EmulatorModel {
            cpu: Cpu {
                irq_pending: self.cpu.irq_pending || self.sys.apu.spec_check_irq()
                    || self.sys.cartridge.mapper.spec_irq(),
                ..self.cpu
            },
            sys: SystemModel { cartridge: self.sys.cartridge.check_irq(), ..self.sys },
            ..self
        }
    }

    /// One tick of the master clock, in this order: the PPU runs for a
    /// dot; its NMI latch and its scanline signal are routed; on every
    /// third tick the CPU or the DMA, then the APU, then the mapper run
    /// for a cycle; the interrupt requests are routed.
    #[verifier::opaque]
    pub open spec fn clock(self) -> EmulatorModel {
        let s = self.tick_ppu().route_nmi().route_scanline();
        let s = if self.system_clock % 3 == 0 {
            s.cpu_or_dma().tick_apu()
        } else {
            s
        };
        EmulatorModel { system_clock: self.system_clock.wrapping_add(1), ..s.route_irq() }
    }

    /// The machine after it ran until the PPU completed a frame, or for
    /// `limit` ticks of the master clock if that comes first.
    pub open spec fn run_to_frame_end(self, limit: nat) -> EmulatorModel
        decreases limit,
    {
        if limit == 0 || self.sys.ppu.frame_complete {
            self
        } else {
            self.clock().run_to_frame_end((limit - 1) as nat)
        }
    }

    /// The machine as a frame begins: the mark that the last one was
    /// completed is taken away.
    pub open spec fn begin_frame(self) -> EmulatorModel {
        EmulatorModel {
            sys: SystemModel {
                ppu: PpuModel { frame_complete: false, ..self.sys.ppu },
                ..self.sys
            },
            ..self
        }
    }

    /// The machine after a button of controller 0 or 1 was pressed or
    /// released; other numbers name no controller.
    pub open spec fn set_button(
        self,
        controller: u8,
        button: u8,
        pressed: bool,
    ) -> EmulatorModel {
        if controller == 0 {
            EmulatorModel {
                sys: SystemModel {
                    ctrl1: self.sys.ctrl1.spec_set_button(button, pressed),
                    ..self.sys
                },
                ..self
            }
        } else if controller == 1 {
            EmulatorModel {
                sys: SystemModel {
                    ctrl2: self.sys.ctrl2.spec_set_button(button, pressed),
                    ..self.sys
                },
                ..self
            }
        } else {
            self
        }
    }
}

/// A tick of the master clock keeps the machine well-formed. So at every
/// tick the level of the DMC is within seven bits, the shift register of
/// the noise channel is not zero, and at most eight sprites are selected.
pub proof fn lemma_clock_keeps_wf(s: EmulatorModel)
    requires
        s.wf(),
    ensures
        s.clock().wf(),
        s.clock().sys.apu.dmc.output_level <= 127,
        s.clock().sys.apu.noise.shift_register != 0,
        s.clock().sys.ppu.sprite_count <= 8,
{
    reveal(EmulatorModel::clock);
    lemma_clock_progress(s.sys.ppu);
    let a = s.tick_ppu().route_nmi();
    assert(a.wf());
    let b = a.route_scanline();
    assert(b.wf()) by {
        crate::cartridge::lemma_cartridge_keeps_wf(a.sys.cartridge, 0, 0);
        crate::system::lemma_system_keeps_wf(
            SystemModel {
                ppu: PpuModel { scanline_irq: false, ..a.sys.ppu },
                cartridge: a.sys.cartridge.scanline(),
                ..a.sys
            },
            0,
            0,
            false,
        );
    }
    let c = b.cpu_or_dma();
    assert(c.wf()) by {
        crate::system::lemma_system_keeps_wf(b.sys, 0, 0, b.system_clock % 2 == 1);
        crate::system::lemma_accesses_keep_system_wf();
        lemma_step_keeps::<System>(b.cpu, b.sys, |m: SystemModel| m.wf());
    }
    let d = c.tick_apu();
    assert(d.wf()) by {
        lemma_tick_apu_keeps_wf(c);
    }
    let e = if s.system_clock % 3 == 0 {
        d
    } else {
        b
    };
    assert(e.route_irq().wf()) by {
        crate::cartridge::lemma_cartridge_keeps_wf(e.sys.cartridge, 0, 0);
    }
}

proof fn lemma_tick_apu_keeps_wf(c: EmulatorModel)
    requires
        c.wf(),
    ensures
        c.tick_apu().wf(),
{
    crate::apu::laws::lemma_clock_keeps_wf(c.sys.apu);
    let clocked = EmulatorModel {
        sys: SystemModel { apu: c.sys.apu.spec_clock(), ..c.sys },
        ..c
    };
    assert(clocked.wf());
    let served = clocked.serve_dmc();
    assert(served.wf()) by {
        match clocked.sys.apu.dmc_read_request {
            Some(addr) => {
                let quiet = SystemModel {
                    apu: Apu { dmc_read_request: None, ..clocked.sys.apu },
                    ..clocked.sys
                };
                crate::system::lemma_system_keeps_wf(quiet, addr, 0, false);
                crate::apu::laws::lemma_accesses_keep_wf(
                    quiet.bus_read(addr).apu,
                    0,
                    quiet.bus_read_value(addr),
                );
            },
            None => {},
        }
    }
    crate::cartridge::lemma_cartridge_keeps_wf(served.sys.cartridge, 0, 0);
}

/// While a sprite DMA is under way the CPU stands still.
pub proof fn lemma_cpu_stands_still_during_dma(s: EmulatorModel)
    requires
        s.sys.bus.dma_transfer,
    ensures
        s.cpu_or_dma().cpu == s.cpu,
{
}

/// A run to the end of the frame keeps the machine well-formed.
pub proof fn lemma_run_keeps_wf(s: EmulatorModel, limit: nat)
    requires
        s.wf(),
    ensures
        s.run_to_frame_end(limit).wf(),
    decreases limit,
{
    if limit > 0 && !s.sys.ppu.frame_complete {
        lemma_clock_keeps_wf(s);
        lemma_run_keeps_wf(s.clock(), (limit - 1) as nat);
    }
}

/// After a reset the program counter holds the little-endian word that the
/// bus shows at `0xFFFC` and `0xFFFD`.
pub proof fn lemma_reset_pc(s: EmulatorModel)
    ensures
        ({
            let bus = (SystemModel {
                cartridge: s.sys.cartridge.reset(),
                ppu: s.sys.ppu.reset(),
                apu: s.sys.apu.spec_reset(),
                bus: BusModel::power_on(),
                ..s.sys
            }).sync_mapper_to_ppu();
            s.reset().cpu.pc == word(
                bus.bus_read_value(0xFFFC),
                bus.bus_read(0xFFFC).bus_read_value(0xFFFD),
            )
        }),
{
}

impl Emulator {
    /// What holds of the machine between any two operations.
    pub open spec fn wf(&self) -> bool {
        self.sys.wf()
    }

    /// Tells whether the machine is well-formed: whether its operations
    /// may be called. It is after `new`, and every operation keeps it so;
    /// only a change of the public fields from outside can end it.
    pub fn is_well_formed(&self) -> (ok: bool)
        ensures
            ok == self.wf(),
    {
        self.sys.is_well_formed()
    }

    /// A machine at power-on, with an empty cartridge slot.
    pub fn new() -> (emu: Emulator)
        ensures
            emu.wf(),
            emu.cpu == Cpu::spec_new(),
            emu.system_clock == 0,
            emu.sys.ppu@ == PpuModel::power_on(),
            emu.sys.apu == Apu::spec_new(),
            emu.sys.bus@ == BusModel::power_on(),
            emu.sys.cartridge@ == CartridgeModel::empty(),
            emu.sys.ctrl1 == Controller::spec_new(),
            emu.sys.ctrl2 == Controller::spec_new(),
    {
        Emulator { cpu: Cpu::new(), sys: System::new(), system_clock: 0 }
    }

    fn reset_components(&mut self)
        requires
            old(self).wf(),
        ensures
            final(self).wf(),
            final(self).cpu == old(self).cpu,
            final(self).system_clock == 0,
            final(self).sys@ == (SystemModel {
                cartridge: old(self).sys@.cartridge.reset(),
                ppu: old(self).sys@.ppu.reset(),
                apu: old(self).sys@.apu.spec_reset(),
                bus: BusModel::power_on(),
                ..old(self).sys@
            }).sync_mapper_to_ppu(),
    {
        self.sys.cartridge.reset();
        self.sys.ppu.reset();
        self.sys.apu.reset();
        self.sys.bus.reset();
        self.system_clock = 0;
        self.sys.sync_mapper_to_ppu();
    }

    /// Resets the machine. The CPU starts at the address that the two
    /// bytes at `0xFFFC` hold, low byte first.
    pub fn reset(&mut self)
        requires
            old(self).wf(),
        ensures
            final(self).wf(),
            final(self)@ == old(self)@.reset(),
    {
        self.reset_components();
        let lo = self.sys.bus_read(0xFFFC);
        let hi = self.sys.bus_read(0xFFFD);
        self.cpu.pc = crate::bits::make_word(lo, hi);
        self.cpu.sp = 0xFD;
        self.cpu.status = 0x24;
        self.cpu.a = 0;
        self.cpu.x = 0;
        self.cpu.y = 0;
        self.cpu.cycles = 0;
        self.cpu.nmi_pending = false;
        self.cpu.irq_pending = false;
        assert(0x24u8 == 0x20u8 | 0x04u8) by (bit_vector);
    }

    fn copy_bytes(source: &Vec<u8>) -> (copy: Vec<u8>)
        ensures
            copy@ == source@,
    {
        let mut copy: Vec<u8> = Vec::new();
        let mut i: usize = 0;
        while i < source.len()
            invariant
                i <= source@.len(),
                copy@ == source@.subrange(0, i as int),
            decreases source@.len() - i,
        {
            copy.push(source[i]);
            assert(copy@ =~= source@.subrange(0, i + 1));
            i += 1;
        }
        assert(copy@ =~= source@);
        copy
    }

    /// Puts a ROM image into the cartridge slot and resets the machine.
    /// Tells whether the image could be loaded; one that could not leaves
    /// the machine as it was.
    pub fn load_rom(&mut self, data: &[u8]) -> (loaded: bool)
        requires
            old(self).wf(),
        ensures
            final(self).wf(),
            loaded == (load_error(data@) is None),
            final(self)@ == old(self)@.load_rom(data@),
    {
        let loaded = self.sys.cartridge.load_rom(data);
        if loaded {
            let chr_data = Emulator::copy_bytes(&self.sys.cartridge.chr_data);
            let chr_ram = self.sys.cartridge.chr_ram;
            self.sys.ppu.set_chr_data(chr_data, chr_ram);
            self.sys.sync_mapper_to_ppu();
            self.reset();
        }
        loaded
    }

    fn tick_ppu(&mut self)
        requires
            old(self).wf(),
        ensures
            final(self).wf(),
            final(self)@ == old(self)@.tick_ppu(),
            !final(self).sys.ppu.frame_complete ==> final(self).sys.ppu@.dots_left() < old(
                self,
            ).sys.ppu@.dots_left(),
    {
        proof {
            lemma_clock_progress(self.sys.ppu@);
        }
        self.sys.ppu.clock();
    }

    fn route_nmi(&mut self)
        requires
            old(self).wf(),
        ensures
            final(self).wf(),
            final(self)@ == old(self)@.route_nmi(),
            final(self)@.sys.cursor() == old(self)@.sys.cursor(),
    {
        if self.sys.ppu.check_nmi() {
            self.cpu.nmi_pending = true;
        }
    }

    fn route_scanline(&mut self)
        requires
            old(self).wf(),
        ensures
            final(self).wf(),
            final(self)@ == old(self)@.route_scanline(),
            final(self)@.sys.cursor() == old(self)@.sys.cursor(),
    {
        if self.sys.ppu.check_scanline_irq() {
            self.sys.cartridge.scanline();
            self.sys.sync_mapper_to_ppu();
        }
    }

    /// Runs the CPU for one cycle.
    fn cpu_clock(&mut self)
        requires
            old(self).wf(),
        ensures
            final(self).wf(),
            (final(self).cpu, final(self).sys@) == old(self).cpu.spec_step::<System>(
                old(self).sys@,
            ),
            final(self).system_clock == old(self).system_clock,
            final(self)@.sys.cursor() == old(self)@.sys.cursor(),
    {
        proof {
            let cursor = self.sys@.cursor();
            lemma_accesses_keep_cursor(cursor);
            lemma_step_keeps::<System>(self.cpu, self.sys@, |m: SystemModel| m.cursor() == cursor);
        }
        self.cpu.step(&mut self.sys);
    }

    fn cpu_or_dma(&mut self)
        requires
            old(self).wf(),
        ensures
            final(self).wf(),
            final(self)@ == old(self)@.cpu_or_dma(),
            final(self)@.sys.cursor() == old(self)@.sys.cursor(),
    {
        if self.sys.bus.dma_transfer {
            let odd = self.system_clock % 2 == 1;
            proof {
                crate::system::lemma_dma_keeps_cursor(self.sys@, odd);
            }
            self.sys.dma_cycle(odd);
        } else {
            self.cpu_clock();
        }
    }

    fn serve_dmc(&mut self)
        requires
            old(self).wf(),
        ensures
            final(self).wf(),
            final(self)@ == old(self)@.serve_dmc(),
            final(self)@.sys.cursor() == old(self)@.sys.cursor(),
    {
        match self.sys.apu.dmc_read_request {
            Some(addr) => {
                self.sys.apu.dmc_read_request = None;
                proof {
                    crate::system::lemma_read_keeps_cursor(self.sys@, addr);
                }
                let data = self.sys.bus_read(addr);
                self.sys.apu.dmc_provide_sample(data);
            },
            None => {},
        }
    }

    fn tick_apu(&mut self)
        requires
            old(self).wf(),
        ensures
            final(self).wf(),
            final(self)@ == old(self)@.tick_apu(),
            final(self)@.sys.cursor() == old(self)@.sys.cursor(),
    {
        self.sys.apu.clock();
        self.serve_dmc();
        self.sys.cartridge.cpu_clock();
    }

    fn route_irq(&mut self)
        requires
            old(self).wf(),
        ensures
            final(self).wf(),
            final(self)@ == old(self)@.route_irq(),
            final(self)@.sys.cursor() == old(self)@.sys.cursor(),
    {
        if self.sys.apu.check_irq() {
            self.cpu.irq_pending = true;
        }
        if self.sys.cartridge.check_irq() {
            self.cpu.irq_pending = true;
        }
    }

    /// Runs the machine for one tick of the master clock. Returns whether
    /// the tick was one on which the CPU and the APU ran.
    pub fn clock(&mut self) -> (cpu_cycle: bool)
        requires
            old(self).wf(),
        ensures
            final(self).wf(),
            final(self)@ == old(self)@.clock(),
            cpu_cycle == (old(self).system_clock % 3 == 0),
            !final(self).sys.ppu.frame_complete ==> final(self).sys.ppu@.dots_left() < old(
                self,
            ).sys.ppu@.dots_left(),
    {
        reveal(EmulatorModel::clock);
        let cpu_cycle = self.system_clock % 3 == 0;
        self.tick_ppu();
        self.route_nmi();
        self.route_scanline();
        if cpu_cycle {
            self.cpu_or_dma();
            self.tick_apu();
        }
        self.route_irq();
        self.system_clock = self.system_clock.wrapping_add(1);
        cpu_cycle
    }

    /// Marks the beginning of a frame: `frame_complete` tells from now
    /// on whether the PPU has finished it.
    pub fn begin_frame(&mut self)
        requires
            old(self).wf(),
        ensures
            final(self).wf(),
            final(self)@ == old(self)@.begin_frame(),
    {
        self.sys.ppu.frame_complete = false;
    }

    /// Whether the PPU has completed a frame since the last was begun.
    pub fn frame_complete(&self) -> (done: bool)
        ensures
            done == self@.sys.ppu.frame_complete,
    {
        self.sys.ppu.frame_complete
    }

    /// Runs the machine until the PPU completes a frame. That takes a
    /// frame's worth of ticks of the master clock at most, so the limit in
    /// the model is never what ends the run.
    pub fn frame(&mut self)
        requires
            old(self).wf(),
        ensures
            final(self).wf(),
            final(self)@ == old(self)@.begin_frame().run_to_frame_end(DOTS_PER_FRAME as nat),
            final(self)@.sys.ppu.frame_complete,
    {
        self.begin_frame();
        let ghost start = self@;
        let ghost mut limit: nat = DOTS_PER_FRAME as nat;
        while !self.sys.ppu.frame_complete
            invariant
                self.wf(),
                start.run_to_frame_end(DOTS_PER_FRAME as nat) == self@.run_to_frame_end(limit),
                !self.sys.ppu.frame_complete ==> self.sys.ppu@.dots_left() <= limit,
            decreases
                    (if self.sys.ppu.frame_complete {
                        0
                    } else {
                        self.sys.ppu@.dots_left()
                    }),
        {
            self.clock();
            proof {
                limit = (limit - 1) as nat;
            }
        }
    }

    /// Presses or releases a button of controller 0 or 1. Buttons: 0 A,
    /// 1 B, 2 Select, 3 Start, 4 Up, 5 Down, 6 Left, 7 Right.
    pub fn set_button(&mut self, controller: u8, button: u8, pressed: bool)
        ensures
            final(self)@ == old(self)@.set_button(controller, button, pressed),
            old(self).wf() ==> final(self).wf(),
    {
        if controller == 0 {
            self.sys.ctrl1.set_button(button, pressed);
        } else if controller == 1 {
            self.sys.ctrl2.set_button(button, pressed);
        }
    }

    /// The picture: 256 by 240 pixels, row by row, four bytes (red, green,
    /// blue, alpha) each.
    pub fn frame_buffer(&self) -> (buffer: &Vec<u8>)
        ensures
            buffer@ == self@.sys.ppu.frame_buffer,
    {
        &self.sys.ppu.frame_buffer
    }

    /// The size of the picture in bytes.
    pub fn get_frame_buffer_len(&self) -> (len: usize)
        ensures
            len == self@.sys.ppu.frame_buffer.len(),
    {
        self.sys.ppu.frame_buffer.len()
    }
}

} // verus!
