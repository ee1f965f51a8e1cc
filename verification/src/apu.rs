//! The audio processor: two pulse channels, a triangle, a noise and a
//! delta-modulation channel, and the frame sequencer that clocks their
//! envelopes, sweeps and length counters. The channels put out levels;
//! mixing them into samples is left to the host.

use vstd::prelude::*;

pub mod channels;
pub mod laws;

pub use channels::{PulseChannel, TriangleChannel, NoiseChannel, DmcChannel, Envelope};

verus! {

/// CPU cycles from the start of a sequence to its first quarter frame.
pub const STEP_1: u16 = 3729;

/// CPU cycles to the first half frame.
pub const STEP_2: u16 = 7457;

/// CPU cycles to the second quarter-only frame.
pub const STEP_3: u16 = 11186;

/// CPU cycles to the end of a four-step sequence.
pub const STEP_4: u16 = 14915;

/// CPU cycles to the end of a five-step sequence.
pub const STEP_5: u16 = 18641;

/// The audio processor.
#[derive(Debug, Clone, Copy)]
pub struct Apu {
    pub pulse1: PulseChannel,
    pub pulse2: PulseChannel,
    pub triangle: TriangleChannel,
    pub noise: NoiseChannel,
    pub dmc: DmcChannel,
    /// Five-step sequence (`true`) or four-step (`false`).
    pub frame_mode: bool,
    pub frame_step: u8,
    /// CPU cycles since the sequence began.
    pub frame_value: u16,
    /// The frame interrupt is switched off.
    pub frame_irq_inhibit: bool,
    /// The frame interrupt is asserted.
    pub frame_irq: bool,
    /// CPU cycles since the last reset.
    pub cycle: u64,
    /// The address of a sample byte that the DMC wants read from CPU
    /// memory, until it is provided.
    pub dmc_read_request: Option<u16>,
}

impl Apu {
    // ----- model -----

    /// What holds of an APU between any two operations. Among it: the DMC
    /// level stays within seven bits, the noise shift register is never
    /// zero, and the frame interrupt is not asserted while it is inhibited.
    pub open spec fn wf(self) -> bool {
        &&& self.channels_wf()
        &&& self.frame_value < STEP_5
        &&& !self.frame_mode ==> self.frame_value < STEP_4
        &&& self.frame_irq_inhibit ==> !self.frame_irq
    }

    /// What holds of the five channels.
    pub open spec fn channels_wf(self) -> bool {
        &&& self.pulse1.wf()
        &&& self.pulse2.wf()
        &&& self.triangle.wf()
        &&& self.noise.wf()
        &&& self.dmc.wf()
    }

    /// An APU at power-on: all channels off and silent.
    pub open spec fn spec_new() -> Apu {
        Apu {
            pulse1: PulseChannel::spec_new(1),
            pulse2: PulseChannel::spec_new(2),
            triangle: TriangleChannel::spec_new(),
            noise: NoiseChannel::spec_new(),
            dmc: DmcChannel::spec_new(),
            frame_mode: false,
            frame_step: 0,
            frame_value: 0,
            frame_irq_inhibit: false,
            frame_irq: false,
            cycle: 0,
            dmc_read_request: None,
        }
    }

    /// After a reset the channels are as at power-on and the sequence
    /// starts over; the sequencer's mode and inhibit bit stay.
    pub open spec fn spec_reset(self) -> Apu {
        Apu {
            frame_mode: self.frame_mode,
            frame_irq_inhibit: self.frame_irq_inhibit,
            dmc_read_request: self.dmc_read_request,
            frame_value: 0,
            ..Apu::spec_new()
        }
    }

    /// A quarter frame clocks the envelopes and the triangle's linear
    /// counter.
    pub open spec fn spec_clock_quarter_frame(self) -> Apu {
        Apu {
            pulse1: self.pulse1.spec_clock_envelope(),
            pulse2: self.pulse2.spec_clock_envelope(),
            triangle: self.triangle.spec_clock_linear_counter(),
            noise: self.noise.spec_clock_envelope(),
            ..self
        }
    }

    /// A half frame clocks the length counters and the sweeps.
    pub open spec fn spec_clock_half_frame(self) -> Apu {
        Apu {
            pulse1: self.pulse1.spec_clock_length().spec_clock_sweep(),
            pulse2: self.pulse2.spec_clock_length().spec_clock_sweep(),
            triangle: self.triangle.spec_clock_length(),
            noise: self.noise.spec_clock_length(),
            ..self
        }
    }

    /// A write to the channel-enable register: a channel that is switched
    /// off loses its length count; the DMC restarts its sample if none was
    /// playing, or drops what is left of it; the DMC interrupt is cleared.
    pub open spec fn spec_write_status(self, data: u8) -> Apu {
        Apu {
            pulse1: self.pulse1.spec_set_enabled(data & 0x01 != 0),
            pulse2: self.pulse2.spec_set_enabled(data & 0x02 != 0),
            triangle: self.triangle.spec_set_enabled(data & 0x04 != 0),
            noise: self.noise.spec_set_enabled(data & 0x08 != 0),
            dmc: self.dmc.spec_set_enabled(data & 0x10 != 0),
            ..self
        }
    }

    /// A write to the frame-sequencer register: mode and inhibit are set,
    /// inhibit clears the frame interrupt, the sequence starts over, and in
    /// five-step mode a half and a quarter frame are clocked at once.
    pub open spec fn spec_write_frame_counter(self, data: u8) -> Apu {
        let s = Apu {
            frame_mode: data & 0x80 != 0,
            frame_irq_inhibit: data & 0x40 != 0,
            frame_irq: self.frame_irq && data & 0x40 == 0,
            frame_step: 0,
            frame_value: 0,
            ..self
        };
        if s.frame_mode {
            s.spec_clock_half_frame().spec_clock_quarter_frame()
        } else {
            s
        }
    }

    /// The state after the CPU wrote `data` to the register at `addr`
    /// (`0x4000` to `0x4017`); other addresses change nothing.
    pub open spec fn spec_cpu_write(self, addr: u16, data: u8) -> Apu {
        if addr == 0x4000 {
            Apu { pulse1: self.pulse1.spec_write_ctrl(data), ..self }
        } else if addr == 0x4001 {
            Apu { pulse1: self.pulse1.spec_write_sweep(data), ..self }
        } else if addr == 0x4002 {
            Apu { pulse1: self.pulse1.spec_write_timer_lo(data), ..self }
        } else if addr == 0x4003 {
            Apu { pulse1: self.pulse1.spec_write_length(data), ..self }
        } else if addr == 0x4004 {
            Apu { pulse2: self.pulse2.spec_write_ctrl(data), ..self }
        } else if addr == 0x4005 {
            Apu { pulse2: self.pulse2.spec_write_sweep(data), ..self }
        } else if addr == 0x4006 {
            Apu { pulse2: self.pulse2.spec_write_timer_lo(data), ..self }
        } else if addr == 0x4007 {
            Apu { pulse2: self.pulse2.spec_write_length(data), ..self }
        } else if addr == 0x4008 {
            Apu { triangle: self.triangle.spec_write_ctrl(data), ..self }
        } else if addr == 0x400A {
            Apu { triangle: self.triangle.spec_write_timer_lo(data), ..self }
        } else if addr == 0x400B {
            Apu { triangle: self.triangle.spec_write_length(data), ..self }
        } else if addr == 0x400C {
            Apu { noise: self.noise.spec_write_ctrl(data), ..self }
        } else if addr == 0x400E {
            Apu { noise: self.noise.spec_write_mode(data), ..self }
        } else if addr == 0x400F {
            Apu { noise: self.noise.spec_write_length(data), ..self }
        } else if addr == 0x4010 {
            Apu { dmc: self.dmc.spec_write_ctrl(data), ..self }
        } else if addr == 0x4011 {
            Apu { dmc: self.dmc.spec_write_direct_load(data), ..self }
        } else if addr == 0x4012 {
            Apu { dmc: self.dmc.spec_write_sample_addr(data), ..self }
        } else if addr == 0x4013 {
            Apu { dmc: self.dmc.spec_write_sample_length(data), ..self }
        } else if addr == 0x4015 {
            self.spec_write_status(data)
        } else if addr == 0x4017 {
            self.spec_write_frame_counter(data)
        } else {
            self
        }
    }

    /// The status byte: bits 0 to 3 tell which length counters are not
    /// zero, bit 4 whether the DMC has bytes left, bit 6 the frame
    /// interrupt and bit 7 the DMC interrupt.
    pub open spec fn spec_status(self) -> u8 {
        ((if self.pulse1.length_counter > 0 {
            0x01int
        } else {
            0int
        }) + (if self.pulse2.length_counter > 0 {
            0x02int
        } else {
            0int
        }) + (if self.triangle.length_counter > 0 {
            0x04int
        } else {
            0int
        }) + (if self.noise.length_counter > 0 {
            0x08int
        } else {
            0int
        }) + (if self.dmc.bytes_remaining > 0 {
            0x10int
        } else {
            0int
        }) + (if self.frame_irq {
            0x40int
        } else {
            0int
        }) + (if self.dmc.irq_flag {
            0x80int
        } else {
            0int
        })) as u8
    }

    /// Reading the status clears the frame interrupt.
    pub open spec fn spec_cpu_read(self) -> Apu {
        Apu { frame_irq: false, ..self }
    }

    /// Hands the DMC the sample byte it asked for.
    pub open spec fn spec_dmc_provide_sample(self, data: u8) -> Apu {
        Apu { dmc: self.dmc.spec_fill_buffer(data), dmc_read_request: None, ..self }
    }

    /// One tick of the DMC's timer. When the timer fires, a new output
    /// cycle may begin, and with it a request for the next sample byte.
    pub open spec fn spec_clock_dmc(self) -> Apu {
        Apu {
            dmc: self.dmc.spec_clock_timer(),
            dmc_read_request: if self.dmc.spec_requests_byte() {
                Some(self.dmc.current_address)
            } else {
                self.dmc_read_request
            },
            ..self
        }
    }

    /// One CPU cycle of the frame sequencer. Four-step mode clocks a
    /// quarter frame at 3729 and 11186 cycles and a quarter and a half
    /// frame at 7457 and at 14915, where it also asserts the frame
    /// interrupt unless inhibited and starts over. Five-step mode does the
    /// same up to 11186, has its last step at 18641 and never interrupts.
    pub open spec fn spec_clock_frame_counter(self) -> Apu {
        let n: u16 = (self.frame_value + 1) as u16;
        let s = Apu { frame_value: n, ..self };
        if n == STEP_1 || n == STEP_3 {
            s.spec_clock_quarter_frame()
        } else if n == STEP_2 {
            s.spec_clock_quarter_frame().spec_clock_half_frame()
        } else if !self.frame_mode && n == STEP_4 {
            Apu {
                frame_irq: self.frame_irq || !self.frame_irq_inhibit,
                frame_value: 0,
                ..s.spec_clock_quarter_frame().spec_clock_half_frame()
            }
        } else if self.frame_mode && n == STEP_5 {
            Apu { frame_value: 0, ..s.spec_clock_quarter_frame().spec_clock_half_frame() }
        } else {
            s
        }
    }

    /// The channel timers for one CPU cycle: the triangle's on every one,
    /// the others' on every second.
    pub open spec fn spec_clock_timers(self) -> Apu {
        let s = Apu { triangle: self.triangle.spec_clock_timer(), ..self };
        if s.cycle % 2 == 0 {
            (Apu {
                pulse1: s.pulse1.spec_clock_timer(),
                pulse2: s.pulse2.spec_clock_timer(),
                noise: s.noise.spec_clock_timer(),
                ..s
            }).spec_clock_dmc()
        } else {
            s
        }
    }

    /// One CPU cycle of the APU.
    pub open spec fn spec_clock(self) -> Apu {
        let s = self.spec_clock_timers().spec_clock_frame_counter();
        Apu { cycle: s.cycle.wrapping_add(1), ..s }
    }

    /// Whether the frame sequencer or the DMC asserts an interrupt.
    pub open spec fn spec_check_irq(self) -> bool {
        self.frame_irq || self.dmc.irq_flag
    }

    // ----- executable -----

    /// Tells whether the APU is well-formed.
    pub fn is_well_formed(&self) -> (ok: bool)
        ensures
            ok == self.wf(),
    {
        self.pulse1.is_well_formed() && self.pulse2.is_well_formed()
            && self.triangle.is_well_formed() && self.noise.is_well_formed()
            && self.dmc.is_well_formed() && self.frame_value < STEP_5 && (self.frame_mode
            || self.frame_value < STEP_4) && !(self.frame_irq_inhibit && self.frame_irq)
    }

    /// An APU at power-on: all channels off and silent.
    pub fn new() -> (apu: Apu)
        ensures
            apu == Apu::spec_new(),
            apu.wf(),
    {
        Apu {
            pulse1: PulseChannel::new(1),
            pulse2: PulseChannel::new(2),
            triangle: TriangleChannel::new(),
            noise: NoiseChannel::new(),
            dmc: DmcChannel::new(),
            frame_mode: false,
            frame_step: 0,
            frame_value: 0,
            frame_irq_inhibit: false,
            frame_irq: false,
            cycle: 0,
            dmc_read_request: None,
        }
    }

    /// Resets the channels and starts the sequence over.
    pub fn reset(&mut self)
        ensures
            *final(self) == old(self).spec_reset(),
            final(self).wf(),
    {
        self.pulse1 = PulseChannel::new(1);
        self.pulse2 = PulseChannel::new(2);
        self.triangle = TriangleChannel::new();
        self.noise = NoiseChannel::new();
        self.dmc = DmcChannel::new();
        self.frame_step = 0;
        self.frame_value = 0;
        self.frame_irq = false;
        self.cycle = 0;
    }

    fn clock_quarter_frame(&mut self)
        requires
            old(self).channels_wf(),
        ensures
            *final(self) == old(self).spec_clock_quarter_frame(),
            final(self).channels_wf(),
    {
        self.pulse1.clock_envelope();
        self.pulse2.clock_envelope();
        self.triangle.clock_linear_counter();
        self.noise.clock_envelope();
    }

    fn clock_half_frame(&mut self)
        requires
            old(self).channels_wf(),
        ensures
            *final(self) == old(self).spec_clock_half_frame(),
            final(self).channels_wf(),
    {
        self.pulse1.clock_length();
        self.pulse1.clock_sweep();
        self.pulse2.clock_length();
        self.pulse2.clock_sweep();
        self.triangle.clock_length();
        self.noise.clock_length();
    }

    fn write_status(&mut self, data: u8)
        requires
            old(self).wf(),
        ensures
            *final(self) == old(self).spec_write_status(data),
            final(self).wf(),
    {
        self.pulse1.set_enabled(data & 0x01 != 0);
        self.pulse2.set_enabled(data & 0x02 != 0);
        self.triangle.set_enabled(data & 0x04 != 0);
        self.noise.set_enabled(data & 0x08 != 0);
        self.dmc.set_enabled(data & 0x10 != 0);
    }

    fn write_frame_counter(&mut self, data: u8)
        requires
            old(self).wf(),
        ensures
            *final(self) == old(self).spec_write_frame_counter(data),
            final(self).wf(),
    {
        self.frame_mode = data & 0x80 != 0;
        self.frame_irq_inhibit = data & 0x40 != 0;
        if self.frame_irq_inhibit {
            self.frame_irq = false;
        }
        self.frame_step = 0;
        self.frame_value = 0;
        if self.frame_mode {
            self.clock_half_frame();
            self.clock_quarter_frame();
        }
    }

    /// The CPU writes an APU register.
    pub fn cpu_write(&mut self, addr: u16, data: u8)
        requires
            old(self).wf(),
        ensures
            *final(self) == old(self).spec_cpu_write(addr, data),
            final(self).wf(),
    {
        match addr {
            0x4000 => self.pulse1.write_ctrl(data),
            0x4001 => self.pulse1.write_sweep(data),
            0x4002 => self.pulse1.write_timer_lo(data),
            0x4003 => self.pulse1.write_length(data),
            0x4004 => self.pulse2.write_ctrl(data),
            0x4005 => self.pulse2.write_sweep(data),
            0x4006 => self.pulse2.write_timer_lo(data),
            0x4007 => self.pulse2.write_length(data),
            0x4008 => self.triangle.write_ctrl(data),
            0x400A => self.triangle.write_timer_lo(data),
            0x400B => self.triangle.write_length(data),
            0x400C => self.noise.write_ctrl(data),
            0x400E => self.noise.write_mode(data),
            0x400F => self.noise.write_length(data),
            0x4010 => self.dmc.write_ctrl(data),
            0x4011 => self.dmc.write_direct_load(data),
            0x4012 => self.dmc.write_sample_addr(data),
            0x4013 => self.dmc.write_sample_length(data),
            0x4015 => self.write_status(data),
            0x4017 => self.write_frame_counter(data),
            _ => {},
        }
    }

    /// The CPU reads the status register; this clears the frame interrupt.
    pub fn cpu_read(&mut self) -> (status: u8)
        ensures
            status == old(self).spec_status(),
            *final(self) == old(self).spec_cpu_read(),
            old(self).wf() ==> final(self).wf(),
    {
        let mut status: u8 = 0;
        if self.pulse1.length_counter > 0 {
            status = status + 0x01;
        }
        if self.pulse2.length_counter > 0 {
            status = status + 0x02;
        }
        if self.triangle.length_counter > 0 {
            status = status + 0x04;
        }
        if self.noise.length_counter > 0 {
            status = status + 0x08;
        }
        if self.dmc.bytes_remaining > 0 {
            status = status + 0x10;
        }
        if self.frame_irq {
            status = status + 0x40;
        }
        if self.dmc.irq_flag {
            status = status + 0x80;
        }
        self.frame_irq = false;
        status
    }

    /// Hands the DMC the sample byte it asked for.
    pub fn dmc_provide_sample(&mut self, data: u8)
        ensures
            *final(self) == old(self).spec_dmc_provide_sample(data),
            old(self).wf() ==> final(self).wf(),
    {
        self.dmc.fill_buffer(data);
        self.dmc_read_request = None;
    }

    fn clock_dmc(&mut self)
        requires
            old(self).wf(),
        ensures
            *final(self) == old(self).spec_clock_dmc(),
            final(self).wf(),
    {
        if self.dmc.tick() {
            self.dmc_read_request = Some(self.dmc.current_address);
            self.dmc.fetch();
        }
    }

    fn clock_frame_counter(&mut self)
        requires
            old(self).wf(),
        ensures
            *final(self) == old(self).spec_clock_frame_counter(),
            final(self).wf(),
    {
        self.frame_value = self.frame_value + 1;
        let n = self.frame_value;
        if n == STEP_1 || n == STEP_3 {
            self.clock_quarter_frame();
        } else if n == STEP_2 {
            self.clock_quarter_frame();
            self.clock_half_frame();
        } else if !self.frame_mode && n == STEP_4 {
            self.clock_quarter_frame();
            self.clock_half_frame();
            if !self.frame_irq_inhibit {
                self.frame_irq = true;
            }
            self.frame_value = 0;
        } else if self.frame_mode && n == STEP_5 {
            self.clock_quarter_frame();
            self.clock_half_frame();
            self.frame_value = 0;
        }
    }

    fn clock_timers(&mut self)
        requires
            old(self).wf(),
        ensures
            *final(self) == old(self).spec_clock_timers(),
            final(self).wf(),
    {
        self.triangle.clock_timer();
        if self.cycle % 2 == 0 {
            self.pulse1.clock_timer();
            self.pulse2.clock_timer();
            self.noise.clock_timer();
            self.clock_dmc();
        }
    }

    /// Runs the APU for one CPU cycle.
    pub fn clock(&mut self)
        requires
            old(self).wf(),
        ensures
            *final(self) == old(self).spec_clock(),
            final(self).wf(),
    {
        self.clock_timers();
        self.clock_frame_counter();
        self.cycle = self.cycle.wrapping_add(1);
    }

    /// Whether the frame sequencer or the DMC asserts an interrupt.
    pub fn check_irq(&self) -> (irq: bool)
        ensures
            irq == self.spec_check_irq(),
    {
        self.frame_irq || self.dmc.irq_flag
    }
}

} // verus!
