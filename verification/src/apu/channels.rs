//! The five sound channels of the APU.

use vstd::prelude::*;

verus! {

/// The four duty sequences of a pulse channel, eight steps each.
pub const DUTY_TABLE: [[u8; 8]; 4] = [
    [0, 0, 0, 0, 0, 0, 0, 1],
    [0, 0, 0, 0, 0, 0, 1, 1],
    [0, 0, 0, 0, 1, 1, 1, 1],
    [1, 1, 1, 1, 1, 1, 0, 0],
];

/// The 32 steps of the triangle wave.
pub const TRIANGLE_TABLE: [u8; 32] = [
    15, 14, 13, 12, 11, 10, 9, 8, 7, 6, 5, 4, 3, 2, 1, 0,
    0, 1, 2, 3, 4, 5, 6, 7, 8, 9, 10, 11, 12, 13, 14, 15,
];

/// Timer periods of the noise channel.
pub const NOISE_PERIOD_TABLE: [u16; 16] = [
    4, 8, 16, 32, 64, 96, 128, 160, 202, 254, 380, 508, 762, 1016, 2034, 4068,
];

/// Timer periods of the DMC.
pub const DMC_RATE_TABLE: [u16; 16] = [
    428, 380, 340, 320, 286, 254, 226, 214, 190, 160, 142, 128, 106, 84, 72, 54,
];

/// Length-counter values, selected by the upper five bits of a length write.
pub const LENGTH_TABLE: [u8; 32] = [
    10, 254, 20, 2, 40, 4, 80, 6, 160, 8, 60, 10, 14, 12, 26, 14,
    12, 16, 24, 18, 48, 20, 96, 22, 192, 24, 72, 26, 16, 28, 32, 30,
];

/// The length-counter value that a write of `data` to a length register
/// loads.
pub open spec fn length_for(data: u8) -> u8 {
    LENGTH_TABLE[data as int / 8]
}

fn length_lookup(data: u8) -> (len: u8)
    ensures
        len == length_for(data),
{
    LENGTH_TABLE[(data / 8) as usize]
}

/// A length counter counts down to zero unless it is halted.
pub open spec fn count_length(halt: bool, counter: u8) -> u8 {
    if !halt && counter > 0 {
        (counter - 1) as u8
    } else {
        counter
    }
}

// ===== envelope =====

/// The volume envelope that the pulse channels and the noise channel share.
#[derive(Debug, Clone, Copy)]
pub struct Envelope {
    /// The decaying level is put out (`true`) or the constant one.
    pub enabled: bool,
    /// The decay starts over from 15 when it has reached 0.
    pub loop_flag: bool,
    pub start: bool,
    pub period: u8,
    pub divider: u8,
    pub decay: u8,
    pub constant_volume: u8,
}

impl Envelope {
    /// An envelope at power-on.
    pub open spec fn spec_new() -> Envelope {
        Envelope {
            enabled: true,
            loop_flag: false,
            start: false,
            period: 0,
            divider: 0,
            decay: 0,
            constant_volume: 0,
        }
    }

    /// A write to the channel's control register: bit 5 loop, bit 4 constant
    /// volume, bits 3-0 the period and the constant level.
    pub open spec fn spec_write(self, data: u8) -> Envelope {
        Envelope {
            loop_flag: data & 0x20 != 0,
            enabled: data & 0x10 == 0,
            period: data & 0x0F,
            constant_volume: data & 0x0F,
            ..self
        }
    }

    /// One quarter-frame tick. With the start flag set the decay begins at
    /// 15; else the divider counts down, and each time it was zero it is
    /// reloaded and the decay goes down by one, from 0 back to 15 only if
    /// the loop flag is set.
    pub open spec fn spec_clock(self) -> Envelope {
        if self.start {
            Envelope { start: false, decay: 15, divider: self.period, ..self }
        } else if self.divider == 0 {
            Envelope {
                divider: self.period,
                decay: if self.decay > 0 {
                    (self.decay - 1) as u8
                } else if self.loop_flag {
                    15
                } else {
                    0
                },
                ..self
            }
        } else {
            Envelope { divider: (self.divider - 1) as u8, ..self }
        }
    }

    /// The level of the envelope: the decaying one, or the constant one.
    pub open spec fn spec_output(self) -> u8 {
        if self.enabled {
            self.decay
        } else {
            self.constant_volume
        }
    }

    /// An envelope at power-on.
    pub fn new() -> (e: Envelope)
        ensures
            e == Envelope::spec_new(),
    {
        Envelope {
            enabled: true,
            loop_flag: false,
            start: false,
            period: 0,
            divider: 0,
            decay: 0,
            constant_volume: 0,
        }
    }

    /// A write to the control register of the channel.
    pub fn write(&mut self, data: u8)
        ensures
            *final(self) == old(self).spec_write(data),
    {
        self.loop_flag = data & 0x20 != 0;
        self.enabled = data & 0x10 == 0;
        self.period = data & 0x0F;
        self.constant_volume = data & 0x0F;
    }

    /// One quarter-frame tick.
    pub fn clock(&mut self)
        ensures
            *final(self) == old(self).spec_clock(),
    {
        if self.start {
            self.start = false;
            self.decay = 15;
            self.divider = self.period;
        } else if self.divider == 0 {
            self.divider = self.period;
            if self.decay > 0 {
                self.decay = self.decay - 1;
            } else if self.loop_flag {
                self.decay = 15;
            }
        } else {
            self.divider = self.divider - 1;
        }
    }

    /// The level of the envelope, 0 to 15.
    pub fn output(&self) -> (level: u8)
        ensures
            level == self.spec_output(),
    {
        if self.enabled {
            self.decay
        } else {
            self.constant_volume
        }
    }
}

// ===== pulse =====

/// A pulse channel. The two differ only in how their sweeps subtract.
#[derive(Debug, Clone, Copy)]
pub struct PulseChannel {
    pub enabled: bool,
    /// 1 or 2.
    pub channel: u8,
    /// Which duty sequence, 0 to 3.
    pub duty: u8,
    /// Position in the duty sequence, 0 to 7.
    pub duty_pos: u8,
    pub timer_period: u16,
    pub timer_value: u16,
    pub length_halt: bool,
    pub length_counter: u8,
    pub envelope: Envelope,
    pub sweep_enabled: bool,
    pub sweep_negate: bool,
    pub sweep_reload: bool,
    pub sweep_period: u8,
    /// 0 to 7.
    pub sweep_shift: u8,
    pub sweep_divider: u8,
}

impl PulseChannel {
    /// Duty, duty position and sweep shift are within their tables and
    /// widths.
    pub open spec fn wf(self) -> bool {
        &&& self.duty < 4
        &&& self.duty_pos < 8
        &&& self.sweep_shift < 8
    }

    /// A pulse channel at power-on; `channel` is 1 or 2.
    pub open spec fn spec_new(channel: u8) -> PulseChannel {
        PulseChannel {
            enabled: false,
            channel,
            duty: 0,
            duty_pos: 0,
            timer_period: 0,
            timer_value: 0,
            length_halt: false,
            length_counter: 0,
            envelope: Envelope::spec_new(),
            sweep_enabled: false,
            sweep_negate: false,
            sweep_reload: false,
            sweep_period: 0,
            sweep_shift: 0,
            sweep_divider: 0,
        }
    }

    /// Bits 7-6 select the duty, bit 5 halts the length counter, the rest
    /// goes to the envelope.
    pub open spec fn spec_write_ctrl(self, data: u8) -> PulseChannel {
        PulseChannel {
            duty: data / 64,
            length_halt: data & 0x20 != 0,
            envelope: self.envelope.spec_write(data),
            ..self
        }
    }

    /// Bit 7 enables the sweep, bits 6-4 are its period, bit 3 negates,
    /// bits 2-0 are the shift; the sweep's divider is to be reloaded.
    pub open spec fn spec_write_sweep(self, data: u8) -> PulseChannel {
        PulseChannel {
            sweep_enabled: data >= 128,
            sweep_period: (data / 16) % 8,
            sweep_negate: data & 0x08 != 0,
            sweep_shift: data % 8,
            sweep_reload: true,
            ..self
        }
    }

    /// A write to the low byte of the timer period.
    pub open spec fn spec_write_timer_lo(self, data: u8) -> PulseChannel {
        PulseChannel { timer_period: (self.timer_period & 0x0700) | data as u16, ..self }
    }

    /// The low three bits are the timer's high bits; the upper five load
    /// the length counter if the channel is enabled. The duty sequence and
    /// the envelope start over.
    pub open spec fn spec_write_length(self, data: u8) -> PulseChannel {
        PulseChannel {
            timer_period: (self.timer_period & 0x00FF) | ((data as u16 & 0x07) << 8),
            length_counter: if self.enabled {
                length_for(data)
            } else {
                self.length_counter
            },
            duty_pos: 0,
            envelope: Envelope { start: true, ..self.envelope },
            ..self
        }
    }

    /// The channel switched on or off; switched off it loses its length count.
    pub open spec fn spec_set_enabled(self, on: bool) -> PulseChannel {
        PulseChannel {
            enabled: on,
            length_counter: if on {
                self.length_counter
            } else {
                0
            },
            ..self
        }
    }

    /// The timer counts down; when it was zero it is reloaded and the duty
    /// sequence moves on.
    pub open spec fn spec_clock_timer(self) -> PulseChannel {
        if self.timer_value == 0 {
            PulseChannel {
                timer_value: self.timer_period,
                duty_pos: ((self.duty_pos + 1) % 8) as u8,
                ..self
            }
        } else {
            PulseChannel { timer_value: (self.timer_value - 1) as u16, ..self }
        }
    }

    /// A quarter-frame tick of the envelope.
    pub open spec fn spec_clock_envelope(self) -> PulseChannel {
        PulseChannel { envelope: self.envelope.spec_clock(), ..self }
    }

    /// A half-frame tick of the length counter.
    pub open spec fn spec_clock_length(self) -> PulseChannel {
        PulseChannel { length_counter: count_length(self.length_halt, self.length_counter), ..self }
    }

    /// The period that the sweep aims at: the period plus or minus itself
    /// shifted right; the first channel subtracts one more.
    pub open spec fn spec_sweep_target_period(self) -> u16 {
        let delta: u16 = self.timer_period >> self.sweep_shift;
        if self.sweep_negate {
            if self.channel == 1 {
                self.timer_period.wrapping_sub(delta).wrapping_sub(1)
            } else {
                self.timer_period.wrapping_sub(delta)
            }
        } else {
            self.timer_period.wrapping_add(delta)
        }
    }

    /// A half-frame tick of the sweep: the period takes the target when
    /// the divider is zero, the sweep is enabled with a shift, the period
    /// is at least 8 and the target at most `0x7FF`; the divider counts
    /// down, or is reloaded when it was zero or a reload is due.
    pub open spec fn spec_clock_sweep(self) -> PulseChannel {
        let target = self.spec_sweep_target_period();
        let period = if self.sweep_divider == 0 && self.sweep_enabled && self.sweep_shift > 0
            && self.timer_period >= 8 && target <= 0x7FF {
            target
        } else {
            self.timer_period
        };
        if self.sweep_divider == 0 || self.sweep_reload {
            PulseChannel {
                timer_period: period,
                sweep_divider: self.sweep_period,
                sweep_reload: false,
                ..self
            }
        } else {
            PulseChannel {
                timer_period: period,
                sweep_divider: (self.sweep_divider - 1) as u8,
                ..self
            }
        }
    }

    /// A period below 8 or a sweep target above `0x7FF` silences the
    /// channel.
    pub open spec fn spec_is_muted(self) -> bool {
        self.timer_period < 8 || self.spec_sweep_target_period() > 0x7FF
    }

    /// The level the channel puts out, 0 to 15.
    pub open spec fn spec_output(self) -> u8 {
        if !self.enabled || self.length_counter == 0 || self.spec_is_muted() {
            0
        } else if DUTY_TABLE[self.duty as int][self.duty_pos as int] == 0 {
            0
        } else {
            self.envelope.spec_output()
        }
    }

    /// Tells whether the channel is well-formed.
    pub fn is_well_formed(&self) -> (ok: bool)
        ensures
            ok == self.wf(),
    {
        self.duty < 4 && self.duty_pos < 8 && self.sweep_shift < 8
    }

    /// A pulse channel at power-on; `channel` is 1 or 2.
    pub fn new(channel: u8) -> (p: PulseChannel)
        ensures
            p == PulseChannel::spec_new(channel),
            p.wf(),
    {
        PulseChannel {
            enabled: false,
            channel,
            duty: 0,
            duty_pos: 0,
            timer_period: 0,
            timer_value: 0,
            length_halt: false,
            length_counter: 0,
            envelope: Envelope::new(),
            sweep_enabled: false,
            sweep_negate: false,
            sweep_reload: false,
            sweep_period: 0,
            sweep_shift: 0,
            sweep_divider: 0,
        }
    }

    /// A write to the control register (`0x4000`, `0x4004`).
    pub fn write_ctrl(&mut self, data: u8)
        requires
            old(self).wf(),
        ensures
            *final(self) == old(self).spec_write_ctrl(data),
            final(self).wf(),
    {
        self.duty = data / 64;
        self.length_halt = data & 0x20 != 0;
        self.envelope.write(data);
    }

    /// A write to the sweep register (`0x4001`, `0x4005`).
    pub fn write_sweep(&mut self, data: u8)
        requires
            old(self).wf(),
        ensures
            *final(self) == old(self).spec_write_sweep(data),
            final(self).wf(),
    {
        self.sweep_enabled = data >= 128;
        self.sweep_period = (data / 16) % 8;
        self.sweep_negate = data & 0x08 != 0;
        self.sweep_shift = data % 8;
        self.sweep_reload = true;
    }

    /// A write to the low byte of the timer period (`0x4002`, `0x4006`).
    pub fn write_timer_lo(&mut self, data: u8)
        requires
            old(self).wf(),
        ensures
            *final(self) == old(self).spec_write_timer_lo(data),
            final(self).wf(),
    {
        self.timer_period = (self.timer_period & 0x0700) | data as u16;
    }

    /// A write to the length register (`0x4003`, `0x4007`).
    pub fn write_length(&mut self, data: u8)
        requires
            old(self).wf(),
        ensures
            *final(self) == old(self).spec_write_length(data),
            final(self).wf(),
    {
        self.timer_period = (self.timer_period & 0x00FF) | ((data as u16 & 0x07) << 8);
        if self.enabled {
            self.length_counter = length_lookup(data);
        }
        self.duty_pos = 0;
        self.envelope.start = true;
    }

    /// Switches the channel on or off.
    pub fn set_enabled(&mut self, on: bool)
        requires
            old(self).wf(),
        ensures
            *final(self) == old(self).spec_set_enabled(on),
            final(self).wf(),
    {
        self.enabled = on;
        if !on {
            self.length_counter = 0;
        }
    }

    /// One tick of the timer.
    pub fn clock_timer(&mut self)
        requires
            old(self).wf(),
        ensures
            *final(self) == old(self).spec_clock_timer(),
            final(self).wf(),
    {
        if self.timer_value == 0 {
            self.timer_value = self.timer_period;
            self.duty_pos = (self.duty_pos + 1) % 8;
        } else {
            self.timer_value = self.timer_value - 1;
        }
    }

    /// A quarter-frame tick of the envelope.
    pub fn clock_envelope(&mut self)
        requires
            old(self).wf(),
        ensures
            *final(self) == old(self).spec_clock_envelope(),
            final(self).wf(),
    {
        self.envelope.clock();
    }

    /// A half-frame tick of the length counter.
    pub fn clock_length(&mut self)
        requires
            old(self).wf(),
        ensures
            *final(self) == old(self).spec_clock_length(),
            final(self).wf(),
    {
        if !self.length_halt && self.length_counter > 0 {
            self.length_counter = self.length_counter - 1;
        }
    }

    /// The period that the sweep aims at.
    pub fn sweep_target_period(&self) -> (target: u16)
        requires
            self.wf(),
        ensures
            target == self.spec_sweep_target_period(),
    {
        let delta: u16 = self.timer_period >> self.sweep_shift;
        if self.sweep_negate {
            if self.channel == 1 {
                self.timer_period.wrapping_sub(delta).wrapping_sub(1)
            } else {
                self.timer_period.wrapping_sub(delta)
            }
        } else {
            self.timer_period.wrapping_add(delta)
        }
    }

    /// A half-frame tick of the sweep.
    pub fn clock_sweep(&mut self)
        requires
            old(self).wf(),
        ensures
            *final(self) == old(self).spec_clock_sweep(),
            final(self).wf(),
    {
        let target = self.sweep_target_period();
        if self.sweep_divider == 0 && self.sweep_enabled && self.sweep_shift > 0
            && self.timer_period >= 8 && target <= 0x7FF {
            self.timer_period = target;
        }
        if self.sweep_divider == 0 || self.sweep_reload {
            self.sweep_divider = self.sweep_period;
            self.sweep_reload = false;
        } else {
            self.sweep_divider = self.sweep_divider - 1;
        }
    }

    /// Tells whether the period or the sweep target silences the channel.
    pub fn is_muted(&self) -> (muted: bool)
        requires
            self.wf(),
        ensures
            muted == self.spec_is_muted(),
    {
        self.timer_period < 8 || self.sweep_target_period() > 0x7FF
    }

    /// The level the channel puts out now, 0 to 15.
    pub fn output(&self) -> (level: u8)
        requires
            self.wf(),
        ensures
            level == self.spec_output(),
    {
        if !self.enabled || self.length_counter == 0 || self.is_muted() {
            return 0;
        }
        if DUTY_TABLE[self.duty as usize][self.duty_pos as usize] == 0 {
            return 0;
        }
        self.envelope.output()
    }
}

// ===== triangle =====

/// The triangle channel.
#[derive(Debug, Clone, Copy)]
pub struct TriangleChannel {
    pub enabled: bool,
    pub timer_period: u16,
    pub timer_value: u16,
    /// Position in the wave, 0 to 31.
    pub sequence_pos: u8,
    /// Halts the length counter and keeps the linear counter reloading.
    pub length_halt: bool,
    pub length_counter: u8,
    pub linear_counter: u8,
    pub linear_counter_reload: u8,
    pub linear_counter_reload_flag: bool,
}

impl TriangleChannel {
    /// The position in the wave is within the table.
    pub open spec fn wf(self) -> bool {
        self.sequence_pos < 32
    }

    /// The triangle channel at power-on.
    pub open spec fn spec_new() -> TriangleChannel {
        TriangleChannel {
            enabled: false,
            timer_period: 0,
            timer_value: 0,
            sequence_pos: 0,
            length_halt: false,
            length_counter: 0,
            linear_counter: 0,
            linear_counter_reload: 0,
            linear_counter_reload_flag: false,
        }
    }

    /// Bit 7 is the control flag, which also halts the length counter; the
    /// rest is the reload value of the linear counter.
    pub open spec fn spec_write_ctrl(self, data: u8) -> TriangleChannel {
        TriangleChannel {
            length_halt: data & 0x80 != 0,
            linear_counter_reload: data & 0x7F,
            ..self
        }
    }

    /// A write to the low byte of the timer period.
    pub open spec fn spec_write_timer_lo(self, data: u8) -> TriangleChannel {
        TriangleChannel { timer_period: (self.timer_period & 0x0700) | data as u16, ..self }
    }

    /// The low three bits are the timer's high bits; the upper five load
    /// the length counter if the channel is enabled. The linear counter is to
    /// be reloaded.
    pub open spec fn spec_write_length(self, data: u8) -> TriangleChannel {
        TriangleChannel {
            timer_period: (self.timer_period & 0x00FF) | ((data as u16 & 0x07) << 8),
            length_counter: if self.enabled {
                length_for(data)
            } else {
                self.length_counter
            },
            linear_counter_reload_flag: true,
            ..self
        }
    }

    /// The channel switched on or off; switched off it loses its length count.
    pub open spec fn spec_set_enabled(self, on: bool) -> TriangleChannel {
        TriangleChannel {
            enabled: on,
            length_counter: if on {
                self.length_counter
            } else {
                0
            },
            ..self
        }
    }

    /// The timer counts down; when it was zero it is reloaded, and the wave
    /// moves on if both counters are running.
    pub open spec fn spec_clock_timer(self) -> TriangleChannel {
        if self.timer_value == 0 {
            TriangleChannel {
                timer_value: self.timer_period,
                sequence_pos: if self.length_counter > 0 && self.linear_counter > 0 {
                    ((self.sequence_pos + 1) % 32) as u8
                } else {
                    self.sequence_pos
                },
                ..self
            }
        } else {
            TriangleChannel { timer_value: (self.timer_value - 1) as u16, ..self }
        }
    }

    /// A quarter-frame tick: the linear counter is reloaded if the reload
    /// flag is set, else counts down to zero; the flag is cleared unless
    /// the control flag is set.
    pub open spec fn spec_clock_linear_counter(self) -> TriangleChannel {
        TriangleChannel {
            linear_counter: if self.linear_counter_reload_flag {
                self.linear_counter_reload
            } else if self.linear_counter > 0 {
                (self.linear_counter - 1) as u8
            } else {
                0
            },
            linear_counter_reload_flag: self.linear_counter_reload_flag && self.length_halt,
            ..self
        }
    }

    /// A half-frame tick of the length counter.
    pub open spec fn spec_clock_length(self) -> TriangleChannel {
        TriangleChannel {
            length_counter: count_length(self.length_halt, self.length_counter),
            ..self
        }
    }

    /// The level the channel puts out, 0 to 15; silent while a counter is
    /// zero or the period is below 2.
    pub open spec fn spec_output(self) -> u8 {
        if !self.enabled || self.length_counter == 0 || self.linear_counter == 0
            || self.timer_period < 2 {
            0
        } else {
            TRIANGLE_TABLE[self.sequence_pos as int]
        }
    }

    /// Tells whether the channel is well-formed.
    pub fn is_well_formed(&self) -> (ok: bool)
        ensures
            ok == self.wf(),
    {
        self.sequence_pos < 32
    }

    /// The triangle channel at power-on.
    pub fn new() -> (t: TriangleChannel)
        ensures
            t == TriangleChannel::spec_new(),
            t.wf(),
    {
        TriangleChannel {
            enabled: false,
            timer_period: 0,
            timer_value: 0,
            sequence_pos: 0,
            length_halt: false,
            length_counter: 0,
            linear_counter: 0,
            linear_counter_reload: 0,
            linear_counter_reload_flag: false,
        }
    }

    /// A write to the control register (`0x4008`).
    pub fn write_ctrl(&mut self, data: u8)
        requires
            old(self).wf(),
        ensures
            *final(self) == old(self).spec_write_ctrl(data),
            final(self).wf(),
    {
        self.length_halt = data & 0x80 != 0;
        self.linear_counter_reload = data & 0x7F;
    }

    /// A write to the low byte of the timer period (`0x400A`).
    pub fn write_timer_lo(&mut self, data: u8)
        requires
            old(self).wf(),
        ensures
            *final(self) == old(self).spec_write_timer_lo(data),
            final(self).wf(),
    {
        self.timer_period = (self.timer_period & 0x0700) | data as u16;
    }

    /// A write to the length register (`0x400B`).
    pub fn write_length(&mut self, data: u8)
        requires
            old(self).wf(),
        ensures
            *final(self) == old(self).spec_write_length(data),
            final(self).wf(),
    {
        self.timer_period = (self.timer_period & 0x00FF) | ((data as u16 & 0x07) << 8);
        if self.enabled {
            self.length_counter = length_lookup(data);
        }
        self.linear_counter_reload_flag = true;
    }

    /// Switches the channel on or off.
    pub fn set_enabled(&mut self, on: bool)
        requires
            old(self).wf(),
        ensures
            *final(self) == old(self).spec_set_enabled(on),
            final(self).wf(),
    {
        self.enabled = on;
        if !on {
            self.length_counter = 0;
        }
    }

    /// One tick of the timer.
    pub fn clock_timer(&mut self)
        requires
            old(self).wf(),
        ensures
            *final(self) == old(self).spec_clock_timer(),
            final(self).wf(),
    {
        if self.timer_value == 0 {
            self.timer_value = self.timer_period;
            if self.length_counter > 0 && self.linear_counter > 0 {
                self.sequence_pos = (self.sequence_pos + 1) % 32;
            }
        } else {
            self.timer_value = self.timer_value - 1;
        }
    }

    /// A quarter-frame tick of the linear counter.
    pub fn clock_linear_counter(&mut self)
        requires
            old(self).wf(),
        ensures
            *final(self) == old(self).spec_clock_linear_counter(),
            final(self).wf(),
    {
        if self.linear_counter_reload_flag {
            self.linear_counter = self.linear_counter_reload;
        } else if self.linear_counter > 0 {
            self.linear_counter = self.linear_counter - 1;
        }
        if !self.length_halt {
            self.linear_counter_reload_flag = false;
        }
    }

    /// A half-frame tick of the length counter.
    pub fn clock_length(&mut self)
        requires
            old(self).wf(),
        ensures
            *final(self) == old(self).spec_clock_length(),
            final(self).wf(),
    {
        if !self.length_halt && self.length_counter > 0 {
            self.length_counter = self.length_counter - 1;
        }
    }

    /// The level the channel puts out now, 0 to 15.
    pub fn output(&self) -> (level: u8)
        requires
            self.wf(),
        ensures
            level == self.spec_output(),
    {
        if !self.enabled || self.length_counter == 0 || self.linear_counter == 0 {
            return 0;
        }
        if self.timer_period < 2 {
            return 0;
        }
        TRIANGLE_TABLE[self.sequence_pos as usize]
    }
}

// ===== noise =====

/// The next state of the noise generator's feedback shift register: it
/// moves right by one, and bit 14 takes the XOR of the old bit 0 with the
/// old bit `tap`.
pub open spec fn lfsr_next(reg: u16, tap: u16) -> u16 {
    (reg >> 1) | (((reg & 1) ^ ((reg >> tap) & 1)) << 14)
}

/// A shift register that is not zero does not become zero.
pub proof fn lemma_lfsr_never_zero(reg: u16, tap: u16)
    requires
        reg != 0,
        tap == 1 || tap == 6,
    ensures
        lfsr_next(reg, tap) != 0,
{
    assert(reg != 0 && (tap == 1 || tap == 6) ==> (reg >> 1) | (((reg & 1) ^ ((reg >> tap) & 1))
        << 14) != 0) by (bit_vector);
}

/// The noise channel.
#[derive(Debug, Clone, Copy)]
pub struct NoiseChannel {
    pub enabled: bool,
    /// The feedback shift register; never zero.
    pub shift_register: u16,
    /// Short mode: the feedback is taken from bit 6 instead of bit 1.
    pub mode: bool,
    pub timer_period: u16,
    pub timer_value: u16,
    pub length_halt: bool,
    pub length_counter: u8,
    pub envelope: Envelope,
}

impl NoiseChannel {
    /// The shift register is not zero.
    pub open spec fn wf(self) -> bool {
        self.shift_register != 0
    }

    /// The noise channel at power-on: the shift register holds 1.
    pub open spec fn spec_new() -> NoiseChannel {
        NoiseChannel {
            enabled: false,
            shift_register: 1,
            mode: false,
            timer_period: 0,
            timer_value: 0,
            length_halt: false,
            length_counter: 0,
            envelope: Envelope::spec_new(),
        }
    }

    /// Bit 5 halts the length counter; the rest goes to the envelope.
    pub open spec fn spec_write_ctrl(self, data: u8) -> NoiseChannel {
        NoiseChannel {
            length_halt: data & 0x20 != 0,
            envelope: self.envelope.spec_write(data),
            ..self
        }
    }

    /// Bit 7 selects short mode; bits 3-0 select the period.
    pub open spec fn spec_write_mode(self, data: u8) -> NoiseChannel {
        NoiseChannel {
            mode: data >= 128,
            timer_period: NOISE_PERIOD_TABLE[data as int % 16],
            ..self
        }
    }

    /// The upper five bits load the length counter if the channel is enabled;
    /// the envelope starts over.
    pub open spec fn spec_write_length(self, data: u8) -> NoiseChannel {
        NoiseChannel {
            length_counter: if self.enabled {
                length_for(data)
            } else {
                self.length_counter
            },
            envelope: Envelope { start: true, ..self.envelope },
            ..self
        }
    }

    /// The channel switched on or off; switched off it loses its length count.
    pub open spec fn spec_set_enabled(self, on: bool) -> NoiseChannel {
        NoiseChannel {
            enabled: on,
            length_counter: if on {
                self.length_counter
            } else {
                0
            },
            ..self
        }
    }

    /// The bit that feeds back besides bit 0.
    pub open spec fn spec_tap(self) -> u16 {
        if self.mode {
            6
        } else {
            1
        }
    }

    /// The timer counts down; when it was zero it is reloaded and the
    /// shift register moves on.
    pub open spec fn spec_clock_timer(self) -> NoiseChannel {
        if self.timer_value == 0 {
            NoiseChannel {
                timer_value: self.timer_period,
                shift_register: lfsr_next(self.shift_register, self.spec_tap()),
                ..self
            }
        } else {
            NoiseChannel { timer_value: (self.timer_value - 1) as u16, ..self }
        }
    }

    /// A quarter-frame tick of the envelope.
    pub open spec fn spec_clock_envelope(self) -> NoiseChannel {
        NoiseChannel { envelope: self.envelope.spec_clock(), ..self }
    }

    /// A half-frame tick of the length counter.
    pub open spec fn spec_clock_length(self) -> NoiseChannel {
        NoiseChannel { length_counter: count_length(self.length_halt, self.length_counter), ..self }
    }

    /// The level the channel puts out, 0 to 15; silent while bit 0 of the
    /// shift register is set.
    pub open spec fn spec_output(self) -> u8 {
        if !self.enabled || self.length_counter == 0 || self.shift_register & 1 != 0 {
            0
        } else {
            self.envelope.spec_output()
        }
    }

    /// Tells whether the channel is well-formed.
    pub fn is_well_formed(&self) -> (ok: bool)
        ensures
            ok == self.wf(),
    {
        self.shift_register != 0
    }

    /// The noise channel at power-on: the shift register holds 1.
    pub fn new() -> (n: NoiseChannel)
        ensures
            n == NoiseChannel::spec_new(),
            n.wf(),
    {
        NoiseChannel {
            enabled: false,
            shift_register: 1,
            mode: false,
            timer_period: 0,
            timer_value: 0,
            length_halt: false,
            length_counter: 0,
            envelope: Envelope::new(),
        }
    }

    /// A write to the control register (`0x400C`).
    pub fn write_ctrl(&mut self, data: u8)
        requires
            old(self).wf(),
        ensures
            *final(self) == old(self).spec_write_ctrl(data),
            final(self).wf(),
    {
        self.length_halt = data & 0x20 != 0;
        self.envelope.write(data);
    }

    /// A write to the mode and period register (`0x400E`).
    pub fn write_mode(&mut self, data: u8)
        requires
            old(self).wf(),
        ensures
            *final(self) == old(self).spec_write_mode(data),
            final(self).wf(),
    {
        self.mode = data >= 128;
        self.timer_period = NOISE_PERIOD_TABLE[(data % 16) as usize];
    }

    /// A write to the length register (`0x400F`).
    pub fn write_length(&mut self, data: u8)
        requires
            old(self).wf(),
        ensures
            *final(self) == old(self).spec_write_length(data),
            final(self).wf(),
    {
        if self.enabled {
            self.length_counter = length_lookup(data);
        }
        self.envelope.start = true;
    }

    /// Switches the channel on or off.
    pub fn set_enabled(&mut self, on: bool)
        requires
            old(self).wf(),
        ensures
            *final(self) == old(self).spec_set_enabled(on),
            final(self).wf(),
    {
        self.enabled = on;
        if !on {
            self.length_counter = 0;
        }
    }

    /// One tick of the timer.
    pub fn clock_timer(&mut self)
        requires
            old(self).wf(),
        ensures
            *final(self) == old(self).spec_clock_timer(),
            final(self).wf(),
    {
        if self.timer_value == 0 {
            self.timer_value = self.timer_period;
            let tap: u16 = if self.mode {
                6
            } else {
                1
            };
            proof {
                lemma_lfsr_never_zero(self.shift_register, tap);
            }
            let feedback: u16 = (self.shift_register & 1) ^ ((self.shift_register >> tap) & 1);
            self.shift_register = (self.shift_register >> 1) | (feedback << 14);
        } else {
            self.timer_value = self.timer_value - 1;
        }
    }

    /// A quarter-frame tick of the envelope.
    pub fn clock_envelope(&mut self)
        requires
            old(self).wf(),
        ensures
            *final(self) == old(self).spec_clock_envelope(),
            final(self).wf(),
    {
        self.envelope.clock();
    }

    /// A half-frame tick of the length counter.
    pub fn clock_length(&mut self)
        requires
            old(self).wf(),
        ensures
            *final(self) == old(self).spec_clock_length(),
            final(self).wf(),
    {
        if !self.length_halt && self.length_counter > 0 {
            self.length_counter = self.length_counter - 1;
        }
    }

    /// The level the channel puts out now, 0 to 15.
    pub fn output(&self) -> (level: u8)
        ensures
            level == self.spec_output(),
    {
        if !self.enabled || self.length_counter == 0 || (self.shift_register & 1) != 0 {
            return 0;
        }
        self.envelope.output()
    }
}

// ===== DMC =====

/// The delta-modulation channel, which plays one-bit deltas that it reads
/// from CPU memory.
#[derive(Debug, Clone, Copy)]
pub struct DmcChannel {
    pub enabled: bool,
    pub irq_enabled: bool,
    pub loop_flag: bool,
    /// Index into the rate table, 0 to 15.
    pub rate_index: u8,
    pub timer_period: u16,
    pub timer_value: u16,
    /// The level put out, 0 to 127.
    pub output_level: u8,
    /// Where the sample begins.
    pub sample_address: u16,
    /// How many bytes the sample has.
    pub sample_length: u16,
    /// Where the next byte of the sample is read.
    pub current_address: u16,
    pub bytes_remaining: u16,
    pub shift_register: u8,
    /// Bits left in the shift register, 1 to 8.
    pub bits_remaining: u8,
    pub sample_buffer: u8,
    pub sample_buffer_empty: bool,
    /// The output unit has nothing to play.
    pub silence: bool,
    pub irq_flag: bool,
}

impl DmcChannel {
    /// The level is within seven bits, one to eight bits are left in the shift
    /// register, and the rate index is within the table.
    pub open spec fn wf(self) -> bool {
        &&& self.output_level <= 127
        &&& 1 <= self.bits_remaining <= 8
        &&& self.rate_index < 16
    }

    /// The DMC at power-on: silent, with an empty buffer.
    pub open spec fn spec_new() -> DmcChannel {
        DmcChannel {
            enabled: false,
            irq_enabled: false,
            loop_flag: false,
            rate_index: 0,
            timer_period: 428,
            timer_value: 0,
            output_level: 0,
            sample_address: 0xC000,
            sample_length: 1,
            current_address: 0xC000,
            bytes_remaining: 0,
            shift_register: 0,
            bits_remaining: 8,
            sample_buffer: 0,
            sample_buffer_empty: true,
            silence: true,
            irq_flag: false,
        }
    }

    /// Bit 7 enables the interrupt, bit 6 loops the sample, bits 3-0
    /// select the rate; with the interrupt disabled its flag is cleared.
    pub open spec fn spec_write_ctrl(self, data: u8) -> DmcChannel {
        DmcChannel {
            irq_enabled: data >= 128,
            loop_flag: data & 0x40 != 0,
            rate_index: data % 16,
            timer_period: DMC_RATE_TABLE[data as int % 16],
            irq_flag: self.irq_flag && data >= 128,
            ..self
        }
    }

    /// The level is set directly, to the low seven bits of `data`.
    pub open spec fn spec_write_direct_load(self, data: u8) -> DmcChannel {
        DmcChannel { output_level: data % 128, ..self }
    }

    /// The sample begins at `0xC000` plus 64 times `data`.
    pub open spec fn spec_write_sample_addr(self, data: u8) -> DmcChannel {
        DmcChannel { sample_address: (0xC000 + data as int * 64) as u16, ..self }
    }

    /// The sample has 16 times `data` bytes and one more.
    pub open spec fn spec_write_sample_length(self, data: u8) -> DmcChannel {
        DmcChannel { sample_length: (data as int * 16 + 1) as u16, ..self }
    }

    /// The sample starts over from its beginning.
    pub open spec fn spec_restart(self) -> DmcChannel {
        DmcChannel {
            current_address: self.sample_address,
            bytes_remaining: self.sample_length,
            ..self
        }
    }

    /// Switching the channel on restarts the sample if none was playing;
    /// switching it off drops what is left. Either way the interrupt flag
    /// is cleared.
    pub open spec fn spec_set_enabled(self, on: bool) -> DmcChannel {
        let s = DmcChannel { enabled: on, irq_flag: false, ..self };
        if !on {
            DmcChannel { bytes_remaining: 0, ..s }
        } else if self.bytes_remaining == 0 {
            s.spec_restart()
        } else {
            s
        }
    }

    /// The byte that was asked for has come.
    pub open spec fn spec_fill_buffer(self, data: u8) -> DmcChannel {
        DmcChannel { sample_buffer: data, sample_buffer_empty: false, ..self }
    }

    /// The level after one bit of the sample: two up for a one, two down
    /// for a zero, and unchanged where that would leave 0 to 127.
    pub open spec fn spec_next_level(self) -> u8 {
        if self.silence {
            self.output_level
        } else if self.shift_register % 2 == 1 {
            if self.output_level <= 125 {
                (self.output_level + 2) as u8
            } else {
                self.output_level
            }
        } else if self.output_level >= 2 {
            (self.output_level - 2) as u8
        } else {
            self.output_level
        }
    }

    /// One tick of the timer and the output unit. When the timer was zero,
    /// one bit is played; after the last of eight bits a new output cycle
    /// begins, with the buffered byte, or in silence if there is none.
    pub open spec fn spec_tick(self) -> DmcChannel {
        if self.timer_value != 0 {
            DmcChannel { timer_value: (self.timer_value - 1) as u16, ..self }
        } else {
            let s = DmcChannel {
                timer_value: self.timer_period,
                output_level: self.spec_next_level(),
                shift_register: self.shift_register >> 1,
                bits_remaining: (self.bits_remaining - 1) as u8,
                ..self
            };
            if s.bits_remaining != 0 {
                s
            } else if s.sample_buffer_empty {
                DmcChannel { bits_remaining: 8, silence: true, ..s }
            } else {
                DmcChannel {
                    bits_remaining: 8,
                    silence: false,
                    shift_register: s.sample_buffer,
                    sample_buffer_empty: true,
                    ..s
                }
            }
        }
    }

    /// Whether this tick empties the sample buffer while bytes of the
    /// sample are left, so that the next one is to be read.
    pub open spec fn spec_requests_byte(self) -> bool {
        self.timer_value == 0 && self.bits_remaining == 1 && !self.sample_buffer_empty
            && self.bytes_remaining > 0
    }

    /// A byte of the sample is taken: the address moves on, from `0xFFFF`
    /// to `0x8000`; after the last byte the sample restarts if it loops,
    /// else the interrupt is asserted if it is enabled.
    pub open spec fn spec_fetch(self) -> DmcChannel {
        let s = DmcChannel {
            current_address: if self.current_address == 0xFFFF {
                0x8000
            } else {
                (self.current_address + 1) as u16
            },
            bytes_remaining: (self.bytes_remaining - 1) as u16,
            ..self
        };
        if s.bytes_remaining != 0 {
            s
        } else if s.loop_flag {
            s.spec_restart()
        } else {
            DmcChannel { irq_flag: s.irq_flag || s.irq_enabled, ..s }
        }
    }

    /// One tick of the channel: timer, output unit, and the taking of the
    /// next byte where one is requested.
    pub open spec fn spec_clock_timer(self) -> DmcChannel {
        if self.spec_requests_byte() {
            self.spec_tick().spec_fetch()
        } else {
            self.spec_tick()
        }
    }

    /// The level the channel puts out, 0 to 127.
    pub open spec fn spec_output(self) -> u8 {
        self.output_level
    }

    /// Tells whether the channel is well-formed.
    pub fn is_well_formed(&self) -> (ok: bool)
        ensures
            ok == self.wf(),
    {
        self.output_level <= 127 && 1 <= self.bits_remaining && self.bits_remaining <= 8
            && self.rate_index < 16
    }

    /// The DMC at power-on: silent, with an empty buffer.
    pub fn new() -> (d: DmcChannel)
        ensures
            d == DmcChannel::spec_new(),
            d.wf(),
    {
        DmcChannel {
            enabled: false,
            irq_enabled: false,
            loop_flag: false,
            rate_index: 0,
            timer_period: 428,
            timer_value: 0,
            output_level: 0,
            sample_address: 0xC000,
            sample_length: 1,
            current_address: 0xC000,
            bytes_remaining: 0,
            shift_register: 0,
            bits_remaining: 8,
            sample_buffer: 0,
            sample_buffer_empty: true,
            silence: true,
            irq_flag: false,
        }
    }

    /// A write to the control register (`0x4010`).
    pub fn write_ctrl(&mut self, data: u8)
        requires
            old(self).wf(),
        ensures
            *final(self) == old(self).spec_write_ctrl(data),
            final(self).wf(),
    {
        self.irq_enabled = data >= 128;
        self.loop_flag = data & 0x40 != 0;
        self.rate_index = data % 16;
        self.timer_period = DMC_RATE_TABLE[self.rate_index as usize];
        if !self.irq_enabled {
            self.irq_flag = false;
        }
    }

    /// A write to the level register (`0x4011`).
    pub fn write_direct_load(&mut self, data: u8)
        requires
            old(self).wf(),
        ensures
            *final(self) == old(self).spec_write_direct_load(data),
            final(self).wf(),
    {
        self.output_level = data % 128;
    }

    /// A write to the sample address register (`0x4012`).
    pub fn write_sample_addr(&mut self, data: u8)
        requires
            old(self).wf(),
        ensures
            *final(self) == old(self).spec_write_sample_addr(data),
            final(self).wf(),
    {
        self.sample_address = 0xC000 + (data as u16 * 64);
    }

    /// A write to the sample length register (`0x4013`).
    pub fn write_sample_length(&mut self, data: u8)
        requires
            old(self).wf(),
        ensures
            *final(self) == old(self).spec_write_sample_length(data),
            final(self).wf(),
    {
        self.sample_length = (data as u16 * 16) + 1;
    }

    /// Starts the sample over.
    pub fn restart(&mut self)
        requires
            old(self).wf(),
        ensures
            *final(self) == old(self).spec_restart(),
            final(self).wf(),
    {
        self.current_address = self.sample_address;
        self.bytes_remaining = self.sample_length;
    }

    /// Switches the channel on or off.
    pub fn set_enabled(&mut self, on: bool)
        requires
            old(self).wf(),
        ensures
            *final(self) == old(self).spec_set_enabled(on),
            final(self).wf(),
    {
        self.enabled = on;
        if on {
            if self.bytes_remaining == 0 {
                self.restart();
            }
        } else {
            self.bytes_remaining = 0;
        }
        self.irq_flag = false;
    }

    /// Puts a sample byte into the buffer.
    pub fn fill_buffer(&mut self, data: u8)
        ensures
            *final(self) == old(self).spec_fill_buffer(data),
            old(self).wf() ==> final(self).wf(),
    {
        self.sample_buffer = data;
        self.sample_buffer_empty = false;
    }

    /// Runs the timer and the output unit for one tick; tells whether the
    /// next byte of the sample is to be read.
    pub fn tick(&mut self) -> (request: bool)
        requires
            old(self).wf(),
        ensures
            *final(self) == old(self).spec_tick(),
            request == old(self).spec_requests_byte(),
            final(self).wf(),
            final(self).current_address == old(self).current_address,
            request ==> final(self).bytes_remaining > 0,
    {
        if self.timer_value != 0 {
            self.timer_value = self.timer_value - 1;
            return false;
        }
        self.timer_value = self.timer_period;
        if !self.silence {
            if self.shift_register % 2 == 1 {
                if self.output_level <= 125 {
                    self.output_level = self.output_level + 2;
                }
            } else if self.output_level >= 2 {
                self.output_level = self.output_level - 2;
            }
        }
        self.shift_register = self.shift_register >> 1;
        self.bits_remaining = self.bits_remaining - 1;
        if self.bits_remaining != 0 {
            return false;
        }
        self.bits_remaining = 8;
        if self.sample_buffer_empty {
            self.silence = true;
            false
        } else {
            self.silence = false;
            self.shift_register = self.sample_buffer;
            self.sample_buffer_empty = true;
            self.bytes_remaining > 0
        }
    }

    /// Takes one byte of the sample: moves the address on and counts the
    /// byte off.
    pub fn fetch(&mut self)
        requires
            old(self).wf(),
            old(self).bytes_remaining > 0,
        ensures
            *final(self) == old(self).spec_fetch(),
            final(self).wf(),
    {
        self.current_address = if self.current_address == 0xFFFF {
            0x8000
        } else {
            self.current_address + 1
        };
        self.bytes_remaining = self.bytes_remaining - 1;
        if self.bytes_remaining == 0 {
            if self.loop_flag {
                self.restart();
            } else if self.irq_enabled {
                self.irq_flag = true;
            }
        }
    }

    /// The level the channel puts out now, 0 to 127.
    pub fn output(&self) -> (level: u8)
        ensures
            level == self.spec_output(),
    {
        self.output_level
    }
}

} // verus!
