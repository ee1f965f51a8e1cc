//! What holds of the APU in every state.

use vstd::prelude::*;
use crate::apu::Apu;
use crate::apu::channels::{DmcChannel, NoiseChannel, lemma_lfsr_never_zero};

verus! {

/// The level of the DMC stays within seven bits whatever the channel does.
pub proof fn lemma_dmc_level_bounded(d: DmcChannel, data: u8, on: bool)
    requires
        d.wf(),
    ensures
        d.spec_clock_timer().output_level <= 127,
        d.spec_write_direct_load(data).output_level <= 127,
        d.spec_write_ctrl(data).output_level <= 127,
        d.spec_write_sample_addr(data).output_level <= 127,
        d.spec_write_sample_length(data).output_level <= 127,
        d.spec_set_enabled(on).output_level <= 127,
        d.spec_fill_buffer(data).output_level <= 127,
        DmcChannel::spec_new().output_level <= 127,
{
}

/// The shift register of the noise channel is never zero whatever the
/// channel does.
pub proof fn lemma_noise_register_never_zero(n: NoiseChannel, data: u8, on: bool)
    requires
        n.wf(),
    ensures
        n.spec_clock_timer().shift_register != 0,
        n.spec_clock_envelope().shift_register != 0,
        n.spec_clock_length().shift_register != 0,
        n.spec_write_ctrl(data).shift_register != 0,
        n.spec_write_mode(data).shift_register != 0,
        n.spec_write_length(data).shift_register != 0,
        n.spec_set_enabled(on).shift_register != 0,
        NoiseChannel::spec_new().shift_register != 0,
{
    lemma_lfsr_never_zero(n.shift_register, n.spec_tap());
}

/// A cycle of the APU keeps it well-formed: among the rest, the level of
/// the DMC within seven bits and the noise shift register away from zero.
pub proof fn lemma_clock_keeps_wf(apu: Apu)
    requires
        apu.wf(),
    ensures
        apu.spec_clock().wf(),
        apu.spec_clock().dmc.output_level <= 127,
        apu.spec_clock().noise.shift_register != 0,
{
    lemma_lfsr_never_zero(apu.noise.shift_register, apu.noise.spec_tap());
    let s = apu.spec_clock_timers();
    assert(s.channels_wf());
    assert(s.frame_value == apu.frame_value && s.frame_mode == apu.frame_mode);
    let t = s.spec_clock_frame_counter();
    assert(t.channels_wf()) by {
        lemma_frames_keep_channels(Apu { frame_value: (s.frame_value + 1) as u16, ..s });
    }
}

proof fn lemma_frames_keep_channels(apu: Apu)
    requires
        apu.channels_wf(),
    ensures
        apu.spec_clock_quarter_frame().channels_wf(),
        apu.spec_clock_half_frame().channels_wf(),
        apu.spec_clock_quarter_frame().spec_clock_half_frame().channels_wf(),
        apu.spec_clock_half_frame().spec_clock_quarter_frame().channels_wf(),
{
}

/// While the frame interrupt is inhibited it is not asserted.
pub proof fn lemma_no_frame_interrupt_while_inhibited(apu: Apu, addr: u16, data: u8)
    requires
        apu.wf(),
    ensures
        apu.frame_irq_inhibit ==> !apu.frame_irq,
        apu.spec_clock().frame_irq_inhibit ==> !apu.spec_clock().frame_irq,
        apu.spec_cpu_write(addr, data).frame_irq_inhibit ==> !apu.spec_cpu_write(
            addr,
            data,
        ).frame_irq,
{
    lemma_clock_keeps_wf(apu);
    lemma_accesses_keep_wf(apu, addr, data);
}

/// A pulse channel whose period is below 8, or whose sweep aims above
/// `0x7FF`, is silent.
pub proof fn lemma_pulse_mute(p: crate::apu::channels::PulseChannel)
    requires
        p.timer_period < 8 || p.spec_sweep_target_period() > 0x7FF,
    ensures
        p.spec_output() == 0,
{
}

/// A write to a register, a read of the status and a sample handed over
/// keep the APU well-formed too, and so does a reset.
pub proof fn lemma_accesses_keep_wf(apu: Apu, addr: u16, data: u8)
    requires
        apu.wf(),
    ensures
        apu.spec_cpu_write(addr, data).wf(),
        apu.spec_cpu_read().wf(),
        apu.spec_dmc_provide_sample(data).wf(),
        apu.spec_reset().wf(),
        Apu::spec_new().wf(),
{
    lemma_frames_keep_channels(
        Apu {
            frame_mode: data & 0x80 != 0,
            frame_irq_inhibit: data & 0x40 != 0,
            frame_irq: apu.frame_irq && data & 0x40 == 0,
            frame_step: 0,
            frame_value: 0,
            ..apu
        },
    );
}

} // verus!
