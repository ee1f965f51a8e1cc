//! What holds of the PPU in every state.

use vstd::prelude::*;
use crate::ppu::{PpuModel, palette_index};

verus! {

/// The palette entries `0x3F10`, `0x3F14`, `0x3F18` and `0x3F1C` are the
/// entries `0x3F00`, `0x3F04`, `0x3F08` and `0x3F0C`: a read of one returns
/// what a read of the other returns, and a write to one is a write to the
/// other.
pub proof fn lemma_palette_mirrors(m: PpuModel, x: u16, data: u8)
    requires
        x == 0 || x == 4 || x == 8 || x == 12,
    ensures
        m.ppu_read((0x3F10 + x) as u16) == m.ppu_read((0x3F00 + x) as u16),
        m.ppu_write((0x3F10 + x) as u16, data) == m.ppu_write((0x3F00 + x) as u16, data),
{
    assert(palette_index((0x3F10 + x) as u16) == palette_index((0x3F00 + x) as u16));
}

/// A write to the status register changes nothing.
pub proof fn lemma_status_is_read_only(m: PpuModel, data: u8)
    ensures
        m.cpu_write(0x2002, data) == m,
{
}

/// A read of the status register clears the write toggle and the
/// vertical-blank bit, and nothing else.
pub proof fn lemma_status_read_clears(m: PpuModel)
    ensures
        m.cpu_read(0x2002).write_latch == false,
        m.cpu_read(0x2002).status & 0x80 == 0,
        m.cpu_read(0x2002).status & 0x7F == m.status & 0x7F,
        m.cpu_read(0x2002) == (PpuModel {
            write_latch: false,
            status: m.cpu_read(0x2002).status,
            ..m
        }),
{
    let s = m.status;
    assert((s & !0x80u8) & 0x80 == 0 && (s & !0x80u8) & 0x7F == s & 0x7F) by (bit_vector);
}

/// Writes to the scroll register and the first write to the address
/// register go to `t` alone: `v` takes the address only with the second
/// write to the address register.
pub proof fn lemma_scroll_writes_go_to_t(m: PpuModel, data: u8)
    ensures
        m.cpu_write(0x2005, data).v == m.v,
        m.cpu_write(0x2000, data).v == m.v,
        !m.write_latch ==> m.cpu_write(0x2006, data).v == m.v,
        m.write_latch ==> m.cpu_write(0x2006, data).v == m.cpu_write(0x2006, data).t,
{
}

/// No access through the registers ends the well-formedness of the PPU,
/// nor does a byte that the sprite DMA puts in, nor a reset.
pub proof fn lemma_accesses_keep_wf(m: PpuModel, addr: u16, data: u8, index: u8)
    requires
        m.wf(),
    ensures
        m.cpu_read(addr).wf(),
        m.cpu_write(addr, data).wf(),
        m.write_oam(index, data).wf(),
        m.reset().wf(),
{
    assert((data & 0x07) <= 7) by (bit_vector);
}

/// Where the cursor stands, whether the frame is complete, and how many
/// sprites are selected.
pub open spec fn progress(m: PpuModel) -> (i16, u16, bool, u8, int, u8) {
    (m.scanline, m.cycle, m.frame_complete, m.sprite_count, m.frame_buffer.len() as int, m.fine_x)
}

proof fn lemma_advance_sprites_progress(m: PpuModel, i: int)
    ensures
        progress(m.advance_sprites_from(i)) == progress(m),
    decreases m.sprite_count - i,
{
    if 0 <= i < m.sprite_count {
        lemma_advance_sprites_progress(m.advance_sprite(i), i + 1);
    }
}

proof fn lemma_load_sprites_progress(m: PpuModel, i: int)
    ensures
        progress(m.load_sprites_from(i)) == progress(m),
    decreases m.sprite_count - i,
{
    if 0 <= i < m.sprite_count {
        lemma_load_sprites_progress(m.load_sprite(i), i + 1);
    }
}

proof fn lemma_evaluate_progress(m: PpuModel, i: int)
    requires
        m.sprite_count <= 8,
    ensures
        m.evaluate_from(i).sprite_count <= 8,
        m.evaluate_from(i).scanline == m.scanline,
        m.evaluate_from(i).cycle == m.cycle,
        m.evaluate_from(i).frame_complete == m.frame_complete,
        m.evaluate_from(i).frame_buffer == m.frame_buffer,
        m.evaluate_from(i).fine_x == m.fine_x,
    decreases 64 - i,
{
    if 0 <= i < 64 {
        if !m.sprite_in_range(i) {
            lemma_evaluate_progress(m, i + 1);
        } else if m.sprite_count < 8 {
            lemma_evaluate_progress(m.select_sprite(i), i + 1);
        }
    }
}

/// Sprite evaluation never selects more than eight sprites.
pub proof fn lemma_at_most_eight_sprites(m: PpuModel)
    ensures
        m.evaluate_sprites().sprite_count <= 8,
{
    lemma_evaluate_progress(
        PpuModel {
            secondary_oam: Seq::new(32, |i: int| 0xFFu8),
            sprite_count: 0,
            sprite_zero_hit_possible: false,
            ..m
        },
        0,
    );
}

proof fn lemma_background_progress(m: PpuModel)
    ensures
        progress(m.clock_background()) == progress(m),
{
    lemma_advance_sprites_progress(m.shift_background(), 0);
}

proof fn lemma_sprites_progress(m: PpuModel)
    requires
        m.sprite_count <= 8,
    ensures
        m.clock_sprites().sprite_count <= 8,
        m.clock_sprites().scanline == m.scanline,
        m.clock_sprites().cycle == m.cycle,
        m.clock_sprites().frame_complete == m.frame_complete,
        m.clock_sprites().frame_buffer.len() == m.frame_buffer.len(),
        m.clock_sprites().fine_x == m.fine_x,
{
    lemma_evaluate_progress(
        PpuModel {
            secondary_oam: Seq::new(32, |i: int| 0xFFu8),
            sprite_count: 0,
            sprite_zero_hit_possible: false,
            ..m
        },
        0,
    );
    lemma_load_sprites_progress(m, 0);
}

/// One dot keeps the PPU well-formed, and brings the end of the frame
/// nearer unless it is the dot that completes it.
pub proof fn lemma_clock_progress(m: PpuModel)
    requires
        m.wf(),
    ensures
        m.clock().wf(),
        !m.clock().frame_complete ==> m.clock().dots_left() < m.dots_left(),
        m.frame_complete ==> m.clock().frame_complete,
{
    reveal(PpuModel::clock);
    let a = m.clock_prepare();
    lemma_background_progress(a);
    let b = a.clock_background();
    lemma_sprites_progress(b);
    let c = if m.on_render_line() {
        b.clock_sprites()
    } else {
        m
    };
    assert(c.scanline == m.scanline);
    assert(c.cycle >= m.cycle);
    assert(c.cycle <= 340);
    assert(c.frame_complete == m.frame_complete);
    assert(c.sprite_count <= 8);
    assert(c.fine_x == m.fine_x);
    assert(c.frame_buffer.len() == m.frame_buffer.len());
    let d = c.clock_vblank().clock_output();
    assert(d.scanline == c.scanline && d.cycle == c.cycle && d.frame_complete == c.frame_complete);
    assert(d.frame_buffer.len() == c.frame_buffer.len());
}

} // verus!
