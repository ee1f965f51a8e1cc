//! The rendering pipeline of the PPU: the scroll counters, the background
//! and sprite shifters, sprite evaluation, pixel output and the per-dot
//! clock that drives them.

use vstd::prelude::*;
use crate::bits::{lemma_u16_and_le, lemma_u16_shr_le, lemma_u8_and_le};
use crate::ppu::{Ppu, PpuModel, PALETTE};

verus! {

/// The byte with the bits of `b` in reverse order.
pub open spec fn spec_reverse_bits(b: u8) -> u8 {
    let b1: u8 = (b & 0xF0) >> 4 | (b & 0x0F) << 4;
    let b2: u8 = (b1 & 0xCC) >> 2 | (b1 & 0x33) << 2;
    (b2 & 0xAA) >> 1 | (b2 & 0x55) << 1
}

/// Reverses the order of the bits of a byte; this mirrors a row of a
/// sprite.
pub fn reverse_bits(b: u8) -> (r: u8)
    ensures
        r == spec_reverse_bits(b),
{
    let b1: u8 = (b & 0xF0) >> 4 | (b & 0x0F) << 4;
    let b2: u8 = (b1 & 0xCC) >> 2 | (b1 & 0x33) << 2;
    (b2 & 0xAA) >> 1 | (b2 & 0x55) << 1
}

/// Reversing the bits twice gives the byte back.
pub proof fn lemma_reverse_bits_involutive(b: u8)
    ensures
        spec_reverse_bits(spec_reverse_bits(b)) == b,
{
    assert(spec_reverse_bits(spec_reverse_bits(b)) == b) by (bit_vector);
}

/// Bit `i` of the reversed byte is bit `7 - i` of the byte.
pub proof fn lemma_reverse_bits_mirrors(b: u8, i: u8)
    requires
        i < 8,
    ensures
        (spec_reverse_bits(b) >> i) & 1 == (b >> ((7 - i) as u8)) & 1,
{
    assert(i < 8 ==> (spec_reverse_bits(b) >> i) & 1 == (b >> ((7 - i) as u8)) & 1)
        by (bit_vector);
}

/// The two-bit pattern value that a sprite's shifters show at their top
/// bits.
pub open spec fn top_bits(lo: u8, hi: u8) -> u8 {
    ((if hi >= 128 {
        2int
    } else {
        0int
    }) + (if lo >= 128 {
        1int
    } else {
        0int
    })) as u8
}

impl PpuModel {
    // ----- scroll counters -----

    /// Coarse X moves on by one tile; after the last tile of a nametable
    /// it wraps to the first of its horizontal neighbour.
    pub open spec fn increment_scroll_x(self) -> PpuModel {
        if !self.rendering_enabled() {
            self
        } else if self.v & 0x001F == 31 {
            PpuModel { v: (self.v & !0x001Fu16) ^ 0x0400, ..self }
        } else {
            PpuModel { v: self.v.wrapping_add(1), ..self }
        }
    }

    /// Fine Y moves on by one line; after the last line of a tile, coarse Y
    /// moves on, wrapping after row 29 to the vertical neighbour and after
    /// row 31 within the same nametable.
    pub open spec fn increment_scroll_y(self) -> PpuModel {
        if !self.rendering_enabled() {
            self
        } else if self.v & 0x7000 != 0x7000 {
            PpuModel { v: self.v.wrapping_add(0x1000), ..self }
        } else {
            let v1: u16 = self.v & !0x7000u16;
            let y: u16 = (v1 & 0x03E0) >> 5;
            let v2: u16 = if y == 29 {
                v1 ^ 0x0800
            } else {
                v1
            };
            let y2: u16 = if y == 29 || y == 31 {
                0
            } else {
                (y + 1) as u16
            };
            PpuModel { v: (v2 & !0x03E0u16) | (y2 << 5), ..self }
        }
    }

    /// The horizontal bits of `t` go to `v`.
    pub open spec fn transfer_address_x(self) -> PpuModel {
        if !self.rendering_enabled() {
            self
        } else {
            PpuModel { v: (self.v & !0x041Fu16) | (self.t & 0x041F), ..self }
        }
    }

    /// The vertical bits of `t` go to `v`.
    pub open spec fn transfer_address_y(self) -> PpuModel {
        if !self.rendering_enabled() {
            self
        } else {
            PpuModel { v: (self.v & !0x7BE0u16) | (self.t & 0x7BE0), ..self }
        }
    }

    // ----- shifters -----

    /// The four background shifters move left by one bit.
    pub open spec fn shift_background(self) -> PpuModel {
        if self.bg_enabled() {
            PpuModel {
                bg_shifter_pattern_lo: self.bg_shifter_pattern_lo << 1,
                bg_shifter_pattern_hi: self.bg_shifter_pattern_hi << 1,
                bg_shifter_attr_lo: self.bg_shifter_attr_lo << 1,
                bg_shifter_attr_hi: self.bg_shifter_attr_hi << 1,
                ..self
            }
        } else {
            self
        }
    }

    /// Selected sprite `i` moves on by one dot: while its X counter is not
    /// zero the counter goes down, after that its shifters move left.
    pub open spec fn advance_sprite(self, i: int) -> PpuModel {
        let x = self.secondary_oam[i * 4 + 3];
        if x > 0 {
            PpuModel { secondary_oam: self.secondary_oam.update(i * 4 + 3, (x - 1) as u8), ..self }
        } else {
            PpuModel {
                sprite_shifter_lo: self.sprite_shifter_lo.update(i, self.sprite_shifter_lo[i] << 1),
                sprite_shifter_hi: self.sprite_shifter_hi.update(i, self.sprite_shifter_hi[i] << 1),
                ..self
            }
        }
    }

    /// The selected sprites from `i` on move on by one dot.
    pub open spec fn advance_sprites_from(self, i: int) -> PpuModel
        decreases self.sprite_count - i,
    {
        if i < 0 || i >= self.sprite_count {
            self
        } else {
            self.advance_sprite(i).advance_sprites_from(i + 1)
        }
    }

    /// One dot of shifting: the background shifters, and on the dots of
    /// the visible part of the line the sprites too.
    pub open spec fn update_shifters(self) -> PpuModel {
        let s = self.shift_background();
        if s.spr_enabled() && 1 <= s.cycle < 258 {
            s.advance_sprites_from(0)
        } else {
            s
        }
    }

    /// The latched tile goes into the low halves of the background
    /// shifters, its two attribute bits spread over eight bits each.
    pub open spec fn load_bg_shifters(self) -> PpuModel {
        PpuModel {
            bg_shifter_pattern_lo: (self.bg_shifter_pattern_lo & 0xFF00)
                | self.bg_next_tile_lsb as u16,
            bg_shifter_pattern_hi: (self.bg_shifter_pattern_hi & 0xFF00)
                | self.bg_next_tile_msb as u16,
            bg_shifter_attr_lo: (self.bg_shifter_attr_lo & 0xFF00) | (if self.bg_next_tile_attr
                & 0x01 != 0 {
                0xFFu16
            } else {
                0x00u16
            }),
            bg_shifter_attr_hi: (self.bg_shifter_attr_hi & 0xFF00) | (if self.bg_next_tile_attr
                & 0x02 != 0 {
                0xFFu16
            } else {
                0x00u16
            }),
            ..self
        }
    }

    // ----- background fetches -----

    /// Address of the nametable byte of the current tile.
    pub open spec fn tile_addr(self) -> u16 {
        0x2000 | (self.v & 0x0FFF)
    }

    /// Address of the attribute byte of the current tile.
    pub open spec fn attr_addr(self) -> u16 {
        0x23C0 | (self.v & 0x0C00) | ((self.v >> 4) & 0x38) | ((self.v >> 2) & 0x07)
    }

    /// The two attribute bits of the current tile, picked out of the byte
    /// that covers its block of four by four tiles.
    pub open spec fn tile_attr(self) -> u8 {
        let byte = self.ppu_read(self.attr_addr());
        let half: u8 = if self.v & 0x40 != 0 {
            byte >> 4
        } else {
            byte
        };
        let quarter: u8 = if self.v & 0x02 != 0 {
            half >> 2
        } else {
            half
        };
        quarter & 0x03
    }

    /// Address of the low pattern byte of the latched tile's current row.
    pub open spec fn bg_pattern_addr(self) -> u16 {
        ((if self.ctrl & 0x10 != 0 {
            0x1000int
        } else {
            0int
        }) + self.bg_next_tile_id as int * 16 + ((self.v >> 12) & 0x07) as int) as u16
    }

    /// The number of the current tile is fetched from the nametable.
    pub open spec fn fetch_tile_id(self) -> PpuModel {
        PpuModel { bg_next_tile_id: self.ppu_read(self.tile_addr()), ..self }
    }

    /// What the background pipeline does on one dot of its eight-dot
    /// round, after the shifters have moved: on the first the shifters are
    /// loaded and the tile number fetched, then the attribute, the low and
    /// the high pattern byte, and on the last the tile counter moves on.
    pub open spec fn fetch_step(self) -> PpuModel {
        let phase: int = (self.cycle - 1) % 8;
        if phase == 0 {
            self.load_bg_shifters().fetch_tile_id()
        } else if phase == 2 {
            PpuModel { bg_next_tile_attr: self.tile_attr(), ..self }
        } else if phase == 4 {
            PpuModel { bg_next_tile_lsb: self.ppu_read(self.bg_pattern_addr()), ..self }
        } else if phase == 6 {
            PpuModel {
                bg_next_tile_msb: self.ppu_read((self.bg_pattern_addr() + 8) as u16),
                ..self
            }
        } else if phase == 7 {
            self.increment_scroll_x()
        } else {
            self
        }
    }

    // ----- sprites -----

    /// Height of the sprites in lines: 8, or 16 when bit 5 of the control
    /// register is set.
    pub open spec fn sprite_height(self) -> int {
        if self.ctrl & 0x20 != 0 {
            16
        } else {
            8
        }
    }

    /// Whether sprite `i` of the sprite memory covers the current scanline.
    pub open spec fn sprite_in_range(self, i: int) -> bool {
        let diff = self.scanline - self.oam[i * 4];
        0 <= diff < self.sprite_height()
    }

    /// Sprite `i` of the sprite memory is added to the selected sprites.
    pub open spec fn select_sprite(self, i: int) -> PpuModel {
        let o = self.sprite_count as int * 4;
        PpuModel {
            secondary_oam: self.secondary_oam.update(o, self.oam[i * 4]).update(
                o + 1,
                self.oam[i * 4 + 1],
            ).update(o + 2, self.oam[i * 4 + 2]).update(o + 3, self.oam[i * 4 + 3]),
            sprite_count: (self.sprite_count + 1) as u8,
            sprite_zero_hit_possible: self.sprite_zero_hit_possible || i == 0,
            ..self
        }
    }

    /// The sprites from `i` on are looked at in order: those that cover the
    /// scanline are selected until eight are; a ninth sets the overflow
    /// flag and ends the search.
    pub open spec fn evaluate_from(self, i: int) -> PpuModel
        decreases 64 - i,
    {
        if i < 0 || i >= 64 {
            self
        } else if !self.sprite_in_range(i) {
            self.evaluate_from(i + 1)
        } else if self.sprite_count < 8 {
            self.select_sprite(i).evaluate_from(i + 1)
        } else {
            PpuModel { status: self.status | 0x20, ..self }
        }
    }

    /// The sprites for the current scanline are chosen afresh.
    pub open spec fn evaluate_sprites(self) -> PpuModel {
        (PpuModel {
            secondary_oam: Seq::new(32, |i: int| 0xFFu8),
            sprite_count: 0,
            sprite_zero_hit_possible: false,
            ..self
        }).evaluate_from(0)
    }

    /// The row of selected sprite `i` that lies on the current scanline,
    /// counted from the sprite's top line, with vertical flip applied.
    pub open spec fn sprite_row(self, i: int) -> int {
        let row: int = self.scanline - self.secondary_oam[i * 4];
        if self.secondary_oam[i * 4 + 2] < 128 {
            row
        } else if self.ctrl & 0x20 != 0 {
            15 - row
        } else {
            7 - row
        }
    }

    /// Address of the first pattern byte of the tile of selected sprite
    /// `i`. Sprites of height 16 take the pattern table from bit 0 of the
    /// tile number and use the tile pair that begins at the even number;
    /// sprites of height 8 take the table from bit 3 of the control
    /// register.
    pub open spec fn sprite_tile_addr(self, i: int) -> int {
        let tile = self.secondary_oam[i * 4 + 1];
        if self.ctrl & 0x20 != 0 {
            (if tile % 2 == 1 {
                0x1000int
            } else {
                0int
            }) + (tile - tile % 2) * 16
        } else {
            (if self.ctrl & 0x08 != 0 {
                0x1000int
            } else {
                0int
            }) + tile * 16
        }
    }

    /// Address of the low pattern byte of the row of selected sprite `i`
    /// that lies on the current scanline. Rows 8 to 15 of a tall sprite are
    /// in the second tile of its pair. A row outside the sprite, which a
    /// change of registers in mid-line can bring about, wraps around the
    /// 16-bit address.
    pub open spec fn sprite_pattern_addr(self, i: int) -> u16 {
        let row = self.sprite_row(i);
        let a: int = if self.ctrl & 0x20 != 0 && row >= 8 {
            self.sprite_tile_addr(i) + 8 + row
        } else {
            self.sprite_tile_addr(i) + row
        };
        if a < 0 {
            (a + 0x10000) as u16
        } else {
            a as u16
        }
    }

    /// The pattern bytes of selected sprite `i` go into its shifters,
    /// reversed if the sprite is flipped horizontally.
    pub open spec fn load_sprite(self, i: int) -> PpuModel {
        let addr = self.sprite_pattern_addr(i);
        let lo = self.ppu_read(addr);
        let hi = self.ppu_read(addr.wrapping_add(8));
        let flip_h = self.secondary_oam[i * 4 + 2] & 0x40 != 0;
        PpuModel {
            sprite_shifter_lo: self.sprite_shifter_lo.update(
                i,
                if flip_h {
                    spec_reverse_bits(lo)
                } else {
                    lo
                },
            ),
            sprite_shifter_hi: self.sprite_shifter_hi.update(
                i,
                if flip_h {
                    spec_reverse_bits(hi)
                } else {
                    hi
                },
            ),
            ..self
        }
    }

    /// The shifters of the selected sprites from `i` on are loaded.
    pub open spec fn load_sprites_from(self, i: int) -> PpuModel
        decreases self.sprite_count - i,
    {
        if i < 0 || i >= self.sprite_count {
            self
        } else {
            self.load_sprite(i).load_sprites_from(i + 1)
        }
    }

    /// The shifters of all selected sprites are loaded.
    pub open spec fn load_sprite_patterns(self) -> PpuModel {
        self.load_sprites_from(0)
    }

    // ----- pixel output -----

    /// Pattern value (0 to 3) and palette (0 to 3) of the background at the
    /// current dot; both zero where the background is off or clipped.
    pub open spec fn background_pixel(self) -> (u8, u8) {
        if self.bg_enabled() && (self.bg_left_enabled() || self.cycle > 8) {
            let mux: u16 = 0x8000u16 >> self.fine_x;
            (
                ((if self.bg_shifter_pattern_hi & mux != 0 {
                    2int
                } else {
                    0int
                }) + (if self.bg_shifter_pattern_lo & mux != 0 {
                    1int
                } else {
                    0int
                })) as u8,
                ((if self.bg_shifter_attr_hi & mux != 0 {
                    2int
                } else {
                    0int
                }) + (if self.bg_shifter_attr_lo & mux != 0 {
                    1int
                } else {
                    0int
                })) as u8,
            )
        } else {
            (0, 0)
        }
    }

    /// Whether selected sprite `i` shows an opaque pixel at the current
    /// dot.
    pub open spec fn sprite_opaque(self, i: int) -> bool {
        self.secondary_oam[i * 4 + 3] == 0 && top_bits(
            self.sprite_shifter_lo[i],
            self.sprite_shifter_hi[i],
        ) != 0
    }

    /// The first selected sprite from `i` on that shows an opaque pixel at
    /// the current dot.
    pub open spec fn first_opaque_from(self, i: int) -> Option<int>
        decreases self.sprite_count - i,
    {
        if i < 0 || i >= self.sprite_count {
            None
        } else if self.sprite_opaque(i) {
            Some(i)
        } else {
            self.first_opaque_from(i + 1)
        }
    }

    /// The sprite that gives the sprite pixel of the current dot, if any:
    /// the first in selection order with an opaque pixel here.
    pub open spec fn sprite_at_dot(self) -> Option<int> {
        if self.spr_enabled() && (self.spr_left_enabled() || self.cycle > 8) {
            self.first_opaque_from(0)
        } else {
            None
        }
    }

    /// Whether the current dot is a sprite-zero hit: sprite zero and the
    /// background are both opaque here, both layers are on, the dot is not
    /// in a clipped left column and not the last of the line.
    pub open spec fn sprite_zero_hits(self) -> bool {
        &&& self.background_pixel().0 != 0
        &&& self.sprite_at_dot() == Some(0int)
        &&& self.sprite_zero_hit_possible
        &&& self.bg_enabled() && self.spr_enabled()
        &&& (self.bg_left_enabled() && self.spr_left_enabled()) || self.cycle > 8
        &&& self.cycle < 256
    }

    /// Index into the palette RAM of the colour shown at the current dot.
    /// Where both layers are transparent it is the universal background
    /// colour; where both are opaque the sprite's priority bit decides.
    pub open spec fn output_palette_addr(self) -> u16 {
        let (bg_pixel, bg_palette) = self.background_pixel();
        match self.sprite_at_dot() {
            Some(i) if bg_pixel == 0 || self.secondary_oam[i * 4 + 2] & 0x20 == 0 => {
                (0x3F00 + ((self.secondary_oam[i * 4 + 2] & 0x03) + 4) * 4 + top_bits(
                    self.sprite_shifter_lo[i],
                    self.sprite_shifter_hi[i],
                )) as u16
            },
            _ => {
                if bg_pixel == 0 {
                    0x3F00
                } else {
                    (0x3F00 + bg_palette * 4 + bg_pixel) as u16
                }
            },
        }
    }

    /// The colour of the current dot is written to the frame buffer, and
    /// the sprite-zero-hit flag is set if the dot is one.
    pub open spec fn render_pixel(self) -> PpuModel {
        let color = self.ppu_read(self.output_palette_addr());
        let rgb = PALETTE[(color & 0x3F) as int];
        let o: int = (self.scanline * 256 + (self.cycle - 1)) * 4;
        PpuModel {
            sprite_zero_being_rendered: self.sprite_at_dot() == Some(0int),
            status: if self.sprite_zero_hits() {
                self.status | 0x40
            } else {
                self.status
            },
            frame_buffer: self.frame_buffer.update(o, rgb.0).update(o + 1, rgb.1).update(
                o + 2,
                rgb.2,
            ).update(o + 3, 255u8),
            ..self
        }
    }

    // ----- the clock -----

    /// Whether the cursor is on the pre-render line or a visible line.
    pub open spec fn on_render_line(self) -> bool {
        -1 <= self.scanline < 240
    }

    /// Start of a dot: on dot 1 of the pre-render line the status flags and
    /// the sprite shifters are cleared; on an odd frame with rendering on,
    /// dot 0 of line 0 is skipped.
    pub open spec fn clock_prepare(self) -> PpuModel {
        let s = if self.scanline == -1 && self.cycle == 1 {
            PpuModel {
                status: self.status & !0xE0u8,
                sprite_shifter_lo: Seq::new(8, |i: int| 0u8),
                sprite_shifter_hi: Seq::new(8, |i: int| 0u8),
                ..self
            }
        } else {
            self
        };
        if s.scanline == 0 && s.cycle == 0 && s.odd_frame && s.rendering_enabled() {
            PpuModel { cycle: 1, ..s }
        } else {
            s
        }
    }

    /// The background part of a dot on a render line.
    pub open spec fn clock_background(self) -> PpuModel {
        let s = if (2 <= self.cycle < 258) || (321 <= self.cycle < 338) {
            self.update_shifters().fetch_step()
        } else {
            self
        };
        let s = if s.cycle == 256 {
            s.increment_scroll_y()
        } else {
            s
        };
        let s = if s.cycle == 257 {
            s.load_bg_shifters().transfer_address_x()
        } else {
            s
        };
        let s = if s.scanline == -1 && 280 <= s.cycle < 305 {
            s.transfer_address_y()
        } else {
            s
        };
        if s.cycle == 338 || s.cycle == 340 {
            s.fetch_tile_id()
        } else {
            s
        }
    }

    /// The sprite part of a dot on a visible line: selection on dot 257,
    /// pattern fetch on dot 340.
    pub open spec fn clock_sprites(self) -> PpuModel {
        if self.scanline >= 0 && self.cycle == 257 {
            self.evaluate_sprites()
        } else if self.scanline >= 0 && self.cycle == 340 {
            self.load_sprite_patterns()
        } else {
            self
        }
    }

    /// Vertical blank begins on dot 1 of line 241: the flag is set, and an
    /// NMI latched if NMI is enabled.
    pub open spec fn clock_vblank(self) -> PpuModel {
        if self.scanline == 241 && self.cycle == 1 {
            PpuModel {
                status: self.status | 0x80,
                nmi_occurred: self.nmi_occurred || self.ctrl & 0x80 != 0,
                ..self
            }
        } else {
            self
        }
    }

    /// On dots 1 to 256 of a visible line a pixel is put out.
    pub open spec fn clock_output(self) -> PpuModel {
        if 0 <= self.scanline < 240 && 1 <= self.cycle <= 256 {
            self.render_pixel()
        } else {
            self
        }
    }

    /// On dot 260 of a visible line, 0 to 239, with rendering on, the
    /// scanline is signalled to the cartridge. The pre-render line gives no
    /// signal.
    pub open spec fn clock_scanline_signal(self) -> PpuModel {
        if self.rendering_enabled() && self.cycle == 260 && 0 <= self.scanline < 240 {
            PpuModel { scanline_irq: true, ..self }
        } else {
            self
        }
    }

    /// The cursor moves to the next dot; after dot 340 to the next line;
    /// after line 260 to the pre-render line, which completes the frame.
    pub open spec fn advance_cursor(self) -> PpuModel {
        if self.cycle < 340 {
            PpuModel { cycle: (self.cycle + 1) as u16, ..self }
        } else if self.scanline < 260 {
            PpuModel { cycle: 0, scanline: (self.scanline + 1) as i16, ..self }
        } else {
            PpuModel {
                cycle: 0,
                scanline: -1i16,
                frame_complete: true,
                odd_frame: !self.odd_frame,
                ..self
            }
        }
    }

    /// One dot of the PPU.
    #[verifier::opaque]
    pub open spec fn clock(self) -> PpuModel {
        let s = if self.on_render_line() {
            self.clock_prepare().clock_background().clock_sprites()
        } else {
            self
        };
        s.clock_vblank().clock_output().clock_scanline_signal().advance_cursor()
    }

    /// The dots that remain until the frame completes.
    pub open spec fn dots_left(self) -> int {
        (260 - self.scanline) * 341 + (341 - self.cycle)
    }
}

/// The two-bit pattern value at the top bits of a pair of shifters.
fn shifter_top_bits(lo: u8, hi: u8) -> (p: u8)
    ensures
        p == top_bits(lo, hi),
        p <= 3,
{
    let low_bit: u8 = if lo >= 128 {
        1
    } else {
        0
    };
    let high_bit: u8 = if hi >= 128 {
        2
    } else {
        0
    };
    high_bit + low_bit
}

impl Ppu {
    // ----- scroll counters -----

    /// Moves coarse X on by one tile.
    pub fn increment_scroll_x(&mut self)
        ensures
            final(self)@ == old(self)@.increment_scroll_x(),
            old(self).wf() ==> final(self).wf(),
    {
        if !self.rendering_enabled() {
            return ;
        }
        if (self.v & 0x001F) == 31 {
            self.v = (self.v & !0x001Fu16) ^ 0x0400;
        } else {
            self.v = self.v.wrapping_add(1);
        }
    }

    /// Moves fine Y on by one line.
    pub fn increment_scroll_y(&mut self)
        ensures
            final(self)@ == old(self)@.increment_scroll_y(),
            old(self).wf() ==> final(self).wf(),
    {
        if !self.rendering_enabled() {
            return ;
        }
        if (self.v & 0x7000) != 0x7000 {
            self.v = self.v.wrapping_add(0x1000);
        } else {
            let v1: u16 = self.v & !0x7000u16;
            let y: u16 = (v1 & 0x03E0) >> 5;
            proof {
                lemma_u16_and_le(v1, 0x03E0);
                lemma_u16_shr_le(v1 & 0x03E0, 5);
            }
            let v2: u16 = if y == 29 {
                v1 ^ 0x0800
            } else {
                v1
            };
            let y2: u16 = if y == 29 || y == 31 {
                0
            } else {
                y + 1
            };
            self.v = (v2 & !0x03E0u16) | (y2 << 5);
        }
    }

    /// Copies the horizontal bits of `t` to `v`.
    pub fn transfer_address_x(&mut self)
        ensures
            final(self)@ == old(self)@.transfer_address_x(),
            old(self).wf() ==> final(self).wf(),
    {
        if !self.rendering_enabled() {
            return ;
        }
        self.v = (self.v & !0x041Fu16) | (self.t & 0x041F);
    }

    /// Copies the vertical bits of `t` to `v`.
    pub fn transfer_address_y(&mut self)
        ensures
            final(self)@ == old(self)@.transfer_address_y(),
            old(self).wf() ==> final(self).wf(),
    {
        if !self.rendering_enabled() {
            return ;
        }
        self.v = (self.v & !0x7BE0u16) | (self.t & 0x7BE0);
    }

    // ----- shifters -----

    fn shift_background(&mut self)
        ensures
            final(self)@ == old(self)@.shift_background(),
            old(self).wf() ==> final(self).wf(),
    {
        if self.bg_enabled() {
            self.bg_shifter_pattern_lo = self.bg_shifter_pattern_lo << 1;
            self.bg_shifter_pattern_hi = self.bg_shifter_pattern_hi << 1;
            self.bg_shifter_attr_lo = self.bg_shifter_attr_lo << 1;
            self.bg_shifter_attr_hi = self.bg_shifter_attr_hi << 1;
        }
    }

    fn advance_sprite(&mut self, i: usize)
        requires
            i < 8,
        ensures
            final(self)@ == old(self)@.advance_sprite(i as int),
            old(self).wf() ==> final(self).wf(),
    {
        let x = self.secondary_oam[i * 4 + 3];
        if x > 0 {
            self.secondary_oam[i * 4 + 3] = x - 1;
        } else {
            self.sprite_shifter_lo[i] = self.sprite_shifter_lo[i] << 1;
            self.sprite_shifter_hi[i] = self.sprite_shifter_hi[i] << 1;
        }
    }

    /// Moves the background shifters, and on visible dots the selected
    /// sprites, on by one dot.
    pub fn update_shifters(&mut self)
        requires
            old(self).wf(),
        ensures
            final(self)@ == old(self)@.update_shifters(),
            final(self).wf(),
            final(self).cycle == old(self).cycle,
    {
        self.shift_background();
        if self.spr_enabled() && self.cycle >= 1 && self.cycle < 258 {
            let ghost start = self@;
            let mut i: usize = 0;
            while i < self.sprite_count as usize
                invariant
                    self.wf(),
                    i <= self.sprite_count,
                    self.cycle == start.cycle,
                    start.advance_sprites_from(0) == self@.advance_sprites_from(i as int),
                decreases self.sprite_count - i,
            {
                self.advance_sprite(i);
                i += 1;
            }
        }
    }

    /// Loads the latched tile into the background shifters.
    pub fn load_bg_shifters(&mut self)
        ensures
            final(self)@ == old(self)@.load_bg_shifters(),
            old(self).wf() ==> final(self).wf(),
    {
        self.bg_shifter_pattern_lo = (self.bg_shifter_pattern_lo & 0xFF00)
            | self.bg_next_tile_lsb as u16;
        self.bg_shifter_pattern_hi = (self.bg_shifter_pattern_hi & 0xFF00)
            | self.bg_next_tile_msb as u16;
        let attr_lo: u16 = if self.bg_next_tile_attr & 0x01 != 0 {
            0xFF
        } else {
            0x00
        };
        let attr_hi: u16 = if self.bg_next_tile_attr & 0x02 != 0 {
            0xFF
        } else {
            0x00
        };
        self.bg_shifter_attr_lo = (self.bg_shifter_attr_lo & 0xFF00) | attr_lo;
        self.bg_shifter_attr_hi = (self.bg_shifter_attr_hi & 0xFF00) | attr_hi;
    }

    // ----- background fetches -----

    fn fetch_tile_id(&mut self)
        ensures
            final(self)@ == old(self)@.fetch_tile_id(),
            old(self).wf() ==> final(self).wf(),
    {
        self.bg_next_tile_id = self.ppu_read(0x2000 | (self.v & 0x0FFF));
    }

    fn tile_attr(&self) -> (attr: u8)
        ensures
            attr == self@.tile_attr(),
    {
        let addr: u16 = 0x23C0 | (self.v & 0x0C00) | ((self.v >> 4) & 0x38) | ((self.v >> 2)
            & 0x07);
        let mut attr = self.ppu_read(addr);
        if self.v & 0x40 != 0 {
            attr = attr >> 4;
        }
        if self.v & 0x02 != 0 {
            attr = attr >> 2;
        }
        attr & 0x03
    }

    fn bg_pattern_addr(&self) -> (addr: u16)
        ensures
            addr == self@.bg_pattern_addr(),
            addr <= 0x1000 + 255 * 16 + 7,
    {
        let table: u16 = if self.ctrl & 0x10 != 0 {
            0x1000
        } else {
            0
        };
        proof {
            lemma_u16_and_le(self.v >> 12, 0x07);
        }
        table + self.bg_next_tile_id as u16 * 16 + ((self.v >> 12) & 0x07)
    }

    fn fetch_step(&mut self)
        requires
            old(self).cycle >= 1,
        ensures
            final(self)@ == old(self)@.fetch_step(),
            old(self).wf() ==> final(self).wf(),
    {
        let phase: u16 = (self.cycle - 1) % 8;
        if phase == 0 {
            self.load_bg_shifters();
            self.fetch_tile_id();
        } else if phase == 2 {
            self.bg_next_tile_attr = self.tile_attr();
        } else if phase == 4 {
            let addr = self.bg_pattern_addr();
            self.bg_next_tile_lsb = self.ppu_read(addr);
        } else if phase == 6 {
            let addr = self.bg_pattern_addr();
            self.bg_next_tile_msb = self.ppu_read(addr + 8);
        } else if phase == 7 {
            self.increment_scroll_x();
        }
    }

    // ----- sprites -----

    fn select_sprite(&mut self, i: usize)
        requires
            i < 64,
            old(self).sprite_count < 8,
        ensures
            final(self)@ == old(self)@.select_sprite(i as int),
            old(self).wf() ==> final(self).wf(),
    {
        if i == 0 {
            self.sprite_zero_hit_possible = true;
        }
        let offset: usize = self.sprite_count as usize * 4;
        self.secondary_oam[offset] = self.oam[i * 4];
        self.secondary_oam[offset + 1] = self.oam[i * 4 + 1];
        self.secondary_oam[offset + 2] = self.oam[i * 4 + 2];
        self.secondary_oam[offset + 3] = self.oam[i * 4 + 3];
        self.sprite_count = self.sprite_count + 1;
    }

    fn sprite_in_range(&self, i: usize) -> (covers: bool)
        requires
            i < 64,
            self.wf(),
        ensures
            covers == self@.sprite_in_range(i as int),
    {
        let height: i16 = if self.ctrl & 0x20 != 0 {
            16
        } else {
            8
        };
        let diff: i16 = self.scanline - self.oam[i * 4] as i16;
        diff >= 0 && diff < height
    }

    /// Chooses the sprites for the current scanline: the first eight, in
    /// the order of the sprite memory, whose lines include it.
    pub fn evaluate_sprites(&mut self)
        requires
            old(self).wf(),
        ensures
            final(self)@ == old(self)@.evaluate_sprites(),
            final(self).wf(),
    {
        self.secondary_oam = [0xFF;32];
        self.sprite_count = 0;
        self.sprite_zero_hit_possible = false;
        assert(self.secondary_oam@ =~= Seq::new(32, |i: int| 0xFFu8));
        let ghost start = self@;
        let mut i: usize = 0;
        let mut overflow = false;
        while i < 64 && !overflow
            invariant
                self.wf(),
                i <= 64,
                start.evaluate_from(0) == (if overflow {
                    self@
                } else {
                    self@.evaluate_from(i as int)
                }),
            decreases 64 - i + (if overflow { 0int } else { 1int }),
        {
            if self.sprite_in_range(i) {
                if self.sprite_count < 8 {
                    self.select_sprite(i);
                    i += 1;
                } else {
                    self.status = self.status | 0x20;
                    overflow = true;
                }
            } else {
                i += 1;
            }
        }
    }

    fn sprite_pattern_addr(&self, i: usize) -> (addr: u16)
        requires
            i < 8,
            self.wf(),
        ensures
            addr == self@.sprite_pattern_addr(i as int),
    {
        let tall = self.ctrl & 0x20 != 0;
        let tile: i32 = self.secondary_oam[i * 4 + 1] as i32;
        let mut row: i32 = self.scanline as i32 - self.secondary_oam[i * 4] as i32;
        if self.secondary_oam[i * 4 + 2] >= 128 {
            row = if tall {
                15 - row
            } else {
                7 - row
            };
        }
        let base: i32 = if tall {
            let odd: i32 = if tile % 2 == 1 {
                1
            } else {
                0
            };
            odd * 0x1000 + (tile - odd) * 16
        } else if self.ctrl & 0x08 != 0 {
            0x1000 + tile * 16
        } else {
            tile * 16
        };
        let a: i32 = if tall && row >= 8 {
            base + 8 + row
        } else {
            base + row
        };
        if a < 0 {
            (a + 0x10000) as u16
        } else {
            a as u16
        }
    }

    fn load_sprite(&mut self, i: usize)
        requires
            i < 8,
            old(self).wf(),
        ensures
            final(self)@ == old(self)@.load_sprite(i as int),
            final(self).wf(),
    {
        let addr = self.sprite_pattern_addr(i);
        let mut lo = self.ppu_read(addr);
        let mut hi = self.ppu_read(addr.wrapping_add(8));
        if self.secondary_oam[i * 4 + 2] & 0x40 != 0 {
            lo = reverse_bits(lo);
            hi = reverse_bits(hi);
        }
        self.sprite_shifter_lo[i] = lo;
        self.sprite_shifter_hi[i] = hi;
    }

    /// Fetches the pattern rows of the selected sprites into their
    /// shifters.
    pub fn load_sprite_patterns(&mut self)
        requires
            old(self).wf(),
        ensures
            final(self)@ == old(self)@.load_sprite_patterns(),
            final(self).wf(),
    {
        let ghost start = self@;
        let mut i: usize = 0;
        while i < self.sprite_count as usize
            invariant
                self.wf(),
                i <= self.sprite_count,
                start.load_sprites_from(0) == self@.load_sprites_from(i as int),
            decreases self.sprite_count - i,
        {
            self.load_sprite(i);
            i += 1;
        }
    }

    // ----- pixel output -----

    fn background_pixel(&self) -> (r: (u8, u8))
        requires
            self.wf(),
        ensures
            r == self@.background_pixel(),
            r.0 <= 3,
            r.1 <= 3,
    {
        if self.bg_enabled() && (self.bg_left_enabled() || self.cycle > 8) {
            let mux: u16 = 0x8000u16 >> self.fine_x;
            let low_bit: u8 = if self.bg_shifter_pattern_lo & mux != 0 {
                1
            } else {
                0
            };
            let high_bit: u8 = if self.bg_shifter_pattern_hi & mux != 0 {
                2
            } else {
                0
            };
            let attr_low: u8 = if self.bg_shifter_attr_lo & mux != 0 {
                1
            } else {
                0
            };
            let attr_high: u8 = if self.bg_shifter_attr_hi & mux != 0 {
                2
            } else {
                0
            };
            (high_bit + low_bit, attr_high + attr_low)
        } else {
            (0, 0)
        }
    }

    fn sprite_at_dot(&self) -> (found: Option<usize>)
        requires
            self.wf(),
        ensures
            match found {
                Some(i) => self@.sprite_at_dot() == Some(i as int) && i < self.sprite_count,
                None => self@.sprite_at_dot() is None,
            },
    {
        if self.spr_enabled() && (self.spr_left_enabled() || self.cycle > 8) {
            let mut i: usize = 0;
            while i < self.sprite_count as usize
                invariant
                    self.wf(),
                    i <= self.sprite_count,
                    self@.spr_enabled() && (self@.spr_left_enabled() || self.cycle > 8),
                    self@.first_opaque_from(0) == self@.first_opaque_from(i as int),
                decreases self.sprite_count - i,
            {
                let x = self.secondary_oam[i * 4 + 3];
                let pixel = shifter_top_bits(self.sprite_shifter_lo[i], self.sprite_shifter_hi[i]);
                if x == 0 && pixel != 0 {
                    assert(self@.sprite_opaque(i as int));
                    assert(self@.first_opaque_from(i as int) == Some(i as int));
                    return Some(i);
                }
                assert(!self@.sprite_opaque(i as int));
                i += 1;
            }
            None
        } else {
            None
        }
    }

    fn output_palette_addr(&self, bg: (u8, u8), sprite: Option<usize>) -> (addr: u16)
        requires
            self.wf(),
            bg == self@.background_pixel(),
            bg.0 <= 3,
            bg.1 <= 3,
            match sprite {
                Some(i) => self@.sprite_at_dot() == Some(i as int) && i < self.sprite_count,
                None => self@.sprite_at_dot() is None,
            },
        ensures
            addr == self@.output_palette_addr(),
    {
        let background: u16 = if bg.0 == 0 {
            0x3F00
        } else {
            0x3F00 + bg.1 as u16 * 4 + bg.0 as u16
        };
        match sprite {
            Some(i) => {
                let attr = self.secondary_oam[i * 4 + 2];
                if bg.0 == 0 || attr & 0x20 == 0 {
                    let pixel = shifter_top_bits(
                        self.sprite_shifter_lo[i],
                        self.sprite_shifter_hi[i],
                    );
                    proof {
                        lemma_u8_and_le(attr, 0x03);
                    }
                    0x3F00 + ((attr & 0x03) as u16 + 4) * 4 + pixel as u16
                } else {
                    background
                }
            },
            None => background,
        }
    }

    /// Puts out the pixel of the current dot.
    pub fn render_pixel(&mut self)
        requires
            old(self).wf(),
            0 <= old(self).scanline < 240,
            1 <= old(self).cycle <= 256,
        ensures
            final(self)@ == old(self)@.render_pixel(),
            final(self).wf(),
    {
        let bg = self.background_pixel();
        let sprite = self.sprite_at_dot();
        let zero_rendered = match sprite {
            Some(i) => i == 0,
            None => false,
        };
        let hit = bg.0 != 0 && zero_rendered && self.sprite_zero_hit_possible && self.bg_enabled()
            && self.spr_enabled() && ((self.bg_left_enabled() && self.spr_left_enabled())
            || self.cycle > 8) && self.cycle < 256;
        let addr = self.output_palette_addr(bg, sprite);
        let color = self.ppu_read(addr);
        proof {
            lemma_u8_and_le(color, 0x3F);
        }
        let (r, g, b) = PALETTE[(color & 0x3F) as usize];
        self.sprite_zero_being_rendered = zero_rendered;
        if hit {
            self.status = self.status | 0x40;
        }
        let o: usize = (self.scanline as usize * 256 + (self.cycle as usize - 1)) * 4;
        self.frame_buffer[o] = r;
        self.frame_buffer[o + 1] = g;
        self.frame_buffer[o + 2] = b;
        self.frame_buffer[o + 3] = 255;
    }

    // ----- the clock -----

    fn clock_prepare(&mut self)
        ensures
            final(self)@ == old(self)@.clock_prepare(),
            old(self).wf() ==> final(self).wf(),
    {
        if self.scanline == -1 && self.cycle == 1 {
            self.status = self.status & !0xE0u8;
            self.sprite_shifter_lo = [0;8];
            self.sprite_shifter_hi = [0;8];
            assert(self.sprite_shifter_lo@ =~= Seq::new(8, |i: int| 0u8));
            assert(self.sprite_shifter_hi@ =~= Seq::new(8, |i: int| 0u8));
        }
        if self.scanline == 0 && self.cycle == 0 && self.odd_frame && self.rendering_enabled() {
            self.cycle = 1;
        }
    }

    fn clock_background(&mut self)
        requires
            old(self).wf(),
        ensures
            final(self)@ == old(self)@.clock_background(),
            final(self).wf(),
    {
        if (self.cycle >= 2 && self.cycle < 258) || (self.cycle >= 321 && self.cycle < 338) {
            self.update_shifters();
            self.fetch_step();
        }
        if self.cycle == 256 {
            self.increment_scroll_y();
        }
        if self.cycle == 257 {
            self.load_bg_shifters();
            self.transfer_address_x();
        }
        if self.scanline == -1 && self.cycle >= 280 && self.cycle < 305 {
            self.transfer_address_y();
        }
        if self.cycle == 338 || self.cycle == 340 {
            self.fetch_tile_id();
        }
    }

    fn clock_sprites(&mut self)
        requires
            old(self).wf(),
        ensures
            final(self)@ == old(self)@.clock_sprites(),
            final(self).wf(),
    {
        if self.scanline >= 0 && self.cycle == 257 {
            self.evaluate_sprites();
        } else if self.scanline >= 0 && self.cycle == 340 {
            self.load_sprite_patterns();
        }
    }

    fn clock_vblank(&mut self)
        ensures
            final(self)@ == old(self)@.clock_vblank(),
            old(self).wf() ==> final(self).wf(),
    {
        if self.scanline == 241 && self.cycle == 1 {
            self.status = self.status | 0x80;
            if self.ctrl & 0x80 != 0 {
                self.nmi_occurred = true;
            }
        }
    }

    fn clock_output(&mut self)
        requires
            old(self).wf(),
        ensures
            final(self)@ == old(self)@.clock_output(),
            final(self).wf(),
    {
        if self.scanline >= 0 && self.scanline < 240 && self.cycle >= 1 && self.cycle <= 256 {
            self.render_pixel();
        }
    }

    fn clock_scanline_signal(&mut self)
        ensures
            final(self)@ == old(self)@.clock_scanline_signal(),
            old(self).wf() ==> final(self).wf(),
    {
        if self.rendering_enabled() && self.cycle == 260 && self.scanline >= 0 && self.scanline
            < 240 {
            self.scanline_irq = true;
        }
    }

    fn advance_cursor(&mut self)
        requires
            old(self).wf(),
        ensures
            final(self)@ == old(self)@.advance_cursor(),
            final(self).wf(),
    {
        self.cycle = self.cycle + 1;
        if self.cycle > 340 {
            self.cycle = 0;
            self.scanline = self.scanline + 1;
            if self.scanline > 260 {
                self.scanline = -1;
                self.frame_complete = true;
                self.odd_frame = !self.odd_frame;
            }
        }
    }

    /// Runs the PPU for one dot: it fetches and shifts as the dot's place on
    /// the screen asks, puts out at most one pixel, may latch an NMI or a
    /// scanline signal, and moves the cursor on.
    pub fn clock(&mut self)
        requires
            old(self).wf(),
        ensures
            final(self)@ == old(self)@.clock(),
            final(self).wf(),
    {
        reveal(PpuModel::clock);
        if self.scanline >= -1 && self.scanline < 240 {
            self.clock_prepare();
            self.clock_background();
            self.clock_sprites();
        }
        self.clock_vblank();
        self.clock_output();
        self.clock_scanline_signal();
        self.advance_cursor();
    }
}

} // verus!
