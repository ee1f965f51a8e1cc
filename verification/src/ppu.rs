//! The picture processor: its registers, its memory map and, in `render`,
//! the per-dot pipeline that draws the frame.

use vstd::prelude::*;

pub mod render;
pub mod laws;

verus! {

/// Width of the picture in pixels.
pub const FRAME_WIDTH: usize = 256;

/// Height of the picture in pixels.
pub const FRAME_HEIGHT: usize = 240;

/// Bytes in the frame buffer: four (red, green, blue, alpha) per pixel.
pub const FRAME_BYTES: usize = 245760;

/// The 64 colours the PPU can show, as (red, green, blue).
pub const PALETTE: [(u8, u8, u8); 64] = [
    (84, 84, 84), (0, 30, 116), (8, 16, 144), (48, 0, 136),
    (68, 0, 100), (92, 0, 48), (84, 4, 0), (60, 24, 0),
    (32, 42, 0), (8, 58, 0), (0, 64, 0), (0, 60, 0),
    (0, 50, 60), (0, 0, 0), (0, 0, 0), (0, 0, 0),
    (152, 150, 152), (8, 76, 196), (48, 50, 236), (92, 30, 228),
    (136, 20, 176), (160, 20, 100), (152, 34, 32), (120, 60, 0),
    (84, 90, 0), (40, 114, 0), (8, 124, 0), (0, 118, 40),
    (0, 102, 120), (0, 0, 0), (0, 0, 0), (0, 0, 0),
    (236, 238, 236), (76, 154, 236), (120, 124, 236), (176, 98, 236),
    (228, 84, 236), (236, 88, 180), (236, 106, 100), (212, 136, 32),
    (160, 170, 0), (116, 196, 0), (76, 208, 32), (56, 204, 108),
    (56, 180, 204), (60, 60, 60), (0, 0, 0), (0, 0, 0),
    (236, 238, 236), (168, 204, 236), (188, 188, 236), (212, 178, 236),
    (236, 174, 236), (236, 174, 212), (236, 180, 176), (228, 196, 144),
    (204, 210, 120), (180, 222, 120), (168, 226, 144), (152, 226, 180),
    (160, 214, 228), (160, 162, 160), (0, 0, 0), (0, 0, 0),
];

/// How the four logical nametables are laid onto the 2 KiB of nametable
/// RAM.
#[derive(Debug, Clone, Copy, PartialEq, Eq, Structural)]
pub enum MirrorMode {
    /// The two upper tables share one half, the two lower the other.
    Horizontal,
    /// The two left tables share one half, the two right the other.
    Vertical,
    /// All four tables are the first half.
    SingleScreenLow,
    /// All four tables are the second half.
    SingleScreenHigh,
    /// Four tables of their own; with 2 KiB of RAM the lower pair falls
    /// onto the upper pair.
    FourScreen,
}

/// The index into nametable RAM that a PPU address in the nametable range
/// stands for.
pub open spec fn nametable_index(mode: MirrorMode, addr: u16) -> int {
    let a: int = addr as int % 0x1000;
    match mode {
        MirrorMode::Horizontal => (a / 0x0800) * 0x0400 + a % 0x0400,
        MirrorMode::Vertical => a % 0x0800,
        MirrorMode::SingleScreenLow => a % 0x0400,
        MirrorMode::SingleScreenHigh => a % 0x0400 + 0x0400,
        MirrorMode::FourScreen => a % 0x0800,
    }
}

/// The index into palette RAM that a PPU address in the palette range
/// stands for: entries 0x10, 0x14, 0x18 and 0x1C are the entries 0x00,
/// 0x04, 0x08 and 0x0C.
pub open spec fn palette_index(addr: u16) -> int {
    let a: int = addr as int % 32;
    if a >= 16 && a % 4 == 0 {
        a - 16
    } else {
        a
    }
}

/// The increment of the VRAM address after an access through the data
/// register: a row (32) or a column (1), as bit 2 of the control register
/// says.
pub open spec fn vram_increment(ctrl: u8) -> u16 {
    if ctrl & 0x04 != 0 {
        32
    } else {
        1
    }
}

/// The picture processor.
pub struct Ppu {
    /// Control register (`0x2000`): bit 7 NMI enable, bit 5 sprite height,
    /// bit 4 background pattern table, bit 3 sprite pattern table, bit 2
    /// address increment, bits 1-0 base nametable.
    pub ctrl: u8,
    /// Mask register (`0x2001`): bit 4 sprites, bit 3 background, bits 2
    /// and 1 the same for the leftmost eight pixels.
    pub mask: u8,
    /// Status register (`0x2002`): bit 7 vertical blank, bit 6 sprite-zero
    /// hit, bit 5 sprite overflow.
    pub status: u8,
    /// Address into the sprite memory for accesses through `0x2004`.
    pub oam_addr: u8,
    /// Current VRAM address.
    pub v: u16,
    /// Temporary VRAM address.
    pub t: u16,
    /// Fine horizontal scroll, 0 to 7.
    pub fine_x: u8,
    /// Which of the two writes to `0x2005` / `0x2006` comes next.
    pub write_latch: bool,
    /// The byte that a read through `0x2007` returns next.
    pub data_buffer: u8,
    /// Nametable RAM.
    pub nametable: [u8; 2048],
    /// Palette RAM.
    pub palette: [u8; 32],
    /// Sprite memory: 64 sprites of four bytes (Y, tile, attributes, X).
    pub oam: [u8; 256],
    /// The sprites chosen for the current line, up to eight.
    pub secondary_oam: [u8; 32],
    /// Current scanline, -1 (pre-render) to 260.
    pub scanline: i16,
    /// Current dot within the scanline, 0 to 340.
    pub cycle: u16,
    /// Set when the last scanline of a frame has ended.
    pub frame_complete: bool,
    /// Toggles every frame.
    pub odd_frame: bool,
    pub bg_next_tile_id: u8,
    pub bg_next_tile_attr: u8,
    pub bg_next_tile_lsb: u8,
    pub bg_next_tile_msb: u8,
    pub bg_shifter_pattern_lo: u16,
    pub bg_shifter_pattern_hi: u16,
    pub bg_shifter_attr_lo: u16,
    pub bg_shifter_attr_hi: u16,
    /// Number of sprites in `secondary_oam`, at most 8.
    pub sprite_count: u8,
    pub sprite_shifter_lo: [u8; 8],
    pub sprite_shifter_hi: [u8; 8],
    /// Sprite zero is among the sprites of the current line.
    pub sprite_zero_hit_possible: bool,
    /// Sprite zero gave the sprite pixel of the current dot.
    pub sprite_zero_being_rendered: bool,
    /// Latched when vertical blank begins with NMI enabled.
    pub nmi_occurred: bool,
    /// Latched at dot 260 of each visible scanline while rendering is on,
    /// for cartridges that count scanlines.
    pub scanline_irq: bool,
    /// The picture, row by row, four bytes per pixel.
    pub frame_buffer: Vec<u8>,
    /// Pattern memory, as the cartridge supplied it.
    pub chr_data: Vec<u8>,
    /// Pattern memory is RAM.
    pub chr_ram: bool,
    pub mirror_mode: MirrorMode,
    /// For each 1 KiB window of the pattern range, where in `chr_data` it
    /// begins.
    pub chr_bank_offsets: [u32; 8],
    /// Pattern reads go through `chr_bank_offsets`.
    pub chr_use_bank_mapping: bool,
    /// One bit per 1 KiB window: the window can be written even though the
    /// pattern memory as a whole is ROM.
    pub chr_writable_mask: u8,
}

/// What a `Ppu` holds, as mathematical values.
pub struct PpuModel {
    pub ctrl: u8,
    pub mask: u8,
    pub status: u8,
    pub oam_addr: u8,
    pub v: u16,
    pub t: u16,
    pub fine_x: u8,
    pub write_latch: bool,
    pub data_buffer: u8,
    pub nametable: Seq<u8>,
    pub palette: Seq<u8>,
    pub oam: Seq<u8>,
    pub secondary_oam: Seq<u8>,
    pub scanline: i16,
    pub cycle: u16,
    pub frame_complete: bool,
    pub odd_frame: bool,
    pub bg_next_tile_id: u8,
    pub bg_next_tile_attr: u8,
    pub bg_next_tile_lsb: u8,
    pub bg_next_tile_msb: u8,
    pub bg_shifter_pattern_lo: u16,
    pub bg_shifter_pattern_hi: u16,
    pub bg_shifter_attr_lo: u16,
    pub bg_shifter_attr_hi: u16,
    pub sprite_count: u8,
    pub sprite_shifter_lo: Seq<u8>,
    pub sprite_shifter_hi: Seq<u8>,
    pub sprite_zero_hit_possible: bool,
    pub sprite_zero_being_rendered: bool,
    pub nmi_occurred: bool,
    pub scanline_irq: bool,
    pub frame_buffer: Seq<u8>,
    pub chr_data: Seq<u8>,
    pub chr_ram: bool,
    pub mirror_mode: MirrorMode,
    pub chr_bank_offsets: Seq<u32>,
    pub chr_use_bank_mapping: bool,
    pub chr_writable_mask: u8,
}

impl View for Ppu {
    type V = PpuModel;

    open spec fn view(&self) -> PpuModel {
        PpuModel {
            ctrl: self.ctrl,
            mask: self.mask,
            status: self.status,
            oam_addr: self.oam_addr,
            v: self.v,
            t: self.t,
            fine_x: self.fine_x,
            write_latch: self.write_latch,
            data_buffer: self.data_buffer,
            nametable: self.nametable@,
            palette: self.palette@,
            oam: self.oam@,
            secondary_oam: self.secondary_oam@,
            scanline: self.scanline,
            cycle: self.cycle,
            frame_complete: self.frame_complete,
            odd_frame: self.odd_frame,
            bg_next_tile_id: self.bg_next_tile_id,
            bg_next_tile_attr: self.bg_next_tile_attr,
            bg_next_tile_lsb: self.bg_next_tile_lsb,
            bg_next_tile_msb: self.bg_next_tile_msb,
            bg_shifter_pattern_lo: self.bg_shifter_pattern_lo,
            bg_shifter_pattern_hi: self.bg_shifter_pattern_hi,
            bg_shifter_attr_lo: self.bg_shifter_attr_lo,
            bg_shifter_attr_hi: self.bg_shifter_attr_hi,
            sprite_count: self.sprite_count,
            sprite_shifter_lo: self.sprite_shifter_lo@,
            sprite_shifter_hi: self.sprite_shifter_hi@,
            sprite_zero_hit_possible: self.sprite_zero_hit_possible,
            sprite_zero_being_rendered: self.sprite_zero_being_rendered,
            nmi_occurred: self.nmi_occurred,
            scanline_irq: self.scanline_irq,
            frame_buffer: self.frame_buffer@,
            chr_data: self.chr_data@,
            chr_ram: self.chr_ram,
            mirror_mode: self.mirror_mode,
            chr_bank_offsets: self.chr_bank_offsets@,
            chr_use_bank_mapping: self.chr_use_bank_mapping,
            chr_writable_mask: self.chr_writable_mask,
        }
    }
}

/// The pattern windows at power-on: each begins at its own address.
pub open spec fn identity_banks() -> Seq<u32> {
    seq![0u32, 0x400u32, 0x800u32, 0xC00u32, 0x1000u32, 0x1400u32, 0x1800u32, 0x1C00u32]
}

impl PpuModel {
    /// What holds of a PPU between any two operations: the cursor is on the
    /// screen grid, at most eight sprites are selected, the fine scroll is
    /// three bits wide and the frame buffer has its full size.
    pub open spec fn wf(self) -> bool {
        &&& self.frame_buffer.len() == FRAME_BYTES
        &&& -1 <= self.scanline <= 260
        &&& self.cycle <= 340
        &&& self.sprite_count <= 8
        &&& self.fine_x <= 7
    }

    /// The memories have the sizes that the hardware gives them.
    pub open spec fn shaped(self) -> bool {
        &&& self.nametable.len() == 2048
        &&& self.palette.len() == 32
        &&& self.oam.len() == 256
        &&& self.secondary_oam.len() == 32
        &&& self.sprite_shifter_lo.len() == 8
        &&& self.sprite_shifter_hi.len() == 8
        &&& self.chr_bank_offsets.len() == 8
    }

    /// The state at power-on.
    pub open spec fn power_on() -> PpuModel {
        PpuModel {
            ctrl: 0,
            mask: 0,
            status: 0,
            oam_addr: 0,
            v: 0,
            t: 0,
            fine_x: 0,
            write_latch: false,
            data_buffer: 0,
            nametable: Seq::new(2048, |i: int| 0u8),
            palette: Seq::new(32, |i: int| 0u8),
            oam: Seq::new(256, |i: int| 0u8),
            secondary_oam: Seq::new(32, |i: int| 0xFFu8),
            scanline: 0,
            cycle: 0,
            frame_complete: false,
            odd_frame: false,
            bg_next_tile_id: 0,
            bg_next_tile_attr: 0,
            bg_next_tile_lsb: 0,
            bg_next_tile_msb: 0,
            bg_shifter_pattern_lo: 0,
            bg_shifter_pattern_hi: 0,
            bg_shifter_attr_lo: 0,
            bg_shifter_attr_hi: 0,
            sprite_count: 0,
            sprite_shifter_lo: Seq::new(8, |i: int| 0u8),
            sprite_shifter_hi: Seq::new(8, |i: int| 0u8),
            sprite_zero_hit_possible: false,
            sprite_zero_being_rendered: false,
            nmi_occurred: false,
            scanline_irq: false,
            frame_buffer: Seq::new(FRAME_BYTES as nat, |i: int| 0u8),
            chr_data: Seq::empty(),
            chr_ram: false,
            mirror_mode: MirrorMode::Horizontal,
            chr_bank_offsets: identity_banks(),
            chr_use_bank_mapping: false,
            chr_writable_mask: 0,
        }
    }

    /// The state after a reset: registers, cursor and pipeline latches are
    /// cleared and the cursor stands at the start of the pre-render line;
    /// memories, the picture and the cartridge connection stay.
    pub open spec fn reset(self) -> PpuModel {
        PpuModel {
            ctrl: 0,
            mask: 0,
            status: 0,
            oam_addr: 0,
            v: 0,
            t: 0,
            fine_x: 0,
            write_latch: false,
            data_buffer: 0,
            scanline: -1i16,
            cycle: 0,
            frame_complete: false,
            odd_frame: false,
            nmi_occurred: false,
            scanline_irq: false,
            bg_next_tile_id: 0,
            bg_next_tile_attr: 0,
            bg_next_tile_lsb: 0,
            bg_next_tile_msb: 0,
            bg_shifter_pattern_lo: 0,
            bg_shifter_pattern_hi: 0,
            bg_shifter_attr_lo: 0,
            bg_shifter_attr_hi: 0,
            sprite_count: 0,
            ..self
        }
    }

    /// The PPU with the pattern memory of a cartridge connected: RAM is
    /// addressed directly, ROM goes through the bank table.
    pub open spec fn set_chr_data(self, data: Seq<u8>, is_ram: bool) -> PpuModel {
        PpuModel {
            chr_data: data,
            chr_ram: is_ram,
            chr_use_bank_mapping: !is_ram,
            chr_bank_offsets: if is_ram {
                identity_banks()
            } else {
                self.chr_bank_offsets
            },
            ..self
        }
    }

    /// Where in `chr_data` a pattern address is found, if anywhere.
    pub open spec fn chr_index(self, addr: u16) -> Option<int> {
        let a: int = addr as int % 0x2000;
        if self.chr_data.len() == 0 {
            None
        } else if self.chr_use_bank_mapping {
            Some((self.chr_bank_offsets[a / 1024] + a % 1024) % (self.chr_data.len() as int))
        } else if a < self.chr_data.len() {
            Some(a)
        } else {
            None
        }
    }

    /// The byte at an address of the PPU's own 14-bit address space:
    /// pattern memory below `0x2000`, nametables up to `0x3EFF`, the
    /// palette above.
    pub open spec fn ppu_read(self, addr: u16) -> u8 {
        let a: u16 = addr % 0x4000;
        if a < 0x2000 {
            match self.chr_index(a) {
                Some(i) => self.chr_data[i],
                None => 0,
            }
        } else if a < 0x3F00 {
            self.nametable[nametable_index(self.mirror_mode, a)]
        } else {
            self.palette[palette_index(a)]
        }
    }

    /// Whether the pattern window that holds `addr` can be written.
    pub open spec fn chr_writable(self, addr: u16) -> bool {
        let window: u16 = (addr % 0x2000) / 1024;
        self.chr_ram || self.chr_writable_mask & (1u8 << window) != 0
    }

    /// The state after a write into the PPU's address space. Pattern memory
    /// takes the write only where it is writable.
    pub open spec fn ppu_write(self, addr: u16, data: u8) -> PpuModel {
        let a: u16 = addr % 0x4000;
        if a < 0x2000 {
            match self.chr_index(a) {
                Some(i) if self.chr_writable(a) => PpuModel {
                    chr_data: self.chr_data.update(i, data),
                    ..self
                },
                _ => self,
            }
        } else if a < 0x3F00 {
            PpuModel {
                nametable: self.nametable.update(nametable_index(self.mirror_mode, a), data),
                ..self
            }
        } else {
            PpuModel { palette: self.palette.update(palette_index(a), data), ..self }
        }
    }

    /// The byte that the CPU reads from a PPU register.
    pub open spec fn cpu_read_value(self, addr: u16) -> u8 {
        let reg: u16 = addr % 8;
        if reg == 2 {
            (self.status & 0xE0) | (self.data_buffer & 0x1F)
        } else if reg == 4 {
            self.oam[self.oam_addr as int]
        } else if reg == 7 {
            if self.v >= 0x3F00 {
                self.ppu_read(self.v)
            } else {
                self.data_buffer
            }
        } else {
            0
        }
    }

    /// The state after the CPU read a PPU register. Reading the status
    /// clears the vertical-blank bit and the write toggle; reading the data
    /// register refills the read buffer and moves the VRAM address on.
    pub open spec fn cpu_read(self, addr: u16) -> PpuModel {
        let reg: u16 = addr % 8;
        if reg == 2 {
            PpuModel { status: self.status & !0x80u8, write_latch: false, ..self }
        } else if reg == 7 {
            PpuModel {
                data_buffer: if self.v >= 0x3F00 {
                    self.ppu_read((self.v - 0x1000) as u16)
                } else {
                    self.ppu_read(self.v)
                },
                v: self.v.wrapping_add(vram_increment(self.ctrl)),
                ..self
            }
        } else {
            self
        }
    }

    /// A write to the control register: the nametable bits go to `t`, and
    /// an NMI is latched when NMI is switched on during vertical blank.
    pub open spec fn write_ctrl(self, data: u8) -> PpuModel {
        PpuModel {
            ctrl: data,
            t: (self.t & 0xF3FF) | ((data as u16 & 0x03) << 10),
            nmi_occurred: self.nmi_occurred || (self.ctrl & 0x80 == 0 && data & 0x80 != 0
                && self.status & 0x80 != 0),
            ..self
        }
    }

    /// A byte put into the sprite memory from outside, as the sprite DMA
    /// does.
    pub open spec fn write_oam(self, index: u8, data: u8) -> PpuModel {
        PpuModel { oam: self.oam.update(index as int, data), ..self }
    }

    /// A write to the sprite data register.
    pub open spec fn write_oam_data(self, data: u8) -> PpuModel {
        PpuModel {
            oam: self.oam.update(self.oam_addr as int, data),
            oam_addr: self.oam_addr.wrapping_add(1),
            ..self
        }
    }

    /// A write to the scroll register: the first sets the horizontal scroll
    /// (coarse in `t`, fine in `fine_x`), the second the vertical scroll.
    pub open spec fn write_scroll(self, data: u8) -> PpuModel {
        if !self.write_latch {
            PpuModel {
                fine_x: data & 0x07,
                t: (self.t & 0xFFE0) | ((data as u16) >> 3),
                write_latch: true,
                ..self
            }
        } else {
            PpuModel {
                t: (self.t & 0x8C1F) | ((data as u16 & 0x07) << 12) | ((data as u16 & 0xF8) << 2),
                write_latch: false,
                ..self
            }
        }
    }

    /// A write to the address register: the first sets the high six bits
    /// of `t`, the second the low byte, and copies `t` to `v`.
    pub open spec fn write_addr(self, data: u8) -> PpuModel {
        if !self.write_latch {
            PpuModel {
                t: (self.t & 0x00FF) | ((data as u16 & 0x3F) << 8),
                write_latch: true,
                ..self
            }
        } else {
            PpuModel {
                t: (self.t & 0xFF00) | (data as u16),
                v: (self.t & 0xFF00) | (data as u16),
                write_latch: false,
                ..self
            }
        }
    }

    /// A write to the data register: the byte goes to the VRAM address,
    /// which then moves on.
    pub open spec fn write_data(self, data: u8) -> PpuModel {
        PpuModel {
            v: self.v.wrapping_add(vram_increment(self.ctrl)),
            ..self.ppu_write(self.v, data)
        }
    }

    /// The state after the CPU wrote a PPU register. The status register
    /// (2) is read-only: a write to it changes nothing.
    pub open spec fn cpu_write(self, addr: u16, data: u8) -> PpuModel {
        let reg: u16 = addr % 8;
        if reg == 0 {
            self.write_ctrl(data)
        } else if reg == 1 {
            PpuModel { mask: data, ..self }
        } else if reg == 3 {
            PpuModel { oam_addr: data, ..self }
        } else if reg == 4 {
            self.write_oam_data(data)
        } else if reg == 5 {
            self.write_scroll(data)
        } else if reg == 6 {
            self.write_addr(data)
        } else if reg == 7 {
            self.write_data(data)
        } else {
            self
        }
    }

    /// Whether the background or the sprites are switched on.
    pub open spec fn rendering_enabled(self) -> bool {
        self.mask & 0x18 != 0
    }

    /// Whether the background is switched on.
    pub open spec fn bg_enabled(self) -> bool {
        self.mask & 0x08 != 0
    }

    /// Whether the sprites are switched on.
    pub open spec fn spr_enabled(self) -> bool {
        self.mask & 0x10 != 0
    }

    /// Whether the background shows in the leftmost eight pixels.
    pub open spec fn bg_left_enabled(self) -> bool {
        self.mask & 0x02 != 0
    }

    /// Whether the sprites show in the leftmost eight pixels.
    pub open spec fn spr_left_enabled(self) -> bool {
        self.mask & 0x04 != 0
    }
}

/// Builds a frame buffer of `FRAME_BYTES` zero bytes.
fn blank_frame() -> (frame: Vec<u8>)
    ensures
        frame@ == Seq::new(FRAME_BYTES as nat, |i: int| 0u8),
{
    let mut frame: Vec<u8> = Vec::new();
    let mut i: usize = 0;
    while i < FRAME_BYTES
        invariant
            i <= FRAME_BYTES,
            frame@.len() == i,
            forall|k: int| 0 <= k < i ==> frame@[k] == 0,
        decreases FRAME_BYTES - i,
    {
        frame.push(0);
        i += 1;
    }
    assert(frame@ =~= Seq::new(FRAME_BYTES as nat, |i: int| 0u8));
    frame
}

impl Ppu {
    /// What holds of a PPU between any two operations: what holds of its
    /// model.
    pub open spec fn wf(&self) -> bool {
        &&& self.frame_buffer@.len() == FRAME_BYTES
        &&& -1 <= self.scanline <= 260
        &&& self.cycle <= 340
        &&& self.sprite_count <= 8
        &&& self.fine_x <= 7
    }

    /// A PPU is well-formed exactly when its model is.
    pub proof fn lemma_wf_model(&self)
        ensures
            self.wf() == self@.wf(),
    {
    }

    /// Tells whether the PPU is well-formed.
    pub fn is_well_formed(&self) -> (ok: bool)
        ensures
            ok == self.wf(),
    {
        self.frame_buffer.len() == FRAME_BYTES && -1 <= self.scanline && self.scanline <= 260
            && self.cycle <= 340 && self.sprite_count <= 8 && self.fine_x <= 7
    }

    /// A PPU at power-on, with no pattern memory connected.
    pub fn new() -> (ppu: Ppu)
        ensures
            ppu@ == PpuModel::power_on(),
            ppu.wf(),
    {
        let ppu = Ppu {
            ctrl: 0,
            mask: 0,
            status: 0,
            oam_addr: 0,
            v: 0,
            t: 0,
            fine_x: 0,
            write_latch: false,
            data_buffer: 0,
            nametable: [0;2048],
            palette: [0;32],
            oam: [0;256],
            secondary_oam: [0xFF;32],
            scanline: 0,
            cycle: 0,
            frame_complete: false,
            odd_frame: false,
            bg_next_tile_id: 0,
            bg_next_tile_attr: 0,
            bg_next_tile_lsb: 0,
            bg_next_tile_msb: 0,
            bg_shifter_pattern_lo: 0,
            bg_shifter_pattern_hi: 0,
            bg_shifter_attr_lo: 0,
            bg_shifter_attr_hi: 0,
            sprite_count: 0,
            sprite_shifter_lo: [0;8],
            sprite_shifter_hi: [0;8],
            sprite_zero_hit_possible: false,
            sprite_zero_being_rendered: false,
            nmi_occurred: false,
            scanline_irq: false,
            frame_buffer: blank_frame(),
            chr_data: Vec::new(),
            chr_ram: false,
            mirror_mode: MirrorMode::Horizontal,
            chr_bank_offsets: [0, 0x400, 0x800, 0xC00, 0x1000, 0x1400, 0x1800, 0x1C00],
            chr_use_bank_mapping: false,
            chr_writable_mask: 0,
        };
        proof {
            let m = PpuModel::power_on();
            assert(ppu@.nametable =~= m.nametable);
            assert(ppu@.palette =~= m.palette);
            assert(ppu@.oam =~= m.oam);
            assert(ppu@.secondary_oam =~= m.secondary_oam);
            assert(ppu@.sprite_shifter_lo =~= m.sprite_shifter_lo);
            assert(ppu@.sprite_shifter_hi =~= m.sprite_shifter_hi);
            assert(ppu@.chr_bank_offsets =~= m.chr_bank_offsets);
            assert(ppu@.chr_data =~= m.chr_data);
        }
        ppu
    }

    /// Resets registers, cursor and pipeline; memories stay.
    pub fn reset(&mut self)
        ensures
            final(self)@ == old(self)@.reset(),
            old(self).wf() ==> final(self).wf(),
    {
        self.ctrl = 0;
        self.mask = 0;
        self.status = 0;
        self.oam_addr = 0;
        self.v = 0;
        self.t = 0;
        self.fine_x = 0;
        self.write_latch = false;
        self.data_buffer = 0;
        self.scanline = -1;
        self.cycle = 0;
        self.frame_complete = false;
        self.odd_frame = false;
        self.nmi_occurred = false;
        self.scanline_irq = false;
        self.bg_next_tile_id = 0;
        self.bg_next_tile_attr = 0;
        self.bg_next_tile_lsb = 0;
        self.bg_next_tile_msb = 0;
        self.bg_shifter_pattern_lo = 0;
        self.bg_shifter_pattern_hi = 0;
        self.bg_shifter_attr_lo = 0;
        self.bg_shifter_attr_hi = 0;
        self.sprite_count = 0;
    }

    /// Connects the cartridge's pattern memory. RAM is addressed directly;
    /// ROM goes through the bank table.
    pub fn set_chr_data(&mut self, data: Vec<u8>, is_ram: bool)
        ensures
            final(self)@ == old(self)@.set_chr_data(data@, is_ram),
            old(self).wf() ==> final(self).wf(),
    {
        self.chr_data = data;
        self.chr_ram = is_ram;
        if is_ram {
            self.chr_use_bank_mapping = false;
            self.chr_bank_offsets = [0, 0x400, 0x800, 0xC00, 0x1000, 0x1400, 0x1800, 0x1C00];
            assert(self.chr_bank_offsets@ =~= identity_banks());
        } else {
            self.chr_use_bank_mapping = true;
        }
    }

    /// Sets where each 1 KiB pattern window begins in the pattern memory.
    pub fn set_chr_bank_offsets(&mut self, offsets: [u32; 8])
        ensures
            final(self)@ == (PpuModel { chr_bank_offsets: offsets@, ..old(self)@ }),
            old(self).wf() ==> final(self).wf(),
    {
        self.chr_bank_offsets = offsets;
    }

    /// Sets which 1 KiB pattern windows are writable, one bit each.
    pub fn set_chr_writable_mask(&mut self, mask: u8)
        ensures
            final(self)@ == (PpuModel { chr_writable_mask: mask, ..old(self)@ }),
            old(self).wf() ==> final(self).wf(),
    {
        self.chr_writable_mask = mask;
    }

    /// Sets how the nametables are laid onto the nametable RAM.
    pub fn set_mirror_mode(&mut self, mode: MirrorMode)
        ensures
            final(self)@ == (PpuModel { mirror_mode: mode, ..old(self)@ }),
            old(self).wf() ==> final(self).wf(),
    {
        self.mirror_mode = mode;
    }

    /// The index into nametable RAM for a PPU address.
    pub fn mirror_nametable_addr(&self, addr: u16) -> (index: usize)
        ensures
            index == nametable_index(self.mirror_mode, addr),
            index < 2048,
    {
        let a: u16 = addr % 0x1000;
        match self.mirror_mode {
            MirrorMode::Horizontal => ((a / 0x0800) * 0x0400 + a % 0x0400) as usize,
            MirrorMode::Vertical => (a % 0x0800) as usize,
            MirrorMode::SingleScreenLow => (a % 0x0400) as usize,
            MirrorMode::SingleScreenHigh => (a % 0x0400) as usize + 0x0400,
            MirrorMode::FourScreen => (a % 0x0800) as usize,
        }
    }

    /// The index into palette RAM for a PPU address.
    pub fn mirror_palette_addr(&self, addr: u16) -> (index: usize)
        ensures
            index == palette_index(addr),
            index < 32,
    {
        let a: usize = (addr % 32) as usize;
        if a == 0x10 || a == 0x14 || a == 0x18 || a == 0x1C {
            a - 0x10
        } else {
            a
        }
    }

    fn chr_index(&self, addr: u16) -> (index: Option<usize>)
        requires
            addr < 0x2000,
        ensures
            match index {
                Some(i) => self@.chr_index(addr) == Some(i as int) && i < self.chr_data@.len(),
                None => self@.chr_index(addr) is None,
            },
    {
        let len = self.chr_data.len();
        if len == 0 {
            None
        } else if self.chr_use_bank_mapping {
            let bank = self.chr_bank_offsets[(addr / 1024) as usize];
            let i: u64 = (bank as u64 + (addr % 1024) as u64) % (len as u64);
            Some(i as usize)
        } else if (addr as usize) < len {
            Some(addr as usize)
        } else {
            None
        }
    }

    /// Reads a byte of the PPU's own address space.
    pub fn ppu_read(&self, addr: u16) -> (value: u8)
        ensures
            value == self@.ppu_read(addr),
    {
        let a: u16 = addr % 0x4000;
        if a < 0x2000 {
            match self.chr_index(a) {
                Some(i) => self.chr_data[i],
                None => 0,
            }
        } else if a < 0x3F00 {
            let i = self.mirror_nametable_addr(a);
            self.nametable[i]
        } else {
            let i = self.mirror_palette_addr(a);
            self.palette[i]
        }
    }

    /// Writes a byte of the PPU's own address space.
    pub fn ppu_write(&mut self, addr: u16, data: u8)
        ensures
            final(self)@ == old(self)@.ppu_write(addr, data),
            old(self).wf() ==> final(self).wf(),
    {
        let a: u16 = addr % 0x4000;
        if a < 0x2000 {
            let window: u16 = a / 1024;
            let writable = self.chr_ram || (self.chr_writable_mask & (1u8 << window)) != 0;
            if writable {
                match self.chr_index(a) {
                    Some(i) => {
                        self.chr_data[i] = data;
                    },
                    None => {},
                }
            }
        } else if a < 0x3F00 {
            let i = self.mirror_nametable_addr(a);
            self.nametable[i] = data;
        } else {
            let i = self.mirror_palette_addr(a);
            self.palette[i] = data;
        }
    }

    /// The CPU reads one of the eight PPU registers; `addr` counts modulo 8.
    pub fn cpu_read(&mut self, addr: u16) -> (value: u8)
        ensures
            value == old(self)@.cpu_read_value(addr),
            final(self)@ == old(self)@.cpu_read(addr),
            old(self).wf() ==> final(self).wf(),
    {
        let reg: u16 = addr % 8;
        if reg == 2 {
            let data = (self.status & 0xE0) | (self.data_buffer & 0x1F);
            self.status = self.status & !0x80u8;
            self.write_latch = false;
            data
        } else if reg == 4 {
            self.oam[self.oam_addr as usize]
        } else if reg == 7 {
            let mut data = self.data_buffer;
            self.data_buffer = self.ppu_read(self.v);
            if self.v >= 0x3F00 {
                data = self.data_buffer;
                self.data_buffer = self.ppu_read(self.v - 0x1000);
            }
            let step: u16 = if self.ctrl & 0x04 != 0 {
                32
            } else {
                1
            };
            self.v = self.v.wrapping_add(step);
            data
        } else {
            0
        }
    }

    fn write_ctrl(&mut self, data: u8)
        ensures
            final(self)@ == old(self)@.write_ctrl(data),
            old(self).wf() ==> final(self).wf(),
    {
        let prev_nmi = self.ctrl & 0x80 != 0;
        self.ctrl = data;
        self.t = (self.t & 0xF3FF) | ((data as u16 & 0x03) << 10);
        let new_nmi = data & 0x80 != 0;
        if !prev_nmi && new_nmi && (self.status & 0x80 != 0) {
            self.nmi_occurred = true;
        }
    }

    /// Puts a byte into the sprite memory; this is the back door that the
    /// sprite DMA uses.
    pub fn write_oam(&mut self, index: u8, data: u8)
        ensures
            final(self)@ == old(self)@.write_oam(index, data),
            old(self).wf() ==> final(self).wf(),
    {
        self.oam[index as usize] = data;
    }

    fn write_oam_data(&mut self, data: u8)
        ensures
            final(self)@ == old(self)@.write_oam_data(data),
            old(self).wf() ==> final(self).wf(),
    {
        self.oam[self.oam_addr as usize] = data;
        self.oam_addr = self.oam_addr.wrapping_add(1);
    }

    fn write_scroll(&mut self, data: u8)
        ensures
            final(self)@ == old(self)@.write_scroll(data),
            old(self).wf() ==> final(self).wf(),
    {
        if !self.write_latch {
            proof {
                crate::bits::lemma_u8_and_le(data, 0x07);
            }
            self.fine_x = data & 0x07;
            self.t = (self.t & 0xFFE0) | ((data as u16) >> 3);
        } else {
            self.t = (self.t & 0x8C1F) | ((data as u16 & 0x07) << 12) | ((data as u16 & 0xF8) << 2);
        }
        self.write_latch = !self.write_latch;
    }

    fn write_addr(&mut self, data: u8)
        ensures
            final(self)@ == old(self)@.write_addr(data),
            old(self).wf() ==> final(self).wf(),
    {
        if !self.write_latch {
            self.t = (self.t & 0x00FF) | ((data as u16 & 0x3F) << 8);
        } else {
            self.t = (self.t & 0xFF00) | (data as u16);
            self.v = self.t;
        }
        self.write_latch = !self.write_latch;
    }

    fn write_data(&mut self, data: u8)
        ensures
            final(self)@ == old(self)@.write_data(data),
            old(self).wf() ==> final(self).wf(),
    {
        self.ppu_write(self.v, data);
        let step: u16 = if self.ctrl & 0x04 != 0 {
            32
        } else {
            1
        };
        self.v = self.v.wrapping_add(step);
    }

    /// The CPU writes one of the eight PPU registers; `addr` counts modulo
    /// 8. A write to the read-only status register changes nothing.
    pub fn cpu_write(&mut self, addr: u16, data: u8)
        ensures
            final(self)@ == old(self)@.cpu_write(addr, data),
            old(self).wf() ==> final(self).wf(),
    {
        let reg: u16 = addr % 8;
        if reg == 0 {
            self.write_ctrl(data);
        } else if reg == 1 {
            self.mask = data;
        } else if reg == 3 {
            self.oam_addr = data;
        } else if reg == 4 {
            self.write_oam_data(data);
        } else if reg == 5 {
            self.write_scroll(data);
        } else if reg == 6 {
            self.write_addr(data);
        } else if reg == 7 {
            self.write_data(data);
        }
    }

    /// Returns whether an NMI was latched, and clears the latch.
    pub fn check_nmi(&mut self) -> (raised: bool)
        ensures
            raised == old(self)@.nmi_occurred,
            final(self)@ == (PpuModel { nmi_occurred: false, ..old(self)@ }),
    {
        if self.nmi_occurred {
            self.nmi_occurred = false;
            true
        } else {
            false
        }
    }

    /// Returns whether a scanline was signalled, and clears the signal.
    pub fn check_scanline_irq(&mut self) -> (raised: bool)
        ensures
            raised == old(self)@.scanline_irq,
            final(self)@ == (PpuModel { scanline_irq: false, ..old(self)@ }),
    {
        if self.scanline_irq {
            self.scanline_irq = false;
            true
        } else {
            false
        }
    }

    /// Whether the background or the sprites are switched on.
    pub fn rendering_enabled(&self) -> (on: bool)
        ensures
            on == self@.rendering_enabled(),
    {
        (self.mask & 0x18) != 0
    }

    /// Whether the background is switched on.
    pub fn bg_enabled(&self) -> (on: bool)
        ensures
            on == self@.bg_enabled(),
    {
        self.mask & 0x08 != 0
    }

    /// Whether the sprites are switched on.
    pub fn spr_enabled(&self) -> (on: bool)
        ensures
            on == self@.spr_enabled(),
    {
        self.mask & 0x10 != 0
    }

    /// Whether the background shows in the leftmost eight pixels.
    pub fn bg_left_enabled(&self) -> (on: bool)
        ensures
            on == self@.bg_left_enabled(),
    {
        self.mask & 0x02 != 0
    }

    /// Whether the sprites show in the leftmost eight pixels.
    pub fn spr_left_enabled(&self) -> (on: bool)
        ensures
            on == self@.spr_left_enabled(),
    {
        self.mask & 0x04 != 0
    }
}

} // verus!
