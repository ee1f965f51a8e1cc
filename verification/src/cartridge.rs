//! The cartridge: the ROM image it is loaded from, its memories, and the
//! mapper that stands between them and the buses.

use vstd::prelude::*;
use crate::mappers::{Mapper, MapperTrait, create_mapper, spec_create_mapper};
use crate::mappers::Mapper0;
use crate::ppu::MirrorMode;

verus! {

/// Bytes in the header of a ROM image.
pub const HEADER_SIZE: usize = 16;

/// Bytes in the trainer that may follow the header.
pub const TRAINER_SIZE: usize = 512;

/// Bytes in a program bank.
pub const PRG_BANK_SIZE: usize = 16384;

/// Bytes in a pattern bank.
pub const CHR_BANK_SIZE: usize = 8192;

/// Bytes of program RAM.
pub const PRG_RAM_SIZE: usize = 8192;

/// Why a ROM image cannot be loaded.
#[derive(Debug, Clone, Copy, PartialEq, Eq, Structural)]
pub enum LoadError {
    /// The image is shorter than a header, or does not begin with the
    /// bytes `N`, `E`, `S`, `0x1A`.
    BadRomHeader,
    /// The image is too short to hold the program banks its header counts.
    BadRomPayload,
}

/// What the header of a ROM image says.
#[derive(Debug, Clone, Copy)]
pub struct CartridgeHeader {
    /// Number of 16 KiB program banks.
    pub prg_rom_banks: u8,
    /// Number of 8 KiB pattern banks; 0 means 8 KiB of pattern RAM.
    pub chr_rom_banks: u8,
    pub mapper_id: u8,
    pub mirror_mode: MirrorMode,
    pub has_battery: bool,
    /// A 512-byte trainer stands between the header and the program banks.
    pub has_trainer: bool,
}

/// A cartridge.
pub struct Cartridge {
    pub header: CartridgeHeader,
    /// Program ROM.
    pub prg_rom: Vec<u8>,
    /// Pattern ROM or RAM.
    pub chr_data: Vec<u8>,
    /// Program RAM, at `0x6000` to `0x7FFF`.
    pub prg_ram: [u8; 8192],
    /// The pattern memory is RAM.
    pub chr_ram: bool,
    pub mapper: Mapper,
    /// A ROM image has been loaded.
    pub loaded: bool,
}

/// What a `Cartridge` holds, as mathematical values.
pub struct CartridgeModel {
    pub header: CartridgeHeader,
    pub prg_rom: Seq<u8>,
    pub chr_data: Seq<u8>,
    pub prg_ram: Seq<u8>,
    pub chr_ram: bool,
    pub mapper: Mapper,
    pub loaded: bool,
}

impl View for Cartridge {
    type V = CartridgeModel;

    open spec fn view(&self) -> CartridgeModel {
        CartridgeModel {
            header: self.header,
            prg_rom: self.prg_rom@,
            chr_data: self.chr_data@,
            prg_ram: self.prg_ram@,
            chr_ram: self.chr_ram,
            mapper: self.mapper,
            loaded: self.loaded,
        }
    }
}

/// Whether an image begins with the four bytes that mark a ROM image.
pub open spec fn has_magic(data: Seq<u8>) -> bool {
    data.len() >= HEADER_SIZE && data[0] == 0x4E && data[1] == 0x45 && data[2] == 0x53 && data[3]
        == 0x1A
}

/// The header of an image that has the magic bytes. Byte 4 counts the
/// program banks and byte 5 the pattern banks; the mapper number has its
/// low nibble in the high nibble of byte 6 and its high nibble in that of
/// byte 7; of byte 6, bit 0 asks for vertical mirroring, bit 1 tells of a
/// battery, bit 2 of a trainer, and bit 3 asks for four screens whatever
/// bit 0 says.
pub open spec fn parse_header(data: Seq<u8>) -> CartridgeHeader {
    CartridgeHeader {
        prg_rom_banks: data[4],
        chr_rom_banks: data[5],
        mapper_id: ((data[7] / 16) * 16 + data[6] / 16) as u8,
        mirror_mode: if (data[6] / 8) % 2 == 1 {
            MirrorMode::FourScreen
        } else if data[6] % 2 == 1 {
            MirrorMode::Vertical
        } else {
            MirrorMode::Horizontal
        },
        has_battery: (data[6] / 2) % 2 == 1,
        has_trainer: (data[6] / 4) % 2 == 1,
    }
}

/// Where in the image the program banks begin.
pub open spec fn prg_offset(header: CartridgeHeader) -> int {
    if header.has_trainer {
        HEADER_SIZE + TRAINER_SIZE
    } else {
        HEADER_SIZE as int
    }
}

/// Bytes of program ROM that the header counts.
pub open spec fn prg_size(header: CartridgeHeader) -> int {
    header.prg_rom_banks as int * PRG_BANK_SIZE
}

/// Where in the image the pattern banks begin.
pub open spec fn chr_offset(header: CartridgeHeader) -> int {
    prg_offset(header) + prg_size(header)
}

/// Bytes of pattern memory that the cartridge has: the ROM banks that the
/// header counts, or 8 KiB of RAM if it counts none; mapper 253 has 8 KiB
/// of RAM behind its ROM.
pub open spec fn chr_size(header: CartridgeHeader) -> int {
    if header.chr_rom_banks == 0 {
        CHR_BANK_SIZE as int
    } else if header.mapper_id == 253 {
        header.chr_rom_banks as int * CHR_BANK_SIZE + CHR_BANK_SIZE
    } else {
        header.chr_rom_banks as int * CHR_BANK_SIZE
    }
}

/// Why an image cannot be loaded, if it cannot.
pub open spec fn load_error(data: Seq<u8>) -> Option<LoadError> {
    if !has_magic(data) {
        Some(LoadError::BadRomHeader)
    } else if chr_offset(parse_header(data)) > data.len() {
        Some(LoadError::BadRomPayload)
    } else {
        None
    }
}

/// `len` bytes of the image from `start`, with zeros where the image has
/// ended.
pub open spec fn padded_range(data: Seq<u8>, start: int, len: int) -> Seq<u8> {
    Seq::new(
        len as nat,
        |i: int|
            if start + i < data.len() {
                data[start + i]
            } else {
                0u8
            },
    )
}

/// The cartridge that a loadable image describes. Pattern ROM that the
/// image lacks reads as zero; pattern RAM and program RAM begin as zero.
pub open spec fn loaded_cartridge(data: Seq<u8>) -> CartridgeModel {
    let header = parse_header(data);
    CartridgeModel {
        header,
        prg_rom: data.subrange(prg_offset(header), chr_offset(header)),
        chr_data: if header.chr_rom_banks == 0 {
            Seq::new(CHR_BANK_SIZE as nat, |i: int| 0u8)
        } else {
            padded_range(
                data,
                chr_offset(header),
                header.chr_rom_banks as int * CHR_BANK_SIZE,
            ) + Seq::new(
                (chr_size(header) - header.chr_rom_banks as int * CHR_BANK_SIZE) as nat,
                |i: int| 0u8,
            )
        },
        prg_ram: Seq::new(PRG_RAM_SIZE as nat, |i: int| 0u8),
        chr_ram: header.chr_rom_banks == 0,
        mapper: spec_create_mapper(header.mapper_id, header.prg_rom_banks, header.chr_rom_banks),
        loaded: true,
    }
}

impl CartridgeModel {
    /// What holds of a cartridge between any two operations.
    pub open spec fn wf(self) -> bool {
        self.mapper.wf()
    }

    /// An empty cartridge slot.
    pub open spec fn empty() -> CartridgeModel {
        CartridgeModel {
            header: CartridgeHeader {
                prg_rom_banks: 0,
                chr_rom_banks: 0,
                mapper_id: 0,
                mirror_mode: MirrorMode::Horizontal,
                has_battery: false,
                has_trainer: false,
            },
            prg_rom: Seq::empty(),
            chr_data: Seq::empty(),
            prg_ram: Seq::new(PRG_RAM_SIZE as nat, |i: int| 0u8),
            chr_ram: false,
            mapper: Mapper::M0(Mapper0::spec_new(1, 1)),
            loaded: false,
        }
    }

    /// The byte that the CPU reads at `addr`: program RAM from `0x6000`,
    /// program ROM through the mapper from `0x8000`, wrapping around its
    /// size, and 0 anywhere else or where there is no ROM.
    pub open spec fn cpu_read(self, addr: u16) -> u8 {
        if 0x6000 <= addr < 0x8000 {
            self.prg_ram[addr - 0x6000]
        } else {
            match self.mapper.spec_cpu_read(addr) {
                Some(mapped) if addr >= 0x8000 && self.prg_rom.len() > 0 => self.prg_rom[mapped
                    as int % self.prg_rom.len() as int],
                _ => 0,
            }
        }
    }

    /// The cartridge after the CPU wrote `data` to `addr`: program RAM
    /// takes the byte, the mapper sees every write, and a mirroring that
    /// the mapper reports replaces the one in the header.
    pub open spec fn cpu_write(self, addr: u16, data: u8) -> CartridgeModel {
        CartridgeModel {
            prg_ram: if 0x6000 <= addr < 0x8000 {
                self.prg_ram.update(addr - 0x6000, data)
            } else {
                self.prg_ram
            },
            mapper: self.mapper.spec_cpu_write(addr, data),
            header: match self.mapper.spec_write_result(addr, data) {
                Some(result) if result.mirror_mode is Some => CartridgeHeader {
                    mirror_mode: result.mirror_mode->0,
                    ..self.header
                },
                _ => self.header,
            },
            ..self
        }
    }

    /// The byte that the PPU reads at `addr`: pattern memory through the
    /// mapper, wrapping around its size.
    pub open spec fn ppu_read(self, addr: u16) -> u8 {
        match self.mapper.spec_ppu_read(addr) {
            Some(mapped) if self.chr_data.len() > 0 => self.chr_data[mapped as int
                % self.chr_data.len() as int],
            _ => 0,
        }
    }

    /// The cartridge after the PPU wrote `data` to `addr`: only pattern
    /// RAM takes it, where the mapper maps the address into it.
    pub open spec fn ppu_write(self, addr: u16, data: u8) -> CartridgeModel {
        match self.mapper.spec_ppu_write(addr) {
            Some(mapped) if self.chr_ram && mapped < self.chr_data.len() => CartridgeModel {
                chr_data: self.chr_data.update(mapped as int, data),
                ..self
            },
            _ => self,
        }
    }

    /// The mapper is reset.
    pub open spec fn reset(self) -> CartridgeModel {
        CartridgeModel { mapper: self.mapper.spec_reset(), ..self }
    }

    /// The PPU has signalled a scanline.
    pub open spec fn scanline(self) -> CartridgeModel {
        CartridgeModel { mapper: self.mapper.spec_scanline(), ..self }
    }

    /// A CPU cycle has passed.
    pub open spec fn cpu_clock(self) -> CartridgeModel {
        CartridgeModel { mapper: self.mapper.spec_cpu_clock(), ..self }
    }

    /// The interrupt of the mapper was taken notice of.
    pub open spec fn check_irq(self) -> CartridgeModel {
        CartridgeModel { mapper: self.mapper.spec_check_irq(), ..self }
    }
}

/// Whatever is done to a cartridge, its mapper stays well-formed.
pub proof fn lemma_cartridge_keeps_wf(c: CartridgeModel, addr: u16, data: u8)
    requires
        c.wf(),
    ensures
        c.cpu_write(addr, data).wf(),
        c.ppu_write(addr, data).wf(),
        c.reset().wf(),
        c.scanline().wf(),
        c.cpu_clock().wf(),
        c.check_irq().wf(),
{
    c.mapper.lemma_wf_kept(addr, data);
}

/// Copies `len` bytes of `data` from `start`, with zeros where `data` has
/// ended.
fn copy_padded(data: &[u8], start: usize, len: usize) -> (out: Vec<u8>)
    requires
        start + len <= usize::MAX,
    ensures
        out@ == padded_range(data@, start as int, len as int),
{
    let mut out: Vec<u8> = Vec::new();
    let mut i: usize = 0;
    while i < len
        invariant
            i <= len,
            start + len <= usize::MAX,
            out@.len() == i,
            forall|k: int|
                0 <= k < i ==> out@[k] == (if start + k < data@.len() {
                    data@[start + k]
                } else {
                    0u8
                }),
        decreases len - i,
    {
        let b: u8 = if start + i < data.len() {
            data[start + i]
        } else {
            0
        };
        out.push(b);
        i += 1;
    }
    assert(out@ =~= padded_range(data@, start as int, len as int));
    out
}

/// Appends `count` zero bytes.
fn append_zeros(out: &mut Vec<u8>, count: usize)
    ensures
        final(out)@ == old(out)@ + Seq::new(count as nat, |i: int| 0u8),
{
    let mut i: usize = 0;
    while i < count
        invariant
            i <= count,
            out@.len() == old(out)@.len() + i,
            forall|k: int| 0 <= k < old(out)@.len() ==> out@[k] == old(out)@[k],
            forall|k: int| old(out)@.len() <= k < out@.len() ==> out@[k] == 0,
        decreases count - i,
    {
        out.push(0);
        i += 1;
    }
    assert(out@ =~= old(out)@ + Seq::new(count as nat, |i: int| 0u8));
}

impl Cartridge {
    /// What holds of a cartridge between any two operations.
    pub open spec fn wf(&self) -> bool {
        self@.wf()
    }

    /// Tells whether the cartridge is well-formed.
    pub fn is_well_formed(&self) -> (ok: bool)
        ensures
            ok == self.wf(),
    {
        self.mapper.is_well_formed()
    }

    /// An empty cartridge slot: no memories but the program RAM, and a
    /// mapper without bank switching.
    pub fn new() -> (cart: Cartridge)
        ensures
            cart@ == CartridgeModel::empty(),
            cart.wf(),
    {
        let cart = Cartridge {
            header: CartridgeHeader {
                prg_rom_banks: 0,
                chr_rom_banks: 0,
                mapper_id: 0,
                mirror_mode: MirrorMode::Horizontal,
                has_battery: false,
                has_trainer: false,
            },
            prg_rom: Vec::new(),
            chr_data: Vec::new(),
            prg_ram: [0;8192],
            chr_ram: false,
            mapper: Mapper::M0(Mapper0::new(1, 1)),
            loaded: false,
        };
        proof {
            let m = CartridgeModel::empty();
            assert(cart@.prg_rom =~= m.prg_rom);
            assert(cart@.chr_data =~= m.chr_data);
            assert(cart@.prg_ram =~= m.prg_ram);
        }
        cart
    }

    /// Reads the header of a ROM image.
    pub fn read_header(data: &[u8]) -> (header: CartridgeHeader)
        requires
            data@.len() >= HEADER_SIZE,
        ensures
            header == parse_header(data@),
    {
        let flags6 = data[6];
        let flags7 = data[7];
        CartridgeHeader {
            prg_rom_banks: data[4],
            chr_rom_banks: data[5],
            mapper_id: (flags7 / 16) * 16 + flags6 / 16,
            mirror_mode: if (flags6 / 8) % 2 == 1 {
                MirrorMode::FourScreen
            } else if flags6 % 2 == 1 {
                MirrorMode::Vertical
            } else {
                MirrorMode::Horizontal
            },
            has_battery: (flags6 / 2) % 2 == 1,
            has_trainer: (flags6 / 4) % 2 == 1,
        }
    }

    /// Loads a ROM image, or says why it cannot be loaded; in that case
    /// the cartridge is left as it was.
    pub fn try_load_rom(&mut self, data: &[u8]) -> (result: Result<(), LoadError>)
        ensures
            match load_error(data@) {
                Some(e) => result == Err::<(), LoadError>(e) && *final(self) == *old(self),
                None => result is Ok && final(self)@ == loaded_cartridge(data@) && final(self).wf(),
            },
    {
        if data.len() < 16 || data[0] != 0x4E || data[1] != 0x45 || data[2] != 0x53 || data[3]
            != 0x1A {
            return Err(LoadError::BadRomHeader);
        }
        let header = Cartridge::read_header(data);
        let mut offset: usize = 16;
        if header.has_trainer {
            offset = offset + 512;
        }
        let prg_size: usize = header.prg_rom_banks as usize * 16384;
        if offset + prg_size > data.len() {
            return Err(LoadError::BadRomPayload);
        }
        let prg_rom = copy_padded(data, offset, prg_size);
        assert(prg_rom@ =~= data@.subrange(prg_offset(header), chr_offset(header)));
        offset = offset + prg_size;
        let mut chr_data: Vec<u8>;
        if header.chr_rom_banks > 0 {
            let rom_size: usize = header.chr_rom_banks as usize * 8192;
            chr_data = copy_padded(data, offset, rom_size);
            if header.mapper_id == 253 {
                append_zeros(&mut chr_data, 8192);
            } else {
                append_zeros(&mut chr_data, 0);
            }
        } else {
            chr_data = Vec::new();
            append_zeros(&mut chr_data, 8192);
            assert(chr_data@ =~= Seq::new(CHR_BANK_SIZE as nat, |i: int| 0u8));
        }
        self.header = header;
        self.prg_rom = prg_rom;
        self.chr_data = chr_data;
        self.chr_ram = header.chr_rom_banks == 0;
        self.prg_ram = [0;8192];
        self.mapper = create_mapper(header.mapper_id, header.prg_rom_banks, header.chr_rom_banks);
        self.loaded = true;
        assert(self.prg_ram@ =~= Seq::new(PRG_RAM_SIZE as nat, |i: int| 0u8));
        Ok(())
    }

    /// Loads a ROM image and tells whether it could be loaded. An image
    /// that cannot be loaded leaves the cartridge as it was.
    pub fn load_rom(&mut self, data: &[u8]) -> (loaded: bool)
        ensures
            loaded == (load_error(data@) is None),
            loaded ==> final(self)@ == loaded_cartridge(data@) && final(self).wf(),
            !loaded ==> *final(self) == *old(self),
    {
        match self.try_load_rom(data) {
            Ok(_) => true,
            Err(_) => false,
        }
    }

    /// Resets the mapper; the memories stay.
    pub fn reset(&mut self)
        requires
            old(self).wf(),
        ensures
            final(self)@ == old(self)@.reset(),
            final(self).wf(),
    {
        self.mapper.reset();
    }

    /// The CPU reads the cartridge.
    pub fn cpu_read(&self, addr: u16) -> (value: u8)
        requires
            self.wf(),
        ensures
            value == self@.cpu_read(addr),
    {
        if addr >= 0x6000 && addr < 0x8000 {
            return self.prg_ram[(addr - 0x6000) as usize];
        }
        match self.mapper.cpu_read(addr) {
            Some(mapped) => {
                if addr >= 0x8000 && self.prg_rom.len() > 0 {
                    self.prg_rom[mapped as usize % self.prg_rom.len()]
                } else {
                    0
                }
            },
            None => 0,
        }
    }

    /// The CPU writes the cartridge.
    pub fn cpu_write(&mut self, addr: u16, data: u8)
        requires
            old(self).wf(),
        ensures
            final(self)@ == old(self)@.cpu_write(addr, data),
            final(self).wf(),
    {
        if addr >= 0x6000 && addr < 0x8000 {
            self.prg_ram[(addr - 0x6000) as usize] = data;
        }
        match self.mapper.cpu_write(addr, data) {
            Some(result) => {
                match result.mirror_mode {
                    Some(mode) => {
                        self.header.mirror_mode = mode;
                    },
                    None => {},
                }
            },
            None => {},
        }
    }

    /// The PPU reads the cartridge.
    pub fn ppu_read(&self, addr: u16) -> (value: u8)
        requires
            self.wf(),
        ensures
            value == self@.ppu_read(addr),
    {
        match self.mapper.ppu_read(addr) {
            Some(mapped) => {
                if self.chr_data.len() > 0 {
                    self.chr_data[mapped as usize % self.chr_data.len()]
                } else {
                    0
                }
            },
            None => 0,
        }
    }

    /// The PPU writes the cartridge.
    pub fn ppu_write(&mut self, addr: u16, data: u8)
        requires
            old(self).wf(),
        ensures
            final(self)@ == old(self)@.ppu_write(addr, data),
            final(self).wf(),
    {
        if self.chr_ram {
            match self.mapper.ppu_write(addr) {
                Some(mapped) => {
                    if (mapped as usize) < self.chr_data.len() {
                        self.chr_data[mapped as usize] = data;
                    }
                },
                None => {},
            }
        }
    }

    /// Tells the mapper that the PPU has signalled a scanline.
    pub fn scanline(&mut self)
        requires
            old(self).wf(),
        ensures
            final(self)@ == old(self)@.scanline(),
            final(self).wf(),
    {
        self.mapper.scanline();
    }

    /// Tells the mapper that a CPU cycle has passed.
    pub fn cpu_clock(&mut self)
        requires
            old(self).wf(),
        ensures
            final(self)@ == old(self)@.cpu_clock(),
            final(self).wf(),
    {
        self.mapper.cpu_clock();
    }

    /// Tells whether the mapper asserts an interrupt, and withdraws it.
    pub fn check_irq(&mut self) -> (irq: bool)
        requires
            old(self).wf(),
        ensures
            irq == old(self)@.mapper.spec_irq(),
            final(self)@ == old(self)@.check_irq(),
            final(self).wf(),
    {
        self.mapper.check_irq()
    }

    /// The nametable arrangement now in force.
    pub fn mirror_mode(&self) -> (mode: MirrorMode)
        ensures
            mode == self@.header.mirror_mode,
    {
        self.header.mirror_mode
    }
}

} // verus!
