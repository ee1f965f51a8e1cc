//! Save states: the registers and memories of the machine as a sequence
//! of bytes, and back.

use vstd::prelude::*;
use crate::bits::{word, low_byte, high_byte, make_word, lo_byte, hi_byte};
use crate::bus::{BusModel, SystemModel};
use crate::cartridge::CartridgeModel;
use crate::cpu::Cpu;
use crate::emulator::{Emulator, EmulatorModel};
use crate::emulator::hex::{
    decode_text, encode_text, is_hex_text, spec_decode_text, spec_encode_text,
};
use crate::ppu::PpuModel;

verus! {

/// Bytes in a save state.
pub const STATE_SIZE: usize = 12599;

/// Where the registers of the CPU begin in a save state.
pub const CPU_AT: usize = 5;

/// Where the work RAM begins.
pub const RAM_AT: usize = 12;

/// Where the registers of the PPU begin.
pub const PPU_AT: usize = 2060;

/// Where the nametable RAM begins.
pub const NAMETABLE_AT: usize = 2071;

/// Where the palette RAM begins.
pub const PALETTE_AT: usize = 4119;

/// Where the sprite memory begins.
pub const OAM_AT: usize = 4151;

/// Where the program RAM begins.
pub const PRG_RAM_AT: usize = 4407;

/// The bytes that a save state begins with: `N`, `E`, `S`, `W`, and the
/// version, 1.
pub open spec fn state_header() -> Seq<u8> {
    seq![0x4Eu8, 0x45u8, 0x53u8, 0x57u8, 1u8]
}

impl EmulatorModel {
    /// The memories that a save state holds have their sizes.
    pub open spec fn shaped(self) -> bool {
        &&& self.sys.bus.ram.len() == 2048
        &&& self.sys.ppu.nametable.len() == 2048
        &&& self.sys.ppu.palette.len() == 32
        &&& self.sys.ppu.oam.len() == 256
        &&& self.sys.cartridge.prg_ram.len() == 8192
    }

    /// The registers of the CPU as they stand in a save state: A, X, Y, the
    /// stack pointer, the status, and the program counter, low byte first.
    pub open spec fn cpu_bytes(self) -> Seq<u8> {
        seq![
            self.cpu.a,
            self.cpu.x,
            self.cpu.y,
            self.cpu.sp,
            self.cpu.status,
            low_byte(self.cpu.pc),
            high_byte(self.cpu.pc),
        ]
    }

    /// The registers of the PPU as they stand in a save state: control,
    /// mask, status, sprite address, `v` and `t` low byte first, the fine
    /// scroll, the write toggle as 0 or 1, and the read buffer.
    pub open spec fn ppu_bytes(self) -> Seq<u8> {
        seq![
            self.sys.ppu.ctrl,
            self.sys.ppu.mask,
            self.sys.ppu.status,
            self.sys.ppu.oam_addr,
            low_byte(self.sys.ppu.v),
            high_byte(self.sys.ppu.v),
            low_byte(self.sys.ppu.t),
            high_byte(self.sys.ppu.t),
            self.sys.ppu.fine_x,
            if self.sys.ppu.write_latch {
                1u8
            } else {
                0u8
            },
            self.sys.ppu.data_buffer,
        ]
    }

    /// The save state of the machine: the header, the CPU, the work RAM,
    /// the PPU, the nametable RAM, the palette RAM, the sprite memory and
    /// the program RAM.
    #[verifier::opaque]
    pub open spec fn export_state(self) -> Seq<u8> {
        state_header() + self.cpu_bytes() + self.sys.bus.ram + self.ppu_bytes()
            + self.sys.ppu.nametable + self.sys.ppu.palette + self.sys.ppu.oam
            + self.sys.cartridge.prg_ram
    }

    /// Whether a sequence of bytes is a save state: it begins with the
    /// header and is not shorter than a save state is.
    pub open spec fn is_state(data: Seq<u8>) -> bool {
        data.len() >= STATE_SIZE && data.subrange(0, 5) == state_header()
    }

    /// Whether a sequence of bytes is a save state as it is written: of the
    /// exact size, with a fine scroll of three bits and a write toggle of 0
    /// or 1.
    pub open spec fn is_exact_state(data: Seq<u8>) -> bool {
        &&& Self::is_state(data)
        &&& data.len() == STATE_SIZE
        &&& data[2068] < 8
        &&& data[2069] <= 1
    }

    /// The machine after it took over a save state. What a save state does
    /// not hold stays as it is; of the fine scroll only the three bits that
    /// the register has are taken.
    #[verifier::opaque]
    pub open spec fn import_state(self, data: Seq<u8>) -> EmulatorModel {
        EmulatorModel {
            cpu: Cpu {
                a: data[5],
                x: data[6],
                y: data[7],
                sp: data[8],
                status: data[9],
                pc: word(data[10], data[11]),
                ..self.cpu
            },
            sys: SystemModel {
                bus: BusModel {
                    ram: data.subrange(RAM_AT as int, PPU_AT as int),
                    ..self.sys.bus
                },
                ppu: PpuModel {
                    ctrl: data[2060],
                    mask: data[2061],
                    status: data[2062],
                    oam_addr: data[2063],
                    v: word(data[2064], data[2065]),
                    t: word(data[2066], data[2067]),
                    fine_x: data[2068] % 8,
                    write_latch: data[2069] != 0,
                    data_buffer: data[2070],
                    nametable: data.subrange(NAMETABLE_AT as int, PALETTE_AT as int),
                    palette: data.subrange(PALETTE_AT as int, OAM_AT as int),
                    oam: data.subrange(OAM_AT as int, PRG_RAM_AT as int),
                    ..self.sys.ppu
                },
                cartridge: CartridgeModel {
                    prg_ram: data.subrange(PRG_RAM_AT as int, STATE_SIZE as int),
                    ..self.sys.cartridge
                },
                ..self.sys
            },
            ..self
        }
    }
}

proof fn lemma_front_kept(a: Seq<u8>, b: Seq<u8>, lo: int, hi: int)
    requires
        0 <= lo <= hi <= a.len(),
    ensures
        (a + b).subrange(lo, hi) == a.subrange(lo, hi),
{
    assert((a + b).subrange(lo, hi) =~= a.subrange(lo, hi));
}

proof fn lemma_back_is(a: Seq<u8>, b: Seq<u8>)
    ensures
        (a + b).subrange(a.len() as int, (a.len() + b.len()) as int) == b,
{
    assert((a + b).subrange(a.len() as int, (a.len() + b.len()) as int) =~= b);
}

/// Where each part of the machine stands in its save state.
pub proof fn lemma_export_layout(s: EmulatorModel)
    requires
        s.shaped(),
    ensures
        s.export_state().len() == STATE_SIZE,
        s.export_state().subrange(0, CPU_AT as int) == state_header(),
        s.export_state().subrange(CPU_AT as int, RAM_AT as int) == s.cpu_bytes(),
        s.export_state().subrange(RAM_AT as int, PPU_AT as int) == s.sys.bus.ram,
        s.export_state().subrange(PPU_AT as int, NAMETABLE_AT as int) == s.ppu_bytes(),
        s.export_state().subrange(NAMETABLE_AT as int, PALETTE_AT as int) == s.sys.ppu.nametable,
        s.export_state().subrange(PALETTE_AT as int, OAM_AT as int) == s.sys.ppu.palette,
        s.export_state().subrange(OAM_AT as int, PRG_RAM_AT as int) == s.sys.ppu.oam,
        s.export_state().subrange(PRG_RAM_AT as int, STATE_SIZE as int) == s.sys.cartridge.prg_ram,
{
    reveal(EmulatorModel::export_state);
    let header = state_header();
    let to_cpu = header + s.cpu_bytes();
    let to_ram = to_cpu + s.sys.bus.ram;
    let to_ppu = to_ram + s.ppu_bytes();
    let to_nametable = to_ppu + s.sys.ppu.nametable;
    let to_palette = to_nametable + s.sys.ppu.palette;
    let to_oam = to_palette + s.sys.ppu.oam;
    let whole = to_oam + s.sys.cartridge.prg_ram;
    assert(whole == s.export_state());
    assert(header.len() == 5 && to_cpu.len() == 12 && to_ram.len() == 2060 && to_ppu.len() == 2071);
    assert(to_nametable.len() == 4119 && to_palette.len() == 4151 && to_oam.len() == 4407);
    assert(whole.len() == 12599);
    // the last part
    lemma_back_is(to_oam, s.sys.cartridge.prg_ram);
    // the sprite memory
    lemma_back_is(to_palette, s.sys.ppu.oam);
    lemma_front_kept(to_oam, s.sys.cartridge.prg_ram, 4151, 4407);
    // the palette
    lemma_back_is(to_nametable, s.sys.ppu.palette);
    lemma_front_kept(to_palette, s.sys.ppu.oam, 4119, 4151);
    lemma_front_kept(to_oam, s.sys.cartridge.prg_ram, 4119, 4151);
    // the nametables
    lemma_back_is(to_ppu, s.sys.ppu.nametable);
    lemma_front_kept(to_nametable, s.sys.ppu.palette, 2071, 4119);
    lemma_front_kept(to_palette, s.sys.ppu.oam, 2071, 4119);
    lemma_front_kept(to_oam, s.sys.cartridge.prg_ram, 2071, 4119);
    // the PPU
    lemma_back_is(to_ram, s.ppu_bytes());
    lemma_front_kept(to_ppu, s.sys.ppu.nametable, 2060, 2071);
    lemma_front_kept(to_nametable, s.sys.ppu.palette, 2060, 2071);
    lemma_front_kept(to_palette, s.sys.ppu.oam, 2060, 2071);
    lemma_front_kept(to_oam, s.sys.cartridge.prg_ram, 2060, 2071);
    // the work RAM
    lemma_back_is(to_cpu, s.sys.bus.ram);
    lemma_front_kept(to_ram, s.ppu_bytes(), 12, 2060);
    lemma_front_kept(to_ppu, s.sys.ppu.nametable, 12, 2060);
    lemma_front_kept(to_nametable, s.sys.ppu.palette, 12, 2060);
    lemma_front_kept(to_palette, s.sys.ppu.oam, 12, 2060);
    lemma_front_kept(to_oam, s.sys.cartridge.prg_ram, 12, 2060);
    // the CPU
    lemma_back_is(header, s.cpu_bytes());
    lemma_front_kept(to_cpu, s.sys.bus.ram, 5, 12);
    lemma_front_kept(to_ram, s.ppu_bytes(), 5, 12);
    lemma_front_kept(to_ppu, s.sys.ppu.nametable, 5, 12);
    lemma_front_kept(to_nametable, s.sys.ppu.palette, 5, 12);
    lemma_front_kept(to_palette, s.sys.ppu.oam, 5, 12);
    lemma_front_kept(to_oam, s.sys.cartridge.prg_ram, 5, 12);
    // the header
    assert(header.subrange(0, 5) =~= header);
    lemma_front_kept(header, s.cpu_bytes(), 0, 5);
    lemma_front_kept(to_cpu, s.sys.bus.ram, 0, 5);
    lemma_front_kept(to_ram, s.ppu_bytes(), 0, 5);
    lemma_front_kept(to_ppu, s.sys.ppu.nametable, 0, 5);
    lemma_front_kept(to_nametable, s.sys.ppu.palette, 0, 5);
    lemma_front_kept(to_palette, s.sys.ppu.oam, 0, 5);
    lemma_front_kept(to_oam, s.sys.cartridge.prg_ram, 0, 5);
}

proof fn lemma_import_cpu(s: EmulatorModel, data: Seq<u8>)
    requires
        data.len() >= STATE_SIZE,
        data.subrange(CPU_AT as int, RAM_AT as int) == s.cpu_bytes(),
    ensures
        s.import_state(data).cpu == s.cpu,
{
    reveal(EmulatorModel::import_state);
    let part = data.subrange(CPU_AT as int, RAM_AT as int);
    assert(part[0] == data[5] && part[1] == data[6] && part[2] == data[7] && part[3] == data[8]);
    assert(part[4] == data[9] && part[5] == data[10] && part[6] == data[11]);
    crate::bits::lemma_word_of_bytes(s.cpu.pc);
}

proof fn lemma_import_ppu(s: EmulatorModel, data: Seq<u8>)
    requires
        s.sys.ppu.fine_x <= 7,
        data.len() >= STATE_SIZE,
        data.subrange(PPU_AT as int, NAMETABLE_AT as int) == s.ppu_bytes(),
        data.subrange(NAMETABLE_AT as int, PALETTE_AT as int) == s.sys.ppu.nametable,
        data.subrange(PALETTE_AT as int, OAM_AT as int) == s.sys.ppu.palette,
        data.subrange(OAM_AT as int, PRG_RAM_AT as int) == s.sys.ppu.oam,
    ensures
        s.import_state(data).sys.ppu == s.sys.ppu,
{
    reveal(EmulatorModel::import_state);
    let part = data.subrange(PPU_AT as int, NAMETABLE_AT as int);
    assert(part[0] == data[2060] && part[1] == data[2061] && part[2] == data[2062]);
    assert(part[3] == data[2063] && part[4] == data[2064] && part[5] == data[2065]);
    assert(part[6] == data[2066] && part[7] == data[2067] && part[8] == data[2068]);
    assert(part[9] == data[2069] && part[10] == data[2070]);
    crate::bits::lemma_word_of_bytes(s.sys.ppu.v);
    crate::bits::lemma_word_of_bytes(s.sys.ppu.t);
}

/// A machine that takes over its own save state is what it was.
pub proof fn lemma_import_export(s: EmulatorModel)
    requires
        s.wf(),
        s.shaped(),
    ensures
        s.export_state().len() == STATE_SIZE,
        EmulatorModel::is_state(s.export_state()),
        s.import_state(s.export_state()) == s,
{
    reveal(EmulatorModel::import_state);
    let data = s.export_state();
    lemma_export_layout(s);
    lemma_import_cpu(s, data);
    lemma_import_ppu(s, data);
    let r = s.import_state(data);
    assert(r.sys.bus == s.sys.bus);
    assert(r.sys.cartridge == s.sys.cartridge);
    assert(r.sys == s.sys);
}

/// The save state of a well-formed machine is as `is_exact_state` says.
pub proof fn lemma_export_is_exact(s: EmulatorModel)
    requires
        s.wf(),
        s.shaped(),
    ensures
        EmulatorModel::is_exact_state(s.export_state()),
{
    let data = s.export_state();
    lemma_export_layout(s);
    let part = data.subrange(PPU_AT as int, NAMETABLE_AT as int);
    assert(part[8] == data[2068] && part[9] == data[2069]);
}

/// A machine that took over a save state writes that save state: the
/// bytes come back as they were.
pub proof fn lemma_export_of_import(s: EmulatorModel, data: Seq<u8>)
    requires
        EmulatorModel::is_exact_state(data),
    ensures
        s.import_state(data).export_state() == data,
{
    reveal(EmulatorModel::import_state);
    let t = s.import_state(data);
    let e = t.export_state();
    assert(t.shaped());
    lemma_export_layout(t);
    crate::bits::lemma_bytes_of_word(data[10], data[11]);
    crate::bits::lemma_bytes_of_word(data[2064], data[2065]);
    crate::bits::lemma_bytes_of_word(data[2066], data[2067]);
    let cpu = t.cpu_bytes();
    let ppu = t.ppu_bytes();
    assert forall|i: int| 0 <= i < STATE_SIZE implies e[i] == data[i] by {
        if i < 5 {
            assert(e.subrange(0, 5)[i] == e[i]);
            assert(data.subrange(0, 5)[i] == data[i]);
        } else if i < 12 {
            assert(e.subrange(5, 12)[i - 5] == e[i]);
            assert(cpu[0] == data[5] && cpu[1] == data[6] && cpu[2] == data[7]);
            assert(cpu[3] == data[8] && cpu[4] == data[9] && cpu[5] == data[10]);
            assert(cpu[6] == data[11]);
        } else if i < 2060 {
            assert(e.subrange(12, 2060)[i - 12] == e[i]);
            assert(data.subrange(12, 2060)[i - 12] == data[i]);
        } else if i < 2071 {
            assert(e.subrange(2060, 2071)[i - 2060] == e[i]);
            assert(ppu[0] == data[2060] && ppu[1] == data[2061] && ppu[2] == data[2062]);
            assert(ppu[3] == data[2063] && ppu[4] == data[2064] && ppu[5] == data[2065]);
            assert(ppu[6] == data[2066] && ppu[7] == data[2067] && ppu[8] == data[2068]);
            assert(ppu[9] == data[2069] && ppu[10] == data[2070]);
        } else if i < 4119 {
            assert(e.subrange(2071, 4119)[i - 2071] == e[i]);
            assert(data.subrange(2071, 4119)[i - 2071] == data[i]);
        } else if i < 4151 {
            assert(e.subrange(4119, 4151)[i - 4119] == e[i]);
            assert(data.subrange(4119, 4151)[i - 4119] == data[i]);
        } else if i < 4407 {
            assert(e.subrange(4151, 4407)[i - 4151] == e[i]);
            assert(data.subrange(4151, 4407)[i - 4151] == data[i]);
        } else {
            assert(e.subrange(4407, 12599)[i - 4407] == e[i]);
            assert(data.subrange(4407, 12599)[i - 4407] == data[i]);
        }
    }
    assert(e =~= data);
}

/// Appends the bytes of an array.
fn append_array<const N: usize>(out: &mut Vec<u8>, source: &[u8; N])
    ensures
        final(out)@ == old(out)@ + source@,
{
    let mut i: usize = 0;
    while i < N
        invariant
            i <= N,
            out@ == old(out)@ + source@.subrange(0, i as int),
        decreases N - i,
    {
        out.push(source[i]);
        assert(out@ =~= old(out)@ + source@.subrange(0, i + 1));
        i += 1;
    }
    assert(source@.subrange(0, N as int) =~= source@);
}

/// Fills an array with the bytes of `data` from `start`.
fn fill_array<const N: usize>(target: &mut [u8; N], data: &[u8], start: usize)
    requires
        start + N <= data@.len(),
    ensures
        final(target)@ == data@.subrange(start as int, start + N),
{
    let len = data.len();
    let mut i: usize = 0;
    while i < N
        invariant
            i <= N,
            start + N <= len,
            len == data@.len(),
            forall|k: int| 0 <= k < i ==> target@[k] == data@[start + k],
        decreases N - i,
    {
        target[i] = data[start + i];
        i += 1;
    }
    assert(target@ =~= data@.subrange(start as int, start + N));
}

impl Emulator {
    /// The memories that a save state holds have their sizes, as they
    /// always do.
    pub proof fn lemma_shaped(&self)
        ensures
            self@.shaped(),
    {
    }

    fn export_cpu(&self, out: &mut Vec<u8>)
        ensures
            final(out)@ == old(out)@ + self@.cpu_bytes(),
    {
        out.push(self.cpu.a);
        out.push(self.cpu.x);
        out.push(self.cpu.y);
        out.push(self.cpu.sp);
        out.push(self.cpu.status);
        out.push(lo_byte(self.cpu.pc));
        out.push(hi_byte(self.cpu.pc));
        assert(out@ =~= old(out)@ + self@.cpu_bytes());
    }

    fn export_ppu(&self, out: &mut Vec<u8>)
        ensures
            final(out)@ == old(out)@ + self@.ppu_bytes(),
    {
        out.push(self.sys.ppu.ctrl);
        out.push(self.sys.ppu.mask);
        out.push(self.sys.ppu.status);
        out.push(self.sys.ppu.oam_addr);
        out.push(lo_byte(self.sys.ppu.v));
        out.push(hi_byte(self.sys.ppu.v));
        out.push(lo_byte(self.sys.ppu.t));
        out.push(hi_byte(self.sys.ppu.t));
        out.push(self.sys.ppu.fine_x);
        out.push(
            if self.sys.ppu.write_latch {
                1
            } else {
                0
            },
        );
        out.push(self.sys.ppu.data_buffer);
        assert(out@ =~= old(out)@ + self@.ppu_bytes());
    }

    /// Writes the state of the machine as a sequence of bytes.
    pub fn export_state_binary(&self) -> (data: Vec<u8>)
        ensures
            data@ == self@.export_state(),
            data@.len() == STATE_SIZE,
            EmulatorModel::is_state(data@),
            self.wf() ==> EmulatorModel::is_exact_state(data@),
            self.wf() ==> self@.import_state(data@) == self@,
    {
        proof {
            reveal(EmulatorModel::export_state);
            lemma_export_layout(self@);
            if self.wf() {
                self.sys.lemma_wf_model();
                lemma_export_is_exact(self@);
                lemma_import_export(self@);
            }
        }
        let mut data: Vec<u8> = Vec::new();
        data.push(0x4E);
        data.push(0x45);
        data.push(0x53);
        data.push(0x57);
        data.push(1);
        assert(data@ =~= state_header());
        self.export_cpu(&mut data);
        append_array(&mut data, &self.sys.bus.ram);
        self.export_ppu(&mut data);
        append_array(&mut data, &self.sys.ppu.nametable);
        append_array(&mut data, &self.sys.ppu.palette);
        append_array(&mut data, &self.sys.ppu.oam);
        append_array(&mut data, &self.sys.cartridge.prg_ram);
        data
    }

    fn import_cpu(&mut self, data: &[u8])
        requires
            data@.len() >= STATE_SIZE,
        ensures
            final(self).cpu == old(self)@.import_state(data@).cpu,
            final(self).sys == old(self).sys,
            final(self).system_clock == old(self).system_clock,
    {
        proof {
            reveal(EmulatorModel::import_state);
        }
        self.cpu.a = data[5];
        self.cpu.x = data[6];
        self.cpu.y = data[7];
        self.cpu.sp = data[8];
        self.cpu.status = data[9];
        self.cpu.pc = make_word(data[10], data[11]);
    }

    fn import_ppu(&mut self, data: &[u8])
        requires
            data@.len() >= STATE_SIZE,
        ensures
            final(self).sys.ppu@ == old(self)@.import_state(data@).sys.ppu,
            old(self).sys.ppu.wf() ==> final(self).sys.ppu.wf(),
            final(self).cpu == old(self).cpu,
            final(self).sys.apu == old(self).sys.apu,
            final(self).sys.bus == old(self).sys.bus,
            final(self).sys.cartridge == old(self).sys.cartridge,
            final(self).sys.ctrl1 == old(self).sys.ctrl1,
            final(self).sys.ctrl2 == old(self).sys.ctrl2,
            final(self).system_clock == old(self).system_clock,
    {
        proof {
            reveal(EmulatorModel::import_state);
        }
        self.sys.ppu.ctrl = data[2060];
        self.sys.ppu.mask = data[2061];
        self.sys.ppu.status = data[2062];
        self.sys.ppu.oam_addr = data[2063];
        self.sys.ppu.v = make_word(data[2064], data[2065]);
        self.sys.ppu.t = make_word(data[2066], data[2067]);
        self.sys.ppu.fine_x = data[2068] % 8;
        self.sys.ppu.write_latch = data[2069] != 0;
        self.sys.ppu.data_buffer = data[2070];
        fill_array(&mut self.sys.ppu.nametable, data, NAMETABLE_AT);
        fill_array(&mut self.sys.ppu.palette, data, PALETTE_AT);
        fill_array(&mut self.sys.ppu.oam, data, OAM_AT);
    }

    /// Takes over a save state. Tells whether `data` was one: a sequence
    /// that is too short or does not begin with the header leaves the
    /// machine as it was.
    pub fn import_state_binary(&mut self, data: &[u8]) -> (imported: bool)
        ensures
            imported == EmulatorModel::is_state(data@),
            imported ==> final(self)@ == old(self)@.import_state(data@),
            imported && EmulatorModel::is_exact_state(data@) ==> final(self)@.export_state()
                == data@,
            !imported ==> *final(self) == *old(self),
            old(self).wf() ==> final(self).wf(),
    {
        proof {
            reveal(EmulatorModel::import_state);
            if EmulatorModel::is_exact_state(data@) {
                lemma_export_of_import(old(self)@, data@);
            }
        }
        if data.len() < STATE_SIZE || data[0] != 0x4E || data[1] != 0x45 || data[2] != 0x53
            || data[3] != 0x57 || data[4] != 1 {
            assert(!(data@.len() >= STATE_SIZE && data@.subrange(0, 5) =~= state_header())) by {
                if data@.len() >= STATE_SIZE && data@.subrange(0, 5) =~= state_header() {
                    assert(data@.subrange(0, 5)[0] == 0x4E);
                    assert(data@.subrange(0, 5)[1] == 0x45);
                    assert(data@.subrange(0, 5)[2] == 0x53);
                    assert(data@.subrange(0, 5)[3] == 0x57);
                    assert(data@.subrange(0, 5)[4] == 1);
                }
            }
            return false;
        }
        assert(data@.subrange(0, 5) =~= state_header());
        self.import_cpu(data);
        fill_array(&mut self.sys.bus.ram, data, RAM_AT);
        self.import_ppu(data);
        fill_array(&mut self.sys.cartridge.prg_ram, data, PRG_RAM_AT);
        true
    }

    /// Writes the state of the machine as text: two hexadecimal digits for
    /// each byte of the save state.
    pub fn export_save_state(&self) -> (text: String)
        ensures
            text@ == spec_encode_text(self@.export_state()),
            is_hex_text(text@),
            spec_decode_text(text@) == self@.export_state(),
            EmulatorModel::is_state(spec_decode_text(text@)),
            self.wf() ==> EmulatorModel::is_exact_state(spec_decode_text(text@)),
            self.wf() ==> self@.import_state(spec_decode_text(text@)) == self@,
    {
        proof {
            crate::emulator::hex::lemma_decode_encode_text(self@.export_state());
        }
        let data = self.export_state_binary();
        encode_text(data.as_slice())
    }

    /// Takes over a save state that is written as text. Tells whether
    /// `text` was one; if not, the machine is left as it was.
    pub fn import_save_state(&mut self, text: &str) -> (imported: bool)
        ensures
            imported == (is_hex_text(text@) && EmulatorModel::is_state(spec_decode_text(text@))),
            imported ==> final(self)@ == old(self)@.import_state(spec_decode_text(text@)),
            imported && EmulatorModel::is_exact_state(spec_decode_text(text@))
                ==> final(self)@.export_state() == spec_decode_text(text@),
            !imported ==> *final(self) == *old(self),
            old(self).wf() ==> final(self).wf(),
    {
        match decode_text(text) {
            Some(data) => self.import_state_binary(data.as_slice()),
            None => false,
        }
    }
}

/// What a save state holds of a machine: two machines with the same saved
/// part have the same save state.
pub open spec fn same_saved_part(a: EmulatorModel, b: EmulatorModel) -> bool {
    &&& a.cpu_bytes() == b.cpu_bytes()
    &&& a.ppu_bytes() == b.ppu_bytes()
    &&& a.sys.bus.ram == b.sys.bus.ram
    &&& a.sys.ppu.nametable == b.sys.ppu.nametable
    &&& a.sys.ppu.palette == b.sys.ppu.palette
    &&& a.sys.ppu.oam == b.sys.ppu.oam
    &&& a.sys.cartridge.prg_ram == b.sys.cartridge.prg_ram
}

/// Any machine that takes over the save state of a machine `s` then has
/// the saved part of `s`, and so writes the same save state; what a save
/// state does not hold it keeps.
pub proof fn lemma_export_import(s: EmulatorModel, other: EmulatorModel)
    requires
        s.wf(),
        s.shaped(),
    ensures
        EmulatorModel::is_state(s.export_state()),
        same_saved_part(other.import_state(s.export_state()), s),
        other.import_state(s.export_state()).export_state() == s.export_state(),
        other.import_state(s.export_state()).system_clock == other.system_clock,
        other.import_state(s.export_state()).cpu.cycles == other.cpu.cycles,
        other.import_state(s.export_state()).sys.apu == other.sys.apu,
        other.import_state(s.export_state()).sys.cartridge.mapper == other.sys.cartridge.mapper,
{
    reveal(EmulatorModel::import_state);
    let data = s.export_state();
    lemma_import_export(s);
    lemma_export_is_exact(s);
    lemma_export_of_import(other, data);
    let back = s.import_state(data);
    let took = other.import_state(data);
    assert(back == s);
    assert(took.cpu_bytes() =~= back.cpu_bytes());
    assert(took.ppu_bytes() =~= back.ppu_bytes());
}

/// A machine that takes over the text of its own save state is what it
/// was, and any machine that takes it over then writes the same text.
pub proof fn lemma_import_export_text(s: EmulatorModel, other: EmulatorModel)
    requires
        s.wf(),
        s.shaped(),
    ensures
        is_hex_text(spec_encode_text(s.export_state())),
        EmulatorModel::is_state(spec_decode_text(spec_encode_text(s.export_state()))),
        s.import_state(spec_decode_text(spec_encode_text(s.export_state()))) == s,
        spec_encode_text(
            other.import_state(
                spec_decode_text(spec_encode_text(s.export_state())),
            ).export_state(),
        ) == spec_encode_text(s.export_state()),
{
    crate::emulator::hex::lemma_decode_encode_text(s.export_state());
    lemma_import_export(s);
    lemma_export_import(s, other);
}

} // verus!
