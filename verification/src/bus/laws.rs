//! What holds of a sprite DMA as a whole.

use vstd::prelude::*;
use crate::bus::{BusModel, SystemModel};
use crate::ppu::PpuModel;

verus! {

impl SystemModel {
    /// The system after `n` CPU cycles were spent on a sprite DMA, the
    /// first of them odd or even as `odd` says and the rest in turn.
    pub open spec fn dma_cycles(self, odd: bool, n: nat) -> SystemModel
        decreases n,
    {
        if n == 0 {
            self
        } else {
            self.dma_cycle(odd).dma_cycles(!odd, (n - 1) as nat)
        }
    }

    /// Whether reading a page leaves the system as it is: a page of work
    /// RAM or of the cartridge. Reads of the pages between go to registers
    /// of the PPU, the APU and the controllers, which they change.
    pub open spec fn plain_page(page: u8) -> bool {
        page < 0x20 || page > 0x40
    }

    /// The byte that a sprite DMA from `page` copies to place `i` of the
    /// sprite memory: from work RAM, or from the cartridge.
    pub open spec fn dma_byte(self, page: u8, i: int) -> u8 {
        if page < 0x20 {
            self.bus.ram[(page as int * 256 + i) % 0x0800]
        } else {
            self.cartridge.cpu_read((page as int * 256 + i) as u16)
        }
    }

    /// The system in the middle of a sprite DMA from `page` that was
    /// started in the state `self`, when `k` bytes are copied: the first
    /// `k` places of the sprite memory hold their bytes of the page, and
    /// nothing else but the DMA's own registers has changed.
    pub open spec fn dma_after(self, page: u8, k: int) -> SystemModel {
        SystemModel {
            ppu: PpuModel {
                oam: Seq::new(
                    256,
                    |i: int|
                        if i < k {
                            self.dma_byte(page, i)
                        } else {
                            self.ppu.oam[i]
                        },
                ),
                ..self.ppu
            },
            bus: BusModel {
                dma_page: page,
                dma_address: (k % 256) as u8,
                dma_data: if k == 0 {
                    self.bus.dma_data
                } else {
                    self.dma_byte(page, k - 1)
                },
                dma_transfer: k < 256,
                dma_dummy: false,
                ..self.bus
            },
            ..self
        }
    }

    /// How many CPU cycles a sprite DMA takes: 513 if the first of them is
    /// odd, one more if it is even.
    pub open spec fn dma_length(odd: bool) -> nat {
        if odd {
            513
        } else {
            514
        }
    }
}

/// A read of work RAM or of the cartridge changes nothing and gives the
/// byte that is there.
proof fn lemma_plain_read(m: SystemModel, addr: u16)
    requires
        addr < 0x2000 || addr >= 0x4100,
    ensures
        m.bus_read(addr) == m,
        m.bus_read_value(addr) == if addr < 0x2000 {
            m.bus.ram[addr as int % 0x0800]
        } else {
            m.cartridge.cpu_read(addr)
        },
{
    reveal(SystemModel::bus_read);
    reveal(SystemModel::bus_read_value);
}

/// An even cycle of a DMA from a plain page puts the next byte of the
/// page into the latch.
proof fn lemma_read_cycle(m: SystemModel)
    requires
        m.bus.dma_transfer,
        !m.bus.dma_dummy,
        SystemModel::plain_page(m.bus.dma_page),
    ensures
        m.dma_cycle(false) == (SystemModel {
            bus: BusModel {
                dma_data: m.dma_byte(m.bus.dma_page, m.bus.dma_address as int),
                ..m.bus
            },
            ..m
        }),
{
    reveal(SystemModel::dma_cycle);
    lemma_plain_read(m, m.dma_source());
}

/// An odd cycle puts the latch into the sprite memory and moves on.
proof fn lemma_write_cycle(m: SystemModel)
    requires
        m.bus.dma_transfer,
        !m.bus.dma_dummy,
    ensures
        m.dma_cycle(true) == (SystemModel {
            ppu: m.ppu.write_oam(m.bus.dma_address, m.bus.dma_data),
            bus: BusModel {
                dma_address: m.bus.dma_address.wrapping_add(1),
                dma_transfer: m.bus.dma_address != 255,
                ..m.bus
            },
            ..m
        }),
{
    reveal(SystemModel::dma_cycle);
}

/// While the DMA waits for an odd cycle, an even cycle changes nothing and
/// an odd cycle ends the wait.
proof fn lemma_wait_cycle(m: SystemModel, odd: bool)
    requires
        m.bus.dma_transfer,
        m.bus.dma_dummy,
    ensures
        m.dma_cycle(odd) == (SystemModel {
            bus: BusModel { dma_dummy: !odd, ..m.bus },
            ..m
        }),
{
    reveal(SystemModel::dma_cycle);
}

/// One cycle more at the end of a run of cycles: the cycle after `n`
/// cycles is odd or even as the first was if `n` is even, and the other
/// way round if `n` is odd.
pub proof fn lemma_one_more_cycle(s: SystemModel, odd: bool, n: nat)
    ensures
        s.dma_cycles(odd, n + 1) == s.dma_cycles(odd, n).dma_cycle(odd == (n % 2 == 0)),
    decreases n,
{
    if n == 0 {
        assert(s.dma_cycles(odd, 1) == s.dma_cycle(odd).dma_cycles(!odd, 0));
    } else {
        lemma_one_more_cycle(s.dma_cycle(odd), !odd, (n - 1) as nat);
        assert(s.dma_cycles(odd, n + 1) == s.dma_cycle(odd).dma_cycles(!odd, n));
        assert(s.dma_cycles(odd, n) == s.dma_cycle(odd).dma_cycles(!odd, (n - 1) as nat));
    }
}

/// Without a DMA under way a DMA cycle changes nothing.
proof fn lemma_idle_cycle(m: SystemModel)
    requires
        !m.bus.dma_transfer,
    ensures
        m.dma_cycle(true) == m,
        m.dma_cycle(false) == m,
{
    reveal(SystemModel::dma_cycle);
}

/// An even and an odd cycle copy one byte.
proof fn lemma_copy_one(s: SystemModel, page: u8, k: int)
    requires
        SystemModel::plain_page(page),
        0 <= k < 256,
        s.bus.ram.len() == 2048,
        s.ppu.oam.len() == 256,
    ensures
        s.dma_after(page, k).dma_cycle(false).bus.dma_transfer,
        s.dma_after(page, k).dma_cycle(false).dma_cycle(true) == s.dma_after(page, k + 1),
{
    let before = s.dma_after(page, k);
    lemma_read_cycle(before);
    let read = before.dma_cycle(false);
    assert(before.dma_byte(page, k) == s.dma_byte(page, k));
    assert(read.bus.dma_data == s.dma_byte(page, k));
    lemma_write_cycle(read);
    let written = read.dma_cycle(true);
    let after = s.dma_after(page, k + 1);
    assert(written.ppu.oam =~= after.ppu.oam);
    assert(written.ppu == after.ppu);
    assert(written.bus == after.bus);
}

/// From `k` copied bytes the DMA goes on for two cycles per byte that is
/// left, and not less.
proof fn lemma_copy_rest(s: SystemModel, page: u8, k: int)
    requires
        SystemModel::plain_page(page),
        0 <= k <= 256,
        s.bus.ram.len() == 2048,
        s.ppu.oam.len() == 256,
    ensures
        s.dma_after(page, k).dma_cycles(false, (2 * (256 - k)) as nat) == s.dma_after(page, 256),
        forall|n: nat|
            n < 2 * (256 - k) ==> (#[trigger] s.dma_after(page, k).dma_cycles(
                false,
                n,
            )).bus.dma_transfer,
    decreases 256 - k,
{
    let from = s.dma_after(page, k);
    if k < 256 {
        lemma_copy_one(s, page, k);
        lemma_copy_rest(s, page, k + 1);
        let read = from.dma_cycle(false);
        let next = s.dma_after(page, k + 1);
        assert forall|n: nat| n >= 2 implies #[trigger] from.dma_cycles(false, n)
            == next.dma_cycles(false, (n - 2) as nat) by {
            assert(from.dma_cycles(false, n) == read.dma_cycles(true, (n - 1) as nat));
            assert(read.dma_cycles(true, (n - 1) as nat) == next.dma_cycles(
                false,
                (n - 2) as nat,
            ));
        }
        assert(from.dma_cycles(false, (2 * (256 - k)) as nat) == next.dma_cycles(
            false,
            (2 * (256 - (k + 1))) as nat,
        ));
        assert forall|n: nat| n < 2 * (256 - k) implies (#[trigger] from.dma_cycles(
            false,
            n,
        )).bus.dma_transfer by {
            if n == 0 {
            } else if n == 1 {
                assert(from.dma_cycles(false, 1) == read.dma_cycles(true, 0));
            } else {
                assert(from.dma_cycles(false, n) == next.dma_cycles(false, (n - 2) as nat));
            }
        }
    }
}

/// How a DMA begins: an even cycle leaves it waiting, an odd cycle ends
/// the wait with no byte copied.
proof fn lemma_first_cycles(s: SystemModel, page: u8)
    requires
        s.ppu.oam.len() == 256,
    ensures
        s.start_dma(page).bus.dma_transfer,
        s.start_dma(page).dma_cycle(false) == s.start_dma(page),
        s.start_dma(page).dma_cycle(true) == s.dma_after(page, 0),
{
    let start = s.start_dma(page);
    let first = s.dma_after(page, 0);
    lemma_wait_cycle(start, true);
    lemma_wait_cycle(start, false);
    assert(first.ppu.oam =~= s.ppu.oam);
    assert(first.ppu == s.ppu);
    assert(start.dma_cycle(true).bus == first.bus);
    assert(start.dma_cycle(false).bus == start.bus);
}

/// How a DMA ends: the sprite memory holds the page, and the DMA is over.
proof fn lemma_last_state(s: SystemModel, page: u8)
    ensures
        !s.dma_after(page, 256).bus.dma_transfer,
        s.dma_after(page, 256).ppu.oam == Seq::new(256, |i: int| s.dma_byte(page, i)),
        s.dma_after(page, 256).bus.ram == s.bus.ram,
        s.dma_after(page, 256).dma_cycle(true) == s.dma_after(page, 256),
        s.dma_after(page, 256).dma_cycle(false) == s.dma_after(page, 256),
{
    let end = s.dma_after(page, 256);
    assert(end.ppu.oam =~= Seq::new(256, |i: int| s.dma_byte(page, i)));
    lemma_idle_cycle(end);
}

/// The cycles of a DMA whose first cycle is odd.
proof fn lemma_cycles_from_odd(s: SystemModel, page: u8, n: nat)
    requires
        SystemModel::plain_page(page),
        s.bus.ram.len() == 2048,
        s.ppu.oam.len() == 256,
        n <= 513,
    ensures
        n < 513 ==> s.start_dma(page).dma_cycles(true, n).bus.dma_transfer,
        n == 513 ==> s.start_dma(page).dma_cycles(true, n) == s.dma_after(page, 256),
{
    let start = s.start_dma(page);
    let first = s.dma_after(page, 0);
    lemma_first_cycles(s, page);
    lemma_copy_rest(s, page, 0);
    if n >= 1 {
        assert(start.dma_cycles(true, n) == first.dma_cycles(false, (n - 1) as nat));
    }
}

/// The cycles of a DMA whose first cycle is even.
proof fn lemma_cycles_from_even(s: SystemModel, page: u8, n: nat)
    requires
        SystemModel::plain_page(page),
        s.bus.ram.len() == 2048,
        s.ppu.oam.len() == 256,
        n <= 514,
    ensures
        n < 514 ==> s.start_dma(page).dma_cycles(false, n).bus.dma_transfer,
        n == 514 ==> s.start_dma(page).dma_cycles(false, n) == s.dma_after(page, 256),
{
    let start = s.start_dma(page);
    lemma_first_cycles(s, page);
    if n >= 1 {
        assert(start.dma_cycles(false, n) == start.dma_cycles(true, (n - 1) as nat));
        lemma_cycles_from_odd(s, page, (n - 1) as nat);
    }
}

/// A sprite DMA from a page of work RAM or of the cartridge, as a whole. From the write to
/// `0x4014` it takes 513 CPU cycles if the first of them is odd and 514 if
/// it is even, and is under way on every cycle before. Then the sprite
/// memory holds the 256 bytes of the page, and but for the DMA's own
/// registers nothing else has changed; cycles after that change nothing.
pub proof fn lemma_sprite_dma(s: SystemModel, page: u8, odd: bool)
    requires
        SystemModel::plain_page(page),
        s.bus.ram.len() == 2048,
        s.ppu.oam.len() == 256,
    ensures
        forall|n: nat|
            n < SystemModel::dma_length(odd) ==> (#[trigger] s.start_dma(page).dma_cycles(
                odd,
                n,
            )).bus.dma_transfer,
        s.start_dma(page).dma_cycles(odd, SystemModel::dma_length(odd)) == s.dma_after(page, 256),
        !s.dma_after(page, 256).bus.dma_transfer,
        s.dma_after(page, 256).ppu.oam == Seq::new(256, |i: int| s.dma_byte(page, i)),
        s.dma_after(page, 256).bus.ram == s.bus.ram,
        s.dma_after(page, 256).dma_cycle(true) == s.dma_after(page, 256),
        s.dma_after(page, 256).dma_cycle(false) == s.dma_after(page, 256),
{
    lemma_last_state(s, page);
    if odd {
        lemma_cycles_from_odd(s, page, 513);
        assert forall|n: nat| n < 513 implies (#[trigger] s.start_dma(page).dma_cycles(
            true,
            n,
        )).bus.dma_transfer by {
            lemma_cycles_from_odd(s, page, n);
        }
    } else {
        lemma_cycles_from_even(s, page, 514);
        assert forall|n: nat| n < 514 implies (#[trigger] s.start_dma(page).dma_cycles(
            false,
            n,
        )).bus.dma_transfer by {
            lemma_cycles_from_even(s, page, n);
        }
    }
}

} // verus!
