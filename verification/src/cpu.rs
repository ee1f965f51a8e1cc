//! The 6502 core: registers, the status flags, the stack, interrupts and
//! the thirteen addressing modes. The instructions themselves are in
//! `execute`.

use vstd::prelude::*;
use crate::bits::{word, make_word, low_byte, high_byte, lo_byte, hi_byte};
use crate::memory::{Memory, fetch, fetch_word};

pub mod flags;
pub mod opcodes;
pub mod execute;
pub mod laws;

pub use opcodes::AddressingMode;
pub use opcodes::Op;

verus! {

/// The registers of the CPU and what it keeps between cycles.
#[derive(Debug, Clone, Copy)]
pub struct Cpu {
    /// Accumulator.
    pub a: u8,
    /// Index register X.
    pub x: u8,
    /// Index register Y.
    pub y: u8,
    /// Stack pointer; the stack is the page at `0x0100`.
    pub sp: u8,
    /// Program counter.
    pub pc: u16,
    /// Processor status, one bit per flag.
    pub status: u8,
    /// Cycles that the current instruction still has to run.
    pub cycles: u8,
    /// Cycles since the last reset.
    pub total_cycles: u64,
    /// A non-maskable interrupt is latched.
    pub nmi_pending: bool,
    /// An interrupt request is latched.
    pub irq_pending: bool,
}

/// The outcome of resolving an operand address: the CPU and the address
/// space after the operand bytes were fetched, the effective address, and
/// whether indexing left the page of the base address.
pub struct Resolved<T> {
    pub cpu: Cpu,
    pub mem: T,
    pub addr: u16,
    pub page_cross: bool,
}

/// Address of the NMI vector.
pub const NMI_VECTOR: u16 = 0xFFFA;

/// Address of the reset vector.
pub const RESET_VECTOR: u16 = 0xFFFC;

/// Address of the vector shared by IRQ and BRK.
pub const IRQ_VECTOR: u16 = 0xFFFE;

/// The value of a branch offset: a two's-complement byte.
pub open spec fn signed_offset(offset: u8) -> int {
    if offset < 128 {
        offset as int
    } else {
        offset as int - 256
    }
}

/// Where a branch with this offset lands, seen from the address of the
/// instruction that follows it.
pub open spec fn branch_target(next: u16, offset: u8) -> u16 {
    ((next as int + signed_offset(offset)) % 65536) as u16
}

/// Whether two addresses lie in different 256-byte pages.
pub open spec fn page_differs(a: u16, b: u16) -> bool {
    high_byte(a) != high_byte(b)
}

/// Tells whether two addresses lie in different pages.
pub fn pages_differ(a: u16, b: u16) -> (d: bool)
    ensures
        d == page_differs(a, b),
{
    a / 256 != b / 256
}

/// Where a branch with this offset lands.
pub fn relative_target(next: u16, offset: u8) -> (t: u16)
    ensures
        t == branch_target(next, offset),
{
    if offset < 128 {
        next.wrapping_add(offset as u16)
    } else {
        next.wrapping_sub(256 - offset as u16)
    }
}

impl Cpu {
    // ----- model -----

    /// The registers at power-on.
    pub open spec fn spec_new() -> Cpu {
        Cpu {
            a: 0,
            x: 0,
            y: 0,
            sp: 0xFD,
            pc: 0,
            status: flags::UNUSED | flags::IRQ_DISABLE,
            cycles: 0,
            total_cycles: 0,
            nmi_pending: false,
            irq_pending: false,
        }
    }

    /// Whether a flag of the status register is set.
    pub open spec fn spec_get_flag(self, flag: u8) -> bool {
        self.status & flag != 0
    }

    /// The CPU with a flag of the status register set or cleared.
    pub open spec fn spec_set_flag(self, flag: u8, value: bool) -> Cpu {
        Cpu { status: if value { self.status | flag } else { self.status & !flag }, ..self }
    }

    /// Zero and negative follow `value`.
    pub open spec fn spec_update_zn(self, value: u8) -> Cpu {
        self.spec_set_flag(flags::ZERO, value == 0).spec_set_flag(flags::NEGATIVE, value >= 128)
    }

    /// The program counter moved on by `n`, wrapping at the top.
    pub open spec fn spec_advance(self, n: u16) -> Cpu {
        Cpu { pc: self.pc.wrapping_add(n), ..self }
    }

    /// One more cycle for the current instruction.
    pub open spec fn spec_add_cycle(self) -> Cpu {
        Cpu { cycles: self.cycles.saturating_add(1), ..self }
    }

    /// The address the stack pointer stands for.
    pub open spec fn spec_stack_addr(self) -> u16 {
        (0x0100 + self.sp) as u16
    }

    /// A byte put on the stack: it goes to where the stack pointer stands, which
    /// then moves down.
    pub open spec fn spec_push<M: Memory>(self, m: M::Model, value: u8) -> (Cpu, M::Model) {
        (
            Cpu { sp: self.sp.wrapping_sub(1), ..self },
            M::write_next(m, self.spec_stack_addr(), value),
        )
    }

    /// High byte first, so that the value lies little-endian in memory.
    pub open spec fn spec_push16<M: Memory>(self, m: M::Model, value: u16) -> (Cpu, M::Model) {
        let (c1, m1) = self.spec_push::<M>(m, high_byte(value));
        c1.spec_push::<M>(m1, low_byte(value))
    }

    /// A byte taken from the stack: the stack pointer moves up and the byte is
    /// read where it then stands.
    pub open spec fn spec_pull<M: Memory>(self, m: M::Model) -> (Cpu, M::Model, u8) {
        let c = Cpu { sp: self.sp.wrapping_add(1), ..self };
        (c, M::read_next(m, c.spec_stack_addr()), M::read_value(m, c.spec_stack_addr()))
    }

    /// A 16-bit value taken from the stack, low byte first.
    pub open spec fn spec_pull16<M: Memory>(self, m: M::Model) -> (Cpu, M::Model, u16) {
        let (c1, m1, lo) = self.spec_pull::<M>(m);
        let (c2, m2, hi) = c1.spec_pull::<M>(m1);
        (c2, m2, word(lo, hi))
    }

    /// Entering an interrupt handler: the return address and the status
    /// (break clear, bit 5 set) go on the stack, interrupts are disabled,
    /// and execution continues at the address stored at `vector`.
    pub open spec fn spec_interrupt<M: Memory>(self, m: M::Model, vector: u16) -> (Cpu, M::Model) {
        let (c1, m1) = self.spec_push16::<M>(m, self.pc);
        let (c2, m2) = c1.spec_push::<M>(m1, (c1.status & !flags::BREAK) | flags::UNUSED);
        let c3 = c2.spec_set_flag(flags::IRQ_DISABLE, true);
        let (target, m3) = fetch_word::<M>(m2, vector);
        (Cpu { pc: target, cycles: 7, ..c3 }, m3)
    }

    /// After a reset: registers at their power-on values and the program
    /// counter loaded from the reset vector. Latched interrupts stay.
    pub open spec fn spec_reset<M: Memory>(self, m: M::Model) -> (Cpu, M::Model) {
        let (target, m1) = fetch_word::<M>(m, RESET_VECTOR);
        (
            Cpu {
                pc: target,
                cycles: 8,
                nmi_pending: self.nmi_pending,
                irq_pending: self.irq_pending,
                ..Cpu::spec_new()
            },
            m1,
        )
    }

    /// The effective address of an operand in each addressing mode.
    pub open spec fn spec_resolve_address<M: Memory>(
        self,
        m: M::Model,
        mode: AddressingMode,
    ) -> Resolved<M::Model> {
        match mode {
            AddressingMode::Implicit | AddressingMode::Accumulator => Resolved {
                cpu: self,
                mem: m,
                addr: 0,
                page_cross: false,
            },
            AddressingMode::Immediate => Resolved {
                cpu: self.spec_advance(1),
                mem: m,
                addr: self.pc,
                page_cross: false,
            },
            AddressingMode::ZeroPage => {
                let (b, m1) = fetch::<M>(m, self.pc);
                Resolved { cpu: self.spec_advance(1), mem: m1, addr: b as u16, page_cross: false }
            },
            AddressingMode::ZeroPageX => {
                let (b, m1) = fetch::<M>(m, self.pc);
                Resolved {
                    cpu: self.spec_advance(1),
                    mem: m1,
                    addr: b.wrapping_add(self.x) as u16,
                    page_cross: false,
                }
            },
            AddressingMode::ZeroPageY => {
                let (b, m1) = fetch::<M>(m, self.pc);
                Resolved {
                    cpu: self.spec_advance(1),
                    mem: m1,
                    addr: b.wrapping_add(self.y) as u16,
                    page_cross: false,
                }
            },
            AddressingMode::Relative => {
                let (b, m1) = fetch::<M>(m, self.pc);
                let next = self.pc.wrapping_add(1);
                let target = branch_target(next, b);
                Resolved {
                    cpu: self.spec_advance(1),
                    mem: m1,
                    addr: target,
                    page_cross: page_differs(next, target),
                }
            },
            AddressingMode::Absolute => {
                let (w, m1) = fetch_word::<M>(m, self.pc);
                Resolved { cpu: self.spec_advance(2), mem: m1, addr: w, page_cross: false }
            },
            AddressingMode::AbsoluteX => {
                let (base, m1) = fetch_word::<M>(m, self.pc);
                let addr = base.wrapping_add(self.x as u16);
                Resolved {
                    cpu: self.spec_advance(2),
                    mem: m1,
                    addr,
                    page_cross: page_differs(base, addr),
                }
            },
            AddressingMode::AbsoluteY => {
                let (base, m1) = fetch_word::<M>(m, self.pc);
                let addr = base.wrapping_add(self.y as u16);
                Resolved {
                    cpu: self.spec_advance(2),
                    mem: m1,
                    addr,
                    page_cross: page_differs(base, addr),
                }
            },
            AddressingMode::Indirect => {
                let (ptr, m1) = fetch_word::<M>(m, self.pc);
                let (lo, m2) = fetch::<M>(m1, ptr);
                // The pointer's high byte is never carried into: a pointer at
                // the end of a page takes its second byte from the page's start.
                let second = word(low_byte(ptr).wrapping_add(1), high_byte(ptr));
                let (hi, m3) = fetch::<M>(m2, second);
                Resolved {
                    cpu: self.spec_advance(2),
                    mem: m3,
                    addr: word(lo, hi),
                    page_cross: false,
                }
            },
            AddressingMode::IndirectX => {
                let (b, m1) = fetch::<M>(m, self.pc);
                let ptr = b.wrapping_add(self.x);
                let (lo, m2) = fetch::<M>(m1, ptr as u16);
                let (hi, m3) = fetch::<M>(m2, ptr.wrapping_add(1) as u16);
                Resolved {
                    cpu: self.spec_advance(1),
                    mem: m3,
                    addr: word(lo, hi),
                    page_cross: false,
                }
            },
            AddressingMode::IndirectY => {
                let (ptr, m1) = fetch::<M>(m, self.pc);
                let (lo, m2) = fetch::<M>(m1, ptr as u16);
                let (hi, m3) = fetch::<M>(m2, ptr.wrapping_add(1) as u16);
                let base = word(lo, hi);
                let addr = base.wrapping_add(self.y as u16);
                Resolved {
                    cpu: self.spec_advance(1),
                    mem: m3,
                    addr,
                    page_cross: page_differs(base, addr),
                }
            },
        }
    }

    // ----- construction and reset -----

    /// A CPU at power-on.
    pub fn new() -> (cpu: Cpu)
        ensures
            cpu == Cpu::spec_new(),
    {
        Cpu {
            a: 0,
            x: 0,
            y: 0,
            sp: 0xFD,
            pc: 0,
            status: flags::UNUSED | flags::IRQ_DISABLE,
            cycles: 0,
            total_cycles: 0,
            nmi_pending: false,
            irq_pending: false,
        }
    }

    /// Resets the registers and loads the program counter from the
    /// little-endian word at `0xFFFC`.
    pub fn reset<M: Memory>(&mut self, mem: &mut M)
        requires
            M::inv(old(mem).model()),
        ensures
            M::inv(final(mem).model()),
            (*final(self), final(mem).model()) == old(self).spec_reset::<M>(old(mem).model()),
            final(self).pc == fetch_word::<M>(old(mem).model(), RESET_VECTOR).0,
    {
        let lo = mem.read(0xFFFC);
        let hi = mem.read(0xFFFD);
        self.pc = make_word(lo, hi);
        self.a = 0;
        self.x = 0;
        self.y = 0;
        self.sp = 0xFD;
        self.status = flags::UNUSED | flags::IRQ_DISABLE;
        self.cycles = 8;
        self.total_cycles = 0;
    }

    // ----- flags -----

    /// Tells whether a flag of the status register is set.
    pub fn get_flag(&self, flag: u8) -> (set: bool)
        ensures
            set == self.spec_get_flag(flag),
    {
        (self.status & flag) != 0
    }

    /// Sets or clears a flag of the status register.
    pub fn set_flag(&mut self, flag: u8, value: bool)
        ensures
            *final(self) == old(self).spec_set_flag(flag, value),
    {
        if value {
            self.status = self.status | flag;
        } else {
            self.status = self.status & !flag;
        }
    }

    /// Zero and negative follow `value`.
    pub fn update_zn(&mut self, value: u8)
        ensures
            *final(self) == old(self).spec_update_zn(value),
    {
        self.set_flag(flags::ZERO, value == 0);
        self.set_flag(flags::NEGATIVE, value >= 128);
    }

    /// One more cycle for the current instruction.
    pub fn add_cycle(&mut self)
        ensures
            *final(self) == old(self).spec_add_cycle(),
    {
        if self.cycles < 255 {
            self.cycles = self.cycles + 1;
        }
    }

    // ----- stack -----

    /// Puts a byte on the stack.
    pub fn push<M: Memory>(&mut self, value: u8, mem: &mut M)
        requires
            M::inv(old(mem).model()),
        ensures
            M::inv(final(mem).model()),
            (*final(self), final(mem).model()) == old(self).spec_push::<M>(old(mem).model(), value),
    {
        mem.write(0x0100 + self.sp as u16, value);
        self.sp = self.sp.wrapping_sub(1);
    }

    /// High byte first, so that the value lies little-endian in memory.
    pub fn push16<M: Memory>(&mut self, value: u16, mem: &mut M)
        requires
            M::inv(old(mem).model()),
        ensures
            M::inv(final(mem).model()),
            (*final(self), final(mem).model()) == old(self).spec_push16::<M>(
                old(mem).model(),
                value,
            ),
    {
        self.push(hi_byte(value), mem);
        self.push(lo_byte(value), mem);
    }

    /// Takes a byte from the stack.
    pub fn pull<M: Memory>(&mut self, mem: &mut M) -> (value: u8)
        requires
            M::inv(old(mem).model()),
        ensures
            M::inv(final(mem).model()),
            (*final(self), final(mem).model(), value) == old(self).spec_pull::<M>(old(mem).model()),
    {
        self.sp = self.sp.wrapping_add(1);
        mem.read(0x0100 + self.sp as u16)
    }

    /// Takes a 16-bit value from the stack, low byte first.
    pub fn pull16<M: Memory>(&mut self, mem: &mut M) -> (value: u16)
        requires
            M::inv(old(mem).model()),
        ensures
            M::inv(final(mem).model()),
            (*final(self), final(mem).model(), value) == old(self).spec_pull16::<M>(
                old(mem).model(),
            ),
    {
        let lo = self.pull(mem);
        let hi = self.pull(mem);
        make_word(lo, hi)
    }

    // ----- interrupts -----

    /// Latches a non-maskable interrupt; it is taken before the next
    /// instruction.
    pub fn trigger_nmi(&mut self)
        ensures
            *final(self) == (Cpu { nmi_pending: true, ..*old(self) }),
    {
        self.nmi_pending = true;
    }

    /// Latches an interrupt request; it is taken before the next
    /// instruction once interrupts are enabled.
    pub fn trigger_irq(&mut self)
        ensures
            *final(self) == (Cpu { irq_pending: true, ..*old(self) }),
    {
        self.irq_pending = true;
    }

    fn interrupt<M: Memory>(&mut self, vector: u16, mem: &mut M)
        requires
            M::inv(old(mem).model()),
            vector < 0xFFFF,
        ensures
            M::inv(final(mem).model()),
            (*final(self), final(mem).model()) == old(self).spec_interrupt::<M>(
                old(mem).model(),
                vector,
            ),
    {
        self.push16(self.pc, mem);
        self.push((self.status & !flags::BREAK) | flags::UNUSED, mem);
        self.set_flag(flags::IRQ_DISABLE, true);
        let lo = mem.read(vector);
        let hi = mem.read(vector + 1);
        self.pc = make_word(lo, hi);
        self.cycles = 7;
    }

    /// Enters the NMI handler, whose address is at `0xFFFA`.
    pub fn handle_nmi<M: Memory>(&mut self, mem: &mut M)
        requires
            M::inv(old(mem).model()),
        ensures
            M::inv(final(mem).model()),
            (*final(self), final(mem).model()) == old(self).spec_interrupt::<M>(
                old(mem).model(),
                NMI_VECTOR,
            ),
    {
        self.interrupt(NMI_VECTOR, mem);
    }

    /// Enters the IRQ handler, whose address is at `0xFFFE`.
    pub fn handle_irq<M: Memory>(&mut self, mem: &mut M)
        requires
            M::inv(old(mem).model()),
        ensures
            M::inv(final(mem).model()),
            (*final(self), final(mem).model()) == old(self).spec_interrupt::<M>(
                old(mem).model(),
                IRQ_VECTOR,
            ),
    {
        self.interrupt(IRQ_VECTOR, mem);
    }

    // ----- addressing -----

    fn operand_byte<M: Memory>(&mut self, mem: &mut M) -> (b: u8)
        requires
            M::inv(old(mem).model()),
        ensures
            M::inv(final(mem).model()),
            *final(self) == old(self).spec_advance(1),
            (b, final(mem).model()) == fetch::<M>(old(mem).model(), old(self).pc),
    {
        let b = mem.read(self.pc);
        self.pc = self.pc.wrapping_add(1);
        b
    }

    fn operand_word<M: Memory>(&mut self, mem: &mut M) -> (w: u16)
        requires
            M::inv(old(mem).model()),
        ensures
            M::inv(final(mem).model()),
            *final(self) == old(self).spec_advance(2),
            (w, final(mem).model()) == fetch_word::<M>(old(mem).model(), old(self).pc),
    {
        let lo = mem.read(self.pc);
        let hi = mem.read(self.pc.wrapping_add(1));
        self.pc = self.pc.wrapping_add(2);
        make_word(lo, hi)
    }

    /// Fetches the operand bytes of the instruction at the program counter
    /// and returns the effective address, with whether indexing crossed a
    /// page.
    pub fn resolve_address<M: Memory>(&mut self, mode: AddressingMode, mem: &mut M) -> (r: (
        u16,
        bool,
    ))
        requires
            M::inv(old(mem).model()),
        ensures
            M::inv(final(mem).model()),
            ({
                let s = old(self).spec_resolve_address::<M>(old(mem).model(), mode);
                &&& *final(self) == s.cpu
                &&& final(mem).model() == s.mem
                &&& r.0 == s.addr
                &&& r.1 == s.page_cross
            }),
    {
        match mode {
            AddressingMode::Implicit | AddressingMode::Accumulator => (0, false),
            AddressingMode::Immediate => {
                let addr = self.pc;
                self.pc = self.pc.wrapping_add(1);
                (addr, false)
            },
            AddressingMode::ZeroPage => {
                let b = self.operand_byte(mem);
                (b as u16, false)
            },
            AddressingMode::ZeroPageX => {
                let b = self.operand_byte(mem);
                (b.wrapping_add(self.x) as u16, false)
            },
            AddressingMode::ZeroPageY => {
                let b = self.operand_byte(mem);
                (b.wrapping_add(self.y) as u16, false)
            },
            AddressingMode::Relative => {
                let b = self.operand_byte(mem);
                let target = relative_target(self.pc, b);
                (target, pages_differ(self.pc, target))
            },
            AddressingMode::Absolute => {
                let w = self.operand_word(mem);
                (w, false)
            },
            AddressingMode::AbsoluteX => {
                let base = self.operand_word(mem);
                let addr = base.wrapping_add(self.x as u16);
                (addr, pages_differ(base, addr))
            },
            AddressingMode::AbsoluteY => {
                let base = self.operand_word(mem);
                let addr = base.wrapping_add(self.y as u16);
                (addr, pages_differ(base, addr))
            },
            AddressingMode::Indirect => {
                let ptr = self.operand_word(mem);
                let lo = mem.read(ptr);
                let hi = mem.read(make_word(lo_byte(ptr).wrapping_add(1), hi_byte(ptr)));
                (make_word(lo, hi), false)
            },
            AddressingMode::IndirectX => {
                let b = self.operand_byte(mem);
                let ptr = b.wrapping_add(self.x);
                let lo = mem.read(ptr as u16);
                let hi = mem.read(ptr.wrapping_add(1) as u16);
                (make_word(lo, hi), false)
            },
            AddressingMode::IndirectY => {
                let ptr = self.operand_byte(mem);
                let lo = mem.read(ptr as u16);
                let hi = mem.read(ptr.wrapping_add(1) as u16);
                let base = make_word(lo, hi);
                let addr = base.wrapping_add(self.y as u16);
                (addr, pages_differ(base, addr))
            },
        }
    }
}

} // verus!
