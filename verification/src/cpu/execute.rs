//! The instructions of the 6502, the opcode dispatch and the single-step
//! operation, each with its meaning on a model of the address space.

use vstd::prelude::*;
use crate::bits::make_word;
use crate::cpu::{Cpu, IRQ_VECTOR};
use crate::cpu::flags;
use crate::cpu::opcodes::{AddressingMode, Op, INSTRUCTIONS, decode};
use crate::memory::{Memory, fetch, fetch_word};

verus! {

/// The operations that read their operand and change registers only.
pub open spec fn is_read_op(op: Op) -> bool {
    op is Lda || op is Ldx || op is Ldy || op is Lax || op is Adc || op is Sbc || op is Cmp
        || op is Cpx || op is Cpy || op is And || op is Ora || op is Eor || op is Bit
}

/// The operations that write a register to memory.
pub open spec fn is_store_op(op: Op) -> bool {
    op is Sta || op is Stx || op is Sty || op is Sax
}

/// The operations that read, change and write back a byte of memory.
pub open spec fn is_modify_op(op: Op) -> bool {
    op is Inc || op is Dec || op is Dcp || op is Isb || op is Slo || op is Rla || op is Sre
        || op is Rra
}

/// The shifts and rotates, which work on memory or on the accumulator.
pub open spec fn is_shift_op(op: Op) -> bool {
    op is Asl || op is Lsr || op is Rol || op is Ror
}

/// The conditional branches.
pub open spec fn is_branch_op(op: Op) -> bool {
    op is Bcc || op is Bcs || op is Beq || op is Bne || op is Bmi || op is Bpl || op is Bvs
        || op is Bvc
}

/// The operations that move the program counter or use the stack.
pub open spec fn is_flow_op(op: Op) -> bool {
    op is Jmp || op is Jsr || op is Rts || op is Rti || op is Pha || op is Pla || op is Php
        || op is Plp || op is Brk || op is Nop
}

/// Whether a page crossing costs this operand-reading operation a cycle.
pub open spec fn pays_page_cross(op: Op) -> bool {
    !(op is Cpx || op is Cpy || op is Bit)
}

impl Cpu {
    // ----- arithmetic and logic on the registers alone -----

    /// The carry flag as a number.
    pub open spec fn spec_carry(self) -> int {
        if self.spec_get_flag(flags::CARRY) {
            1
        } else {
            0
        }
    }

    /// A + `value` + carry: the accumulator takes the sum modulo 256, the
    /// carry tells whether it passed 255, and the overflow flag whether two
    /// operands of one sign gave a result of the other.
    pub open spec fn spec_adc_value(self, value: u8) -> Cpu {
        let sum: int = self.a + value + self.spec_carry();
        let result: u8 = (sum % 256) as u8;
        let overflow = (self.a < 128) == (value < 128) && (self.a < 128) != (result < 128);
        Cpu {
            a: result,
            ..self.spec_set_flag(flags::CARRY, sum > 255).spec_set_flag(flags::OVERFLOW, overflow)
        }.spec_update_zn(result)
    }

    /// Carry when `reg` is at least `value`; zero and negative from their
    /// difference modulo 256.
    pub open spec fn spec_compare(self, reg: u8, value: u8) -> Cpu {
        self.spec_set_flag(flags::CARRY, reg >= value).spec_update_zn(reg.wrapping_sub(value))
    }

    /// What an operation that only reads its operand does to the registers.
    pub open spec fn spec_operate(self, op: Op, value: u8) -> Cpu {
        match op {
            Op::Lda => Cpu { a: value, ..self }.spec_update_zn(value),
            Op::Ldx => Cpu { x: value, ..self }.spec_update_zn(value),
            Op::Ldy => Cpu { y: value, ..self }.spec_update_zn(value),
            Op::Lax => Cpu { a: value, x: value, ..self }.spec_update_zn(value),
            Op::Adc => self.spec_adc_value(value),
            Op::Sbc => self.spec_adc_value((255 - value) as u8),
            Op::Cmp => self.spec_compare(self.a, value),
            Op::Cpx => self.spec_compare(self.x, value),
            Op::Cpy => self.spec_compare(self.y, value),
            Op::And => Cpu { a: self.a & value, ..self }.spec_update_zn(self.a & value),
            Op::Ora => Cpu { a: self.a | value, ..self }.spec_update_zn(self.a | value),
            Op::Eor => Cpu { a: self.a ^ value, ..self }.spec_update_zn(self.a ^ value),
            Op::Bit => self.spec_set_flag(flags::ZERO, self.a & value == 0).spec_set_flag(
                flags::NEGATIVE,
                value >= 128,
            ).spec_set_flag(flags::OVERFLOW, value & 0x40 != 0),
            _ => self,
        }
    }

    /// The byte that a store operation writes.
    pub open spec fn spec_stored_value(self, op: Op) -> u8 {
        match op {
            Op::Sta => self.a,
            Op::Stx => self.x,
            Op::Sty => self.y,
            Op::Sax => self.a & self.x,
            _ => 0,
        }
    }

    /// `value` shifted left by one; bit 7 goes to the carry.
    pub open spec fn spec_shift_left(self, value: u8) -> (Cpu, u8) {
        (self.spec_set_flag(flags::CARRY, value >= 128), value << 1)
    }

    /// `value` shifted right by one; bit 0 goes to the carry.
    pub open spec fn spec_shift_right(self, value: u8) -> (Cpu, u8) {
        (self.spec_set_flag(flags::CARRY, value % 2 == 1), value >> 1)
    }

    /// `value` rotated left through the carry.
    pub open spec fn spec_rotate_left(self, value: u8) -> (Cpu, u8) {
        let carry: u8 = if self.spec_get_flag(flags::CARRY) {
            1
        } else {
            0
        };
        (self.spec_set_flag(flags::CARRY, value >= 128), (value << 1) | carry)
    }

    /// `value` rotated right through the carry.
    pub open spec fn spec_rotate_right(self, value: u8) -> (Cpu, u8) {
        let carry: u8 = if self.spec_get_flag(flags::CARRY) {
            0x80
        } else {
            0
        };
        (self.spec_set_flag(flags::CARRY, value % 2 == 1), (value >> 1) | carry)
    }

    /// What a read-modify-write operation does to the registers, and the
    /// byte it writes back, given the byte it read.
    pub open spec fn spec_modify(self, op: Op, value: u8) -> (Cpu, u8) {
        match op {
            Op::Inc => (self.spec_update_zn(value.wrapping_add(1)), value.wrapping_add(1)),
            Op::Dec => (self.spec_update_zn(value.wrapping_sub(1)), value.wrapping_sub(1)),
            Op::Asl => {
                let (c, r) = self.spec_shift_left(value);
                (c.spec_update_zn(r), r)
            },
            Op::Lsr => {
                let (c, r) = self.spec_shift_right(value);
                (c.spec_update_zn(r), r)
            },
            Op::Rol => {
                let (c, r) = self.spec_rotate_left(value);
                (c.spec_update_zn(r), r)
            },
            Op::Ror => {
                let (c, r) = self.spec_rotate_right(value);
                (c.spec_update_zn(r), r)
            },
            Op::Dcp => (self.spec_compare(self.a, value.wrapping_sub(1)), value.wrapping_sub(1)),
            Op::Isb => (
                self.spec_adc_value((255 - value.wrapping_add(1)) as u8),
                value.wrapping_add(1),
            ),
            Op::Slo => {
                let (c, r) = self.spec_shift_left(value);
                (Cpu { a: c.a | r, ..c }.spec_update_zn(c.a | r), r)
            },
            Op::Rla => {
                let (c, r) = self.spec_rotate_left(value);
                (Cpu { a: c.a & r, ..c }.spec_update_zn(c.a & r), r)
            },
            Op::Sre => {
                let (c, r) = self.spec_shift_right(value);
                (Cpu { a: c.a ^ r, ..c }.spec_update_zn(c.a ^ r), r)
            },
            Op::Rra => {
                let (c, r) = self.spec_rotate_right(value);
                (c.spec_adc_value(r), r)
            },
            _ => (self, value),
        }
    }

    /// A shift or rotate applied to the accumulator.
    pub open spec fn spec_modify_accumulator(self, op: Op) -> Cpu {
        let (c, r) = self.spec_modify(op, self.a);
        Cpu { a: r, ..c }
    }

    /// What an operation without operand does: transfers, increments and
    /// decrements of the index registers, and the flag instructions.
    pub open spec fn spec_register_op(self, op: Op) -> Cpu {
        match op {
            Op::Tax => Cpu { x: self.a, ..self }.spec_update_zn(self.a),
            Op::Tay => Cpu { y: self.a, ..self }.spec_update_zn(self.a),
            Op::Txa => Cpu { a: self.x, ..self }.spec_update_zn(self.x),
            Op::Tya => Cpu { a: self.y, ..self }.spec_update_zn(self.y),
            Op::Tsx => Cpu { x: self.sp, ..self }.spec_update_zn(self.sp),
            Op::Txs => Cpu { sp: self.x, ..self },
            Op::Inx => Cpu { x: self.x.wrapping_add(1), ..self }.spec_update_zn(
                self.x.wrapping_add(1),
            ),
            Op::Iny => Cpu { y: self.y.wrapping_add(1), ..self }.spec_update_zn(
                self.y.wrapping_add(1),
            ),
            Op::Dex => Cpu { x: self.x.wrapping_sub(1), ..self }.spec_update_zn(
                self.x.wrapping_sub(1),
            ),
            Op::Dey => Cpu { y: self.y.wrapping_sub(1), ..self }.spec_update_zn(
                self.y.wrapping_sub(1),
            ),
            Op::Clc => self.spec_set_flag(flags::CARRY, false),
            Op::Sec => self.spec_set_flag(flags::CARRY, true),
            Op::Cli => self.spec_set_flag(flags::IRQ_DISABLE, false),
            Op::Sei => self.spec_set_flag(flags::IRQ_DISABLE, true),
            Op::Cld => self.spec_set_flag(flags::DECIMAL, false),
            Op::Sed => self.spec_set_flag(flags::DECIMAL, true),
            Op::Clv => self.spec_set_flag(flags::OVERFLOW, false),
            _ => self,
        }
    }

    /// Whether a branch instruction is taken.
    pub open spec fn spec_branch_condition(self, op: Op) -> bool {
        match op {
            Op::Bcc => !self.spec_get_flag(flags::CARRY),
            Op::Bcs => self.spec_get_flag(flags::CARRY),
            Op::Beq => self.spec_get_flag(flags::ZERO),
            Op::Bne => !self.spec_get_flag(flags::ZERO),
            Op::Bmi => self.spec_get_flag(flags::NEGATIVE),
            Op::Bpl => !self.spec_get_flag(flags::NEGATIVE),
            Op::Bvs => self.spec_get_flag(flags::OVERFLOW),
            Op::Bvc => !self.spec_get_flag(flags::OVERFLOW),
            _ => false,
        }
    }

    // ----- instructions on the address space -----

    /// An instruction that reads its operand: a page crossing costs one
    /// cycle more, except for the compares with X and Y and the bit test.
    pub open spec fn spec_read_instruction<M: Memory>(
        self,
        m: M::Model,
        op: Op,
        mode: AddressingMode,
    ) -> (Cpu, M::Model) {
        let r = self.spec_resolve_address::<M>(m, mode);
        let (value, m1) = fetch::<M>(r.mem, r.addr);
        let c = r.cpu.spec_operate(op, value);
        (
            if r.page_cross && pays_page_cross(op) {
                c.spec_add_cycle()
            } else {
                c
            },
            m1,
        )
    }

    /// An instruction that writes a register to memory; a page crossing
    /// costs nothing.
    pub open spec fn spec_store_instruction<M: Memory>(
        self,
        m: M::Model,
        op: Op,
        mode: AddressingMode,
    ) -> (Cpu, M::Model) {
        let r = self.spec_resolve_address::<M>(m, mode);
        (r.cpu, M::write_next(r.mem, r.addr, r.cpu.spec_stored_value(op)))
    }

    /// An instruction that reads a byte, changes it and writes it back to
    /// the same address; a page crossing costs nothing.
    pub open spec fn spec_modify_instruction<M: Memory>(
        self,
        m: M::Model,
        op: Op,
        mode: AddressingMode,
    ) -> (Cpu, M::Model) {
        let r = self.spec_resolve_address::<M>(m, mode);
        let (value, m1) = fetch::<M>(r.mem, r.addr);
        let (c, result) = r.cpu.spec_modify(op, value);
        (c, M::write_next(m1, r.addr, result))
    }

    /// A branch: not taken it costs nothing more; taken it costs one cycle,
    /// and one more when the target lies in another page than the next
    /// instruction.
    pub open spec fn spec_branch<M: Memory>(self, m: M::Model, condition: bool) -> (
        Cpu,
        M::Model,
    ) {
        let r = self.spec_resolve_address::<M>(m, AddressingMode::Relative);
        if condition {
            let c = r.cpu.spec_add_cycle();
            let c = if r.page_cross {
                c.spec_add_cycle()
            } else {
                c
            };
            (Cpu { pc: r.addr, ..c }, r.mem)
        } else {
            (r.cpu, r.mem)
        }
    }

    /// A jump to the operand address.
    pub open spec fn spec_jmp<M: Memory>(self, m: M::Model, mode: AddressingMode) -> (
        Cpu,
        M::Model,
    ) {
        let r = self.spec_resolve_address::<M>(m, mode);
        (Cpu { pc: r.addr, ..r.cpu }, r.mem)
    }

    /// The address of the last byte of the instruction goes on the stack.
    pub open spec fn spec_jsr<M: Memory>(self, m: M::Model, mode: AddressingMode) -> (
        Cpu,
        M::Model,
    ) {
        let r = self.spec_resolve_address::<M>(m, mode);
        let (c, m1) = r.cpu.spec_push16::<M>(r.mem, r.cpu.pc.wrapping_sub(1));
        (Cpu { pc: r.addr, ..c }, m1)
    }

    /// The return from a subroutine: to the address after the one on the stack.
    pub open spec fn spec_rts<M: Memory>(self, m: M::Model) -> (Cpu, M::Model) {
        let (c, m1, w) = self.spec_pull16::<M>(m);
        (Cpu { pc: w.wrapping_add(1), ..c }, m1)
    }

    /// A status byte as it is taken from the stack: break clear, bit 5 set.
    pub open spec fn spec_restore_status(self, pulled: u8) -> Cpu {
        Cpu { status: pulled, ..self }.spec_set_flag(flags::BREAK, false).spec_set_flag(
            flags::UNUSED,
            true,
        )
    }

    /// The return from an interrupt: status and program counter come from the
    /// stack.
    pub open spec fn spec_rti<M: Memory>(self, m: M::Model) -> (Cpu, M::Model) {
        let (c1, m1, s) = self.spec_pull::<M>(m);
        let (c2, m2, w) = c1.spec_restore_status(s).spec_pull16::<M>(m1);
        (Cpu { pc: w, ..c2 }, m2)
    }

    /// The accumulator goes on the stack.
    pub open spec fn spec_pha<M: Memory>(self, m: M::Model) -> (Cpu, M::Model) {
        self.spec_push::<M>(m, self.a)
    }

    /// The accumulator comes from the stack.
    pub open spec fn spec_pla<M: Memory>(self, m: M::Model) -> (Cpu, M::Model) {
        let (c, m1, v) = self.spec_pull::<M>(m);
        (Cpu { a: v, ..c }.spec_update_zn(v), m1)
    }

    /// The pushed copy of the status has break and bit 5 set.
    pub open spec fn spec_php<M: Memory>(self, m: M::Model) -> (Cpu, M::Model) {
        self.spec_push::<M>(m, self.status | flags::BREAK | flags::UNUSED)
    }

    /// The status comes from the stack.
    pub open spec fn spec_plp<M: Memory>(self, m: M::Model) -> (Cpu, M::Model) {
        let (c, m1, s) = self.spec_pull::<M>(m);
        (c.spec_restore_status(s), m1)
    }

    /// A software interrupt: the byte after the opcode is skipped, the
    /// address after it and the status with break set are pushed, and
    /// execution continues through the IRQ vector.
    pub open spec fn spec_brk<M: Memory>(self, m: M::Model) -> (Cpu, M::Model) {
        let c0 = self.spec_advance(1);
        let (c1, m1) = c0.spec_push16::<M>(m, c0.pc);
        let (c2, m2) = c1.spec_push::<M>(m1, c1.status | flags::BREAK | flags::UNUSED);
        let (target, m3) = fetch_word::<M>(m2, IRQ_VECTOR);
        (Cpu { pc: target, ..c2.spec_set_flag(flags::IRQ_DISABLE, true) }, m3)
    }

    /// A no-operation. The undocumented ones skip their operand bytes
    /// unread, except the one indexed by X, which fetches its operand and
    /// pays for a page crossing.
    pub open spec fn spec_nop<M: Memory>(self, m: M::Model, mode: AddressingMode) -> (
        Cpu,
        M::Model,
    ) {
        match mode {
            AddressingMode::Implicit | AddressingMode::Accumulator => (self, m),
            AddressingMode::Absolute | AddressingMode::AbsoluteY | AddressingMode::Indirect => (
                self.spec_advance(2),
                m,
            ),
            AddressingMode::AbsoluteX => {
                let r = self.spec_resolve_address::<M>(m, mode);
                (
                    if r.page_cross {
                        r.cpu.spec_add_cycle()
                    } else {
                        r.cpu
                    },
                    r.mem,
                )
            },
            _ => (self.spec_advance(1), m),
        }
    }

    /// One instruction, its opcode already fetched: the remaining cycles are
    /// set to the base cost from the table and the operation is carried out.
    pub open spec fn spec_execute<M: Memory>(self, m: M::Model, opcode: u8) -> (Cpu, M::Model) {
        let (op, mode, cycles) = INSTRUCTIONS[opcode as int];
        (Cpu { cycles, ..self }).spec_run::<M>(m, op, mode)
    }

    /// The operation `op` in addressing mode `mode`.
    pub open spec fn spec_run<M: Memory>(self, m: M::Model, op: Op, mode: AddressingMode) -> (
        Cpu,
        M::Model,
    ) {
        if is_read_op(op) {
            self.spec_read_instruction::<M>(m, op, mode)
        } else if is_store_op(op) {
            self.spec_store_instruction::<M>(m, op, mode)
        } else if is_modify_op(op) {
            self.spec_modify_instruction::<M>(m, op, mode)
        } else if is_shift_op(op) {
            if mode == AddressingMode::Accumulator {
                (self.spec_modify_accumulator(op), m)
            } else {
                self.spec_modify_instruction::<M>(m, op, mode)
            }
        } else if is_branch_op(op) {
            self.spec_branch::<M>(m, self.spec_branch_condition(op))
        } else if is_flow_op(op) {
            self.spec_flow::<M>(m, op, mode)
        } else {
            (self.spec_register_op(op), m)
        }
    }

    /// Jumps, subroutine calls and returns, the stack instructions, the
    /// software interrupt and the no-operations.
    pub open spec fn spec_flow<M: Memory>(self, m: M::Model, op: Op, mode: AddressingMode) -> (
        Cpu,
        M::Model,
    ) {
        match op {
            Op::Jmp => self.spec_jmp::<M>(m, mode),
            Op::Jsr => self.spec_jsr::<M>(m, mode),
            Op::Rts => self.spec_rts::<M>(m),
            Op::Rti => self.spec_rti::<M>(m),
            Op::Pha => self.spec_pha::<M>(m),
            Op::Pla => self.spec_pla::<M>(m),
            Op::Php => self.spec_php::<M>(m),
            Op::Plp => self.spec_plp::<M>(m),
            Op::Brk => self.spec_brk::<M>(m),
            Op::Nop => self.spec_nop::<M>(m, mode),
            _ => (self, m),
        }
    }

    /// One clock cycle of a free-standing CPU. With cycles left it counts
    /// one off. With none left it takes a latched NMI, else a latched IRQ if
    /// interrupts are enabled, else it fetches and executes one instruction
    /// and counts its first cycle.
    pub open spec fn spec_clock<M: Memory>(self, m: M::Model) -> (Cpu, M::Model) {
        if self.cycles == 0 && self.nmi_pending {
            Cpu { nmi_pending: false, ..self }.spec_interrupt::<M>(m, crate::cpu::NMI_VECTOR)
        } else if self.cycles == 0 && self.irq_pending && !self.spec_get_flag(flags::IRQ_DISABLE) {
            Cpu { irq_pending: false, ..self }.spec_interrupt::<M>(m, IRQ_VECTOR)
        } else if self.cycles == 0 {
            let (opcode, m1) = fetch::<M>(m, self.pc);
            let (c, m2) = self.spec_advance(1).spec_set_flag(flags::UNUSED, true).spec_execute::<M>(
                m1,
                opcode,
            );
            (c.spec_set_flag(flags::UNUSED, true).spec_count_cycle(), m2)
        } else {
            (self.spec_count_cycle(), m)
        }
    }

    /// One cycle of a CPU that is driven by a system clock. With cycles
    /// left it counts one off and does nothing else. With none left it
    /// takes a latched NMI, else a latched IRQ if interrupts are enabled,
    /// else it fetches and executes one instruction, which sets the cycles
    /// left to the cost of the instruction.
    #[verifier::opaque]
    pub open spec fn spec_step<M: Memory>(self, m: M::Model) -> (Cpu, M::Model) {
        if self.cycles > 0 {
            (Cpu { cycles: (self.cycles - 1) as u8, ..self }, m)
        } else if self.nmi_pending {
            Cpu { nmi_pending: false, ..self }.spec_interrupt::<M>(m, crate::cpu::NMI_VECTOR)
        } else if self.irq_pending && !self.spec_get_flag(flags::IRQ_DISABLE) {
            Cpu { irq_pending: false, ..self }.spec_interrupt::<M>(m, IRQ_VECTOR)
        } else {
            let (opcode, m1) = fetch::<M>(m, self.pc);
            self.spec_advance(1).spec_execute::<M>(m1, opcode)
        }
    }

    /// One cycle of the current instruction gone by.
    pub open spec fn spec_count_cycle(self) -> Cpu {
        Cpu {
            cycles: self.cycles.saturating_sub(1),
            total_cycles: self.total_cycles.wrapping_add(1),
            ..self
        }
    }

    // ----- executable instructions -----

    /// The core of the addition, shared by the instructions that add.
    pub fn adc_value(&mut self, value: u8)
        ensures
            *final(self) == old(self).spec_adc_value(value),
    {
        let carry: u16 = if self.get_flag(flags::CARRY) {
            1
        } else {
            0
        };
        let sum: u16 = self.a as u16 + value as u16 + carry;
        self.set_flag(flags::CARRY, sum > 255);
        let result: u8 = (sum % 256) as u8;
        let overflow = (self.a < 128) == (value < 128) && (self.a < 128) != (result < 128);
        self.set_flag(flags::OVERFLOW, overflow);
        self.a = result;
        self.update_zn(result);
    }

    /// The core of the compare instructions.
    pub fn compare(&mut self, reg: u8, value: u8)
        ensures
            *final(self) == old(self).spec_compare(reg, value),
    {
        let result = reg.wrapping_sub(value);
        self.set_flag(flags::CARRY, reg >= value);
        self.update_zn(result);
    }

    /// Loads the accumulator.
    pub fn lda<M: Memory>(&mut self, mode: AddressingMode, mem: &mut M)
        requires
            M::inv(old(mem).model()),
        ensures
            M::inv(final(mem).model()),
            (*final(self), final(mem).model()) == old(self).spec_read_instruction::<M>(
                old(mem).model(),
                Op::Lda,
                mode,
            ),
    {
        let (addr, page_cross) = self.resolve_address(mode, mem);
        let value = mem.read(addr);
        self.a = value;
        self.update_zn(value);
        if page_cross {
            self.add_cycle();
        }
    }

    /// Loads X.
    pub fn ldx<M: Memory>(&mut self, mode: AddressingMode, mem: &mut M)
        requires
            M::inv(old(mem).model()),
        ensures
            M::inv(final(mem).model()),
            (*final(self), final(mem).model()) == old(self).spec_read_instruction::<M>(
                old(mem).model(),
                Op::Ldx,
                mode,
            ),
    {
        let (addr, page_cross) = self.resolve_address(mode, mem);
        let value = mem.read(addr);
        self.x = value;
        self.update_zn(value);
        if page_cross {
            self.add_cycle();
        }
    }

    /// Loads Y.
    pub fn ldy<M: Memory>(&mut self, mode: AddressingMode, mem: &mut M)
        requires
            M::inv(old(mem).model()),
        ensures
            M::inv(final(mem).model()),
            (*final(self), final(mem).model()) == old(self).spec_read_instruction::<M>(
                old(mem).model(),
                Op::Ldy,
                mode,
            ),
    {
        let (addr, page_cross) = self.resolve_address(mode, mem);
        let value = mem.read(addr);
        self.y = value;
        self.update_zn(value);
        if page_cross {
            self.add_cycle();
        }
    }

    /// Adds the operand and the carry to the accumulator.
    pub fn adc<M: Memory>(&mut self, mode: AddressingMode, mem: &mut M)
        requires
            M::inv(old(mem).model()),
        ensures
            M::inv(final(mem).model()),
            (*final(self), final(mem).model()) == old(self).spec_read_instruction::<M>(
                old(mem).model(),
                Op::Adc,
                mode,
            ),
    {
        let (addr, page_cross) = self.resolve_address(mode, mem);
        let value = mem.read(addr);
        self.adc_value(value);
        if page_cross {
            self.add_cycle();
        }
    }

    /// Subtracts the operand and the borrow from the accumulator: an
    /// addition of the operand's ones-complement.
    pub fn sbc<M: Memory>(&mut self, mode: AddressingMode, mem: &mut M)
        requires
            M::inv(old(mem).model()),
        ensures
            M::inv(final(mem).model()),
            (*final(self), final(mem).model()) == old(self).spec_read_instruction::<M>(
                old(mem).model(),
                Op::Sbc,
                mode,
            ),
    {
        let (addr, page_cross) = self.resolve_address(mode, mem);
        let value = mem.read(addr);
        self.adc_value(255 - value);
        if page_cross {
            self.add_cycle();
        }
    }

    /// Compares the accumulator with the operand.
    pub fn cmp<M: Memory>(&mut self, mode: AddressingMode, mem: &mut M)
        requires
            M::inv(old(mem).model()),
        ensures
            M::inv(final(mem).model()),
            (*final(self), final(mem).model()) == old(self).spec_read_instruction::<M>(
                old(mem).model(),
                Op::Cmp,
                mode,
            ),
    {
        let (addr, page_cross) = self.resolve_address(mode, mem);
        let value = mem.read(addr);
        self.compare(self.a, value);
        if page_cross {
            self.add_cycle();
        }
    }

    /// Compares X with the operand.
    pub fn cpx<M: Memory>(&mut self, mode: AddressingMode, mem: &mut M)
        requires
            M::inv(old(mem).model()),
        ensures
            M::inv(final(mem).model()),
            (*final(self), final(mem).model()) == old(self).spec_read_instruction::<M>(
                old(mem).model(),
                Op::Cpx,
                mode,
            ),
    {
        let (addr, page_cross) = self.resolve_address(mode, mem);
        let value = mem.read(addr);
        self.compare(self.x, value);
    }

    /// Compares Y with the operand.
    pub fn cpy<M: Memory>(&mut self, mode: AddressingMode, mem: &mut M)
        requires
            M::inv(old(mem).model()),
        ensures
            M::inv(final(mem).model()),
            (*final(self), final(mem).model()) == old(self).spec_read_instruction::<M>(
                old(mem).model(),
                Op::Cpy,
                mode,
            ),
    {
        let (addr, page_cross) = self.resolve_address(mode, mem);
        let value = mem.read(addr);
        self.compare(self.y, value);
    }

    /// ANDs the operand into the accumulator.
    pub fn and<M: Memory>(&mut self, mode: AddressingMode, mem: &mut M)
        requires
            M::inv(old(mem).model()),
        ensures
            M::inv(final(mem).model()),
            (*final(self), final(mem).model()) == old(self).spec_read_instruction::<M>(
                old(mem).model(),
                Op::And,
                mode,
            ),
    {
        let (addr, page_cross) = self.resolve_address(mode, mem);
        let value = mem.read(addr);
        self.a = self.a & value;
        self.update_zn(self.a);
        if page_cross {
            self.add_cycle();
        }
    }

    /// ORs the operand into the accumulator.
    pub fn ora<M: Memory>(&mut self, mode: AddressingMode, mem: &mut M)
        requires
            M::inv(old(mem).model()),
        ensures
            M::inv(final(mem).model()),
            (*final(self), final(mem).model()) == old(self).spec_read_instruction::<M>(
                old(mem).model(),
                Op::Ora,
                mode,
            ),
    {
        let (addr, page_cross) = self.resolve_address(mode, mem);
        let value = mem.read(addr);
        self.a = self.a | value;
        self.update_zn(self.a);
        if page_cross {
            self.add_cycle();
        }
    }

    /// XORs the operand into the accumulator.
    pub fn eor<M: Memory>(&mut self, mode: AddressingMode, mem: &mut M)
        requires
            M::inv(old(mem).model()),
        ensures
            M::inv(final(mem).model()),
            (*final(self), final(mem).model()) == old(self).spec_read_instruction::<M>(
                old(mem).model(),
                Op::Eor,
                mode,
            ),
    {
        let (addr, page_cross) = self.resolve_address(mode, mem);
        let value = mem.read(addr);
        self.a = self.a ^ value;
        self.update_zn(self.a);
        if page_cross {
            self.add_cycle();
        }
    }

    /// Tests the operand against the accumulator: zero from their AND,
    /// negative and overflow from bits 7 and 6 of the operand.
    pub fn bit<M: Memory>(&mut self, mode: AddressingMode, mem: &mut M)
        requires
            M::inv(old(mem).model()),
        ensures
            M::inv(final(mem).model()),
            (*final(self), final(mem).model()) == old(self).spec_read_instruction::<M>(
                old(mem).model(),
                Op::Bit,
                mode,
            ),
    {
        let (addr, page_cross) = self.resolve_address(mode, mem);
        let value = mem.read(addr);
        self.set_flag(flags::ZERO, (self.a & value) == 0);
        self.set_flag(flags::NEGATIVE, value >= 128);
        self.set_flag(flags::OVERFLOW, value & 0x40 != 0);
    }

    /// Loads the accumulator and X with the operand.
    pub fn lax<M: Memory>(&mut self, mode: AddressingMode, mem: &mut M)
        requires
            M::inv(old(mem).model()),
        ensures
            M::inv(final(mem).model()),
            (*final(self), final(mem).model()) == old(self).spec_read_instruction::<M>(
                old(mem).model(),
                Op::Lax,
                mode,
            ),
    {
        let (addr, page_cross) = self.resolve_address(mode, mem);
        let value = mem.read(addr);
        self.a = value;
        self.x = value;
        self.update_zn(value);
        if page_cross {
            self.add_cycle();
        }
    }

    /// Stores the accumulator.
    pub fn sta<M: Memory>(&mut self, mode: AddressingMode, mem: &mut M)
        requires
            M::inv(old(mem).model()),
        ensures
            M::inv(final(mem).model()),
            (*final(self), final(mem).model()) == old(self).spec_store_instruction::<M>(
                old(mem).model(),
                Op::Sta,
                mode,
            ),
    {
        let (addr, _) = self.resolve_address(mode, mem);
        mem.write(addr, self.a);
    }

    /// Stores X.
    pub fn stx<M: Memory>(&mut self, mode: AddressingMode, mem: &mut M)
        requires
            M::inv(old(mem).model()),
        ensures
            M::inv(final(mem).model()),
            (*final(self), final(mem).model()) == old(self).spec_store_instruction::<M>(
                old(mem).model(),
                Op::Stx,
                mode,
            ),
    {
        let (addr, _) = self.resolve_address(mode, mem);
        mem.write(addr, self.x);
    }

    /// Stores Y.
    pub fn sty<M: Memory>(&mut self, mode: AddressingMode, mem: &mut M)
        requires
            M::inv(old(mem).model()),
        ensures
            M::inv(final(mem).model()),
            (*final(self), final(mem).model()) == old(self).spec_store_instruction::<M>(
                old(mem).model(),
                Op::Sty,
                mode,
            ),
    {
        let (addr, _) = self.resolve_address(mode, mem);
        mem.write(addr, self.y);
    }

    /// Stores the AND of the accumulator and X.
    pub fn sax<M: Memory>(&mut self, mode: AddressingMode, mem: &mut M)
        requires
            M::inv(old(mem).model()),
        ensures
            M::inv(final(mem).model()),
            (*final(self), final(mem).model()) == old(self).spec_store_instruction::<M>(
                old(mem).model(),
                Op::Sax,
                mode,
            ),
    {
        let (addr, _) = self.resolve_address(mode, mem);
        mem.write(addr, self.a & self.x);
    }

    /// Increments a byte of memory.
    pub fn inc<M: Memory>(&mut self, mode: AddressingMode, mem: &mut M)
        requires
            M::inv(old(mem).model()),
        ensures
            M::inv(final(mem).model()),
            (*final(self), final(mem).model()) == old(self).spec_modify_instruction::<M>(
                old(mem).model(),
                Op::Inc,
                mode,
            ),
    {
        let (addr, _) = self.resolve_address(mode, mem);
        let value = mem.read(addr);
        let result: u8 = value.wrapping_add(1);
        mem.write(addr, result);
        self.update_zn(result);
    }

    /// Decrements a byte of memory.
    pub fn dec<M: Memory>(&mut self, mode: AddressingMode, mem: &mut M)
        requires
            M::inv(old(mem).model()),
        ensures
            M::inv(final(mem).model()),
            (*final(self), final(mem).model()) == old(self).spec_modify_instruction::<M>(
                old(mem).model(),
                Op::Dec,
                mode,
            ),
    {
        let (addr, _) = self.resolve_address(mode, mem);
        let value = mem.read(addr);
        let result: u8 = value.wrapping_sub(1);
        mem.write(addr, result);
        self.update_zn(result);
    }

    /// Shifts a byte of memory left; bit 7 goes to the carry.
    pub fn asl_mem<M: Memory>(&mut self, mode: AddressingMode, mem: &mut M)
        requires
            M::inv(old(mem).model()),
        ensures
            M::inv(final(mem).model()),
            (*final(self), final(mem).model()) == old(self).spec_modify_instruction::<M>(
                old(mem).model(),
                Op::Asl,
                mode,
            ),
    {
        let (addr, _) = self.resolve_address(mode, mem);
        let value = mem.read(addr);
        self.set_flag(flags::CARRY, value >= 128);
        let result: u8 = value << 1;
        mem.write(addr, result);
        self.update_zn(result);
    }

    /// Shifts a byte of memory right; bit 0 goes to the carry.
    pub fn lsr_mem<M: Memory>(&mut self, mode: AddressingMode, mem: &mut M)
        requires
            M::inv(old(mem).model()),
        ensures
            M::inv(final(mem).model()),
            (*final(self), final(mem).model()) == old(self).spec_modify_instruction::<M>(
                old(mem).model(),
                Op::Lsr,
                mode,
            ),
    {
        let (addr, _) = self.resolve_address(mode, mem);
        let value = mem.read(addr);
        self.set_flag(flags::CARRY, value % 2 == 1);
        let result: u8 = value >> 1;
        mem.write(addr, result);
        self.update_zn(result);
    }

    /// Rotates a byte of memory left through the carry.
    pub fn rol_mem<M: Memory>(&mut self, mode: AddressingMode, mem: &mut M)
        requires
            M::inv(old(mem).model()),
        ensures
            M::inv(final(mem).model()),
            (*final(self), final(mem).model()) == old(self).spec_modify_instruction::<M>(
                old(mem).model(),
                Op::Rol,
                mode,
            ),
    {
        let (addr, _) = self.resolve_address(mode, mem);
        let value = mem.read(addr);
        let carry: u8 = if self.get_flag(flags::CARRY) { 1 } else { 0 };
        self.set_flag(flags::CARRY, value >= 128);
        let result: u8 = (value << 1) | carry;
        mem.write(addr, result);
        self.update_zn(result);
    }

    /// Rotates a byte of memory right through the carry.
    pub fn ror_mem<M: Memory>(&mut self, mode: AddressingMode, mem: &mut M)
        requires
            M::inv(old(mem).model()),
        ensures
            M::inv(final(mem).model()),
            (*final(self), final(mem).model()) == old(self).spec_modify_instruction::<M>(
                old(mem).model(),
                Op::Ror,
                mode,
            ),
    {
        let (addr, _) = self.resolve_address(mode, mem);
        let value = mem.read(addr);
        let carry: u8 = if self.get_flag(flags::CARRY) { 0x80 } else { 0 };
        self.set_flag(flags::CARRY, value % 2 == 1);
        let result: u8 = (value >> 1) | carry;
        mem.write(addr, result);
        self.update_zn(result);
    }

    /// Decrements memory, then compares the accumulator with it.
    pub fn dcp<M: Memory>(&mut self, mode: AddressingMode, mem: &mut M)
        requires
            M::inv(old(mem).model()),
        ensures
            M::inv(final(mem).model()),
            (*final(self), final(mem).model()) == old(self).spec_modify_instruction::<M>(
                old(mem).model(),
                Op::Dcp,
                mode,
            ),
    {
        let (addr, _) = self.resolve_address(mode, mem);
        let value = mem.read(addr);
        let result: u8 = value.wrapping_sub(1);
        mem.write(addr, result);
        self.compare(self.a, result);
    }

    /// Increments memory, then subtracts it from the accumulator.
    pub fn isb<M: Memory>(&mut self, mode: AddressingMode, mem: &mut M)
        requires
            M::inv(old(mem).model()),
        ensures
            M::inv(final(mem).model()),
            (*final(self), final(mem).model()) == old(self).spec_modify_instruction::<M>(
                old(mem).model(),
                Op::Isb,
                mode,
            ),
    {
        let (addr, _) = self.resolve_address(mode, mem);
        let value = mem.read(addr);
        let result: u8 = value.wrapping_add(1);
        mem.write(addr, result);
        self.adc_value(255 - result);
    }

    /// Shifts memory left, then ORs it into the accumulator.
    pub fn slo<M: Memory>(&mut self, mode: AddressingMode, mem: &mut M)
        requires
            M::inv(old(mem).model()),
        ensures
            M::inv(final(mem).model()),
            (*final(self), final(mem).model()) == old(self).spec_modify_instruction::<M>(
                old(mem).model(),
                Op::Slo,
                mode,
            ),
    {
        let (addr, _) = self.resolve_address(mode, mem);
        let value = mem.read(addr);
        self.set_flag(flags::CARRY, value >= 128);
        let result: u8 = value << 1;
        mem.write(addr, result);
        self.a = self.a | result;
        self.update_zn(self.a);
    }

    /// Rotates memory left, then ANDs it into the accumulator.
    pub fn rla<M: Memory>(&mut self, mode: AddressingMode, mem: &mut M)
        requires
            M::inv(old(mem).model()),
        ensures
            M::inv(final(mem).model()),
            (*final(self), final(mem).model()) == old(self).spec_modify_instruction::<M>(
                old(mem).model(),
                Op::Rla,
                mode,
            ),
    {
        let (addr, _) = self.resolve_address(mode, mem);
        let value = mem.read(addr);
        let carry: u8 = if self.get_flag(flags::CARRY) { 1 } else { 0 };
        self.set_flag(flags::CARRY, value >= 128);
        let result: u8 = (value << 1) | carry;
        mem.write(addr, result);
        self.a = self.a & result;
        self.update_zn(self.a);
    }

    /// Shifts memory right, then XORs it into the accumulator.
    pub fn sre<M: Memory>(&mut self, mode: AddressingMode, mem: &mut M)
        requires
            M::inv(old(mem).model()),
        ensures
            M::inv(final(mem).model()),
            (*final(self), final(mem).model()) == old(self).spec_modify_instruction::<M>(
                old(mem).model(),
                Op::Sre,
                mode,
            ),
    {
        let (addr, _) = self.resolve_address(mode, mem);
        let value = mem.read(addr);
        self.set_flag(flags::CARRY, value % 2 == 1);
        let result: u8 = value >> 1;
        mem.write(addr, result);
        self.a = self.a ^ result;
        self.update_zn(self.a);
    }

    /// Rotates memory right, then adds it to the accumulator.
    pub fn rra<M: Memory>(&mut self, mode: AddressingMode, mem: &mut M)
        requires
            M::inv(old(mem).model()),
        ensures
            M::inv(final(mem).model()),
            (*final(self), final(mem).model()) == old(self).spec_modify_instruction::<M>(
                old(mem).model(),
                Op::Rra,
                mode,
            ),
    {
        let (addr, _) = self.resolve_address(mode, mem);
        let value = mem.read(addr);
        let carry: u8 = if self.get_flag(flags::CARRY) { 0x80 } else { 0 };
        self.set_flag(flags::CARRY, value % 2 == 1);
        let result: u8 = (value >> 1) | carry;
        mem.write(addr, result);
        self.adc_value(result);
    }

    /// Shifts the accumulator left.
    pub fn asl_acc(&mut self)
        ensures
            *final(self) == old(self).spec_modify_accumulator(Op::Asl),
    {
        let value = self.a;
        self.set_flag(flags::CARRY, value >= 128);
        let result: u8 = value << 1;
        self.a = result;
        self.update_zn(result);
    }

    /// Shifts the accumulator right.
    pub fn lsr_acc(&mut self)
        ensures
            *final(self) == old(self).spec_modify_accumulator(Op::Lsr),
    {
        let value = self.a;
        self.set_flag(flags::CARRY, value % 2 == 1);
        let result: u8 = value >> 1;
        self.a = result;
        self.update_zn(result);
    }

    /// Rotates the accumulator left through the carry.
    pub fn rol_acc(&mut self)
        ensures
            *final(self) == old(self).spec_modify_accumulator(Op::Rol),
    {
        let value = self.a;
        let carry: u8 = if self.get_flag(flags::CARRY) { 1 } else { 0 };
        self.set_flag(flags::CARRY, value >= 128);
        let result: u8 = (value << 1) | carry;
        self.a = result;
        self.update_zn(result);
    }

    /// Rotates the accumulator right through the carry.
    pub fn ror_acc(&mut self)
        ensures
            *final(self) == old(self).spec_modify_accumulator(Op::Ror),
    {
        let value = self.a;
        let carry: u8 = if self.get_flag(flags::CARRY) { 0x80 } else { 0 };
        self.set_flag(flags::CARRY, value % 2 == 1);
        let result: u8 = (value >> 1) | carry;
        self.a = result;
        self.update_zn(result);
    }

    /// The core of the branch instructions.
    pub fn branch<M: Memory>(&mut self, condition: bool, mem: &mut M)
        requires
            M::inv(old(mem).model()),
        ensures
            M::inv(final(mem).model()),
            (*final(self), final(mem).model()) == old(self).spec_branch::<M>(
                old(mem).model(),
                condition,
            ),
    {
        let (target, page_cross) = self.resolve_address(AddressingMode::Relative, mem);
        if condition {
            self.add_cycle();
            if page_cross {
                self.add_cycle();
            }
            self.pc = target;
        }
    }

    fn nop<M: Memory>(&mut self, mode: AddressingMode, mem: &mut M)
        requires
            M::inv(old(mem).model()),
        ensures
            M::inv(final(mem).model()),
            (*final(self), final(mem).model()) == old(self).spec_nop::<M>(old(mem).model(), mode),
    {
        match mode {
            AddressingMode::Implicit | AddressingMode::Accumulator => {},
            AddressingMode::Absolute | AddressingMode::AbsoluteY | AddressingMode::Indirect => {
                self.pc = self.pc.wrapping_add(2);
            },
            AddressingMode::AbsoluteX => {
                let (_, page_cross) = self.resolve_address(mode, mem);
                if page_cross {
                    self.add_cycle();
                }
            },
            _ => {
                self.pc = self.pc.wrapping_add(1);
            },
        }
    }

    fn restore_status(&mut self, pulled: u8)
        ensures
            *final(self) == old(self).spec_restore_status(pulled),
    {
        self.status = pulled;
        self.set_flag(flags::BREAK, false);
        self.set_flag(flags::UNUSED, true);
    }

    fn brk<M: Memory>(&mut self, mem: &mut M)
        requires
            M::inv(old(mem).model()),
        ensures
            M::inv(final(mem).model()),
            (*final(self), final(mem).model()) == old(self).spec_brk::<M>(old(mem).model()),
    {
        self.pc = self.pc.wrapping_add(1);
        self.push16(self.pc, mem);
        self.push(self.status | flags::BREAK | flags::UNUSED, mem);
        self.set_flag(flags::IRQ_DISABLE, true);
        let lo = mem.read(0xFFFE);
        let hi = mem.read(0xFFFF);
        self.pc = make_word(lo, hi);
    }

    /// An operation that reads its operand.
    fn run_read<M: Memory>(&mut self, op: Op, mode: AddressingMode, mem: &mut M)
        requires
            M::inv(old(mem).model()),
            is_read_op(op),
        ensures
            M::inv(final(mem).model()),
            (*final(self), final(mem).model()) == old(self).spec_read_instruction::<M>(
                old(mem).model(),
                op,
                mode,
            ),
    {
        match op {
            Op::Lda => self.lda(mode, mem),
            Op::Ldx => self.ldx(mode, mem),
            Op::Ldy => self.ldy(mode, mem),
            Op::Lax => self.lax(mode, mem),
            Op::Adc => self.adc(mode, mem),
            Op::Sbc => self.sbc(mode, mem),
            Op::Cmp => self.cmp(mode, mem),
            Op::Cpx => self.cpx(mode, mem),
            Op::Cpy => self.cpy(mode, mem),
            Op::And => self.and(mode, mem),
            Op::Ora => self.ora(mode, mem),
            Op::Eor => self.eor(mode, mem),
            Op::Bit => self.bit(mode, mem),
            _ => {},
        }
    }

    /// An operation that writes a register to memory.
    fn run_store<M: Memory>(&mut self, op: Op, mode: AddressingMode, mem: &mut M)
        requires
            M::inv(old(mem).model()),
            is_store_op(op),
        ensures
            M::inv(final(mem).model()),
            (*final(self), final(mem).model()) == old(self).spec_store_instruction::<M>(
                old(mem).model(),
                op,
                mode,
            ),
    {
        match op {
            Op::Sta => self.sta(mode, mem),
            Op::Stx => self.stx(mode, mem),
            Op::Sty => self.sty(mode, mem),
            Op::Sax => self.sax(mode, mem),
            _ => {},
        }
    }

    /// An operation that changes a byte of memory in place.
    fn run_modify<M: Memory>(&mut self, op: Op, mode: AddressingMode, mem: &mut M)
        requires
            M::inv(old(mem).model()),
            is_modify_op(op) || is_shift_op(op),
        ensures
            M::inv(final(mem).model()),
            (*final(self), final(mem).model()) == old(self).spec_modify_instruction::<M>(
                old(mem).model(),
                op,
                mode,
            ),
    {
        match op {
            Op::Inc => self.inc(mode, mem),
            Op::Dec => self.dec(mode, mem),
            Op::Dcp => self.dcp(mode, mem),
            Op::Isb => self.isb(mode, mem),
            Op::Slo => self.slo(mode, mem),
            Op::Rla => self.rla(mode, mem),
            Op::Sre => self.sre(mode, mem),
            Op::Rra => self.rra(mode, mem),
            Op::Asl => self.asl_mem(mode, mem),
            Op::Lsr => self.lsr_mem(mode, mem),
            Op::Rol => self.rol_mem(mode, mem),
            Op::Ror => self.ror_mem(mode, mem),
            _ => {},
        }
    }

    /// A shift or rotate of the accumulator.
    fn run_accumulator(&mut self, op: Op)
        requires
            is_shift_op(op),
        ensures
            *final(self) == old(self).spec_modify_accumulator(op),
    {
        match op {
            Op::Asl => self.asl_acc(),
            Op::Lsr => self.lsr_acc(),
            Op::Rol => self.rol_acc(),
            Op::Ror => self.ror_acc(),
            _ => {},
        }
    }

    /// Tells whether the branch `op` is taken.
    fn branch_condition(&self, op: Op) -> (taken: bool)
        ensures
            taken == self.spec_branch_condition(op),
    {
        match op {
            Op::Bcc => !self.get_flag(flags::CARRY),
            Op::Bcs => self.get_flag(flags::CARRY),
            Op::Beq => self.get_flag(flags::ZERO),
            Op::Bne => !self.get_flag(flags::ZERO),
            Op::Bmi => self.get_flag(flags::NEGATIVE),
            Op::Bpl => !self.get_flag(flags::NEGATIVE),
            Op::Bvs => self.get_flag(flags::OVERFLOW),
            Op::Bvc => !self.get_flag(flags::OVERFLOW),
            _ => false,
        }
    }

    /// A jump, call, return, stack instruction, software interrupt or
    /// no-operation.
    fn run_flow<M: Memory>(&mut self, op: Op, mode: AddressingMode, mem: &mut M)
        requires
            M::inv(old(mem).model()),
        ensures
            M::inv(final(mem).model()),
            (*final(self), final(mem).model()) == old(self).spec_flow::<M>(
                old(mem).model(),
                op,
                mode,
            ),
    {
        match op {
            Op::Jmp => {
                let (addr, _) = self.resolve_address(mode, mem);
                self.pc = addr;
            },
            Op::Jsr => {
                let (addr, _) = self.resolve_address(mode, mem);
                self.push16(self.pc.wrapping_sub(1), mem);
                self.pc = addr;
            },
            Op::Rts => {
                let w = self.pull16(mem);
                self.pc = w.wrapping_add(1);
            },
            Op::Rti => {
                let s = self.pull(mem);
                self.restore_status(s);
                self.pc = self.pull16(mem);
            },
            Op::Pha => self.push(self.a, mem),
            Op::Pla => {
                self.a = self.pull(mem);
                self.update_zn(self.a);
            },
            Op::Php => self.push(self.status | flags::BREAK | flags::UNUSED, mem),
            Op::Plp => {
                let s = self.pull(mem);
                self.restore_status(s);
            },
            Op::Brk => self.brk(mem),
            Op::Nop => self.nop(mode, mem),
            _ => {},
        }
    }

    /// A transfer, an increment or decrement of an index register, or a
    /// flag instruction.
    fn run_register(&mut self, op: Op)
        ensures
            *final(self) == old(self).spec_register_op(op),
    {
        match op {
            Op::Tax => {
                self.x = self.a;
                self.update_zn(self.x);
            },
            Op::Tay => {
                self.y = self.a;
                self.update_zn(self.y);
            },
            Op::Txa => {
                self.a = self.x;
                self.update_zn(self.a);
            },
            Op::Tya => {
                self.a = self.y;
                self.update_zn(self.a);
            },
            Op::Tsx => {
                self.x = self.sp;
                self.update_zn(self.x);
            },
            Op::Txs => {
                self.sp = self.x;
            },
            Op::Inx => {
                self.x = self.x.wrapping_add(1);
                self.update_zn(self.x);
            },
            Op::Iny => {
                self.y = self.y.wrapping_add(1);
                self.update_zn(self.y);
            },
            Op::Dex => {
                self.x = self.x.wrapping_sub(1);
                self.update_zn(self.x);
            },
            Op::Dey => {
                self.y = self.y.wrapping_sub(1);
                self.update_zn(self.y);
            },
            Op::Clc => self.set_flag(flags::CARRY, false),
            Op::Sec => self.set_flag(flags::CARRY, true),
            Op::Cli => self.set_flag(flags::IRQ_DISABLE, false),
            Op::Sei => self.set_flag(flags::IRQ_DISABLE, true),
            Op::Cld => self.set_flag(flags::DECIMAL, false),
            Op::Sed => self.set_flag(flags::DECIMAL, true),
            Op::Clv => self.set_flag(flags::OVERFLOW, false),
            _ => {},
        }
    }

    /// Carries out the operation `op` in addressing mode `mode`.
    pub fn run<M: Memory>(&mut self, op: Op, mode: AddressingMode, mem: &mut M)
        requires
            M::inv(old(mem).model()),
        ensures
            M::inv(final(mem).model()),
            (*final(self), final(mem).model()) == old(self).spec_run::<M>(
                old(mem).model(),
                op,
                mode,
            ),
    {
        match op {
            Op::Lda | Op::Ldx | Op::Ldy | Op::Lax | Op::Adc | Op::Sbc | Op::Cmp | Op::Cpx | Op::Cpy
            | Op::And | Op::Ora | Op::Eor | Op::Bit => self.run_read(op, mode, mem),
            Op::Sta | Op::Stx | Op::Sty | Op::Sax => self.run_store(op, mode, mem),
            Op::Inc | Op::Dec | Op::Dcp | Op::Isb | Op::Slo | Op::Rla | Op::Sre | Op::Rra => {
                self.run_modify(op, mode, mem)
            },
            Op::Asl | Op::Lsr | Op::Rol | Op::Ror => match mode {
                AddressingMode::Accumulator => self.run_accumulator(op),
                _ => self.run_modify(op, mode, mem),
            },
            Op::Bcc | Op::Bcs | Op::Beq | Op::Bne | Op::Bmi | Op::Bpl | Op::Bvs | Op::Bvc => {
                let taken = self.branch_condition(op);
                self.branch(taken, mem)
            },
            Op::Jmp | Op::Jsr | Op::Rts | Op::Rti | Op::Pha | Op::Pla | Op::Php | Op::Plp | Op::Brk
            | Op::Nop => self.run_flow(op, mode, mem),
            _ => self.run_register(op),
        }
    }

    /// Carries out the instruction with this opcode, which has already been
    /// fetched: the program counter stands behind it.
    pub fn execute<M: Memory>(&mut self, opcode: u8, mem: &mut M)
        requires
            M::inv(old(mem).model()),
        ensures
            M::inv(final(mem).model()),
            (*final(self), final(mem).model()) == old(self).spec_execute::<M>(
                old(mem).model(),
                opcode,
            ),
    {
        let (op, mode, cycles) = decode(opcode);
        self.cycles = cycles;
        self.run(op, mode, mem);
    }

    /// Runs the CPU for one cycle of a system clock: it counts down the
    /// instruction under way, or begins an interrupt or the next
    /// instruction.
    pub fn step<M: Memory>(&mut self, mem: &mut M)
        requires
            M::inv(old(mem).model()),
        ensures
            M::inv(final(mem).model()),
            (*final(self), final(mem).model()) == old(self).spec_step::<M>(old(mem).model()),
    {
        reveal(Cpu::spec_step);
        if self.cycles > 0 {
            self.cycles = self.cycles - 1;
            return ;
        }
        if self.nmi_pending {
            self.nmi_pending = false;
            self.handle_nmi(mem);
            return ;
        }
        if self.irq_pending && !self.get_flag(flags::IRQ_DISABLE) {
            self.irq_pending = false;
            self.handle_irq(mem);
            return ;
        }
        let opcode = mem.read(self.pc);
        self.pc = self.pc.wrapping_add(1);
        self.execute(opcode, mem);
    }

    /// Runs the CPU for one clock cycle.
    pub fn clock<M: Memory>(&mut self, mem: &mut M)
        requires
            M::inv(old(mem).model()),
        ensures
            M::inv(final(mem).model()),
            (*final(self), final(mem).model()) == old(self).spec_clock::<M>(old(mem).model()),
    {
        if self.cycles == 0 {
            if self.nmi_pending {
                self.nmi_pending = false;
                self.handle_nmi(mem);
                return ;
            }
            if self.irq_pending && !self.get_flag(flags::IRQ_DISABLE) {
                self.irq_pending = false;
                self.handle_irq(mem);
                return ;
            }
            let opcode = mem.read(self.pc);
            self.pc = self.pc.wrapping_add(1);
            self.set_flag(flags::UNUSED, true);
            self.execute(opcode, mem);
            self.set_flag(flags::UNUSED, true);
        }
        self.cycles = self.cycles.saturating_sub(1);
        self.total_cycles = self.total_cycles.wrapping_add(1);
    }
}

} // verus!
