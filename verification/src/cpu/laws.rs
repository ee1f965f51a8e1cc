//! What holds of the CPU whatever the address space behind it.

use vstd::prelude::*;
use crate::bits::{word, low_byte, high_byte};
use crate::cpu::{Cpu, page_differs, branch_target};
use crate::cpu::execute::{
    is_branch_op, is_modify_op, is_read_op, is_shift_op, is_store_op, pays_page_cross,
};
use crate::cpu::opcodes::{AddressingMode, Op, INSTRUCTIONS};
use crate::memory::{Memory, fetch, fetch_word};

verus! {

/// A property of the address space that no read and no write ends.
pub open spec fn kept_by_accesses<M: Memory>(p: spec_fn(M::Model) -> bool) -> bool {
    &&& forall|m: M::Model, addr: u16| p(m) ==> #[trigger] p(M::read_next(m, addr))
    &&& forall|m: M::Model, addr: u16, data: u8|
        p(m) ==> #[trigger] p(M::write_next(m, addr, data))
}

/// The two reads of a word keep what accesses keep.
pub proof fn lemma_fetch_word_keeps<M: Memory>(m: M::Model, addr: u16, p: spec_fn(M::Model) -> bool)
    requires
        p(m),
        kept_by_accesses::<M>(p),
    ensures
        p(fetch_word::<M>(m, addr).1),
{
    assert(p(M::read_next(m, addr)));
}

/// The operand fetches of an addressing mode keep what accesses keep.
pub proof fn lemma_resolve_keeps<M: Memory>(
    cpu: Cpu,
    m: M::Model,
    mode: AddressingMode,
    p: spec_fn(M::Model) -> bool,
)
    requires
        p(m),
        kept_by_accesses::<M>(p),
    ensures
        p(cpu.spec_resolve_address::<M>(m, mode).mem),
{
    lemma_fetch_word_keeps::<M>(m, cpu.pc, p);
    let m1 = M::read_next(m, cpu.pc);
    assert(p(m1));
    match mode {
        AddressingMode::Indirect => {
            let (ptr, m2) = fetch_word::<M>(m, cpu.pc);
            assert(p(M::read_next(m2, ptr)));
        },
        AddressingMode::IndirectX => {
            let ptr = M::read_value(m, cpu.pc).wrapping_add(cpu.x);
            assert(p(M::read_next(m1, ptr as u16)));
        },
        AddressingMode::IndirectY => {
            let ptr = M::read_value(m, cpu.pc);
            assert(p(M::read_next(m1, ptr as u16)));
        },
        _ => {},
    }
}

/// Two pushes keep what accesses keep.
pub proof fn lemma_push16_keeps<M: Memory>(
    cpu: Cpu,
    m: M::Model,
    value: u16,
    p: spec_fn(M::Model) -> bool,
)
    requires
        p(m),
        kept_by_accesses::<M>(p),
    ensures
        p(cpu.spec_push16::<M>(m, value).1),
{
    let (c1, m1) = cpu.spec_push::<M>(m, high_byte(value));
    assert(p(m1));
}

/// Two pulls keep what accesses keep.
pub proof fn lemma_pull16_keeps<M: Memory>(cpu: Cpu, m: M::Model, p: spec_fn(M::Model) -> bool)
    requires
        p(m),
        kept_by_accesses::<M>(p),
    ensures
        p(cpu.spec_pull16::<M>(m).1),
{
    let (c1, m1, lo) = cpu.spec_pull::<M>(m);
    assert(p(m1));
}

/// The entry into an interrupt handler keeps what accesses keep.
pub proof fn lemma_interrupt_keeps<M: Memory>(
    cpu: Cpu,
    m: M::Model,
    vector: u16,
    p: spec_fn(M::Model) -> bool,
)
    requires
        p(m),
        kept_by_accesses::<M>(p),
    ensures
        p(cpu.spec_interrupt::<M>(m, vector).1),
{
    lemma_push16_keeps::<M>(cpu, m, cpu.pc, p);
    let (c1, m1) = cpu.spec_push16::<M>(m, cpu.pc);
    let (c2, m2) = c1.spec_push::<M>(m1, (c1.status & !crate::cpu::flags::BREAK)
        | crate::cpu::flags::UNUSED);
    assert(p(m2));
    lemma_fetch_word_keeps::<M>(m2, vector, p);
}

/// Jumps, calls, returns and stack instructions keep what accesses keep.
pub proof fn lemma_flow_keeps<M: Memory>(
    cpu: Cpu,
    m: M::Model,
    op: Op,
    mode: AddressingMode,
    p: spec_fn(M::Model) -> bool,
)
    requires
        p(m),
        kept_by_accesses::<M>(p),
    ensures
        p(cpu.spec_flow::<M>(m, op, mode).1),
{
    lemma_resolve_keeps::<M>(cpu, m, mode, p);
    let r = cpu.spec_resolve_address::<M>(m, mode);
    match op {
        Op::Jsr => {
            lemma_push16_keeps::<M>(r.cpu, r.mem, r.cpu.pc.wrapping_sub(1), p);
        },
        Op::Rts => {
            lemma_pull16_keeps::<M>(cpu, m, p);
        },
        Op::Rti => {
            let (c1, m1, s) = cpu.spec_pull::<M>(m);
            assert(p(m1));
            lemma_pull16_keeps::<M>(c1.spec_restore_status(s), m1, p);
        },
        Op::Pha | Op::Php => {
            assert(p(cpu.spec_flow::<M>(m, op, mode).1));
        },
        Op::Pla | Op::Plp => {
            let (c1, m1, s) = cpu.spec_pull::<M>(m);
            assert(p(m1));
        },
        Op::Brk => {
            let c0 = cpu.spec_advance(1);
            lemma_push16_keeps::<M>(c0, m, c0.pc, p);
            let (c1, m1) = c0.spec_push16::<M>(m, c0.pc);
            let (c2, m2) = c1.spec_push::<M>(m1, c1.status | crate::cpu::flags::BREAK
                | crate::cpu::flags::UNUSED);
            assert(p(m2));
            lemma_fetch_word_keeps::<M>(m2, crate::cpu::IRQ_VECTOR, p);
        },
        _ => {},
    }
}

/// Whatever no single access to the address space ends, no operation of
/// the CPU ends.
pub proof fn lemma_run_keeps<M: Memory>(
    cpu: Cpu,
    m: M::Model,
    op: Op,
    mode: AddressingMode,
    p: spec_fn(M::Model) -> bool,
)
    requires
        p(m),
        kept_by_accesses::<M>(p),
    ensures
        p(cpu.spec_run::<M>(m, op, mode).1),
{
    lemma_resolve_keeps::<M>(cpu, m, mode, p);
    lemma_resolve_keeps::<M>(cpu, m, AddressingMode::Relative, p);
    lemma_flow_keeps::<M>(cpu, m, op, mode, p);
    let r = cpu.spec_resolve_address::<M>(m, mode);
    let m1 = M::read_next(r.mem, r.addr);
    assert(p(m1));
    if is_store_op(op) {
        assert(p(M::write_next(r.mem, r.addr, r.cpu.spec_stored_value(op))));
    } else if is_modify_op(op) || is_shift_op(op) {
        let value = M::read_value(r.mem, r.addr);
        assert(p(M::write_next(m1, r.addr, r.cpu.spec_modify(op, value).1)));
    }
}

/// Whatever no single access to the address space ends, no cycle of the
/// CPU ends.
pub proof fn lemma_step_keeps<M: Memory>(cpu: Cpu, m: M::Model, p: spec_fn(M::Model) -> bool)
    requires
        p(m),
        kept_by_accesses::<M>(p),
    ensures
        p(cpu.spec_step::<M>(m).1),
{
    reveal(Cpu::spec_step);
    lemma_interrupt_keeps::<M>(Cpu { nmi_pending: false, ..cpu }, m, crate::cpu::NMI_VECTOR, p);
    lemma_interrupt_keeps::<M>(Cpu { irq_pending: false, ..cpu }, m, crate::cpu::IRQ_VECTOR, p);
    let (opcode, m1) = fetch::<M>(m, cpu.pc);
    assert(p(m1));
    let (op, mode, cycles) = INSTRUCTIONS[opcode as int];
    lemma_run_keeps::<M>(Cpu { cycles, ..cpu.spec_advance(1) }, m1, op, mode, p);
}

/// A page crossing costs an instruction that reads its operand one cycle
/// (the compares with X and Y and the bit test excepted, whose addressing
/// modes never cross a page); it costs an instruction that writes, or that
/// changes memory in place, nothing.
pub proof fn lemma_page_cross_penalty<M: Memory>(
    cpu: Cpu,
    m: M::Model,
    op: Op,
    mode: AddressingMode,
)
    requires
        cpu.cycles < 255,
    ensures
        ({
            let crossed = cpu.spec_resolve_address::<M>(m, mode).page_cross;
            &&& is_read_op(op) && crossed && pays_page_cross(op) ==> cpu.spec_read_instruction::<
                M,
            >(m, op, mode).0.cycles == cpu.cycles + 1
            &&& is_read_op(op) && !(crossed && pays_page_cross(op))
                ==> cpu.spec_read_instruction::<M>(m, op, mode).0.cycles == cpu.cycles
            &&& is_store_op(op) ==> cpu.spec_store_instruction::<M>(m, op, mode).0.cycles
                == cpu.cycles
            &&& is_modify_op(op) || is_shift_op(op) ==> cpu.spec_modify_instruction::<M>(
                m,
                op,
                mode,
            ).0.cycles == cpu.cycles
        }),
{
    let r = cpu.spec_resolve_address::<M>(m, mode);
    assert(r.cpu.cycles == cpu.cycles);
    let value = M::read_value(r.mem, r.addr);
    assert(r.cpu.spec_operate(op, value).cycles == cpu.cycles);
    assert(r.cpu.spec_modify(op, value).0.cycles == cpu.cycles);
}

/// An opcode that stands for nothing known takes two cycles and changes
/// nothing but the cycles left.
pub proof fn lemma_unknown_opcode_is_a_nop<M: Memory>(cpu: Cpu, m: M::Model, opcode: u8)
    requires
        INSTRUCTIONS[opcode as int] == (Op::Nop, AddressingMode::Implicit, 2u8),
    ensures
        cpu.spec_execute::<M>(m, opcode) == (Cpu { cycles: 2, ..cpu }, m),
{
}

/// A branch that is not taken costs no cycle more; one that is taken costs
/// one more, and a second one if its target lies in another page than the
/// instruction after it.
pub proof fn lemma_branch_cycles<M: Memory>(cpu: Cpu, m: M::Model, taken: bool)
    requires
        cpu.cycles <= 253,
    ensures
        ({
            let offset = M::read_value(m, cpu.pc);
            let next = cpu.pc.wrapping_add(1);
            let crossed = page_differs(next, branch_target(next, offset));
            let after = cpu.spec_branch::<M>(m, taken).0;
            &&& !taken ==> after.cycles == cpu.cycles && after.pc == next
            &&& taken && !crossed ==> after.cycles == cpu.cycles + 1
            &&& taken && crossed ==> after.cycles == cpu.cycles + 2
            &&& taken ==> after.pc == branch_target(next, offset)
        }),
{
}

/// Every branch instruction has a base cost of two cycles, so that it
/// takes two, three or four cycles in all.
pub proof fn lemma_branch_instruction_cycles<M: Memory>(cpu: Cpu, m: M::Model, opcode: u8)
    requires
        is_branch_op(INSTRUCTIONS[opcode as int].0),
    ensures
        ({
            let op = INSTRUCTIONS[opcode as int].0;
            let offset = M::read_value(m, cpu.pc);
            let next = cpu.pc.wrapping_add(1);
            let crossed = page_differs(next, branch_target(next, offset));
            let taken = cpu.spec_branch_condition(op);
            let after = cpu.spec_execute::<M>(m, opcode).0;
            after.cycles == 2 + (if taken {
                1int
            } else {
                0int
            }) + (if taken && crossed {
                1int
            } else {
                0int
            })
        }),
{
    assert(opcode == 0x10 || opcode == 0x30 || opcode == 0x50 || opcode == 0x70 || opcode == 0x90
        || opcode == 0xB0 || opcode == 0xD0 || opcode == 0xF0) by {
        lemma_branch_opcodes(opcode);
    }
    let (op, mode, cycles) = INSTRUCTIONS[opcode as int];
    lemma_branch_cycles::<M>(Cpu { cycles, ..cpu }, m, cpu.spec_branch_condition(op));
}

/// The branch instructions are the opcodes `0x10`, `0x30`, ... `0xF0`.
pub proof fn lemma_branch_opcodes(opcode: u8)
    ensures
        is_branch_op(INSTRUCTIONS[opcode as int].0) <==> opcode % 32 == 16,
{
    let t = INSTRUCTIONS;
    assert(forall|i: int| 0 <= i < 256 ==> (is_branch_op(#[trigger] t[i].0) <==> i % 32 == 16)) by {
        assert forall|i: int| 0 <= i < 256 implies (is_branch_op(#[trigger] t[i].0) <==> i % 32
            == 16) by {
            lemma_table_row_is_branch(i);
        }
    }
}

proof fn lemma_table_row_is_branch(i: int)
    requires
        0 <= i < 256,
    ensures
        is_branch_op(INSTRUCTIONS[i].0) <==> i % 32 == 16,
{
    if i < 64 {
        lemma_table_quarter(i, 0);
    } else if i < 128 {
        lemma_table_quarter(i, 64);
    } else if i < 192 {
        lemma_table_quarter(i, 128);
    } else {
        lemma_table_quarter(i, 192);
    }
}

proof fn lemma_table_quarter(i: int, base: int)
    requires
        base == 0 || base == 64 || base == 128 || base == 192,
        base <= i < base + 64,
    ensures
        is_branch_op(INSTRUCTIONS[i].0) <==> i % 32 == 16,
{
    let t = INSTRUCTIONS;
    let k = i - base;
    if k < 16 {
        assert(forall|j: int| base <= j < base + 16 ==> !is_branch_op(#[trigger] t[j].0));
    } else if k < 32 {
        assert(forall|j: int|
            base + 17 <= j < base + 32 ==> !is_branch_op(#[trigger] t[j].0));
        assert(is_branch_op(t[base + 16].0));
    } else if k < 48 {
        assert(forall|j: int| base + 32 <= j < base + 48 ==> !is_branch_op(#[trigger] t[j].0));
    } else {
        assert(forall|j: int|
            base + 49 <= j < base + 64 ==> !is_branch_op(#[trigger] t[j].0));
        assert(is_branch_op(t[base + 48].0));
    }
}

/// An indirect jump through a pointer in the last byte of a page takes the
/// high byte of its target from the first byte of the same page, not from
/// the next page.
pub proof fn lemma_indirect_jump_stays_in_page<M: Memory>(cpu: Cpu, m: M::Model)
    requires
        M::read_value(m, cpu.pc) == 0xFF,
    ensures
        ({
            let (ptr, m1) = fetch_word::<M>(m, cpu.pc);
            let (lo, m2) = fetch::<M>(m1, ptr);
            let r = cpu.spec_resolve_address::<M>(m, AddressingMode::Indirect);
            &&& low_byte(ptr) == 0xFF
            &&& r.addr == word(lo, M::read_value(m2, word(0, high_byte(ptr))))
            &&& word(0, high_byte(ptr)) == ptr - 0xFF
            &&& cpu.spec_jmp::<M>(m, AddressingMode::Indirect).0.pc == r.addr
        }),
{
}

/// After a reset the program counter holds the little-endian word at
/// `0xFFFC`.
pub proof fn lemma_reset_vector<M: Memory>(cpu: Cpu, m: M::Model)
    ensures
        cpu.spec_reset::<M>(m).0.pc == word(
            M::read_value(m, 0xFFFC),
            M::read_value(M::read_next(m, 0xFFFC), 0xFFFD),
        ),
{
}

} // verus!
