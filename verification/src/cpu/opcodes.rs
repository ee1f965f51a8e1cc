//! The opcode table: for each of the 256 opcodes its operation, its
//! addressing mode and its base cost in cycles.

use vstd::prelude::*;

verus! {

/// The thirteen ways an instruction finds its operand.
#[derive(Debug, Clone, Copy, PartialEq, Eq, Structural)]
pub enum AddressingMode {
    /// No operand.
    Implicit,
    /// The operand is the accumulator.
    Accumulator,
    /// The operand is the byte after the opcode.
    Immediate,
    /// An 8-bit address into page zero.
    ZeroPage,
    /// Page zero, indexed by X (wrapping within the page).
    ZeroPageX,
    /// Page zero, indexed by Y (wrapping within the page).
    ZeroPageY,
    /// A signed 8-bit offset from the next instruction.
    Relative,
    /// A full 16-bit address.
    Absolute,
    /// A 16-bit address indexed by X.
    AbsoluteX,
    /// A 16-bit address indexed by Y.
    AbsoluteY,
    /// The address stored at a 16-bit pointer (jumps only).
    Indirect,
    /// The address stored at a page-zero pointer indexed by X.
    IndirectX,
    /// The address stored at a page-zero pointer, then indexed by Y.
    IndirectY,
}

/// What an instruction does, whatever its addressing mode.
#[derive(Debug, Clone, Copy, PartialEq, Eq, Structural)]
pub enum Op {
    Adc, And, Asl, Bcc, Bcs, Beq, Bit, Bmi, Bne, Bpl, Brk, Bvc, Bvs, Clc, Cld, Cli, Clv,
    Cmp, Cpx, Cpy, Dec, Dex, Dey, Eor, Inc, Inx, Iny, Jmp, Jsr, Lda, Ldx, Ldy, Lsr, Nop,
    Ora, Pha, Php, Pla, Plp, Rol, Ror, Rti, Rts, Sbc, Sec, Sed, Sei, Sta, Stx, Sty, Tax,
    Tay, Tsx, Txa, Txs, Tya,
    /// Undocumented: load A and X together.
    Lax,
    /// Undocumented: store A AND X.
    Sax,
    /// Undocumented: decrement memory, then compare with A.
    Dcp,
    /// Undocumented: increment memory, then subtract from A.
    Isb,
    /// Undocumented: shift memory left, then OR into A.
    Slo,
    /// Undocumented: rotate memory left, then AND into A.
    Rla,
    /// Undocumented: shift memory right, then XOR into A.
    Sre,
    /// Undocumented: rotate memory right, then add to A.
    Rra,
}

/// Operation, addressing mode and base cycles of every opcode. An opcode
/// that stands for nothing known is a two-cycle `Nop` without operand; a
/// `Nop` with another mode is one of the undocumented operand-skipping ones.
pub const INSTRUCTIONS: [(Op, AddressingMode, u8); 256] = [
    (Op::Brk, AddressingMode::Implicit, 7),  // 00
    (Op::Ora, AddressingMode::IndirectX, 6),  // 01
    (Op::Nop, AddressingMode::Implicit, 2),  // 02
    (Op::Slo, AddressingMode::IndirectX, 8),  // 03
    (Op::Nop, AddressingMode::ZeroPage, 3),  // 04
    (Op::Ora, AddressingMode::ZeroPage, 3),  // 05
    (Op::Asl, AddressingMode::ZeroPage, 5),  // 06
    (Op::Slo, AddressingMode::ZeroPage, 5),  // 07
    (Op::Php, AddressingMode::Implicit, 3),  // 08
    (Op::Ora, AddressingMode::Immediate, 2),  // 09
    (Op::Asl, AddressingMode::Accumulator, 2),  // 0A
    (Op::Nop, AddressingMode::Implicit, 2),  // 0B
    (Op::Nop, AddressingMode::Absolute, 4),  // 0C
    (Op::Ora, AddressingMode::Absolute, 4),  // 0D
    (Op::Asl, AddressingMode::Absolute, 6),  // 0E
    (Op::Slo, AddressingMode::Absolute, 6),  // 0F
    (Op::Bpl, AddressingMode::Relative, 2),  // 10
    (Op::Ora, AddressingMode::IndirectY, 5),  // 11
    (Op::Nop, AddressingMode::Implicit, 2),  // 12
    (Op::Slo, AddressingMode::IndirectY, 8),  // 13
    (Op::Nop, AddressingMode::ZeroPageX, 4),  // 14
    (Op::Ora, AddressingMode::ZeroPageX, 4),  // 15
    (Op::Asl, AddressingMode::ZeroPageX, 6),  // 16
    (Op::Slo, AddressingMode::ZeroPageX, 6),  // 17
    (Op::Clc, AddressingMode::Implicit, 2),  // 18
    (Op::Ora, AddressingMode::AbsoluteY, 4),  // 19
    (Op::Nop, AddressingMode::Implicit, 2),  // 1A
    (Op::Slo, AddressingMode::AbsoluteY, 7),  // 1B
    (Op::Nop, AddressingMode::AbsoluteX, 4),  // 1C
    (Op::Ora, AddressingMode::AbsoluteX, 4),  // 1D
    (Op::Asl, AddressingMode::AbsoluteX, 7),  // 1E
    (Op::Slo, AddressingMode::AbsoluteX, 7),  // 1F
    (Op::Jsr, AddressingMode::Absolute, 6),  // 20
    (Op::And, AddressingMode::IndirectX, 6),  // 21
    (Op::Nop, AddressingMode::Implicit, 2),  // 22
    (Op::Rla, AddressingMode::IndirectX, 8),  // 23
    (Op::Bit, AddressingMode::ZeroPage, 3),  // 24
    (Op::And, AddressingMode::ZeroPage, 3),  // 25
    (Op::Rol, AddressingMode::ZeroPage, 5),  // 26
    (Op::Rla, AddressingMode::ZeroPage, 5),  // 27
    (Op::Plp, AddressingMode::Implicit, 4),  // 28
    (Op::And, AddressingMode::Immediate, 2),  // 29
    (Op::Rol, AddressingMode::Accumulator, 2),  // 2A
    (Op::Nop, AddressingMode::Implicit, 2),  // 2B
    (Op::Bit, AddressingMode::Absolute, 4),  // 2C
    (Op::And, AddressingMode::Absolute, 4),  // 2D
    (Op::Rol, AddressingMode::Absolute, 6),  // 2E
    (Op::Rla, AddressingMode::Absolute, 6),  // 2F
    (Op::Bmi, AddressingMode::Relative, 2),  // 30
    (Op::And, AddressingMode::IndirectY, 5),  // 31
    (Op::Nop, AddressingMode::Implicit, 2),  // 32
    (Op::Rla, AddressingMode::IndirectY, 8),  // 33
    (Op::Nop, AddressingMode::ZeroPageX, 4),  // 34
    (Op::And, AddressingMode::ZeroPageX, 4),  // 35
    (Op::Rol, AddressingMode::ZeroPageX, 6),  // 36
    (Op::Rla, AddressingMode::ZeroPageX, 6),  // 37
    (Op::Sec, AddressingMode::Implicit, 2),  // 38
    (Op::And, AddressingMode::AbsoluteY, 4),  // 39
    (Op::Nop, AddressingMode::Implicit, 2),  // 3A
    (Op::Rla, AddressingMode::AbsoluteY, 7),  // 3B
    (Op::Nop, AddressingMode::AbsoluteX, 4),  // 3C
    (Op::And, AddressingMode::AbsoluteX, 4),  // 3D
    (Op::Rol, AddressingMode::AbsoluteX, 7),  // 3E
    (Op::Rla, AddressingMode::AbsoluteX, 7),  // 3F
    (Op::Rti, AddressingMode::Implicit, 6),  // 40
    (Op::Eor, AddressingMode::IndirectX, 6),  // 41
    (Op::Nop, AddressingMode::Implicit, 2),  // 42
    (Op::Sre, AddressingMode::IndirectX, 8),  // 43
    (Op::Nop, AddressingMode::ZeroPage, 3),  // 44
    (Op::Eor, AddressingMode::ZeroPage, 3),  // 45
    (Op::Lsr, AddressingMode::ZeroPage, 5),  // 46
    (Op::Sre, AddressingMode::ZeroPage, 5),  // 47
    (Op::Pha, AddressingMode::Implicit, 3),  // 48
    (Op::Eor, AddressingMode::Immediate, 2),  // 49
    (Op::Lsr, AddressingMode::Accumulator, 2),  // 4A
    (Op::Nop, AddressingMode::Implicit, 2),  // 4B
    (Op::Jmp, AddressingMode::Absolute, 3),  // 4C
    (Op::Eor, AddressingMode::Absolute, 4),  // 4D
    (Op::Lsr, AddressingMode::Absolute, 6),  // 4E
    (Op::Sre, AddressingMode::Absolute, 6),  // 4F
    (Op::Bvc, AddressingMode::Relative, 2),  // 50
    (Op::Eor, AddressingMode::IndirectY, 5),  // 51
    (Op::Nop, AddressingMode::Implicit, 2),  // 52
    (Op::Sre, AddressingMode::IndirectY, 8),  // 53
    (Op::Nop, AddressingMode::ZeroPageX, 4),  // 54
    (Op::Eor, AddressingMode::ZeroPageX, 4),  // 55
    (Op::Lsr, AddressingMode::ZeroPageX, 6),  // 56
    (Op::Sre, AddressingMode::ZeroPageX, 6),  // 57
    (Op::Cli, AddressingMode::Implicit, 2),  // 58
    (Op::Eor, AddressingMode::AbsoluteY, 4),  // 59
    (Op::Nop, AddressingMode::Implicit, 2),  // 5A
    (Op::Sre, AddressingMode::AbsoluteY, 7),  // 5B
    (Op::Nop, AddressingMode::AbsoluteX, 4),  // 5C
    (Op::Eor, AddressingMode::AbsoluteX, 4),  // 5D
    (Op::Lsr, AddressingMode::AbsoluteX, 7),  // 5E
    (Op::Sre, AddressingMode::AbsoluteX, 7),  // 5F
    (Op::Rts, AddressingMode::Implicit, 6),  // 60
    (Op::Adc, AddressingMode::IndirectX, 6),  // 61
    (Op::Nop, AddressingMode::Implicit, 2),  // 62
    (Op::Rra, AddressingMode::IndirectX, 8),  // 63
    (Op::Nop, AddressingMode::ZeroPage, 3),  // 64
    (Op::Adc, AddressingMode::ZeroPage, 3),  // 65
    (Op::Ror, AddressingMode::ZeroPage, 5),  // 66
    (Op::Rra, AddressingMode::ZeroPage, 5),  // 67
    (Op::Pla, AddressingMode::Implicit, 4),  // 68
    (Op::Adc, AddressingMode::Immediate, 2),  // 69
    (Op::Ror, AddressingMode::Accumulator, 2),  // 6A
    (Op::Nop, AddressingMode::Implicit, 2),  // 6B
    (Op::Jmp, AddressingMode::Indirect, 5),  // 6C
    (Op::Adc, AddressingMode::Absolute, 4),  // 6D
    (Op::Ror, AddressingMode::Absolute, 6),  // 6E
    (Op::Rra, AddressingMode::Absolute, 6),  // 6F
    (Op::Bvs, AddressingMode::Relative, 2),  // 70
    (Op::Adc, AddressingMode::IndirectY, 5),  // 71
    (Op::Nop, AddressingMode::Implicit, 2),  // 72
    (Op::Rra, AddressingMode::IndirectY, 8),  // 73
    (Op::Nop, AddressingMode::ZeroPageX, 4),  // 74
    (Op::Adc, AddressingMode::ZeroPageX, 4),  // 75
    (Op::Ror, AddressingMode::ZeroPageX, 6),  // 76
    (Op::Rra, AddressingMode::ZeroPageX, 6),  // 77
    (Op::Sei, AddressingMode::Implicit, 2),  // 78
    (Op::Adc, AddressingMode::AbsoluteY, 4),  // 79
    (Op::Nop, AddressingMode::Implicit, 2),  // 7A
    (Op::Rra, AddressingMode::AbsoluteY, 7),  // 7B
    (Op::Nop, AddressingMode::AbsoluteX, 4),  // 7C
    (Op::Adc, AddressingMode::AbsoluteX, 4),  // 7D
    (Op::Ror, AddressingMode::AbsoluteX, 7),  // 7E
    (Op::Rra, AddressingMode::AbsoluteX, 7),  // 7F
    (Op::Nop, AddressingMode::Immediate, 2),  // 80
    (Op::Sta, AddressingMode::IndirectX, 6),  // 81
    (Op::Nop, AddressingMode::Immediate, 2),  // 82
    (Op::Sax, AddressingMode::IndirectX, 6),  // 83
    (Op::Sty, AddressingMode::ZeroPage, 3),  // 84
    (Op::Sta, AddressingMode::ZeroPage, 3),  // 85
    (Op::Stx, AddressingMode::ZeroPage, 3),  // 86
    (Op::Sax, AddressingMode::ZeroPage, 3),  // 87
    (Op::Dey, AddressingMode::Implicit, 2),  // 88
    (Op::Nop, AddressingMode::Immediate, 2),  // 89
    (Op::Txa, AddressingMode::Implicit, 2),  // 8A
    (Op::Nop, AddressingMode::Implicit, 2),  // 8B
    (Op::Sty, AddressingMode::Absolute, 4),  // 8C
    (Op::Sta, AddressingMode::Absolute, 4),  // 8D
    (Op::Stx, AddressingMode::Absolute, 4),  // 8E
    (Op::Sax, AddressingMode::Absolute, 4),  // 8F
    (Op::Bcc, AddressingMode::Relative, 2),  // 90
    (Op::Sta, AddressingMode::IndirectY, 6),  // 91
    (Op::Nop, AddressingMode::Implicit, 2),  // 92
    (Op::Nop, AddressingMode::Implicit, 2),  // 93
    (Op::Sty, AddressingMode::ZeroPageX, 4),  // 94
    (Op::Sta, AddressingMode::ZeroPageX, 4),  // 95
    (Op::Stx, AddressingMode::ZeroPageY, 4),  // 96
    (Op::Sax, AddressingMode::ZeroPageY, 4),  // 97
    (Op::Tya, AddressingMode::Implicit, 2),  // 98
    (Op::Sta, AddressingMode::AbsoluteY, 5),  // 99
    (Op::Txs, AddressingMode::Implicit, 2),  // 9A
    (Op::Nop, AddressingMode::Implicit, 2),  // 9B
    (Op::Nop, AddressingMode::Implicit, 2),  // 9C
    (Op::Sta, AddressingMode::AbsoluteX, 5),  // 9D
    (Op::Nop, AddressingMode::Implicit, 2),  // 9E
    (Op::Nop, AddressingMode::Implicit, 2),  // 9F
    (Op::Ldy, AddressingMode::Immediate, 2),  // A0
    (Op::Lda, AddressingMode::IndirectX, 6),  // A1
    (Op::Ldx, AddressingMode::Immediate, 2),  // A2
    (Op::Lax, AddressingMode::IndirectX, 6),  // A3
    (Op::Ldy, AddressingMode::ZeroPage, 3),  // A4
    (Op::Lda, AddressingMode::ZeroPage, 3),  // A5
    (Op::Ldx, AddressingMode::ZeroPage, 3),  // A6
    (Op::Lax, AddressingMode::ZeroPage, 3),  // A7
    (Op::Tay, AddressingMode::Implicit, 2),  // A8
    (Op::Lda, AddressingMode::Immediate, 2),  // A9
    (Op::Tax, AddressingMode::Implicit, 2),  // AA
    (Op::Nop, AddressingMode::Implicit, 2),  // AB
    (Op::Ldy, AddressingMode::Absolute, 4),  // AC
    (Op::Lda, AddressingMode::Absolute, 4),  // AD
    (Op::Ldx, AddressingMode::Absolute, 4),  // AE
    (Op::Lax, AddressingMode::Absolute, 4),  // AF
    (Op::Bcs, AddressingMode::Relative, 2),  // B0
    (Op::Lda, AddressingMode::IndirectY, 5),  // B1
    (Op::Nop, AddressingMode::Implicit, 2),  // B2
    (Op::Lax, AddressingMode::IndirectY, 5),  // B3
    (Op::Ldy, AddressingMode::ZeroPageX, 4),  // B4
    (Op::Lda, AddressingMode::ZeroPageX, 4),  // B5
    (Op::Ldx, AddressingMode::ZeroPageY, 4),  // B6
    (Op::Lax, AddressingMode::ZeroPageY, 4),  // B7
    (Op::Clv, AddressingMode::Implicit, 2),  // B8
    (Op::Lda, AddressingMode::AbsoluteY, 4),  // B9
    (Op::Tsx, AddressingMode::Implicit, 2),  // BA
    (Op::Nop, AddressingMode::Implicit, 2),  // BB
    (Op::Ldy, AddressingMode::AbsoluteX, 4),  // BC
    (Op::Lda, AddressingMode::AbsoluteX, 4),  // BD
    (Op::Ldx, AddressingMode::AbsoluteY, 4),  // BE
    (Op::Lax, AddressingMode::AbsoluteY, 4),  // BF
    (Op::Cpy, AddressingMode::Immediate, 2),  // C0
    (Op::Cmp, AddressingMode::IndirectX, 6),  // C1
    (Op::Nop, AddressingMode::Immediate, 2),  // C2
    (Op::Dcp, AddressingMode::IndirectX, 8),  // C3
    (Op::Cpy, AddressingMode::ZeroPage, 3),  // C4
    (Op::Cmp, AddressingMode::ZeroPage, 3),  // C5
    (Op::Dec, AddressingMode::ZeroPage, 5),  // C6
    (Op::Dcp, AddressingMode::ZeroPage, 5),  // C7
    (Op::Iny, AddressingMode::Implicit, 2),  // C8
    (Op::Cmp, AddressingMode::Immediate, 2),  // C9
    (Op::Dex, AddressingMode::Implicit, 2),  // CA
    (Op::Nop, AddressingMode::Implicit, 2),  // CB
    (Op::Cpy, AddressingMode::Absolute, 4),  // CC
    (Op::Cmp, AddressingMode::Absolute, 4),  // CD
    (Op::Dec, AddressingMode::Absolute, 6),  // CE
    (Op::Dcp, AddressingMode::Absolute, 6),  // CF
    (Op::Bne, AddressingMode::Relative, 2),  // D0
    (Op::Cmp, AddressingMode::IndirectY, 5),  // D1
    (Op::Nop, AddressingMode::Implicit, 2),  // D2
    (Op::Dcp, AddressingMode::IndirectY, 8),  // D3
    (Op::Nop, AddressingMode::ZeroPageX, 4),  // D4
    (Op::Cmp, AddressingMode::ZeroPageX, 4),  // D5
    (Op::Dec, AddressingMode::ZeroPageX, 6),  // D6
    (Op::Dcp, AddressingMode::ZeroPageX, 6),  // D7
    (Op::Cld, AddressingMode::Implicit, 2),  // D8
    (Op::Cmp, AddressingMode::AbsoluteY, 4),  // D9
    (Op::Nop, AddressingMode::Implicit, 2),  // DA
    (Op::Dcp, AddressingMode::AbsoluteY, 7),  // DB
    (Op::Nop, AddressingMode::AbsoluteX, 4),  // DC
    (Op::Cmp, AddressingMode::AbsoluteX, 4),  // DD
    (Op::Dec, AddressingMode::AbsoluteX, 7),  // DE
    (Op::Dcp, AddressingMode::AbsoluteX, 7),  // DF
    (Op::Cpx, AddressingMode::Immediate, 2),  // E0
    (Op::Sbc, AddressingMode::IndirectX, 6),  // E1
    (Op::Nop, AddressingMode::Immediate, 2),  // E2
    (Op::Isb, AddressingMode::IndirectX, 8),  // E3
    (Op::Cpx, AddressingMode::ZeroPage, 3),  // E4
    (Op::Sbc, AddressingMode::ZeroPage, 3),  // E5
    (Op::Inc, AddressingMode::ZeroPage, 5),  // E6
    (Op::Isb, AddressingMode::ZeroPage, 5),  // E7
    (Op::Inx, AddressingMode::Implicit, 2),  // E8
    (Op::Sbc, AddressingMode::Immediate, 2),  // E9
    (Op::Nop, AddressingMode::Implicit, 2),  // EA
    (Op::Sbc, AddressingMode::Immediate, 2),  // EB
    (Op::Cpx, AddressingMode::Absolute, 4),  // EC
    (Op::Sbc, AddressingMode::Absolute, 4),  // ED
    (Op::Inc, AddressingMode::Absolute, 6),  // EE
    (Op::Isb, AddressingMode::Absolute, 6),  // EF
    (Op::Beq, AddressingMode::Relative, 2),  // F0
    (Op::Sbc, AddressingMode::IndirectY, 5),  // F1
    (Op::Nop, AddressingMode::Implicit, 2),  // F2
    (Op::Isb, AddressingMode::IndirectY, 8),  // F3
    (Op::Nop, AddressingMode::ZeroPageX, 4),  // F4
    (Op::Sbc, AddressingMode::ZeroPageX, 4),  // F5
    (Op::Inc, AddressingMode::ZeroPageX, 6),  // F6
    (Op::Isb, AddressingMode::ZeroPageX, 6),  // F7
    (Op::Sed, AddressingMode::Implicit, 2),  // F8
    (Op::Sbc, AddressingMode::AbsoluteY, 4),  // F9
    (Op::Nop, AddressingMode::Implicit, 2),  // FA
    (Op::Isb, AddressingMode::AbsoluteY, 7),  // FB
    (Op::Nop, AddressingMode::AbsoluteX, 4),  // FC
    (Op::Sbc, AddressingMode::AbsoluteX, 4),  // FD
    (Op::Inc, AddressingMode::AbsoluteX, 7),  // FE
    (Op::Isb, AddressingMode::AbsoluteX, 7),  // FF
];

/// Looks an opcode up in the table.
pub fn decode(opcode: u8) -> (ins: (Op, AddressingMode, u8))
    ensures
        ins == INSTRUCTIONS[opcode as int],
{
    INSTRUCTIONS[opcode as usize]
}

} // verus!
