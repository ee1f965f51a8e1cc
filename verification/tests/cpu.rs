use nes_core::cpu::flags::{BREAK, CARRY, DECIMAL, IRQ_DISABLE, NEGATIVE, OVERFLOW, UNUSED, ZERO};
use nes_core::cpu::opcodes::{decode, INSTRUCTIONS};
use nes_core::cpu::{pages_differ, relative_target, AddressingMode, Cpu, Op};
use nes_core::memory::{FlatMemory, Memory};

/// A CPU about to execute `program`, which lies at 0x8000.
fn boot(program: &[u8]) -> (Cpu, FlatMemory) {
    let mut mem = FlatMemory::new();
    mem.load(0x8000, program);
    mem.load(0xFFFC, &[0x00, 0x80]);
    let mut cpu = Cpu::new();
    cpu.reset(&mut mem);
    cpu.cycles = 0;
    (cpu, mem)
}

/// Executes one instruction and returns what it cost in cycles.
fn run_one(cpu: &mut Cpu, mem: &mut FlatMemory) -> u8 {
    assert_eq!(cpu.cycles, 0);
    cpu.clock(mem);
    let cost = cpu.cycles + 1;
    cpu.cycles = 0;
    cost
}

fn flag(cpu: &Cpu, f: u8) -> bool {
    cpu.status & f != 0
}

#[test]
fn power_on_registers() {
    let cpu = Cpu::new();
    assert_eq!((cpu.a, cpu.x, cpu.y), (0, 0, 0));
    assert_eq!(cpu.sp, 0xFD);
    assert_eq!(cpu.pc, 0);
    assert_eq!(cpu.status, UNUSED | IRQ_DISABLE);
    assert_eq!(cpu.status, 0x24);
    assert_eq!(cpu.cycles, 0);
    assert!(!cpu.nmi_pending && !cpu.irq_pending);
}

#[test]
fn flag_bits_are_the_documented_ones() {
    assert_eq!(
        [CARRY, ZERO, IRQ_DISABLE, DECIMAL, BREAK, UNUSED, OVERFLOW, NEGATIVE],
        [0x01, 0x02, 0x04, 0x08, 0x10, 0x20, 0x40, 0x80]
    );
}

#[test]
fn reset_loads_pc_from_little_endian_vector() {
    let mut mem = FlatMemory::new();
    mem.load(0xFFFC, &[0x34, 0x12]);
    let mut cpu = Cpu::new();
    cpu.a = 9;
    cpu.x = 8;
    cpu.y = 7;
    cpu.sp = 0x10;
    cpu.status = 0xFF;
    cpu.reset(&mut mem);
    assert_eq!(cpu.pc, 0x1234);
    assert_eq!((cpu.a, cpu.x, cpu.y, cpu.sp, cpu.status), (0, 0, 0, 0xFD, 0x24));
    assert_eq!(cpu.cycles, 8);
    assert_eq!(cpu.total_cycles, 0);
}

#[test]
fn adc_50_plus_50_overflows_into_the_sign() {
    let mut cpu = Cpu::new();
    cpu.a = 0x50;
    cpu.set_flag(CARRY, false);
    cpu.adc_value(0x50);
    assert_eq!(cpu.a, 0xA0);
    assert!(flag(&cpu, OVERFLOW));
    assert!(!flag(&cpu, CARRY));
    assert!(flag(&cpu, NEGATIVE));
    assert!(!flag(&cpu, ZERO));
}

#[test]
fn adc_overflow_program() {
    // CLC; LDA #$7F; ADC #$01; BRK
    let (mut cpu, mut mem) = boot(&[0x18, 0xA9, 0x7F, 0x69, 0x01, 0x00]);
    mem.load(0xFFFE, &[0x00, 0x90]);
    assert_eq!(run_one(&mut cpu, &mut mem), 2);
    assert_eq!(run_one(&mut cpu, &mut mem), 2);
    assert_eq!(run_one(&mut cpu, &mut mem), 2);
    assert_eq!(cpu.a, 0x80);
    assert!(!flag(&cpu, CARRY));
    assert!(flag(&cpu, OVERFLOW));
    assert!(flag(&cpu, NEGATIVE));
    assert!(!flag(&cpu, ZERO));
    assert_eq!(run_one(&mut cpu, &mut mem), 7);
    assert_eq!(cpu.pc, 0x9000);
    assert_eq!(cpu.a, 0x80);
}

#[test]
fn adc_carry_in_and_out() {
    let mut cpu = Cpu::new();
    cpu.a = 0xFF;
    cpu.set_flag(CARRY, true);
    cpu.adc_value(0x00);
    assert_eq!(cpu.a, 0x00);
    assert!(flag(&cpu, CARRY) && flag(&cpu, ZERO));
    assert!(!flag(&cpu, OVERFLOW) && !flag(&cpu, NEGATIVE));
    cpu.adc_value(0x10);
    assert_eq!(cpu.a, 0x11);
    assert!(!flag(&cpu, CARRY));
    cpu.a = 0x80;
    cpu.adc_value(0x80);
    assert_eq!(cpu.a, 0x00);
    assert!(flag(&cpu, CARRY) && flag(&cpu, OVERFLOW) && flag(&cpu, ZERO));
}

#[test]
fn sbc_is_adc_of_the_complement() {
    // SEC; LDA #$50; SBC #$F0
    let (mut cpu, mut mem) = boot(&[0x38, 0xA9, 0x50, 0xE9, 0xF0]);
    for _ in 0..3 {
        run_one(&mut cpu, &mut mem);
    }
    assert_eq!(cpu.a, 0x60);
    assert!(!flag(&cpu, CARRY) && !flag(&cpu, OVERFLOW) && !flag(&cpu, NEGATIVE));
    // SEC; LDA #$50; SBC #$B0
    let (mut cpu, mut mem) = boot(&[0x38, 0xA9, 0x50, 0xE9, 0xB0]);
    for _ in 0..3 {
        run_one(&mut cpu, &mut mem);
    }
    assert_eq!(cpu.a, 0xA0);
    assert!(!flag(&cpu, CARRY) && flag(&cpu, OVERFLOW) && flag(&cpu, NEGATIVE));
    // SEC; LDA #$05; SBC #$03
    let (mut cpu, mut mem) = boot(&[0x38, 0xA9, 0x05, 0xE9, 0x03]);
    for _ in 0..3 {
        run_one(&mut cpu, &mut mem);
    }
    assert_eq!(cpu.a, 0x02);
    assert!(flag(&cpu, CARRY) && !flag(&cpu, ZERO));
    // the undocumented duplicate 0xEB does the same
    let (mut cpu, mut mem) = boot(&[0x38, 0xA9, 0x05, 0xEB, 0x03]);
    for _ in 0..3 {
        run_one(&mut cpu, &mut mem);
    }
    assert_eq!(cpu.a, 0x02);
}

#[test]
fn compare_sets_carry_when_register_is_not_smaller() {
    let mut cpu = Cpu::new();
    cpu.compare(0x10, 0x10);
    assert!(flag(&cpu, CARRY) && flag(&cpu, ZERO) && !flag(&cpu, NEGATIVE));
    cpu.compare(0x0F, 0x10);
    assert!(!flag(&cpu, CARRY) && !flag(&cpu, ZERO) && flag(&cpu, NEGATIVE));
    cpu.compare(0x90, 0x10);
    assert!(flag(&cpu, CARRY) && !flag(&cpu, ZERO) && flag(&cpu, NEGATIVE));
    // CPX #$05 with X = 6, CPY #$07 with Y = 6
    let (mut cpu, mut mem) = boot(&[0xA2, 0x06, 0xE0, 0x05, 0xA0, 0x06, 0xC0, 0x07]);
    run_one(&mut cpu, &mut mem);
    assert_eq!(run_one(&mut cpu, &mut mem), 2);
    assert!(flag(&cpu, CARRY));
    run_one(&mut cpu, &mut mem);
    run_one(&mut cpu, &mut mem);
    assert!(!flag(&cpu, CARRY) && flag(&cpu, NEGATIVE));
}

#[test]
fn branch_not_taken_costs_two_cycles() {
    // BEQ +0x10 with Z clear
    let (mut cpu, mut mem) = boot(&[0xF0, 0x10]);
    assert_eq!(run_one(&mut cpu, &mut mem), 2);
    assert_eq!(cpu.pc, 0x8002);
}

#[test]
fn branch_taken_in_page_costs_three_cycles() {
    // BNE +0x10 with Z clear
    let (mut cpu, mut mem) = boot(&[0xD0, 0x10]);
    assert_eq!(run_one(&mut cpu, &mut mem), 3);
    assert_eq!(cpu.pc, 0x8012);
    // BNE -2: back onto itself
    let (mut cpu, mut mem) = boot(&[0xD0, 0xFE]);
    assert_eq!(run_one(&mut cpu, &mut mem), 3);
    assert_eq!(cpu.pc, 0x8000);
}

#[test]
fn branch_taken_across_page_costs_four_cycles() {
    let mut mem = FlatMemory::new();
    mem.load(0x80F0, &[0xD0, 0x20]);
    mem.load(0xFFFC, &[0xF0, 0x80]);
    let mut cpu = Cpu::new();
    cpu.reset(&mut mem);
    cpu.cycles = 0;
    assert_eq!(run_one(&mut cpu, &mut mem), 4);
    assert_eq!(cpu.pc, 0x8112);
    // backwards across the page boundary
    let (mut cpu, mut mem) = boot(&[0xD0, 0xFC]);
    assert_eq!(run_one(&mut cpu, &mut mem), 4);
    assert_eq!(cpu.pc, 0x7FFE);
}

#[test]
fn every_branch_tests_its_flag() {
    // (opcode, flag, taken when the flag is set)
    let cases = [
        (0x90u8, CARRY, false),
        (0xB0, CARRY, true),
        (0xF0, ZERO, true),
        (0xD0, ZERO, false),
        (0x30, NEGATIVE, true),
        (0x10, NEGATIVE, false),
        (0x70, OVERFLOW, true),
        (0x50, OVERFLOW, false),
    ];
    for (opcode, f, taken_when_set) in cases {
        for set in [false, true] {
            let (mut cpu, mut mem) = boot(&[opcode, 0x05]);
            cpu.set_flag(f, set);
            let cost = run_one(&mut cpu, &mut mem);
            if set == taken_when_set {
                assert_eq!((cpu.pc, cost), (0x8007, 3), "opcode {:02X}", opcode);
            } else {
                assert_eq!((cpu.pc, cost), (0x8002, 2), "opcode {:02X}", opcode);
            }
        }
    }
}

#[test]
fn relative_target_and_page_test() {
    assert_eq!(relative_target(0x8002, 0x10), 0x8012);
    assert_eq!(relative_target(0x8002, 0xFE), 0x8000);
    assert_eq!(relative_target(0x0001, 0x80), 0xFF81);
    assert_eq!(relative_target(0xFFFF, 0x7F), 0x007E);
    assert!(!pages_differ(0x8000, 0x80FF));
    assert!(pages_differ(0x80FF, 0x8100));
}

#[test]
fn indirect_jump_wraps_within_the_page() {
    // JMP ($10FF)
    let (mut cpu, mut mem) = boot(&[0x6C, 0xFF, 0x10]);
    mem.write(0x10FF, 0x34);
    mem.write(0x1000, 0x12);
    mem.write(0x1100, 0x56);
    assert_eq!(run_one(&mut cpu, &mut mem), 5);
    assert_eq!(cpu.pc, 0x1234);
}

#[test]
fn indirect_jump_without_the_page_edge() {
    // JMP ($1080)
    let (mut cpu, mut mem) = boot(&[0x6C, 0x80, 0x10]);
    mem.write(0x1080, 0x78);
    mem.write(0x1081, 0x56);
    assert_eq!(run_one(&mut cpu, &mut mem), 5);
    assert_eq!(cpu.pc, 0x5678);
    // JMP $1234
    let (mut cpu, mut mem) = boot(&[0x4C, 0x34, 0x12]);
    assert_eq!(run_one(&mut cpu, &mut mem), 3);
    assert_eq!(cpu.pc, 0x1234);
}

#[test]
fn resolve_address_in_every_mode() {
    let (mut cpu, mut mem) = boot(&[0x44, 0x80]);
    cpu.x = 0x10;
    cpu.y = 0x20;
    mem.write(0x0044, 0x00);
    mem.write(0x0045, 0x30);
    mem.write(0x0054, 0xF0);
    mem.write(0x0055, 0x40);
    let at = |cpu: &Cpu| (cpu.pc, cpu.x, cpu.y);
    let start = at(&cpu);
    assert_eq!(cpu.resolve_address(AddressingMode::Implicit, &mut mem), (0, false));
    assert_eq!(cpu.resolve_address(AddressingMode::Accumulator, &mut mem), (0, false));
    assert_eq!(at(&cpu), start);
    assert_eq!(cpu.resolve_address(AddressingMode::Immediate, &mut mem), (0x8000, false));
    assert_eq!(cpu.pc, 0x8001);
    cpu.pc = 0x8000;
    assert_eq!(cpu.resolve_address(AddressingMode::ZeroPage, &mut mem), (0x0044, false));
    assert_eq!(cpu.pc, 0x8001);
    cpu.pc = 0x8000;
    assert_eq!(cpu.resolve_address(AddressingMode::ZeroPageX, &mut mem), (0x0054, false));
    cpu.pc = 0x8000;
    assert_eq!(cpu.resolve_address(AddressingMode::ZeroPageY, &mut mem), (0x0064, false));
    cpu.pc = 0x8000;
    assert_eq!(cpu.resolve_address(AddressingMode::Relative, &mut mem), (0x8045, false));
    cpu.pc = 0x8000;
    assert_eq!(cpu.resolve_address(AddressingMode::Absolute, &mut mem), (0x8044, false));
    assert_eq!(cpu.pc, 0x8002);
    cpu.pc = 0x8000;
    assert_eq!(cpu.resolve_address(AddressingMode::AbsoluteX, &mut mem), (0x8054, false));
    cpu.pc = 0x8000;
    cpu.y = 0xC0;
    assert_eq!(cpu.resolve_address(AddressingMode::AbsoluteY, &mut mem), (0x8104, true));
    cpu.pc = 0x8000;
    assert_eq!(cpu.resolve_address(AddressingMode::IndirectX, &mut mem), (0x40F0, false));
    assert_eq!(cpu.pc, 0x8001);
    cpu.pc = 0x8000;
    cpu.y = 0x20;
    assert_eq!(cpu.resolve_address(AddressingMode::IndirectY, &mut mem), (0x3020, false));
    cpu.pc = 0x8000;
    mem.write(0x0044, 0xF0);
    assert_eq!(cpu.resolve_address(AddressingMode::IndirectY, &mut mem), (0x3110, true));
    assert_eq!(cpu.pc, 0x8001);
}

#[test]
fn zero_page_indexing_wraps_within_page_zero() {
    // LDX #$02; LDA $FF,X
    let (mut cpu, mut mem) = boot(&[0xA2, 0x02, 0xB5, 0xFF]);
    mem.write(0x0001, 0x77);
    mem.write(0x0101, 0x99);
    run_one(&mut cpu, &mut mem);
    assert_eq!(run_one(&mut cpu, &mut mem), 4);
    assert_eq!(cpu.a, 0x77);
    // LDA ($FF,X) with X = 0 takes its pointer from 0x00FF and 0x0000
    let (mut cpu, mut mem) = boot(&[0xA1, 0xFF]);
    mem.write(0x00FF, 0x00);
    mem.write(0x0000, 0x02);
    mem.write(0x0100, 0x03);
    mem.write(0x0200, 0x5A);
    assert_eq!(run_one(&mut cpu, &mut mem), 6);
    assert_eq!(cpu.a, 0x5A);
}

#[test]
fn page_cross_costs_reads_one_cycle_and_writes_none() {
    // LDX #$20; LDA $10F0,X
    let (mut cpu, mut mem) = boot(&[0xA2, 0x20, 0xBD, 0xF0, 0x10]);
    mem.write(0x1110, 0x42);
    run_one(&mut cpu, &mut mem);
    assert_eq!(run_one(&mut cpu, &mut mem), 5);
    assert_eq!(cpu.a, 0x42);
    // LDX #$01; LDA $10F0,X
    let (mut cpu, mut mem) = boot(&[0xA2, 0x01, 0xBD, 0xF0, 0x10]);
    run_one(&mut cpu, &mut mem);
    assert_eq!(run_one(&mut cpu, &mut mem), 4);
    // LDX #$20; STA $10F0,X
    let (mut cpu, mut mem) = boot(&[0xA2, 0x20, 0x9D, 0xF0, 0x10]);
    cpu.a = 0x99;
    run_one(&mut cpu, &mut mem);
    assert_eq!(run_one(&mut cpu, &mut mem), 5);
    assert_eq!(mem.peek(0x1110), 0x99);
    // LDX #$20; INC $10F0,X
    let (mut cpu, mut mem) = boot(&[0xA2, 0x20, 0xFE, 0xF0, 0x10]);
    run_one(&mut cpu, &mut mem);
    assert_eq!(run_one(&mut cpu, &mut mem), 7);
    assert_eq!(mem.peek(0x1110), 0x01);
    // LDY #$10; LDA ($40),Y crossing and not crossing
    let (mut cpu, mut mem) = boot(&[0xA0, 0x10, 0xB1, 0x40, 0xB1, 0x42]);
    mem.load(0x0040, &[0xF8, 0x20, 0x00, 0x20]);
    run_one(&mut cpu, &mut mem);
    assert_eq!(run_one(&mut cpu, &mut mem), 6);
    assert_eq!(run_one(&mut cpu, &mut mem), 5);
}

#[test]
fn loads_and_stores() {
    // LDA #$00; LDX #$80; LDY #$01; STA $10; STX $11; STY $12
    let (mut cpu, mut mem) =
        boot(&[0xA9, 0x00, 0xA2, 0x80, 0xA0, 0x01, 0x85, 0x10, 0x86, 0x11, 0x84, 0x12]);
    mem.load(0x0010, &[0xEE, 0xEE, 0xEE]);
    run_one(&mut cpu, &mut mem);
    assert!(flag(&cpu, ZERO) && !flag(&cpu, NEGATIVE));
    run_one(&mut cpu, &mut mem);
    assert!(!flag(&cpu, ZERO) && flag(&cpu, NEGATIVE));
    run_one(&mut cpu, &mut mem);
    assert!(!flag(&cpu, ZERO) && !flag(&cpu, NEGATIVE));
    assert_eq!(run_one(&mut cpu, &mut mem), 3);
    run_one(&mut cpu, &mut mem);
    run_one(&mut cpu, &mut mem);
    assert_eq!((mem.peek(0x10), mem.peek(0x11), mem.peek(0x12)), (0x00, 0x80, 0x01));
    assert_eq!(cpu.pc, 0x800C);
}

#[test]
fn logic_instructions() {
    // LDA #$F0; AND #$3C; ORA #$03; EOR #$FF
    let (mut cpu, mut mem) = boot(&[0xA9, 0xF0, 0x29, 0x3C, 0x09, 0x03, 0x49, 0xFF]);
    run_one(&mut cpu, &mut mem);
    run_one(&mut cpu, &mut mem);
    assert_eq!(cpu.a, 0x30);
    run_one(&mut cpu, &mut mem);
    assert_eq!(cpu.a, 0x33);
    run_one(&mut cpu, &mut mem);
    assert_eq!(cpu.a, 0xCC);
    assert!(flag(&cpu, NEGATIVE));
}

#[test]
fn bit_copies_bits_seven_and_six() {
    // LDA #$01; BIT $10
    let (mut cpu, mut mem) = boot(&[0xA9, 0x01, 0x24, 0x10, 0x2C, 0x11, 0x00]);
    mem.write(0x0010, 0xC0);
    mem.write(0x0011, 0x01);
    run_one(&mut cpu, &mut mem);
    assert_eq!(run_one(&mut cpu, &mut mem), 3);
    assert!(flag(&cpu, ZERO) && flag(&cpu, NEGATIVE) && flag(&cpu, OVERFLOW));
    assert_eq!(cpu.a, 0x01);
    assert_eq!(run_one(&mut cpu, &mut mem), 4);
    assert!(!flag(&cpu, ZERO) && !flag(&cpu, NEGATIVE) && !flag(&cpu, OVERFLOW));
}

#[test]
fn shifts_and_rotates_on_the_accumulator() {
    let mut cpu = Cpu::new();
    cpu.a = 0x81;
    cpu.asl_acc();
    assert_eq!(cpu.a, 0x02);
    assert!(flag(&cpu, CARRY) && !flag(&cpu, NEGATIVE) && !flag(&cpu, ZERO));
    cpu.a = 0x01;
    cpu.lsr_acc();
    assert_eq!(cpu.a, 0x00);
    assert!(flag(&cpu, CARRY) && flag(&cpu, ZERO));
    cpu.a = 0x80;
    cpu.rol_acc();
    assert_eq!(cpu.a, 0x01);
    assert!(flag(&cpu, CARRY));
    cpu.a = 0x01;
    cpu.ror_acc();
    assert_eq!(cpu.a, 0x80);
    assert!(flag(&cpu, CARRY) && flag(&cpu, NEGATIVE));
    cpu.set_flag(CARRY, false);
    cpu.a = 0x40;
    cpu.rol_acc();
    assert_eq!(cpu.a, 0x80);
    assert!(!flag(&cpu, CARRY));
    cpu.a = 0x02;
    cpu.ror_acc();
    assert_eq!(cpu.a, 0x01);
    assert!(!flag(&cpu, CARRY));
}

#[test]
fn read_modify_write_on_memory() {
    // INC $10; DEC $11; ASL $12; LSR $13; ROL $14; ROR $15
    let (mut cpu, mut mem) =
        boot(&[0xE6, 0x10, 0xC6, 0x11, 0x06, 0x12, 0x46, 0x13, 0x26, 0x14, 0x66, 0x15]);
    mem.load(0x0010, &[0xFF, 0x00, 0xC0, 0x03, 0x80, 0x01]);
    assert_eq!(run_one(&mut cpu, &mut mem), 5);
    assert_eq!(mem.peek(0x10), 0x00);
    assert!(flag(&cpu, ZERO));
    run_one(&mut cpu, &mut mem);
    assert_eq!(mem.peek(0x11), 0xFF);
    assert!(flag(&cpu, NEGATIVE));
    run_one(&mut cpu, &mut mem);
    assert_eq!(mem.peek(0x12), 0x80);
    assert!(flag(&cpu, CARRY));
    run_one(&mut cpu, &mut mem);
    assert_eq!(mem.peek(0x13), 0x01);
    assert!(flag(&cpu, CARRY));
    run_one(&mut cpu, &mut mem);
    assert_eq!(mem.peek(0x14), 0x01);
    assert!(flag(&cpu, CARRY));
    run_one(&mut cpu, &mut mem);
    assert_eq!(mem.peek(0x15), 0x80);
    assert!(flag(&cpu, CARRY));
}

#[test]
fn register_transfers_and_counts() {
    // LDA #$80; TAX; TAY; INX; DEY; TXA; TYA; TSX; LDX #$40; TXS
    let (mut cpu, mut mem) =
        boot(&[0xA9, 0x80, 0xAA, 0xA8, 0xE8, 0x88, 0x8A, 0x98, 0xBA, 0xA2, 0x40, 0x9A]);
    run_one(&mut cpu, &mut mem);
    assert_eq!(run_one(&mut cpu, &mut mem), 2);
    run_one(&mut cpu, &mut mem);
    assert_eq!((cpu.x, cpu.y), (0x80, 0x80));
    run_one(&mut cpu, &mut mem);
    run_one(&mut cpu, &mut mem);
    assert_eq!((cpu.x, cpu.y), (0x81, 0x7F));
    assert!(!flag(&cpu, NEGATIVE));
    run_one(&mut cpu, &mut mem);
    assert_eq!(cpu.a, 0x81);
    run_one(&mut cpu, &mut mem);
    assert_eq!(cpu.a, 0x7F);
    run_one(&mut cpu, &mut mem);
    assert_eq!(cpu.x, 0xFD);
    run_one(&mut cpu, &mut mem);
    let status = cpu.status;
    run_one(&mut cpu, &mut mem);
    assert_eq!(cpu.sp, 0x40);
    assert_eq!(cpu.status, status);
    // INX and DEY wrap
    let (mut cpu, mut mem) = boot(&[0xE8, 0x88, 0xC8, 0xCA]);
    cpu.x = 0xFF;
    cpu.y = 0x00;
    run_one(&mut cpu, &mut mem);
    assert_eq!(cpu.x, 0x00);
    assert!(flag(&cpu, ZERO));
    run_one(&mut cpu, &mut mem);
    assert_eq!(cpu.y, 0xFF);
    run_one(&mut cpu, &mut mem);
    assert_eq!(cpu.y, 0x00);
    run_one(&mut cpu, &mut mem);
    assert_eq!(cpu.x, 0xFF);
}

#[test]
fn flag_instructions() {
    // SEC; SED; SEI; CLC; CLD; CLI; CLV
    let (mut cpu, mut mem) = boot(&[0x38, 0xF8, 0x78, 0x18, 0xD8, 0x58, 0xB8]);
    cpu.status = 0x20 | OVERFLOW;
    run_one(&mut cpu, &mut mem);
    run_one(&mut cpu, &mut mem);
    assert_eq!(run_one(&mut cpu, &mut mem), 2);
    assert_eq!(cpu.status, 0x20 | OVERFLOW | CARRY | DECIMAL | IRQ_DISABLE);
    for _ in 0..4 {
        run_one(&mut cpu, &mut mem);
    }
    assert_eq!(cpu.status, 0x20);
}

#[test]
fn stack_push_and_pull() {
    let (mut cpu, mut mem) = boot(&[]);
    cpu.push(0xAB, &mut mem);
    assert_eq!(mem.peek(0x01FD), 0xAB);
    assert_eq!(cpu.sp, 0xFC);
    cpu.push16(0x1234, &mut mem);
    assert_eq!((mem.peek(0x01FC), mem.peek(0x01FB)), (0x12, 0x34));
    assert_eq!(cpu.sp, 0xFA);
    assert_eq!(cpu.pull16(&mut mem), 0x1234);
    assert_eq!(cpu.pull(&mut mem), 0xAB);
    assert_eq!(cpu.sp, 0xFD);
    // the stack pointer wraps
    cpu.sp = 0x00;
    cpu.push(0x11, &mut mem);
    assert_eq!(mem.peek(0x0100), 0x11);
    assert_eq!(cpu.sp, 0xFF);
    cpu.push(0x22, &mut mem);
    assert_eq!(cpu.pull(&mut mem), 0x22);
    assert_eq!(cpu.pull(&mut mem), 0x11);
    assert_eq!(cpu.sp, 0x00);
}

#[test]
fn stack_instructions() {
    // LDA #$80; PHA; LDA #$00; PLA; PHP; PLP
    let (mut cpu, mut mem) = boot(&[0xA9, 0x80, 0x48, 0xA9, 0x00, 0x68, 0x08, 0x28]);
    run_one(&mut cpu, &mut mem);
    assert_eq!(run_one(&mut cpu, &mut mem), 3);
    assert_eq!(mem.peek(0x01FD), 0x80);
    run_one(&mut cpu, &mut mem);
    assert_eq!(run_one(&mut cpu, &mut mem), 4);
    assert_eq!(cpu.a, 0x80);
    assert!(flag(&cpu, NEGATIVE));
    let status = cpu.status;
    assert_eq!(run_one(&mut cpu, &mut mem), 3);
    assert_eq!(mem.peek(0x01FD), status | BREAK | UNUSED);
    cpu.status = 0x20;
    assert_eq!(run_one(&mut cpu, &mut mem), 4);
    assert_eq!(cpu.status, status);
    assert!(!flag(&cpu, BREAK));
}

#[test]
fn subroutine_call_and_return() {
    // JSR $8010 ... RTS
    let (mut cpu, mut mem) = boot(&[0x20, 0x10, 0x80]);
    mem.write(0x8010, 0x60);
    assert_eq!(run_one(&mut cpu, &mut mem), 6);
    assert_eq!(cpu.pc, 0x8010);
    assert_eq!((mem.peek(0x01FD), mem.peek(0x01FC)), (0x80, 0x02));
    assert_eq!(cpu.sp, 0xFB);
    assert_eq!(run_one(&mut cpu, &mut mem), 6);
    assert_eq!(cpu.pc, 0x8003);
    assert_eq!(cpu.sp, 0xFD);
}

#[test]
fn nmi_sequence() {
    let (mut cpu, mut mem) = boot(&[0xEA]);
    mem.load(0xFFFA, &[0x00, 0x90]);
    cpu.trigger_nmi();
    assert!(cpu.nmi_pending);
    cpu.clock(&mut mem);
    assert_eq!(cpu.pc, 0x9000);
    assert_eq!(cpu.cycles, 7);
    assert!(!cpu.nmi_pending);
    assert_eq!((mem.peek(0x01FD), mem.peek(0x01FC), mem.peek(0x01FB)), (0x80, 0x00, 0x24));
    assert_eq!(cpu.sp, 0xFA);
    assert!(flag(&cpu, IRQ_DISABLE));
}

#[test]
fn irq_waits_for_interrupts_to_be_enabled() {
    // CLI; NOP
    let (mut cpu, mut mem) = boot(&[0x58, 0xEA]);
    mem.load(0xFFFE, &[0x00, 0xA0]);
    cpu.trigger_irq();
    // interrupts are disabled after reset: the instruction runs
    run_one(&mut cpu, &mut mem);
    assert_eq!(cpu.pc, 0x8001);
    assert!(cpu.irq_pending);
    cpu.clock(&mut mem);
    assert_eq!(cpu.pc, 0xA000);
    assert_eq!(cpu.cycles, 7);
    assert!(!cpu.irq_pending);
    assert_eq!((mem.peek(0x01FD), mem.peek(0x01FC), mem.peek(0x01FB)), (0x80, 0x01, 0x20));
    assert!(flag(&cpu, IRQ_DISABLE));
}

#[test]
fn nmi_goes_before_irq() {
    let (mut cpu, mut mem) = boot(&[0xEA]);
    mem.load(0xFFFA, &[0x00, 0x90]);
    mem.load(0xFFFE, &[0x00, 0xA0]);
    cpu.status = 0x20;
    cpu.trigger_irq();
    cpu.trigger_nmi();
    cpu.clock(&mut mem);
    assert_eq!(cpu.pc, 0x9000);
    assert!(cpu.irq_pending);
}

#[test]
fn brk_pushes_status_with_break_set_and_skips_a_byte() {
    let (mut cpu, mut mem) = boot(&[0x00, 0xFF]);
    mem.load(0xFFFE, &[0x00, 0xA0]);
    assert_eq!(run_one(&mut cpu, &mut mem), 7);
    assert_eq!(cpu.pc, 0xA000);
    assert_eq!((mem.peek(0x01FD), mem.peek(0x01FC), mem.peek(0x01FB)), (0x80, 0x02, 0x34));
    assert_eq!(cpu.status, 0x24);
    // RTI returns behind the skipped byte, with break clear
    mem.write(0xA000, 0x40);
    assert_eq!(run_one(&mut cpu, &mut mem), 6);
    assert_eq!(cpu.pc, 0x8002);
    assert_eq!(cpu.status, 0x24);
    assert_eq!(cpu.sp, 0xFD);
}

#[test]
fn undocumented_loads_and_stores() {
    // LAX $10; SAX $11
    let (mut cpu, mut mem) = boot(&[0xA7, 0x10, 0x87, 0x11, 0xA2, 0x0F, 0x87, 0x12]);
    mem.write(0x0010, 0xF3);
    assert_eq!(run_one(&mut cpu, &mut mem), 3);
    assert_eq!((cpu.a, cpu.x), (0xF3, 0xF3));
    assert!(flag(&cpu, NEGATIVE));
    assert_eq!(run_one(&mut cpu, &mut mem), 3);
    assert_eq!(mem.peek(0x11), 0xF3);
    run_one(&mut cpu, &mut mem);
    let status = cpu.status;
    run_one(&mut cpu, &mut mem);
    assert_eq!(mem.peek(0x12), 0x03);
    assert_eq!(cpu.status, status);
}

#[test]
fn undocumented_read_modify_write() {
    // DCP $10: memory 0x11 -> 0x10, compared with A = 0x10
    let (mut cpu, mut mem) = boot(&[0xC7, 0x10]);
    cpu.a = 0x10;
    mem.write(0x10, 0x11);
    assert_eq!(run_one(&mut cpu, &mut mem), 5);
    assert_eq!(mem.peek(0x10), 0x10);
    assert!(flag(&cpu, ZERO) && flag(&cpu, CARRY));
    // ISB $10: memory 0x02 -> 0x03, A = 0x10 - 0x03 with carry set
    let (mut cpu, mut mem) = boot(&[0xE7, 0x10]);
    cpu.a = 0x10;
    cpu.set_flag(CARRY, true);
    mem.write(0x10, 0x02);
    assert_eq!(run_one(&mut cpu, &mut mem), 5);
    assert_eq!(mem.peek(0x10), 0x03);
    assert_eq!(cpu.a, 0x0D);
    assert!(flag(&cpu, CARRY));
    // SLO $10: memory 0x81 -> 0x02, A = 0x10 | 0x02
    let (mut cpu, mut mem) = boot(&[0x07, 0x10]);
    cpu.a = 0x10;
    mem.write(0x10, 0x81);
    run_one(&mut cpu, &mut mem);
    assert_eq!((mem.peek(0x10), cpu.a), (0x02, 0x12));
    assert!(flag(&cpu, CARRY));
    // RLA $10: memory 0x81 rotated with carry set -> 0x03, A = 0xFF & 0x03
    let (mut cpu, mut mem) = boot(&[0x27, 0x10]);
    cpu.a = 0xFF;
    cpu.set_flag(CARRY, true);
    mem.write(0x10, 0x81);
    run_one(&mut cpu, &mut mem);
    assert_eq!((mem.peek(0x10), cpu.a), (0x03, 0x03));
    assert!(flag(&cpu, CARRY));
    // SRE $10: memory 0x03 -> 0x01, A = 0xFF ^ 0x01
    let (mut cpu, mut mem) = boot(&[0x47, 0x10]);
    cpu.a = 0xFF;
    mem.write(0x10, 0x03);
    run_one(&mut cpu, &mut mem);
    assert_eq!((mem.peek(0x10), cpu.a), (0x01, 0xFE));
    assert!(flag(&cpu, CARRY));
    // RRA $10: memory 0x03 rotated with carry clear -> 0x01, carry set,
    // then A = 0x10 + 0x01 + 1
    let (mut cpu, mut mem) = boot(&[0x67, 0x10]);
    cpu.a = 0x10;
    cpu.set_flag(CARRY, false);
    mem.write(0x10, 0x03);
    run_one(&mut cpu, &mut mem);
    assert_eq!((mem.peek(0x10), cpu.a), (0x01, 0x12));
    assert!(!flag(&cpu, CARRY));
}

#[test]
fn undocumented_nops_consume_their_operands() {
    let cases: [(u8, u16, u8); 8] = [
        (0x1A, 1, 2),
        (0xEA, 1, 2),
        (0x80, 2, 2),
        (0x04, 2, 3),
        (0x14, 2, 4),
        (0x0C, 3, 4),
        (0x1C, 3, 4),
        (0xFC, 3, 4),
    ];
    for (opcode, length, cost) in cases {
        let (mut cpu, mut mem) = boot(&[opcode, 0x10, 0x20]);
        let before = (cpu.a, cpu.x, cpu.y, cpu.sp, cpu.status);
        assert_eq!(run_one(&mut cpu, &mut mem), cost, "opcode {:02X}", opcode);
        assert_eq!(cpu.pc, 0x8000 + length, "opcode {:02X}", opcode);
        assert_eq!((cpu.a, cpu.x, cpu.y, cpu.sp, cpu.status), before);
    }
    // the one indexed by X pays for a page crossing
    let (mut cpu, mut mem) = boot(&[0x1C, 0xF0, 0x10]);
    cpu.x = 0x20;
    assert_eq!(run_one(&mut cpu, &mut mem), 5);
    assert_eq!(cpu.pc, 0x8003);
}

#[test]
fn unknown_opcodes_are_two_cycle_nops() {
    for opcode in [0x02u8, 0x12, 0x0B, 0x8B, 0x9E, 0xBB, 0xCB, 0xF2] {
        let (mut cpu, mut mem) = boot(&[opcode, 0x10]);
        let before = (cpu.a, cpu.x, cpu.y, cpu.sp, cpu.status);
        assert_eq!(run_one(&mut cpu, &mut mem), 2);
        assert_eq!(cpu.pc, 0x8001);
        assert_eq!((cpu.a, cpu.x, cpu.y, cpu.sp, cpu.status), before);
        assert_eq!(decode(opcode), (Op::Nop, AddressingMode::Implicit, 2));
    }
}

#[test]
fn opcode_table_rows() {
    assert_eq!(INSTRUCTIONS.len(), 256);
    let rows: [(u8, Op, AddressingMode, u8); 24] = [
        (0x00, Op::Brk, AddressingMode::Implicit, 7),
        (0x01, Op::Ora, AddressingMode::IndirectX, 6),
        (0x0A, Op::Asl, AddressingMode::Accumulator, 2),
        (0x10, Op::Bpl, AddressingMode::Relative, 2),
        (0x20, Op::Jsr, AddressingMode::Absolute, 6),
        (0x24, Op::Bit, AddressingMode::ZeroPage, 3),
        (0x40, Op::Rti, AddressingMode::Implicit, 6),
        (0x4C, Op::Jmp, AddressingMode::Absolute, 3),
        (0x60, Op::Rts, AddressingMode::Implicit, 6),
        (0x6C, Op::Jmp, AddressingMode::Indirect, 5),
        (0x71, Op::Adc, AddressingMode::IndirectY, 5),
        (0x7E, Op::Ror, AddressingMode::AbsoluteX, 7),
        (0x81, Op::Sta, AddressingMode::IndirectX, 6),
        (0x91, Op::Sta, AddressingMode::IndirectY, 6),
        (0x96, Op::Stx, AddressingMode::ZeroPageY, 4),
        (0x9D, Op::Sta, AddressingMode::AbsoluteX, 5),
        (0xA9, Op::Lda, AddressingMode::Immediate, 2),
        (0xB6, Op::Ldx, AddressingMode::ZeroPageY, 4),
        (0xBE, Op::Ldx, AddressingMode::AbsoluteY, 4),
        (0xC3, Op::Dcp, AddressingMode::IndirectX, 8),
        (0xEA, Op::Nop, AddressingMode::Implicit, 2),
        (0xEB, Op::Sbc, AddressingMode::Immediate, 2),
        (0xF3, Op::Isb, AddressingMode::IndirectY, 8),
        (0xFE, Op::Inc, AddressingMode::AbsoluteX, 7),
    ];
    for (opcode, op, mode, cycles) in rows {
        assert_eq!(decode(opcode), (op, mode, cycles), "opcode {:02X}", opcode);
        assert_eq!(INSTRUCTIONS[opcode as usize], (op, mode, cycles));
    }
}

#[test]
fn clock_counts_an_instruction_down() {
    // LDA #$01 (2 cycles); LDA #$02
    let (mut cpu, mut mem) = boot(&[0xA9, 0x01, 0xA9, 0x02]);
    cpu.clock(&mut mem);
    assert_eq!((cpu.a, cpu.cycles, cpu.total_cycles), (1, 1, 1));
    cpu.clock(&mut mem);
    assert_eq!((cpu.a, cpu.cycles, cpu.total_cycles), (1, 0, 2));
    cpu.clock(&mut mem);
    assert_eq!((cpu.a, cpu.cycles, cpu.total_cycles), (2, 1, 3));
}

#[test]
fn step_sets_the_cost_and_then_counts_down() {
    // LDA #$01 (2 cycles); LDA #$02
    let (mut cpu, mut mem) = boot(&[0xA9, 0x01, 0xA9, 0x02]);
    cpu.step(&mut mem);
    assert_eq!((cpu.a, cpu.cycles), (1, 2));
    cpu.step(&mut mem);
    assert_eq!((cpu.a, cpu.cycles), (1, 1));
    cpu.step(&mut mem);
    assert_eq!((cpu.a, cpu.cycles), (1, 0));
    cpu.step(&mut mem);
    assert_eq!((cpu.a, cpu.cycles), (2, 2));
    // an interrupt costs seven cycles
    let (mut cpu, mut mem) = boot(&[0xEA]);
    mem.load(0xFFFA, &[0x00, 0x90]);
    cpu.trigger_nmi();
    cpu.step(&mut mem);
    assert_eq!((cpu.pc, cpu.cycles), (0x9000, 7));
}

#[test]
fn add_cycle_stops_at_the_top() {
    let mut cpu = Cpu::new();
    cpu.cycles = 254;
    cpu.add_cycle();
    assert_eq!(cpu.cycles, 255);
    cpu.add_cycle();
    assert_eq!(cpu.cycles, 255);
}

#[test]
fn flat_memory_loads_and_keeps_bytes() {
    let mut mem = FlatMemory::new();
    assert_eq!(mem.peek(0x1234), 0);
    mem.load(0xFFFE, &[1, 2, 3, 4]);
    assert_eq!((mem.peek(0xFFFE), mem.peek(0xFFFF), mem.peek(0x0000)), (1, 2, 0));
    mem.write(0x0000, 9);
    assert_eq!(mem.read(0x0000), 9);
    assert_eq!(mem.bytes.len(), 65536);
}
