//! End-to-end scenarios driven through `reset`, `clock`, `irq` and `nmi`.

use emulator_6502::processor::Processor;

/// A processor with `program` placed at `addr` and the program counter
/// pointing at its first byte.
fn with_program(addr: u16, program: &[u8]) -> Processor {
    let mut p = Processor::new();
    let mut i: u16 = 0;
    for &b in program {
        let _ = p.bus.write(addr.wrapping_add(i), b);
        i = i.wrapping_add(1);
    }
    p.program_counter = addr;
    p
}

/// Runs exactly one instruction (the first `clock` plus the remaining
/// cycle debt) and returns how many host cycles it consumed.
fn run_instruction(p: &mut Processor) -> u32 {
    let mut spent: u32 = 1;
    p.clock();
    while p.cycles > 0 {
        p.clock();
        spent += 1;
    }
    spent
}

/// LDA immediate: `A9 42` at 0x8000, reset vector 0x8000.  After reset
/// and one full instruction: A = 0x42, Z = 0, N = 0, PC = 0x8002, and
/// the instruction consumed 2 cycles.
#[test]
fn lda_immediate_scenario() {
    let mut p = Processor::new();
    p.load_rom(&vec![0xA9, 0x42], 0);
    let _ = p.bus.write(0xFFFC, 0x00);
    let _ = p.bus.write(0xFFFD, 0x80);
    p.reset();
    assert_eq!(p.program_counter, 0x8000);
    for _ in 0..8 {
        p.clock();
    }
    assert_eq!(p.cycles, 0);
    let spent = run_instruction(&mut p);
    assert_eq!(p.accumulator, 0x42);
    assert!(!p.get_z());
    assert!(!p.get_n());
    assert_eq!(p.program_counter, 0x8002);
    assert_eq!(spent, 2);
}

/// ADC sets V and C: A = 0x50, C = 0, executing `69 50` gives A = 0xA0
/// with C = 0, Z = 0, V = 1, N = 1.
#[test]
fn adc_sets_overflow_and_carry() {
    let mut p = with_program(0x8000, &[0x69, 0x50]);
    p.accumulator = 0x50;
    p.set_c(false);
    run_instruction(&mut p);
    assert_eq!(p.accumulator, 0xA0);
    assert!(!p.get_c());
    assert!(!p.get_z());
    assert!(p.get_o());
    assert!(p.get_n());
}

/// Branch taken with page cross: PC = 0x80FD, Z = 1, instruction
/// `F0 05` (BEQ +5) lands on 0x8104 and costs 2 + 1 + 1 = 4 cycles.
#[test]
fn branch_taken_with_page_cross() {
    let mut p = with_program(0x80FD, &[0xF0, 0x05]);
    p.set_z(true);
    let spent = run_instruction(&mut p);
    assert_eq!(p.program_counter, 0x8104);
    assert_eq!(spent, 4);
}

/// A taken branch that stays on its page costs 3 cycles.
#[test]
fn branch_taken_same_page() {
    let mut p = with_program(0x8000, &[0xF0, 0x05]);
    p.set_z(true);
    let spent = run_instruction(&mut p);
    assert_eq!(p.program_counter, 0x8007);
    assert_eq!(spent, 3);
}

/// An untaken branch costs the base 2 cycles and falls through.
#[test]
fn branch_untaken_costs_base_cycles() {
    let mut p = with_program(0x80FD, &[0xF0, 0x05]);
    p.set_z(false);
    let spent = run_instruction(&mut p);
    assert_eq!(p.program_counter, 0x80FF);
    assert_eq!(spent, 2);
}

/// JSR/RTS round trip: `20 06 80 EA EA EA 60` from 0x8000 with
/// SP = 0xFF comes back to PC = 0x8003 with SP = 0xFF.
#[test]
fn jsr_rts_round_trip() {
    let mut p = with_program(0x8000, &[0x20, 0x06, 0x80, 0xEA, 0xEA, 0xEA, 0x60]);
    p.stack_pointer = 0xFF;
    let jsr_cycles = run_instruction(&mut p);
    assert_eq!(jsr_cycles, 6);
    assert_eq!(p.program_counter, 0x8006);
    assert_eq!(p.stack_pointer, 0xFD);
    let rts_cycles = run_instruction(&mut p);
    assert_eq!(rts_cycles, 6);
    assert_eq!(p.program_counter, 0x8003);
    assert_eq!(p.stack_pointer, 0xFF);
}

/// Indirect JMP bug: with 0x34 at 0x80FF, 0x12 at 0x8000 and 0x99 at
/// 0x8100, `6C FF 80` jumps to 0x1234, not 0x9934.
#[test]
fn indirect_jmp_page_bug() {
    let mut p = with_program(0x8200, &[0x6C, 0xFF, 0x80]);
    let _ = p.bus.write(0x80FF, 0x34);
    let _ = p.bus.write(0x8000, 0x12);
    let _ = p.bus.write(0x8100, 0x99);
    run_instruction(&mut p);
    assert_eq!(p.program_counter, 0x1234);
}

/// The same bug at a RAM pointer: with the pointer at 0x10FF the high
/// byte comes from 0x1000, not 0x1100.
#[test]
fn indirect_pointer_wraps_within_page() {
    let mut p = with_program(0x8200, &[0x6C, 0xFF, 0x10]);
    let _ = p.bus.write(0x10FF, 0x34);
    let _ = p.bus.write(0x1000, 0x12);
    let _ = p.bus.write(0x1100, 0x99);
    run_instruction(&mut p);
    assert_eq!(p.program_counter, 0x1234);
}

/// NMI during masked state: with I = 1 the NMI still runs: PC is
/// pushed, the status is pushed with U = 1 and B = 0, I stays set, PC
/// comes from the vector at 0xFFFA, and 8 cycles are charged.  An IRQ
/// in the same state does nothing.
#[test]
fn nmi_during_masked_state() {
    let mut p = Processor::new();
    p.program_counter = 0x8123;
    p.stack_pointer = 0xFF;
    p.set_i(true);
    let _ = p.bus.write(0xFFFA, 0x00);
    let _ = p.bus.write(0xFFFB, 0x90);
    p.nmi();
    assert_eq!(p.program_counter, 0x9000);
    assert_eq!(p.cycles, 8);
    assert_eq!(p.stack_pointer, 0xFC);
    assert_eq!(p.bus.read(0x01FF), 0x81);
    assert_eq!(p.bus.read(0x01FE), 0x23);
    let pushed = p.bus.read(0x01FD);
    assert_eq!(pushed & 0x20, 0x20);
    assert_eq!(pushed & 0x10, 0x00);
    assert!(p.get_i());

    let mut q = Processor::new();
    q.program_counter = 0x8123;
    q.stack_pointer = 0xFF;
    q.set_i(true);
    q.irq();
    assert_eq!(q.program_counter, 0x8123);
    assert_eq!(q.cycles, 0);
    assert_eq!(q.stack_pointer, 0xFF);
}

/// An unmasked IRQ pushes state, sets I, loads the vector at 0xFFFE
/// and charges 7 cycles.
#[test]
fn irq_when_unmasked() {
    let mut p = Processor::new();
    p.program_counter = 0x8123;
    p.stack_pointer = 0xFF;
    let _ = p.bus.write(0xFFFE, 0x67);
    let _ = p.bus.write(0xFFFF, 0x45);
    p.irq();
    assert_eq!(p.program_counter, 0x4567);
    assert_eq!(p.cycles, 7);
    assert!(p.get_i());
    assert!(p.get_u());
    assert_eq!(p.stack_pointer, 0xFC);
}

/// Reset vector honored: writing `0x34 0x12` to 0xFFFC/D then `reset`
/// makes PC = 0x1234, SP = 0xFF, U = 1, and charges 8 cycles.
#[test]
fn reset_vector_honored() {
    let mut p = Processor::new();
    let _ = p.bus.write(0xFFFC, 0x34);
    let _ = p.bus.write(0xFFFD, 0x12);
    p.accumulator = 0x99;
    p.reset();
    assert_eq!(p.program_counter, 0x1234);
    assert_eq!(p.stack_pointer, 0xFF);
    assert_eq!(p.accumulator, 0x00);
    assert!(p.get_u());
    assert_eq!(p.cycles, 8);
}

/// ABS,X read crossing a page costs one extra cycle on a read-only
/// operation: LDA 0x80FF,X with X = 1 reads 0x8100 in 5 cycles.
#[test]
fn absolute_x_cross_costs_extra_on_read() {
    let mut p = with_program(0x8200, &[0xBD, 0xFF, 0x80]);
    p.index_register_x = 1;
    let _ = p.bus.write(0x8100, 0x5A);
    let spent = run_instruction(&mut p);
    assert_eq!(p.accumulator, 0x5A);
    assert_eq!(spent, 5);
}

/// The same crossing on a read-modify-write operation has a constant
/// cost: ASL 0x80FF,X with X = 1 stays at its base 7 cycles.
#[test]
fn absolute_x_cross_constant_on_rmw() {
    let mut p = with_program(0x8200, &[0x1E, 0xFF, 0x80]);
    p.index_register_x = 1;
    let _ = p.bus.write(0x8100, 0x41);
    let spent = run_instruction(&mut p);
    assert_eq!(p.bus.read(0x8100), 0x82);
    assert_eq!(spent, 7);
}

/// Zero-page indexed addressing wraps: LDA $FF,X with X = 1 reads from
/// 0x0000, not 0x0100.
#[test]
fn zero_page_indexed_wraps() {
    let mut p = with_program(0x8000, &[0xB5, 0xFF]);
    p.index_register_x = 1;
    let _ = p.bus.write(0x0000, 0x77);
    let _ = p.bus.write(0x0100, 0x11);
    run_instruction(&mut p);
    assert_eq!(p.accumulator, 0x77);
}

/// Every opcode byte dispatches through the table and completes an
/// instruction without trapping.
#[test]
fn all_opcodes_dispatch() {
    for op in 0..=255u8 {
        let mut p = with_program(0x8000, &[op, 0x01, 0x02]);
        p.stack_pointer = 0xFF;
        p.clock();
        let mut guard = 0;
        while p.cycles > 0 && guard < 16 {
            p.clock();
            guard += 1;
        }
        assert_eq!(p.cycles, 0);
    }
}

/// After every clock tick of an ordinary program, the U bit reads 1 and
/// the cycle debt sinks by one per tick between fetches.
#[test]
fn unused_flag_and_cycle_drain() {
    let mut p = with_program(0x8000, &[0xA9, 0x42, 0xE8, 0xEA]);
    p.clock();
    assert!(p.get_u());
    let mut last = p.cycles;
    while p.cycles > 0 {
        p.clock();
        assert!(p.get_u());
        assert_eq!(p.cycles, last - 1);
        last = p.cycles;
    }
}

/// Every JAM opcode freezes the CPU: across many ticks the program
/// counter, registers, stack pointer, cycle counter and memory all
/// stay put.
#[test]
fn jam_halts_forward_progress() {
    let jams: [u8; 12] = [0x02, 0x12, 0x22, 0x32, 0x42, 0x52, 0x62, 0x72, 0x92, 0xB2, 0xD2, 0xF2];
    for &op in jams.iter() {
        let mut p = with_program(0x8000, &[op, 0x01, 0x02]);
        p.accumulator = 0x11;
        p.index_register_x = 0x22;
        p.index_register_y = 0x33;
        p.stack_pointer = 0xFD;
        for _ in 0..10 {
            p.clock();
            assert_eq!(p.program_counter, 0x8000);
            assert_eq!(p.accumulator, 0x11);
            assert_eq!(p.index_register_x, 0x22);
            assert_eq!(p.index_register_y, 0x33);
            assert_eq!(p.stack_pointer, 0xFD);
            assert_eq!(p.cycles, 0);
            assert_eq!(p.bus.read(0x8001), 0x01);
        }
    }
}

/// `new_setup` stores the given program counter in the reset vector.
#[test]
fn new_setup_seeds_reset_vector() {
    let mut p = Processor::new_setup(Some(0x1234));
    assert_eq!(p.bus.read(0xFFFC), 0x34);
    assert_eq!(p.bus.read(0xFFFD), 0x12);
    p.reset();
    assert_eq!(p.program_counter, 0x1234);

    let q = Processor::new_setup(None);
    assert_eq!(q.bus.read(0xFFFC), 0x00);
    assert_eq!(q.bus.read(0xFFFD), 0x00);
}
