//! Per-operation flag and value checks, and the algebraic round trips
//! on concrete values.

use emulator_6502::processor::Processor;

fn with_program(addr: u16, program: &[u8]) -> Processor {
    let mut p = Processor::new();
    let mut i: u16 = 0;
    for &b in program {
        let _ = p.bus.write(addr.wrapping_add(i), b);
        i = i.wrapping_add(1);
    }
    p.program_counter = addr;
    p
}

fn run_instruction(p: &mut Processor) {
    p.clock();
    while p.cycles > 0 {
        p.clock();
    }
}

/// PHA then PLA restores the accumulator and sets Z and N from it.
#[test]
fn pha_pla_round_trip() {
    let mut p = with_program(0x8000, &[0x48, 0x68]);
    p.stack_pointer = 0xFF;
    p.accumulator = 0x99;
    run_instruction(&mut p);
    p.accumulator = 0x00;
    run_instruction(&mut p);
    assert_eq!(p.accumulator, 0x99);
    assert_eq!(p.stack_pointer, 0xFF);
    assert!(p.get_n());
    assert!(!p.get_z());
}

/// PHP then PLP restores the status except that B and U read as 1, and
/// the pushed copy on the stack shows both bits set.
#[test]
fn php_plp_round_trip() {
    let mut p = with_program(0x8000, &[0x08, 0x28]);
    p.stack_pointer = 0xFF;
    p.status = 0x81;
    run_instruction(&mut p);
    assert_eq!(p.bus.read(0x01FF), 0x81 | 0x30);
    run_instruction(&mut p);
    assert_eq!(p.status, 0x81 | 0x30);
    assert_eq!(p.stack_pointer, 0xFF);
}

/// INC then DEC on one address restores the byte and sets Z and N from
/// the final value.
#[test]
fn inc_dec_round_trip() {
    let mut p = with_program(0x8000, &[0xEE, 0x00, 0x20, 0xCE, 0x00, 0x20]);
    let _ = p.bus.write(0x2000, 0x42);
    run_instruction(&mut p);
    assert_eq!(p.bus.read(0x2000), 0x43);
    run_instruction(&mut p);
    assert_eq!(p.bus.read(0x2000), 0x42);
    assert!(!p.get_z());
    assert!(!p.get_n());
}

/// ADC is commutative in the accumulator and the operand for the same
/// carry-in: both orders give the same accumulator and status.
#[test]
fn adc_commutes_on_values() {
    let mut p = with_program(0x8000, &[0x69, 0x34]);
    p.accumulator = 0xF2;
    p.set_c(true);
    run_instruction(&mut p);

    let mut q = with_program(0x8000, &[0x69, 0xF2]);
    q.accumulator = 0x34;
    q.set_c(true);
    run_instruction(&mut q);

    assert_eq!(p.accumulator, q.accumulator);
    assert_eq!(p.status, q.status);
}

/// SEC then ADC #0 increments the accumulator by exactly one.
#[test]
fn sec_adc_zero_increments() {
    let mut p = with_program(0x8000, &[0x38, 0x69, 0x00]);
    p.accumulator = 0x41;
    run_instruction(&mut p);
    run_instruction(&mut p);
    assert_eq!(p.accumulator, 0x42);
}

/// SBC with carry set subtracts exactly.
#[test]
fn sbc_subtracts() {
    let mut p = with_program(0x8000, &[0xE9, 0x10]);
    p.accumulator = 0x50;
    p.set_c(true);
    run_instruction(&mut p);
    assert_eq!(p.accumulator, 0x40);
    assert!(p.get_c());
    assert!(!p.get_z());
    assert!(!p.get_n());
}

/// CMP with a larger operand clears C and sets N from the difference.
#[test]
fn cmp_flags() {
    let mut p = with_program(0x8000, &[0xC9, 0x40]);
    p.accumulator = 0x30;
    run_instruction(&mut p);
    assert!(!p.get_c());
    assert!(!p.get_z());
    assert!(p.get_n());

    let mut q = with_program(0x8000, &[0xC9, 0x30]);
    q.accumulator = 0x30;
    run_instruction(&mut q);
    assert!(q.get_c());
    assert!(q.get_z());
    assert!(!q.get_n());
}

/// ASL on the accumulator: carry takes bit 7, the value doubles mod 256.
#[test]
fn asl_accumulator() {
    let mut p = with_program(0x8000, &[0x0A]);
    p.accumulator = 0x81;
    run_instruction(&mut p);
    assert_eq!(p.accumulator, 0x02);
    assert!(p.get_c());
    assert!(!p.get_z());
    assert!(!p.get_n());
}

/// LSR on the accumulator: carry takes bit 0; a zero result sets Z.
#[test]
fn lsr_accumulator() {
    let mut p = with_program(0x8000, &[0x4A]);
    p.accumulator = 0x01;
    run_instruction(&mut p);
    assert_eq!(p.accumulator, 0x00);
    assert!(p.get_c());
    assert!(p.get_z());
}

/// ROL shifts the carry into bit 0 and bit 7 into the carry.
#[test]
fn rol_accumulator() {
    let mut p = with_program(0x8000, &[0x2A]);
    p.accumulator = 0x80;
    p.set_c(true);
    run_instruction(&mut p);
    assert_eq!(p.accumulator, 0x01);
    assert!(p.get_c());
}

/// ROR shifts the carry into bit 7 and bit 0 into the carry.
#[test]
fn ror_accumulator() {
    let mut p = with_program(0x8000, &[0x6A]);
    p.accumulator = 0x01;
    p.set_c(true);
    run_instruction(&mut p);
    assert_eq!(p.accumulator, 0x80);
    assert!(p.get_c());
    assert!(p.get_n());
}

/// BIT copies bits 7 and 6 of the operand into N and V and tests the
/// accumulator mask.
#[test]
fn bit_test() {
    let mut p = with_program(0x8000, &[0x2C, 0x00, 0x20]);
    let _ = p.bus.write(0x2000, 0xC0);
    p.accumulator = 0x0F;
    run_instruction(&mut p);
    assert!(p.get_n());
    assert!(p.get_o());
    assert!(p.get_z());
}

/// AND, ORA and EOR act bitwise on the accumulator and set Z/N.
#[test]
fn logical_ops() {
    let mut p = with_program(0x8000, &[0x29, 0x0F, 0x09, 0x80, 0x49, 0xFF]);
    p.accumulator = 0x5A;
    run_instruction(&mut p);
    assert_eq!(p.accumulator, 0x0A);
    run_instruction(&mut p);
    assert_eq!(p.accumulator, 0x8A);
    assert!(p.get_n());
    run_instruction(&mut p);
    assert_eq!(p.accumulator, 0x75);
    assert!(!p.get_n());
}

/// INX wraps from 0xFF to 0 and sets Z.
#[test]
fn inx_wraps_to_zero() {
    let mut p = with_program(0x8000, &[0xE8]);
    p.index_register_x = 0xFF;
    run_instruction(&mut p);
    assert_eq!(p.index_register_x, 0x00);
    assert!(p.get_z());
    assert!(!p.get_n());
}

/// DEY wraps from 0 to 0xFF and sets N.
#[test]
fn dey_wraps_to_ff() {
    let mut p = with_program(0x8000, &[0x88]);
    p.index_register_y = 0x00;
    run_instruction(&mut p);
    assert_eq!(p.index_register_y, 0xFF);
    assert!(p.get_n());
    assert!(!p.get_z());
}

/// Transfers copy registers and set Z/N; TXS sets no flags.
#[test]
fn transfers() {
    let mut p = with_program(0x8000, &[0xAA, 0xA8, 0x9A, 0xBA]);
    p.accumulator = 0x80;
    run_instruction(&mut p);
    assert_eq!(p.index_register_x, 0x80);
    assert!(p.get_n());
    run_instruction(&mut p);
    assert_eq!(p.index_register_y, 0x80);
    p.set_n(false);
    run_instruction(&mut p);
    assert_eq!(p.stack_pointer, 0x80);
    assert!(!p.get_n());
    run_instruction(&mut p);
    assert_eq!(p.index_register_x, 0x80);
    assert!(p.get_n());
}

/// Stores put registers on the bus unchanged.
#[test]
fn stores() {
    let mut p = with_program(0x8000, &[0x8D, 0x00, 0x21, 0x8E, 0x01, 0x21, 0x8C, 0x02, 0x21]);
    p.accumulator = 0x11;
    p.index_register_x = 0x22;
    p.index_register_y = 0x33;
    run_instruction(&mut p);
    run_instruction(&mut p);
    run_instruction(&mut p);
    assert_eq!(p.bus.read(0x2100), 0x11);
    assert_eq!(p.bus.read(0x2101), 0x22);
    assert_eq!(p.bus.read(0x2102), 0x33);
}

/// The flag instructions flip exactly their bit.
#[test]
fn flag_instructions() {
    let mut p = with_program(0x8000, &[0x38, 0xF8, 0x78, 0x18, 0xD8, 0x58, 0xB8]);
    run_instruction(&mut p);
    assert!(p.get_c());
    run_instruction(&mut p);
    assert!(p.get_d());
    run_instruction(&mut p);
    assert!(p.get_i());
    run_instruction(&mut p);
    assert!(!p.get_c());
    run_instruction(&mut p);
    assert!(!p.get_d());
    run_instruction(&mut p);
    assert!(!p.get_i());
    p.set_o(true);
    run_instruction(&mut p);
    assert!(!p.get_o());
}

/// BRK pushes the incremented program counter and the status with B
/// set, sets I, and jumps through the vector at 0xFFFE.
#[test]
fn brk_pushes_and_vectors() {
    let mut p = with_program(0x8000, &[0x00]);
    p.stack_pointer = 0xFF;
    let _ = p.bus.write(0xFFFE, 0x00);
    let _ = p.bus.write(0xFFFF, 0x90);
    run_instruction(&mut p);
    assert_eq!(p.program_counter, 0x9000);
    assert!(p.get_i());
    assert!(!p.get_b());
    assert_eq!(p.bus.read(0x01FF), 0x80);
    assert_eq!(p.bus.read(0x01FE), 0x02);
    assert_eq!(p.bus.read(0x01FD) & 0x10, 0x10);
}

/// RTI pulls the status (with B and U toggled on the pulled copy) and
/// the program counter.
#[test]
fn rti_restores_state() {
    let mut p = with_program(0x8000, &[0x40]);
    p.stack_pointer = 0xFC;
    let _ = p.bus.write(0x01FD, 0x31);
    let _ = p.bus.write(0x01FE, 0x34);
    let _ = p.bus.write(0x01FF, 0x12);
    run_instruction(&mut p);
    assert_eq!(p.program_counter, 0x1234);
    assert_eq!(p.stack_pointer, 0xFF);
    assert_eq!(p.status, 0x21); // U is forced back on at the end of every instruction
}

/// LDX and LDY load through their addressing modes and set Z/N.
#[test]
fn ldx_ldy() {
    let mut p = with_program(0x8000, &[0xA2, 0x00, 0xA0, 0x80]);
    p.index_register_x = 5;
    run_instruction(&mut p);
    assert_eq!(p.index_register_x, 0);
    assert!(p.get_z());
    run_instruction(&mut p);
    assert_eq!(p.index_register_y, 0x80);
    assert!(p.get_n());
}

/// Indexed indirect (IND,X) resolves the pointer in the zero page with
/// wrap-around.
#[test]
fn indexed_indirect_wraps() {
    let mut p = with_program(0x8000, &[0xA1, 0xFE]);
    p.index_register_x = 0x01;
    let _ = p.bus.write(0x00FF, 0x00);
    let _ = p.bus.write(0x0000, 0x21);
    let _ = p.bus.write(0x2100, 0x7E);
    run_instruction(&mut p);
    assert_eq!(p.accumulator, 0x7E);
}

/// Indirect indexed (IND),Y offsets the zero-page pointer by Y and
/// charges the page-cross penalty on a read.
#[test]
fn indirect_indexed_reads() {
    let mut p = with_program(0x8000, &[0xB1, 0x10]);
    p.index_register_y = 0x01;
    let _ = p.bus.write(0x0010, 0xFF);
    let _ = p.bus.write(0x0011, 0x20);
    let _ = p.bus.write(0x2100, 0x3C);
    p.clock();
    let mut spent = 1;
    while p.cycles > 0 {
        p.clock();
        spent += 1;
    }
    assert_eq!(p.accumulator, 0x3C);
    assert_eq!(spent, 6);
}
