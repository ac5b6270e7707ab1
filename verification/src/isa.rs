//! The instruction set: addressing-mode and operation tags, and the flat
//! 256-entry dispatch table indexed by the opcode byte.

use vstd::prelude::*;

verus! {

/// The twelve addressing modes of the 6502.
#[derive(Clone, Copy, Debug, PartialEq, Eq, Structural)]
pub enum AddressingMode {
    ABS,
    ABSX,
    ABSY,
    ZPG,
    ZPGX,
    ZPGY,
    IND,
    INDX,
    INDY,
    IMPL,
    REL,
    IMM,
}

/// The operations: the official instruction set plus the documented
/// illegal opcodes.
#[derive(Clone, Copy, Debug, PartialEq, Eq, Structural)]
pub enum Operation {
    ADC,
    AND,
    ASL,
    BCC,
    BCS,
    BEQ,
    BIT,
    BMI,
    BNE,
    BPL,
    BRK,
    BVC,
    BVS,
    CLC,
    CLD,
    CLI,
    CLV,
    CMP,
    CPX,
    CPY,
    DEC,
    DEX,
    DEY,
    EOR,
    INC,
    INX,
    INY,
    JMP,
    JSR,
    LDA,
    LDX,
    LDY,
    LSR,
    NOP,
    ORA,
    PHA,
    PHP,
    PLA,
    PLP,
    ROL,
    ROR,
    RTI,
    RTS,
    SBC,
    SEC,
    SED,
    SEI,
    STA,
    STX,
    STY,
    TAX,
    TAY,
    TSX,
    TXA,
    TXS,
    TYA,
    SLO,
    JAM,
    ANC,
    RLA,
    SRE,
    ALR,
    RRA,
    SAX,
    ANE,
    SHA,
    SHX,
    SHY,
    ARR,
    TAS,
    LAS,
    LAX,
    LXA,
    DCP,
    SBX,
    ISC,
    USBC,
}

/// One entry of the dispatch table: the operation, its addressing mode,
/// and the base cycle count of this encoding.
#[derive(Clone, Copy, Debug, PartialEq, Eq, Structural)]
pub struct Instruction {
    pub op: Operation,
    pub mode: AddressingMode,
    pub base_cycles: u8,
}

impl Instruction {
    pub fn new(op: Operation, mode: AddressingMode, base_cycles: u8) -> (r: Self)
        ensures
            r == (Instruction { op, mode, base_cycles }),
    {
        Instruction { op, mode, base_cycles }
    }

    /// Builds the dispatch table as a vector whose index is the opcode.
    pub fn create_instructions_table() -> (v: Vec<Instruction>)
        ensures
            v@.len() == 256,
            forall|i: int| 0 <= i < 256 ==> v@[i] == spec_instruction(i as u8),
    {
        let mut v: Vec<Instruction> = Vec::new();
        let mut i: usize = 0;
        while i < 256
            invariant
                i <= 256,
                v@.len() == i,
                forall|j: int| 0 <= j < i ==> v@[j] == spec_instruction(j as u8),
            decreases 256 - i,
        {
            v.push(instruction_for(i as u8));
            i = i + 1;
        }
        v
    }
}

/// The operation tag of an opcode.
pub open spec fn op_of(opcode: u8) -> Operation {
    spec_instruction(opcode).op
}

/// The addressing-mode tag of an opcode.
pub open spec fn mode_of(opcode: u8) -> AddressingMode {
    spec_instruction(opcode).mode
}

/// The base cycle count of an opcode.
pub open spec fn cycles_of(opcode: u8) -> u8 {
    spec_instruction(opcode).base_cycles
}

/// The dispatch table as a function from opcode to table entry.
///
/// Every JAM slot pairs with the implied addressing mode: the jam must
/// not consume an operand byte, or the rewind in its effect would leave
/// the program counter creeping forward instead of halting the CPU.
pub open spec fn spec_instruction(opcode: u8) -> Instruction {
    match opcode {
        0x00 => Instruction { op: Operation::BRK, mode: AddressingMode::IMPL, base_cycles: 7 },
        0x01 => Instruction { op: Operation::ORA, mode: AddressingMode::INDX, base_cycles: 6 },
        0x02 => Instruction { op: Operation::JAM, mode: AddressingMode::IMPL, base_cycles: 0 },
        0x03 => Instruction { op: Operation::SLO, mode: AddressingMode::INDX, base_cycles: 8 },
        0x04 => Instruction { op: Operation::NOP, mode: AddressingMode::ZPG, base_cycles: 0 },
        0x05 => Instruction { op: Operation::ORA, mode: AddressingMode::ZPG, base_cycles: 3 },
        0x06 => Instruction { op: Operation::ASL, mode: AddressingMode::ZPG, base_cycles: 5 },
        0x07 => Instruction { op: Operation::SLO, mode: AddressingMode::ZPG, base_cycles: 5 },
        0x08 => Instruction { op: Operation::PHP, mode: AddressingMode::IMPL, base_cycles: 3 },
        0x09 => Instruction { op: Operation::ORA, mode: AddressingMode::IMM, base_cycles: 2 },
        0x0A => Instruction { op: Operation::ASL, mode: AddressingMode::IMPL, base_cycles: 2 },
        0x0B => Instruction { op: Operation::ANC, mode: AddressingMode::IMM, base_cycles: 2 },
        0x0C => Instruction { op: Operation::NOP, mode: AddressingMode::ABS, base_cycles: 0 },
        0x0D => Instruction { op: Operation::ORA, mode: AddressingMode::ABS, base_cycles: 4 },
        0x0E => Instruction { op: Operation::ASL, mode: AddressingMode::ABS, base_cycles: 6 },
        0x0F => Instruction { op: Operation::SLO, mode: AddressingMode::ABS, base_cycles: 6 },
        0x10 => Instruction { op: Operation::BPL, mode: AddressingMode::REL, base_cycles: 2 },
        0x11 => Instruction { op: Operation::ORA, mode: AddressingMode::INDY, base_cycles: 5 },
        0x12 => Instruction { op: Operation::JAM, mode: AddressingMode::IMPL, base_cycles: 0 },
        0x13 => Instruction { op: Operation::SLO, mode: AddressingMode::INDX, base_cycles: 8 },
        0x14 => Instruction { op: Operation::NOP, mode: AddressingMode::ZPGX, base_cycles: 0 },
        0x15 => Instruction { op: Operation::ORA, mode: AddressingMode::ZPGX, base_cycles: 4 },
        0x16 => Instruction { op: Operation::ASL, mode: AddressingMode::ZPGX, base_cycles: 6 },
        0x17 => Instruction { op: Operation::SLO, mode: AddressingMode::ZPGX, base_cycles: 6 },
        0x18 => Instruction { op: Operation::CLC, mode: AddressingMode::IMPL, base_cycles: 2 },
        0x19 => Instruction { op: Operation::ORA, mode: AddressingMode::ABSY, base_cycles: 4 },
        0x1A => Instruction { op: Operation::NOP, mode: AddressingMode::IMPL, base_cycles: 0 },
        0x1B => Instruction { op: Operation::SLO, mode: AddressingMode::ABSY, base_cycles: 7 },
        0x1C => Instruction { op: Operation::NOP, mode: AddressingMode::ABSX, base_cycles: 0 },
        0x1D => Instruction { op: Operation::ORA, mode: AddressingMode::ABSX, base_cycles: 4 },
        0x1E => Instruction { op: Operation::ASL, mode: AddressingMode::ABSX, base_cycles: 7 },
        0x1F => Instruction { op: Operation::SLO, mode: AddressingMode::ABSX, base_cycles: 7 },
        0x20 => Instruction { op: Operation::JSR, mode: AddressingMode::ABS, base_cycles: 6 },
        0x21 => Instruction { op: Operation::AND, mode: AddressingMode::INDX, base_cycles: 6 },
        0x22 => Instruction { op: Operation::JAM, mode: AddressingMode::IMPL, base_cycles: 0 },
        0x23 => Instruction { op: Operation::RLA, mode: AddressingMode::INDX, base_cycles: 8 },
        0x24 => Instruction { op: Operation::BIT, mode: AddressingMode::ZPG, base_cycles: 3 },
        0x25 => Instruction { op: Operation::AND, mode: AddressingMode::ZPG, base_cycles: 3 },
        0x26 => Instruction { op: Operation::ROL, mode: AddressingMode::ZPG, base_cycles: 5 },
        0x27 => Instruction { op: Operation::RLA, mode: AddressingMode::ZPG, base_cycles: 5 },
        0x28 => Instruction { op: Operation::PLP, mode: AddressingMode::IMPL, base_cycles: 4 },
        0x29 => Instruction { op: Operation::AND, mode: AddressingMode::IMM, base_cycles: 2 },
        0x2A => Instruction { op: Operation::ROL, mode: AddressingMode::IMPL, base_cycles: 2 },
        0x2B => Instruction { op: Operation::ANC, mode: AddressingMode::IMM, base_cycles: 2 },
        0x2C => Instruction { op: Operation::BIT, mode: AddressingMode::ABS, base_cycles: 4 },
        0x2D => Instruction { op: Operation::AND, mode: AddressingMode::ABS, base_cycles: 4 },
        0x2E => Instruction { op: Operation::ROL, mode: AddressingMode::ABS, base_cycles: 6 },
        0x2F => Instruction { op: Operation::RLA, mode: AddressingMode::ABS, base_cycles: 6 },
        0x30 => Instruction { op: Operation::BMI, mode: AddressingMode::REL, base_cycles: 2 },
        0x31 => Instruction { op: Operation::AND, mode: AddressingMode::INDY, base_cycles: 5 },
        0x32 => Instruction { op: Operation::JAM, mode: AddressingMode::IMPL, base_cycles: 0 },
        0x33 => Instruction { op: Operation::RLA, mode: AddressingMode::INDY, base_cycles: 8 },
        0x34 => Instruction { op: Operation::NOP, mode: AddressingMode::ZPGX, base_cycles: 0 },
        0x35 => Instruction { op: Operation::AND, mode: AddressingMode::ZPGX, base_cycles: 4 },
        0x36 => Instruction { op: Operation::ROL, mode: AddressingMode::ZPGX, base_cycles: 6 },
        0x37 => Instruction { op: Operation::RLA, mode: AddressingMode::ZPGX, base_cycles: 6 },
        0x38 => Instruction { op: Operation::SEC, mode: AddressingMode::IMPL, base_cycles: 2 },
        0x39 => Instruction { op: Operation::AND, mode: AddressingMode::ABSY, base_cycles: 4 },
        0x3A => Instruction { op: Operation::NOP, mode: AddressingMode::IMPL, base_cycles: 0 },
        0x3B => Instruction { op: Operation::RLA, mode: AddressingMode::ABSY, base_cycles: 7 },
        0x3C => Instruction { op: Operation::NOP, mode: AddressingMode::ABSX, base_cycles: 0 },
        0x3D => Instruction { op: Operation::AND, mode: AddressingMode::ABSX, base_cycles: 4 },
        0x3E => Instruction { op: Operation::ROL, mode: AddressingMode::ABSX, base_cycles: 7 },
        0x3F => Instruction { op: Operation::RLA, mode: AddressingMode::ABSX, base_cycles: 7 },
        0x40 => Instruction { op: Operation::RTI, mode: AddressingMode::IMPL, base_cycles: 6 },
        0x41 => Instruction { op: Operation::EOR, mode: AddressingMode::INDX, base_cycles: 6 },
        0x42 => Instruction { op: Operation::JAM, mode: AddressingMode::IMPL, base_cycles: 0 },
        0x43 => Instruction { op: Operation::SRE, mode: AddressingMode::INDX, base_cycles: 8 },
        0x44 => Instruction { op: Operation::NOP, mode: AddressingMode::ZPG, base_cycles: 0 },
        0x45 => Instruction { op: Operation::EOR, mode: AddressingMode::ZPG, base_cycles: 3 },
        0x46 => Instruction { op: Operation::LSR, mode: AddressingMode::ZPG, base_cycles: 5 },
        0x47 => Instruction { op: Operation::SRE, mode: AddressingMode::ZPG, base_cycles: 5 },
        0x48 => Instruction { op: Operation::PHA, mode: AddressingMode::IMPL, base_cycles: 3 },
        0x49 => Instruction { op: Operation::EOR, mode: AddressingMode::IMM, base_cycles: 2 },
        0x4A => Instruction { op: Operation::LSR, mode: AddressingMode::IMPL, base_cycles: 2 },
        0x4B => Instruction { op: Operation::ALR, mode: AddressingMode::IMM, base_cycles: 2 },
        0x4C => Instruction { op: Operation::JMP, mode: AddressingMode::ABS, base_cycles: 3 },
        0x4D => Instruction { op: Operation::EOR, mode: AddressingMode::ABS, base_cycles: 4 },
        0x4E => Instruction { op: Operation::LSR, mode: AddressingMode::ABS, base_cycles: 6 },
        0x4F => Instruction { op: Operation::SRE, mode: AddressingMode::ABS, base_cycles: 6 },
        0x50 => Instruction { op: Operation::BVC, mode: AddressingMode::REL, base_cycles: 2 },
        0x51 => Instruction { op: Operation::EOR, mode: AddressingMode::INDY, base_cycles: 5 },
        0x52 => Instruction { op: Operation::JAM, mode: AddressingMode::IMPL, base_cycles: 0 },
        0x53 => Instruction { op: Operation::SRE, mode: AddressingMode::INDY, base_cycles: 8 },
        0x54 => Instruction { op: Operation::NOP, mode: AddressingMode::ZPGX, base_cycles: 0 },
        0x55 => Instruction { op: Operation::EOR, mode: AddressingMode::ZPGX, base_cycles: 4 },
        0x56 => Instruction { op: Operation::LSR, mode: AddressingMode::ZPGX, base_cycles: 6 },
        0x57 => Instruction { op: Operation::SRE, mode: AddressingMode::ZPGX, base_cycles: 6 },
        0x58 => Instruction { op: Operation::CLI, mode: AddressingMode::IMPL, base_cycles: 2 },
        0x59 => Instruction { op: Operation::EOR, mode: AddressingMode::ABSY, base_cycles: 4 },
        0x5A => Instruction { op: Operation::NOP, mode: AddressingMode::IMPL, base_cycles: 0 },
        0x5B => Instruction { op: Operation::SRE, mode: AddressingMode::ABSY, base_cycles: 7 },
        0x5C => Instruction { op: Operation::NOP, mode: AddressingMode::ABSX, base_cycles: 0 },
        0x5D => Instruction { op: Operation::EOR, mode: AddressingMode::ABSX, base_cycles: 4 },
        0x5E => Instruction { op: Operation::LSR, mode: AddressingMode::ABSX, base_cycles: 7 },
        0x5F => Instruction { op: Operation::SRE, mode: AddressingMode::ABSX, base_cycles: 7 },
        0x60 => Instruction { op: Operation::RTS, mode: AddressingMode::IMPL, base_cycles: 6 },
        0x61 => Instruction { op: Operation::ADC, mode: AddressingMode::INDX, base_cycles: 6 },
        0x62 => Instruction { op: Operation::JAM, mode: AddressingMode::IMPL, base_cycles: 0 },
        0x63 => Instruction { op: Operation::RRA, mode: AddressingMode::INDX, base_cycles: 8 },
        0x64 => Instruction { op: Operation::NOP, mode: AddressingMode::ZPG, base_cycles: 0 },
        0x65 => Instruction { op: Operation::ADC, mode: AddressingMode::ZPG, base_cycles: 3 },
        0x66 => Instruction { op: Operation::ROR, mode: AddressingMode::ZPG, base_cycles: 5 },
        0x67 => Instruction { op: Operation::RRA, mode: AddressingMode::ZPG, base_cycles: 5 },
        0x68 => Instruction { op: Operation::PLA, mode: AddressingMode::IMPL, base_cycles: 4 },
        0x69 => Instruction { op: Operation::ADC, mode: AddressingMode::IMM, base_cycles: 2 },
        0x6A => Instruction { op: Operation::ROR, mode: AddressingMode::IMPL, base_cycles: 2 },
        0x6B => Instruction { op: Operation::ARR, mode: AddressingMode::IMM, base_cycles: 2 },
        0x6C => Instruction { op: Operation::JMP, mode: AddressingMode::IND, base_cycles: 5 },
        0x6D => Instruction { op: Operation::ADC, mode: AddressingMode::ABS, base_cycles: 4 },
        0x6E => Instruction { op: Operation::ROR, mode: AddressingMode::ABS, base_cycles: 6 },
        0x6F => Instruction { op: Operation::RRA, mode: AddressingMode::ABS, base_cycles: 6 },
        0x70 => Instruction { op: Operation::BVS, mode: AddressingMode::REL, base_cycles: 2 },
        0x71 => Instruction { op: Operation::ADC, mode: AddressingMode::INDY, base_cycles: 5 },
        0x72 => Instruction { op: Operation::JAM, mode: AddressingMode::IMPL, base_cycles: 0 },
        0x73 => Instruction { op: Operation::RRA, mode: AddressingMode::INDY, base_cycles: 8 },
        0x74 => Instruction { op: Operation::NOP, mode: AddressingMode::ZPGX, base_cycles: 0 },
        0x75 => Instruction { op: Operation::ADC, mode: AddressingMode::ZPGX, base_cycles: 4 },
        0x76 => Instruction { op: Operation::ROR, mode: AddressingMode::ZPGX, base_cycles: 6 },
        0x77 => Instruction { op: Operation::RRA, mode: AddressingMode::ZPGX, base_cycles: 6 },
        0x78 => Instruction { op: Operation::SEI, mode: AddressingMode::IMPL, base_cycles: 2 },
        0x79 => Instruction { op: Operation::ADC, mode: AddressingMode::ABSY, base_cycles: 4 },
        0x7A => Instruction { op: Operation::NOP, mode: AddressingMode::IMPL, base_cycles: 0 },
        0x7B => Instruction { op: Operation::RRA, mode: AddressingMode::ABSY, base_cycles: 7 },
        0x7C => Instruction { op: Operation::NOP, mode: AddressingMode::ABSX, base_cycles: 0 },
        0x7D => Instruction { op: Operation::ADC, mode: AddressingMode::ABSX, base_cycles: 4 },
        0x7E => Instruction { op: Operation::ROR, mode: AddressingMode::ABSX, base_cycles: 7 },
        0x7F => Instruction { op: Operation::RRA, mode: AddressingMode::ABSX, base_cycles: 7 },
        0x80 => Instruction { op: Operation::NOP, mode: AddressingMode::IMM, base_cycles: 0 },
        0x81 => Instruction { op: Operation::STA, mode: AddressingMode::INDX, base_cycles: 6 },
        0x82 => Instruction { op: Operation::NOP, mode: AddressingMode::IMM, base_cycles: 0 },
        0x83 => Instruction { op: Operation::SAX, mode: AddressingMode::INDX, base_cycles: 6 },
        0x84 => Instruction { op: Operation::STY, mode: AddressingMode::ZPG, base_cycles: 3 },
        0x85 => Instruction { op: Operation::STA, mode: AddressingMode::ZPG, base_cycles: 3 },
        0x86 => Instruction { op: Operation::STX, mode: AddressingMode::ZPG, base_cycles: 3 },
        0x87 => Instruction { op: Operation::SAX, mode: AddressingMode::ZPG, base_cycles: 3 },
        0x88 => Instruction { op: Operation::DEY, mode: AddressingMode::IMPL, base_cycles: 2 },
        0x89 => Instruction { op: Operation::NOP, mode: AddressingMode::IMM, base_cycles: 0 },
        0x8A => Instruction { op: Operation::TXA, mode: AddressingMode::IMPL, base_cycles: 2 },
        0x8B => Instruction { op: Operation::ANE, mode: AddressingMode::IMM, base_cycles: 2 },
        0x8C => Instruction { op: Operation::STY, mode: AddressingMode::ABS, base_cycles: 4 },
        0x8D => Instruction { op: Operation::STA, mode: AddressingMode::ABS, base_cycles: 4 },
        0x8E => Instruction { op: Operation::STX, mode: AddressingMode::ABS, base_cycles: 4 },
        0x8F => Instruction { op: Operation::SAX, mode: AddressingMode::ABS, base_cycles: 4 },
        0x90 => Instruction { op: Operation::BCC, mode: AddressingMode::REL, base_cycles: 2 },
        0x91 => Instruction { op: Operation::STA, mode: AddressingMode::INDY, base_cycles: 6 },
        0x92 => Instruction { op: Operation::JAM, mode: AddressingMode::IMPL, base_cycles: 0 },
        0x93 => Instruction { op: Operation::SHA, mode: AddressingMode::INDY, base_cycles: 6 },
        0x94 => Instruction { op: Operation::STY, mode: AddressingMode::ZPGX, base_cycles: 4 },
        0x95 => Instruction { op: Operation::STA, mode: AddressingMode::ZPGX, base_cycles: 4 },
        0x96 => Instruction { op: Operation::STX, mode: AddressingMode::ZPGY, base_cycles: 4 },
        0x97 => Instruction { op: Operation::SAX, mode: AddressingMode::ZPGY, base_cycles: 4 },
        0x98 => Instruction { op: Operation::TYA, mode: AddressingMode::IMPL, base_cycles: 2 },
        0x99 => Instruction { op: Operation::STA, mode: AddressingMode::ABSY, base_cycles: 5 },
        0x9A => Instruction { op: Operation::TXS, mode: AddressingMode::IMPL, base_cycles: 2 },
        0x9B => Instruction { op: Operation::TAS, mode: AddressingMode::ABSY, base_cycles: 5 },
        0x9C => Instruction { op: Operation::SHY, mode: AddressingMode::ABSX, base_cycles: 5 },
        0x9D => Instruction { op: Operation::STA, mode: AddressingMode::ABSX, base_cycles: 5 },
        0x9E => Instruction { op: Operation::SHX, mode: AddressingMode::ABSY, base_cycles: 5 },
        0x9F => Instruction { op: Operation::SHA, mode: AddressingMode::ABSY, base_cycles: 5 },
        0xA0 => Instruction { op: Operation::LDY, mode: AddressingMode::IMM, base_cycles: 2 },
        0xA1 => Instruction { op: Operation::LDA, mode: AddressingMode::INDX, base_cycles: 6 },
        0xA2 => Instruction { op: Operation::LDX, mode: AddressingMode::IMM, base_cycles: 2 },
        0xA3 => Instruction { op: Operation::LAX, mode: AddressingMode::INDX, base_cycles: 6 },
        0xA4 => Instruction { op: Operation::LDY, mode: AddressingMode::ZPG, base_cycles: 3 },
        0xA5 => Instruction { op: Operation::LDA, mode: AddressingMode::ZPG, base_cycles: 3 },
        0xA6 => Instruction { op: Operation::LDX, mode: AddressingMode::ZPG, base_cycles: 3 },
        0xA7 => Instruction { op: Operation::LAX, mode: AddressingMode::ZPG, base_cycles: 3 },
        0xA8 => Instruction { op: Operation::TAY, mode: AddressingMode::IMPL, base_cycles: 2 },
        0xA9 => Instruction { op: Operation::LDA, mode: AddressingMode::IMM, base_cycles: 2 },
        0xAA => Instruction { op: Operation::TAX, mode: AddressingMode::IMPL, base_cycles: 2 },
        0xAB => Instruction { op: Operation::LXA, mode: AddressingMode::IMM, base_cycles: 2 },
        0xAC => Instruction { op: Operation::LDY, mode: AddressingMode::ABS, base_cycles: 4 },
        0xAD => Instruction { op: Operation::LDA, mode: AddressingMode::ABS, base_cycles: 4 },
        0xAE => Instruction { op: Operation::LDX, mode: AddressingMode::ABS, base_cycles: 4 },
        0xAF => Instruction { op: Operation::LAX, mode: AddressingMode::ABS, base_cycles: 4 },
        0xB0 => Instruction { op: Operation::BCS, mode: AddressingMode::REL, base_cycles: 2 },
        0xB1 => Instruction { op: Operation::LDA, mode: AddressingMode::INDY, base_cycles: 5 },
        0xB2 => Instruction { op: Operation::JAM, mode: AddressingMode::IMPL, base_cycles: 0 },
        0xB3 => Instruction { op: Operation::LAX, mode: AddressingMode::INDY, base_cycles: 5 },
        0xB4 => Instruction { op: Operation::LDY, mode: AddressingMode::ZPGX, base_cycles: 4 },
        0xB5 => Instruction { op: Operation::LDA, mode: AddressingMode::ZPGX, base_cycles: 4 },
        0xB6 => Instruction { op: Operation::LDX, mode: AddressingMode::ZPGY, base_cycles: 4 },
        0xB7 => Instruction { op: Operation::LAX, mode: AddressingMode::ZPGY, base_cycles: 4 },
        0xB8 => Instruction { op: Operation::CLV, mode: AddressingMode::IMPL, base_cycles: 2 },
        0xB9 => Instruction { op: Operation::LDA, mode: AddressingMode::ABSY, base_cycles: 4 },
        0xBA => Instruction { op: Operation::TSX, mode: AddressingMode::IMPL, base_cycles: 2 },
        0xBB => Instruction { op: Operation::LAS, mode: AddressingMode::ABSY, base_cycles: 4 },
        0xBC => Instruction { op: Operation::LDY, mode: AddressingMode::ABSX, base_cycles: 4 },
        0xBD => Instruction { op: Operation::LDA, mode: AddressingMode::ABSX, base_cycles: 4 },
        0xBE => Instruction { op: Operation::LDX, mode: AddressingMode::ABSY, base_cycles: 4 },
        0xBF => Instruction { op: Operation::LAX, mode: AddressingMode::ABSY, base_cycles: 4 },
        0xC0 => Instruction { op: Operation::CPY, mode: AddressingMode::IMM, base_cycles: 2 },
        0xC1 => Instruction { op: Operation::CMP, mode: AddressingMode::INDX, base_cycles: 6 },
        0xC2 => Instruction { op: Operation::NOP, mode: AddressingMode::IMM, base_cycles: 0 },
        0xC3 => Instruction { op: Operation::DCP, mode: AddressingMode::INDX, base_cycles: 8 },
        0xC4 => Instruction { op: Operation::CPY, mode: AddressingMode::ZPG, base_cycles: 3 },
        0xC5 => Instruction { op: Operation::CMP, mode: AddressingMode::ZPG, base_cycles: 3 },
        0xC6 => Instruction { op: Operation::DEC, mode: AddressingMode::ZPG, base_cycles: 5 },
        0xC7 => Instruction { op: Operation::DCP, mode: AddressingMode::ZPG, base_cycles: 5 },
        0xC8 => Instruction { op: Operation::INY, mode: AddressingMode::IMPL, base_cycles: 2 },
        0xC9 => Instruction { op: Operation::CMP, mode: AddressingMode::IMM, base_cycles: 2 },
        0xCA => Instruction { op: Operation::DEX, mode: AddressingMode::IMPL, base_cycles: 2 },
        0xCB => Instruction { op: Operation::SBX, mode: AddressingMode::IMM, base_cycles: 2 },
        0xCC => Instruction { op: Operation::CPY, mode: AddressingMode::ABS, base_cycles: 4 },
        0xCD => Instruction { op: Operation::CMP, mode: AddressingMode::ABS, base_cycles: 4 },
        0xCE => Instruction { op: Operation::DEC, mode: AddressingMode::ABS, base_cycles: 6 },
        0xCF => Instruction { op: Operation::DCP, mode: AddressingMode::ABS, base_cycles: 6 },
        0xD0 => Instruction { op: Operation::BNE, mode: AddressingMode::REL, base_cycles: 2 },
        0xD1 => Instruction { op: Operation::CMP, mode: AddressingMode::INDY, base_cycles: 5 },
        0xD2 => Instruction { op: Operation::JAM, mode: AddressingMode::IMPL, base_cycles: 0 },
        0xD3 => Instruction { op: Operation::DCP, mode: AddressingMode::INDY, base_cycles: 8 },
        0xD4 => Instruction { op: Operation::NOP, mode: AddressingMode::ZPGX, base_cycles: 0 },
        0xD5 => Instruction { op: Operation::CMP, mode: AddressingMode::ZPGX, base_cycles: 4 },
        0xD6 => Instruction { op: Operation::DEC, mode: AddressingMode::ZPGX, base_cycles: 6 },
        0xD7 => Instruction { op: Operation::DCP, mode: AddressingMode::ZPGX, base_cycles: 6 },
        0xD8 => Instruction { op: Operation::CLD, mode: AddressingMode::IMPL, base_cycles: 2 },
        0xD9 => Instruction { op: Operation::CMP, mode: AddressingMode::ABSY, base_cycles: 4 },
        0xDA => Instruction { op: Operation::NOP, mode: AddressingMode::IMPL, base_cycles: 0 },
        0xDB => Instruction { op: Operation::DCP, mode: AddressingMode::ABSY, base_cycles: 7 },
        0xDC => Instruction { op: Operation::NOP, mode: AddressingMode::ABSX, base_cycles: 0 },
        0xDD => Instruction { op: Operation::CMP, mode: AddressingMode::ABSX, base_cycles: 4 },
        0xDE => Instruction { op: Operation::DEC, mode: AddressingMode::ABSX, base_cycles: 7 },
        0xDF => Instruction { op: Operation::DCP, mode: AddressingMode::ABSX, base_cycles: 7 },
        0xE0 => Instruction { op: Operation::CPX, mode: AddressingMode::IMM, base_cycles: 2 },
        0xE1 => Instruction { op: Operation::SBC, mode: AddressingMode::INDX, base_cycles: 6 },
        0xE2 => Instruction { op: Operation::NOP, mode: AddressingMode::IMM, base_cycles: 0 },
        0xE3 => Instruction { op: Operation::ISC, mode: AddressingMode::INDX, base_cycles: 8 },
        0xE4 => Instruction { op: Operation::CPX, mode: AddressingMode::ZPG, base_cycles: 3 },
        0xE5 => Instruction { op: Operation::SBC, mode: AddressingMode::ZPG, base_cycles: 3 },
        0xE6 => Instruction { op: Operation::INC, mode: AddressingMode::ZPG, base_cycles: 5 },
        0xE7 => Instruction { op: Operation::ISC, mode: AddressingMode::ZPG, base_cycles: 5 },
        0xE8 => Instruction { op: Operation::INX, mode: AddressingMode::IMPL, base_cycles: 2 },
        0xE9 => Instruction { op: Operation::SBC, mode: AddressingMode::IMM, base_cycles: 2 },
        0xEA => Instruction { op: Operation::NOP, mode: AddressingMode::IMPL, base_cycles: 0 },
        0xEB => Instruction { op: Operation::USBC, mode: AddressingMode::IMM, base_cycles: 2 },
        0xEC => Instruction { op: Operation::CPX, mode: AddressingMode::ABS, base_cycles: 4 },
        0xED => Instruction { op: Operation::SBC, mode: AddressingMode::ABS, base_cycles: 4 },
        0xEE => Instruction { op: Operation::INC, mode: AddressingMode::ABS, base_cycles: 6 },
        0xEF => Instruction { op: Operation::ISC, mode: AddressingMode::ABS, base_cycles: 6 },
        0xF0 => Instruction { op: Operation::BEQ, mode: AddressingMode::REL, base_cycles: 2 },
        0xF1 => Instruction { op: Operation::SBC, mode: AddressingMode::INDY, base_cycles: 5 },
        0xF2 => Instruction { op: Operation::JAM, mode: AddressingMode::IMPL, base_cycles: 0 },
        0xF3 => Instruction { op: Operation::ISC, mode: AddressingMode::INDY, base_cycles: 8 },
        0xF4 => Instruction { op: Operation::NOP, mode: AddressingMode::ZPGX, base_cycles: 0 },
        0xF5 => Instruction { op: Operation::SBC, mode: AddressingMode::ZPGX, base_cycles: 4 },
        0xF6 => Instruction { op: Operation::INC, mode: AddressingMode::ZPGX, base_cycles: 6 },
        0xF7 => Instruction { op: Operation::ISC, mode: AddressingMode::ZPGX, base_cycles: 6 },
        0xF8 => Instruction { op: Operation::SED, mode: AddressingMode::IMPL, base_cycles: 2 },
        0xF9 => Instruction { op: Operation::SBC, mode: AddressingMode::ABSY, base_cycles: 4 },
        0xFA => Instruction { op: Operation::NOP, mode: AddressingMode::IMPL, base_cycles: 0 },
        0xFB => Instruction { op: Operation::ISC, mode: AddressingMode::ABSY, base_cycles: 7 },
        0xFC => Instruction { op: Operation::NOP, mode: AddressingMode::ABSX, base_cycles: 0 },
        0xFD => Instruction { op: Operation::SBC, mode: AddressingMode::ABSX, base_cycles: 4 },
        0xFE => Instruction { op: Operation::INC, mode: AddressingMode::ABSX, base_cycles: 7 },
        _ => Instruction { op: Operation::ISC, mode: AddressingMode::ABSX, base_cycles: 7 },
    }
}

/// The table entry of an opcode.
pub fn instruction_for(opcode: u8) -> (r: Instruction)
    ensures
        r == spec_instruction(opcode),
{
    match opcode {
        0x00 => Instruction { op: Operation::BRK, mode: AddressingMode::IMPL, base_cycles: 7 },
        0x01 => Instruction { op: Operation::ORA, mode: AddressingMode::INDX, base_cycles: 6 },
        0x02 => Instruction { op: Operation::JAM, mode: AddressingMode::IMPL, base_cycles: 0 },
        0x03 => Instruction { op: Operation::SLO, mode: AddressingMode::INDX, base_cycles: 8 },
        0x04 => Instruction { op: Operation::NOP, mode: AddressingMode::ZPG, base_cycles: 0 },
        0x05 => Instruction { op: Operation::ORA, mode: AddressingMode::ZPG, base_cycles: 3 },
        0x06 => Instruction { op: Operation::ASL, mode: AddressingMode::ZPG, base_cycles: 5 },
        0x07 => Instruction { op: Operation::SLO, mode: AddressingMode::ZPG, base_cycles: 5 },
        0x08 => Instruction { op: Operation::PHP, mode: AddressingMode::IMPL, base_cycles: 3 },
        0x09 => Instruction { op: Operation::ORA, mode: AddressingMode::IMM, base_cycles: 2 },
        0x0A => Instruction { op: Operation::ASL, mode: AddressingMode::IMPL, base_cycles: 2 },
        0x0B => Instruction { op: Operation::ANC, mode: AddressingMode::IMM, base_cycles: 2 },
        0x0C => Instruction { op: Operation::NOP, mode: AddressingMode::ABS, base_cycles: 0 },
        0x0D => Instruction { op: Operation::ORA, mode: AddressingMode::ABS, base_cycles: 4 },
        0x0E => Instruction { op: Operation::ASL, mode: AddressingMode::ABS, base_cycles: 6 },
        0x0F => Instruction { op: Operation::SLO, mode: AddressingMode::ABS, base_cycles: 6 },
        0x10 => Instruction { op: Operation::BPL, mode: AddressingMode::REL, base_cycles: 2 },
        0x11 => Instruction { op: Operation::ORA, mode: AddressingMode::INDY, base_cycles: 5 },
        0x12 => Instruction { op: Operation::JAM, mode: AddressingMode::IMPL, base_cycles: 0 },
        0x13 => Instruction { op: Operation::SLO, mode: AddressingMode::INDX, base_cycles: 8 },
        0x14 => Instruction { op: Operation::NOP, mode: AddressingMode::ZPGX, base_cycles: 0 },
        0x15 => Instruction { op: Operation::ORA, mode: AddressingMode::ZPGX, base_cycles: 4 },
        0x16 => Instruction { op: Operation::ASL, mode: AddressingMode::ZPGX, base_cycles: 6 },
        0x17 => Instruction { op: Operation::SLO, mode: AddressingMode::ZPGX, base_cycles: 6 },
        0x18 => Instruction { op: Operation::CLC, mode: AddressingMode::IMPL, base_cycles: 2 },
        0x19 => Instruction { op: Operation::ORA, mode: AddressingMode::ABSY, base_cycles: 4 },
        0x1A => Instruction { op: Operation::NOP, mode: AddressingMode::IMPL, base_cycles: 0 },
        0x1B => Instruction { op: Operation::SLO, mode: AddressingMode::ABSY, base_cycles: 7 },
        0x1C => Instruction { op: Operation::NOP, mode: AddressingMode::ABSX, base_cycles: 0 },
        0x1D => Instruction { op: Operation::ORA, mode: AddressingMode::ABSX, base_cycles: 4 },
        0x1E => Instruction { op: Operation::ASL, mode: AddressingMode::ABSX, base_cycles: 7 },
        0x1F => Instruction { op: Operation::SLO, mode: AddressingMode::ABSX, base_cycles: 7 },
        0x20 => Instruction { op: Operation::JSR, mode: AddressingMode::ABS, base_cycles: 6 },
        0x21 => Instruction { op: Operation::AND, mode: AddressingMode::INDX, base_cycles: 6 },
        0x22 => Instruction { op: Operation::JAM, mode: AddressingMode::IMPL, base_cycles: 0 },
        0x23 => Instruction { op: Operation::RLA, mode: AddressingMode::INDX, base_cycles: 8 },
        0x24 => Instruction { op: Operation::BIT, mode: AddressingMode::ZPG, base_cycles: 3 },
        0x25 => Instruction { op: Operation::AND, mode: AddressingMode::ZPG, base_cycles: 3 },
        0x26 => Instruction { op: Operation::ROL, mode: AddressingMode::ZPG, base_cycles: 5 },
        0x27 => Instruction { op: Operation::RLA, mode: AddressingMode::ZPG, base_cycles: 5 },
        0x28 => Instruction { op: Operation::PLP, mode: AddressingMode::IMPL, base_cycles: 4 },
        0x29 => Instruction { op: Operation::AND, mode: AddressingMode::IMM, base_cycles: 2 },
        0x2A => Instruction { op: Operation::ROL, mode: AddressingMode::IMPL, base_cycles: 2 },
        0x2B => Instruction { op: Operation::ANC, mode: AddressingMode::IMM, base_cycles: 2 },
        0x2C => Instruction { op: Operation::BIT, mode: AddressingMode::ABS, base_cycles: 4 },
        0x2D => Instruction { op: Operation::AND, mode: AddressingMode::ABS, base_cycles: 4 },
        0x2E => Instruction { op: Operation::ROL, mode: AddressingMode::ABS, base_cycles: 6 },
        0x2F => Instruction { op: Operation::RLA, mode: AddressingMode::ABS, base_cycles: 6 },
        0x30 => Instruction { op: Operation::BMI, mode: AddressingMode::REL, base_cycles: 2 },
        0x31 => Instruction { op: Operation::AND, mode: AddressingMode::INDY, base_cycles: 5 },
        0x32 => Instruction { op: Operation::JAM, mode: AddressingMode::IMPL, base_cycles: 0 },
        0x33 => Instruction { op: Operation::RLA, mode: AddressingMode::INDY, base_cycles: 8 },
        0x34 => Instruction { op: Operation::NOP, mode: AddressingMode::ZPGX, base_cycles: 0 },
        0x35 => Instruction { op: Operation::AND, mode: AddressingMode::ZPGX, base_cycles: 4 },
        0x36 => Instruction { op: Operation::ROL, mode: AddressingMode::ZPGX, base_cycles: 6 },
        0x37 => Instruction { op: Operation::RLA, mode: AddressingMode::ZPGX, base_cycles: 6 },
        0x38 => Instruction { op: Operation::SEC, mode: AddressingMode::IMPL, base_cycles: 2 },
        0x39 => Instruction { op: Operation::AND, mode: AddressingMode::ABSY, base_cycles: 4 },
        0x3A => Instruction { op: Operation::NOP, mode: AddressingMode::IMPL, base_cycles: 0 },
        0x3B => Instruction { op: Operation::RLA, mode: AddressingMode::ABSY, base_cycles: 7 },
        0x3C => Instruction { op: Operation::NOP, mode: AddressingMode::ABSX, base_cycles: 0 },
        0x3D => Instruction { op: Operation::AND, mode: AddressingMode::ABSX, base_cycles: 4 },
        0x3E => Instruction { op: Operation::ROL, mode: AddressingMode::ABSX, base_cycles: 7 },
        0x3F => Instruction { op: Operation::RLA, mode: AddressingMode::ABSX, base_cycles: 7 },
        0x40 => Instruction { op: Operation::RTI, mode: AddressingMode::IMPL, base_cycles: 6 },
        0x41 => Instruction { op: Operation::EOR, mode: AddressingMode::INDX, base_cycles: 6 },
        0x42 => Instruction { op: Operation::JAM, mode: AddressingMode::IMPL, base_cycles: 0 },
        0x43 => Instruction { op: Operation::SRE, mode: AddressingMode::INDX, base_cycles: 8 },
        0x44 => Instruction { op: Operation::NOP, mode: AddressingMode::ZPG, base_cycles: 0 },
        0x45 => Instruction { op: Operation::EOR, mode: AddressingMode::ZPG, base_cycles: 3 },
        0x46 => Instruction { op: Operation::LSR, mode: AddressingMode::ZPG, base_cycles: 5 },
        0x47 => Instruction { op: Operation::SRE, mode: AddressingMode::ZPG, base_cycles: 5 },
        0x48 => Instruction { op: Operation::PHA, mode: AddressingMode::IMPL, base_cycles: 3 },
        0x49 => Instruction { op: Operation::EOR, mode: AddressingMode::IMM, base_cycles: 2 },
        0x4A => Instruction { op: Operation::LSR, mode: AddressingMode::IMPL, base_cycles: 2 },
        0x4B => Instruction { op: Operation::ALR, mode: AddressingMode::IMM, base_cycles: 2 },
        0x4C => Instruction { op: Operation::JMP, mode: AddressingMode::ABS, base_cycles: 3 },
        0x4D => Instruction { op: Operation::EOR, mode: AddressingMode::ABS, base_cycles: 4 },
        0x4E => Instruction { op: Operation::LSR, mode: AddressingMode::ABS, base_cycles: 6 },
        0x4F => Instruction { op: Operation::SRE, mode: AddressingMode::ABS, base_cycles: 6 },
        0x50 => Instruction { op: Operation::BVC, mode: AddressingMode::REL, base_cycles: 2 },
        0x51 => Instruction { op: Operation::EOR, mode: AddressingMode::INDY, base_cycles: 5 },
        0x52 => Instruction { op: Operation::JAM, mode: AddressingMode::IMPL, base_cycles: 0 },
        0x53 => Instruction { op: Operation::SRE, mode: AddressingMode::INDY, base_cycles: 8 },
        0x54 => Instruction { op: Operation::NOP, mode: AddressingMode::ZPGX, base_cycles: 0 },
        0x55 => Instruction { op: Operation::EOR, mode: AddressingMode::ZPGX, base_cycles: 4 },
        0x56 => Instruction { op: Operation::LSR, mode: AddressingMode::ZPGX, base_cycles: 6 },
        0x57 => Instruction { op: Operation::SRE, mode: AddressingMode::ZPGX, base_cycles: 6 },
        0x58 => Instruction { op: Operation::CLI, mode: AddressingMode::IMPL, base_cycles: 2 },
        0x59 => Instruction { op: Operation::EOR, mode: AddressingMode::ABSY, base_cycles: 4 },
        0x5A => Instruction { op: Operation::NOP, mode: AddressingMode::IMPL, base_cycles: 0 },
        0x5B => Instruction { op: Operation::SRE, mode: AddressingMode::ABSY, base_cycles: 7 },
        0x5C => Instruction { op: Operation::NOP, mode: AddressingMode::ABSX, base_cycles: 0 },
        0x5D => Instruction { op: Operation::EOR, mode: AddressingMode::ABSX, base_cycles: 4 },
        0x5E => Instruction { op: Operation::LSR, mode: AddressingMode::ABSX, base_cycles: 7 },
        0x5F => Instruction { op: Operation::SRE, mode: AddressingMode::ABSX, base_cycles: 7 },
        0x60 => Instruction { op: Operation::RTS, mode: AddressingMode::IMPL, base_cycles: 6 },
        0x61 => Instruction { op: Operation::ADC, mode: AddressingMode::INDX, base_cycles: 6 },
        0x62 => Instruction { op: Operation::JAM, mode: AddressingMode::IMPL, base_cycles: 0 },
        0x63 => Instruction { op: Operation::RRA, mode: AddressingMode::INDX, base_cycles: 8 },
        0x64 => Instruction { op: Operation::NOP, mode: AddressingMode::ZPG, base_cycles: 0 },
        0x65 => Instruction { op: Operation::ADC, mode: AddressingMode::ZPG, base_cycles: 3 },
        0x66 => Instruction { op: Operation::ROR, mode: AddressingMode::ZPG, base_cycles: 5 },
        0x67 => Instruction { op: Operation::RRA, mode: AddressingMode::ZPG, base_cycles: 5 },
        0x68 => Instruction { op: Operation::PLA, mode: AddressingMode::IMPL, base_cycles: 4 },
        0x69 => Instruction { op: Operation::ADC, mode: AddressingMode::IMM, base_cycles: 2 },
        0x6A => Instruction { op: Operation::ROR, mode: AddressingMode::IMPL, base_cycles: 2 },
        0x6B => Instruction { op: Operation::ARR, mode: AddressingMode::IMM, base_cycles: 2 },
        0x6C => Instruction { op: Operation::JMP, mode: AddressingMode::IND, base_cycles: 5 },
        0x6D => Instruction { op: Operation::ADC, mode: AddressingMode::ABS, base_cycles: 4 },
        0x6E => Instruction { op: Operation::ROR, mode: AddressingMode::ABS, base_cycles: 6 },
        0x6F => Instruction { op: Operation::RRA, mode: AddressingMode::ABS, base_cycles: 6 },
        0x70 => Instruction { op: Operation::BVS, mode: AddressingMode::REL, base_cycles: 2 },
        0x71 => Instruction { op: Operation::ADC, mode: AddressingMode::INDY, base_cycles: 5 },
        0x72 => Instruction { op: Operation::JAM, mode: AddressingMode::IMPL, base_cycles: 0 },
        0x73 => Instruction { op: Operation::RRA, mode: AddressingMode::INDY, base_cycles: 8 },
        0x74 => Instruction { op: Operation::NOP, mode: AddressingMode::ZPGX, base_cycles: 0 },
        0x75 => Instruction { op: Operation::ADC, mode: AddressingMode::ZPGX, base_cycles: 4 },
        0x76 => Instruction { op: Operation::ROR, mode: AddressingMode::ZPGX, base_cycles: 6 },
        0x77 => Instruction { op: Operation::RRA, mode: AddressingMode::ZPGX, base_cycles: 6 },
        0x78 => Instruction { op: Operation::SEI, mode: AddressingMode::IMPL, base_cycles: 2 },
        0x79 => Instruction { op: Operation::ADC, mode: AddressingMode::ABSY, base_cycles: 4 },
        0x7A => Instruction { op: Operation::NOP, mode: AddressingMode::IMPL, base_cycles: 0 },
        0x7B => Instruction { op: Operation::RRA, mode: AddressingMode::ABSY, base_cycles: 7 },
        0x7C => Instruction { op: Operation::NOP, mode: AddressingMode::ABSX, base_cycles: 0 },
        0x7D => Instruction { op: Operation::ADC, mode: AddressingMode::ABSX, base_cycles: 4 },
        0x7E => Instruction { op: Operation::ROR, mode: AddressingMode::ABSX, base_cycles: 7 },
        0x7F => Instruction { op: Operation::RRA, mode: AddressingMode::ABSX, base_cycles: 7 },
        0x80 => Instruction { op: Operation::NOP, mode: AddressingMode::IMM, base_cycles: 0 },
        0x81 => Instruction { op: Operation::STA, mode: AddressingMode::INDX, base_cycles: 6 },
        0x82 => Instruction { op: Operation::NOP, mode: AddressingMode::IMM, base_cycles: 0 },
        0x83 => Instruction { op: Operation::SAX, mode: AddressingMode::INDX, base_cycles: 6 },
        0x84 => Instruction { op: Operation::STY, mode: AddressingMode::ZPG, base_cycles: 3 },
        0x85 => Instruction { op: Operation::STA, mode: AddressingMode::ZPG, base_cycles: 3 },
        0x86 => Instruction { op: Operation::STX, mode: AddressingMode::ZPG, base_cycles: 3 },
        0x87 => Instruction { op: Operation::SAX, mode: AddressingMode::ZPG, base_cycles: 3 },
        0x88 => Instruction { op: Operation::DEY, mode: AddressingMode::IMPL, base_cycles: 2 },
        0x89 => Instruction { op: Operation::NOP, mode: AddressingMode::IMM, base_cycles: 0 },
        0x8A => Instruction { op: Operation::TXA, mode: AddressingMode::IMPL, base_cycles: 2 },
        0x8B => Instruction { op: Operation::ANE, mode: AddressingMode::IMM, base_cycles: 2 },
        0x8C => Instruction { op: Operation::STY, mode: AddressingMode::ABS, base_cycles: 4 },
        0x8D => Instruction { op: Operation::STA, mode: AddressingMode::ABS, base_cycles: 4 },
        0x8E => Instruction { op: Operation::STX, mode: AddressingMode::ABS, base_cycles: 4 },
        0x8F => Instruction { op: Operation::SAX, mode: AddressingMode::ABS, base_cycles: 4 },
        0x90 => Instruction { op: Operation::BCC, mode: AddressingMode::REL, base_cycles: 2 },
        0x91 => Instruction { op: Operation::STA, mode: AddressingMode::INDY, base_cycles: 6 },
        0x92 => Instruction { op: Operation::JAM, mode: AddressingMode::IMPL, base_cycles: 0 },
        0x93 => Instruction { op: Operation::SHA, mode: AddressingMode::INDY, base_cycles: 6 },
        0x94 => Instruction { op: Operation::STY, mode: AddressingMode::ZPGX, base_cycles: 4 },
        0x95 => Instruction { op: Operation::STA, mode: AddressingMode::ZPGX, base_cycles: 4 },
        0x96 => Instruction { op: Operation::STX, mode: AddressingMode::ZPGY, base_cycles: 4 },
        0x97 => Instruction { op: Operation::SAX, mode: AddressingMode::ZPGY, base_cycles: 4 },
        0x98 => Instruction { op: Operation::TYA, mode: AddressingMode::IMPL, base_cycles: 2 },
        0x99 => Instruction { op: Operation::STA, mode: AddressingMode::ABSY, base_cycles: 5 },
        0x9A => Instruction { op: Operation::TXS, mode: AddressingMode::IMPL, base_cycles: 2 },
        0x9B => Instruction { op: Operation::TAS, mode: AddressingMode::ABSY, base_cycles: 5 },
        0x9C => Instruction { op: Operation::SHY, mode: AddressingMode::ABSX, base_cycles: 5 },
        0x9D => Instruction { op: Operation::STA, mode: AddressingMode::ABSX, base_cycles: 5 },
        0x9E => Instruction { op: Operation::SHX, mode: AddressingMode::ABSY, base_cycles: 5 },
        0x9F => Instruction { op: Operation::SHA, mode: AddressingMode::ABSY, base_cycles: 5 },
        0xA0 => Instruction { op: Operation::LDY, mode: AddressingMode::IMM, base_cycles: 2 },
        0xA1 => Instruction { op: Operation::LDA, mode: AddressingMode::INDX, base_cycles: 6 },
        0xA2 => Instruction { op: Operation::LDX, mode: AddressingMode::IMM, base_cycles: 2 },
        0xA3 => Instruction { op: Operation::LAX, mode: AddressingMode::INDX, base_cycles: 6 },
        0xA4 => Instruction { op: Operation::LDY, mode: AddressingMode::ZPG, base_cycles: 3 },
        0xA5 => Instruction { op: Operation::LDA, mode: AddressingMode::ZPG, base_cycles: 3 },
        0xA6 => Instruction { op: Operation::LDX, mode: AddressingMode::ZPG, base_cycles: 3 },
        0xA7 => Instruction { op: Operation::LAX, mode: AddressingMode::ZPG, base_cycles: 3 },
        0xA8 => Instruction { op: Operation::TAY, mode: AddressingMode::IMPL, base_cycles: 2 },
        0xA9 => Instruction { op: Operation::LDA, mode: AddressingMode::IMM, base_cycles: 2 },
        0xAA => Instruction { op: Operation::TAX, mode: AddressingMode::IMPL, base_cycles: 2 },
        0xAB => Instruction { op: Operation::LXA, mode: AddressingMode::IMM, base_cycles: 2 },
        0xAC => Instruction { op: Operation::LDY, mode: AddressingMode::ABS, base_cycles: 4 },
        0xAD => Instruction { op: Operation::LDA, mode: AddressingMode::ABS, base_cycles: 4 },
        0xAE => Instruction { op: Operation::LDX, mode: AddressingMode::ABS, base_cycles: 4 },
        0xAF => Instruction { op: Operation::LAX, mode: AddressingMode::ABS, base_cycles: 4 },
        0xB0 => Instruction { op: Operation::BCS, mode: AddressingMode::REL, base_cycles: 2 },
        0xB1 => Instruction { op: Operation::LDA, mode: AddressingMode::INDY, base_cycles: 5 },
        0xB2 => Instruction { op: Operation::JAM, mode: AddressingMode::IMPL, base_cycles: 0 },
        0xB3 => Instruction { op: Operation::LAX, mode: AddressingMode::INDY, base_cycles: 5 },
        0xB4 => Instruction { op: Operation::LDY, mode: AddressingMode::ZPGX, base_cycles: 4 },
        0xB5 => Instruction { op: Operation::LDA, mode: AddressingMode::ZPGX, base_cycles: 4 },
        0xB6 => Instruction { op: Operation::LDX, mode: AddressingMode::ZPGY, base_cycles: 4 },
        0xB7 => Instruction { op: Operation::LAX, mode: AddressingMode::ZPGY, base_cycles: 4 },
        0xB8 => Instruction { op: Operation::CLV, mode: AddressingMode::IMPL, base_cycles: 2 },
        0xB9 => Instruction { op: Operation::LDA, mode: AddressingMode::ABSY, base_cycles: 4 },
        0xBA => Instruction { op: Operation::TSX, mode: AddressingMode::IMPL, base_cycles: 2 },
        0xBB => Instruction { op: Operation::LAS, mode: AddressingMode::ABSY, base_cycles: 4 },
        0xBC => Instruction { op: Operation::LDY, mode: AddressingMode::ABSX, base_cycles: 4 },
        0xBD => Instruction { op: Operation::LDA, mode: AddressingMode::ABSX, base_cycles: 4 },
        0xBE => Instruction { op: Operation::LDX, mode: AddressingMode::ABSY, base_cycles: 4 },
        0xBF => Instruction { op: Operation::LAX, mode: AddressingMode::ABSY, base_cycles: 4 },
        0xC0 => Instruction { op: Operation::CPY, mode: AddressingMode::IMM, base_cycles: 2 },
        0xC1 => Instruction { op: Operation::CMP, mode: AddressingMode::INDX, base_cycles: 6 },
        0xC2 => Instruction { op: Operation::NOP, mode: AddressingMode::IMM, base_cycles: 0 },
        0xC3 => Instruction { op: Operation::DCP, mode: AddressingMode::INDX, base_cycles: 8 },
        0xC4 => Instruction { op: Operation::CPY, mode: AddressingMode::ZPG, base_cycles: 3 },
        0xC5 => Instruction { op: Operation::CMP, mode: AddressingMode::ZPG, base_cycles: 3 },
        0xC6 => Instruction { op: Operation::DEC, mode: AddressingMode::ZPG, base_cycles: 5 },
        0xC7 => Instruction { op: Operation::DCP, mode: AddressingMode::ZPG, base_cycles: 5 },
        0xC8 => Instruction { op: Operation::INY, mode: AddressingMode::IMPL, base_cycles: 2 },
        0xC9 => Instruction { op: Operation::CMP, mode: AddressingMode::IMM, base_cycles: 2 },
        0xCA => Instruction { op: Operation::DEX, mode: AddressingMode::IMPL, base_cycles: 2 },
        0xCB => Instruction { op: Operation::SBX, mode: AddressingMode::IMM, base_cycles: 2 },
        0xCC => Instruction { op: Operation::CPY, mode: AddressingMode::ABS, base_cycles: 4 },
        0xCD => Instruction { op: Operation::CMP, mode: AddressingMode::ABS, base_cycles: 4 },
        0xCE => Instruction { op: Operation::DEC, mode: AddressingMode::ABS, base_cycles: 6 },
        0xCF => Instruction { op: Operation::DCP, mode: AddressingMode::ABS, base_cycles: 6 },
        0xD0 => Instruction { op: Operation::BNE, mode: AddressingMode::REL, base_cycles: 2 },
        0xD1 => Instruction { op: Operation::CMP, mode: AddressingMode::INDY, base_cycles: 5 },
        0xD2 => Instruction { op: Operation::JAM, mode: AddressingMode::IMPL, base_cycles: 0 },
        0xD3 => Instruction { op: Operation::DCP, mode: AddressingMode::INDY, base_cycles: 8 },
        0xD4 => Instruction { op: Operation::NOP, mode: AddressingMode::ZPGX, base_cycles: 0 },
        0xD5 => Instruction { op: Operation::CMP, mode: AddressingMode::ZPGX, base_cycles: 4 },
        0xD6 => Instruction { op: Operation::DEC, mode: AddressingMode::ZPGX, base_cycles: 6 },
        0xD7 => Instruction { op: Operation::DCP, mode: AddressingMode::ZPGX, base_cycles: 6 },
        0xD8 => Instruction { op: Operation::CLD, mode: AddressingMode::IMPL, base_cycles: 2 },
        0xD9 => Instruction { op: Operation::CMP, mode: AddressingMode::ABSY, base_cycles: 4 },
        0xDA => Instruction { op: Operation::NOP, mode: AddressingMode::IMPL, base_cycles: 0 },
        0xDB => Instruction { op: Operation::DCP, mode: AddressingMode::ABSY, base_cycles: 7 },
        0xDC => Instruction { op: Operation::NOP, mode: AddressingMode::ABSX, base_cycles: 0 },
        0xDD => Instruction { op: Operation::CMP, mode: AddressingMode::ABSX, base_cycles: 4 },
        0xDE => Instruction { op: Operation::DEC, mode: AddressingMode::ABSX, base_cycles: 7 },
        0xDF => Instruction { op: Operation::DCP, mode: AddressingMode::ABSX, base_cycles: 7 },
        0xE0 => Instruction { op: Operation::CPX, mode: AddressingMode::IMM, base_cycles: 2 },
        0xE1 => Instruction { op: Operation::SBC, mode: AddressingMode::INDX, base_cycles: 6 },
        0xE2 => Instruction { op: Operation::NOP, mode: AddressingMode::IMM, base_cycles: 0 },
        0xE3 => Instruction { op: Operation::ISC, mode: AddressingMode::INDX, base_cycles: 8 },
        0xE4 => Instruction { op: Operation::CPX, mode: AddressingMode::ZPG, base_cycles: 3 },
        0xE5 => Instruction { op: Operation::SBC, mode: AddressingMode::ZPG, base_cycles: 3 },
        0xE6 => Instruction { op: Operation::INC, mode: AddressingMode::ZPG, base_cycles: 5 },
        0xE7 => Instruction { op: Operation::ISC, mode: AddressingMode::ZPG, base_cycles: 5 },
        0xE8 => Instruction { op: Operation::INX, mode: AddressingMode::IMPL, base_cycles: 2 },
        0xE9 => Instruction { op: Operation::SBC, mode: AddressingMode::IMM, base_cycles: 2 },
        0xEA => Instruction { op: Operation::NOP, mode: AddressingMode::IMPL, base_cycles: 0 },
        0xEB => Instruction { op: Operation::USBC, mode: AddressingMode::IMM, base_cycles: 2 },
        0xEC => Instruction { op: Operation::CPX, mode: AddressingMode::ABS, base_cycles: 4 },
        0xED => Instruction { op: Operation::SBC, mode: AddressingMode::ABS, base_cycles: 4 },
        0xEE => Instruction { op: Operation::INC, mode: AddressingMode::ABS, base_cycles: 6 },
        0xEF => Instruction { op: Operation::ISC, mode: AddressingMode::ABS, base_cycles: 6 },
        0xF0 => Instruction { op: Operation::BEQ, mode: AddressingMode::REL, base_cycles: 2 },
        0xF1 => Instruction { op: Operation::SBC, mode: AddressingMode::INDY, base_cycles: 5 },
        0xF2 => Instruction { op: Operation::JAM, mode: AddressingMode::IMPL, base_cycles: 0 },
        0xF3 => Instruction { op: Operation::ISC, mode: AddressingMode::INDY, base_cycles: 8 },
        0xF4 => Instruction { op: Operation::NOP, mode: AddressingMode::ZPGX, base_cycles: 0 },
        0xF5 => Instruction { op: Operation::SBC, mode: AddressingMode::ZPGX, base_cycles: 4 },
        0xF6 => Instruction { op: Operation::INC, mode: AddressingMode::ZPGX, base_cycles: 6 },
        0xF7 => Instruction { op: Operation::ISC, mode: AddressingMode::ZPGX, base_cycles: 6 },
        0xF8 => Instruction { op: Operation::SED, mode: AddressingMode::IMPL, base_cycles: 2 },
        0xF9 => Instruction { op: Operation::SBC, mode: AddressingMode::ABSY, base_cycles: 4 },
        0xFA => Instruction { op: Operation::NOP, mode: AddressingMode::IMPL, base_cycles: 0 },
        0xFB => Instruction { op: Operation::ISC, mode: AddressingMode::ABSY, base_cycles: 7 },
        0xFC => Instruction { op: Operation::NOP, mode: AddressingMode::ABSX, base_cycles: 0 },
        0xFD => Instruction { op: Operation::SBC, mode: AddressingMode::ABSX, base_cycles: 4 },
        0xFE => Instruction { op: Operation::INC, mode: AddressingMode::ABSX, base_cycles: 7 },
        _ => Instruction { op: Operation::ISC, mode: AddressingMode::ABSX, base_cycles: 7 },
    }
}

} // verus!
