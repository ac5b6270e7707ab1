//! The 6502 processor: registers, status flags, the dispatch table, and
//! the fetch/decode/execute engine driven by `clock`.
//!
//! Every mutating method is specified as computing exactly the state the
//! model interpreter in `crate::model` describes.

use vstd::prelude::*;

use crate::bits::{
    combine16, get_mask, page_of, set_mask, split_hi, split_lo, wrap_add16, wrap_add8, wrap_dec16,
    wrap_dec8, wrap_inc16, wrap_inc8, wrap_sub8,
};
use crate::bus::{bus_read, Bus, BusView};
use crate::isa::{cycles_of, mode_of, op_of, spec_instruction, AddressingMode, Instruction, Operation};
use crate::memory::Memory;
use crate::model::{
    apply_mode, apply_op, branch, canonical, fetch_value, flag_b, flag_c,
    flag_d, flag_i, flag_n, flag_o, flag_u, flag_z, mode_abs, mode_absx, mode_absy,
    mode_imm, mode_impl, mode_ind, mode_indx, mode_indy, mode_rel, mode_zpg, mode_zpgx, mode_zpgy,
    op_adc, op_and, op_asl, op_bcc, op_bcs, op_beq, op_bit, op_bmi, op_bne, op_bpl, op_brk, op_bvc,
    op_bvs, op_clc, op_cld, op_cli, op_clv, op_cmp, op_cpx, op_cpy, op_dec, op_dex, op_dey, op_eor,
    op_inc, op_inx, op_iny, op_jam, op_jmp, op_jsr, op_lda, op_ldx, op_ldy, op_lsr, op_nop, op_ora,
    op_pha, op_php, op_pla, op_plp, op_rol, op_ror, op_rti, op_rts, op_sbc, op_sec, op_sed, op_sei,
    op_sta, op_stx, op_sty, op_tax, op_tay, op_tsx, op_txa, op_txs, op_tya, pull8,
    pull8_val, push8, rmw_target, spec_irq, spec_nmi, spec_reset, step, with_b, with_c,
    with_d, with_fetch, with_i, with_n, with_o, with_u, with_z, CpuView, M_B, M_C, M_D,
    M_I, M_N, M_O, M_U, M_Z,
};
use crate::model::lemma_mode_cycles;
use crate::model::lemma_op_cycles;
use crate::rom::{rom_loaded, Rom};

verus! {

/// The size of the RAM region in bytes.
pub const RAM_SIZE: usize = 0x4000;

/// The size of the I/O (`other`) region in bytes.
pub const OTHER_SIZE: usize = 0x4000;

/// The size of the ROM region in bytes.
pub const ROM_SIZE: usize = 0x8000;

/// The MOS 6502.  The bus and the architectural registers are public so
/// that a host can display them; the dispatch table is fixed private
/// state established by the constructor.
pub struct Processor {
    pub bus: Bus,
    instructions: Vec<Instruction>,
    pub accumulator: u8,
    pub index_register_x: u8,
    pub index_register_y: u8,
    pub status: u8,
    pub stack_pointer: u8,
    pub program_counter: u16,
    pub fetched: u8,
    pub address_absolute: u16,
    pub address_relative: u16,
    pub opcode: u8,
    pub cycles: u8,
}

impl View for Processor {
    type V = CpuView;

    closed spec fn view(&self) -> CpuView {
        CpuView {
            bus: self.bus@,
            a: self.accumulator,
            x: self.index_register_x,
            y: self.index_register_y,
            status: self.status,
            sp: self.stack_pointer,
            pc: self.program_counter,
            fetched: self.fetched,
            addr_abs: self.address_absolute,
            addr_rel: self.address_relative,
            opcode: self.opcode,
            cycles: self.cycles,
        }
    }
}

impl Processor {
    /// The dispatch table is complete: one entry per opcode byte, each
    /// equal to the canonical table.
    pub closed spec fn wf(&self) -> bool {
        &&& self.instructions@.len() == 256
        &&& forall|i: int| 0 <= i < 256 ==> self.instructions@[i] == spec_instruction(i as u8)
    }

    /// A processor with zeroed memory and cleared registers.
    pub fn new() -> (r: Self)
        ensures
            r.wf(),
            canonical(r@.bus),
            forall|i: int| 0 <= i < 0x4000 ==> r@.bus.ram[i] == 0,
            forall|i: int| 0 <= i < 0x4000 ==> r@.bus.other[i] == 0,
            forall|i: int| 0 <= i < 0x8000 ==> r@.bus.rom[i] == 0,
            forall|addr: u16| bus_read(r@.bus, addr) == 0,
            r@.a == 0 && r@.x == 0 && r@.y == 0 && r@.status == 0 && r@.sp == 0,
            r@.pc == 0 && r@.fetched == 0 && r@.addr_abs == 0 && r@.addr_rel == 0,
            r@.opcode == 0 && r@.cycles == 0,
    {
        let memory = Memory::new(RAM_SIZE);
        let mut other: Vec<u8> = Vec::new();
        let mut i: usize = 0;
        while i < OTHER_SIZE
            invariant
                i <= OTHER_SIZE,
                other@.len() == i,
                forall|j: int| 0 <= j < i ==> other@[j] == 0,
            decreases OTHER_SIZE - i,
        {
            other.push(0);
            i = i + 1;
        }
        let secondary_storage = Rom::new(ROM_SIZE);
        let bus = Bus::new(memory, other, secondary_storage);
        let instructions = Instruction::create_instructions_table();
        Processor {
            bus,
            instructions,
            accumulator: 0,
            index_register_x: 0,
            index_register_y: 0,
            status: 0,
            stack_pointer: 0,
            program_counter: 0,
            fetched: 0,
            address_absolute: 0,
            address_relative: 0,
            opcode: 0,
            cycles: 0,
        }
    }

    /// A processor as `new`, with the given address stored in the reset
    /// vector at 0xFFFC/0xFFFD so that `reset` picks it up.
    pub fn new_setup(program_counter: Option<u16>) -> (r: Self)
        ensures
            r.wf(),
            canonical(r@.bus),
            r@.a == 0 && r@.x == 0 && r@.y == 0 && r@.status == 0 && r@.sp == 0,
            r@.pc == 0 && r@.fetched == 0 && r@.addr_abs == 0 && r@.addr_rel == 0,
            r@.opcode == 0 && r@.cycles == 0,
            match program_counter {
                Some(pc) => {
                    &&& bus_read(r@.bus, 0xFFFC) == crate::bits::lo8(pc)
                    &&& bus_read(r@.bus, 0xFFFD) == crate::bits::hi8(pc)
                    &&& forall|addr: u16|
                        addr != 0xFFFC && addr != 0xFFFD ==> bus_read(r@.bus, addr) == 0
                },
                None => forall|addr: u16| bus_read(r@.bus, addr) == 0,
            },
    {
        let mut r = Processor::new();
        match program_counter {
            Some(pc) => {
                let _ = r.bus.write(0xFFFC, split_lo(pc));
                let _ = r.bus.write(0xFFFD, split_hi(pc));
            },
            None => {},
        }
        r
    }

    /// Copies a ROM image into the ROM region; see `Rom::load`.
    pub fn load_rom(&mut self, bytes: &Vec<u8>, start_location: u16)
        ensures
            final(self).wf() == old(self).wf(),
            final(self)@ == (CpuView {
                bus: BusView {
                    rom: rom_loaded(old(self)@.bus.rom, bytes@, start_location),
                    ..old(self)@.bus
                },
                ..old(self)@
            }),
    {
        self.bus.load_rom(bytes, start_location);
    }
}

impl Default for Processor {
    /// The same machine `new` builds: zeroed memory, cleared registers,
    /// and the full dispatch table.
    fn default() -> (r: Self)
        ensures
            r.wf(),
            canonical(r@.bus),
            forall|addr: u16| bus_read(r@.bus, addr) == 0,
            r@.a == 0 && r@.x == 0 && r@.y == 0 && r@.status == 0 && r@.sp == 0,
            r@.pc == 0 && r@.cycles == 0,
    {
        Processor::new()
    }
}

// Getters and setters for the status bits.  Setting means forcing the
// bit to the given boolean value.
impl Processor {
    pub fn get_c(&self) -> (r: bool)
        ensures
            r == flag_c(self@.status),
    {
        get_mask(self.status, M_C)
    }

    pub fn get_z(&self) -> (r: bool)
        ensures
            r == flag_z(self@.status),
    {
        get_mask(self.status, M_Z)
    }

    pub fn get_i(&self) -> (r: bool)
        ensures
            r == flag_i(self@.status),
    {
        get_mask(self.status, M_I)
    }

    pub fn get_d(&self) -> (r: bool)
        ensures
            r == flag_d(self@.status),
    {
        get_mask(self.status, M_D)
    }

    pub fn get_b(&self) -> (r: bool)
        ensures
            r == flag_b(self@.status),
    {
        get_mask(self.status, M_B)
    }

    pub fn get_u(&self) -> (r: bool)
        ensures
            r == flag_u(self@.status),
    {
        get_mask(self.status, M_U)
    }

    pub fn get_o(&self) -> (r: bool)
        ensures
            r == flag_o(self@.status),
    {
        get_mask(self.status, M_O)
    }

    pub fn get_n(&self) -> (r: bool)
        ensures
            r == flag_n(self@.status),
    {
        get_mask(self.status, M_N)
    }

    pub fn set_c(&mut self, x: bool)
        ensures
            final(self).wf() == old(self).wf(),
            final(self)@ == (CpuView { status: with_c(old(self)@.status, x), ..old(self)@ }),
    {
        self.status = set_mask(self.status, M_C, x);
    }

    pub fn set_z(&mut self, x: bool)
        ensures
            final(self).wf() == old(self).wf(),
            final(self)@ == (CpuView { status: with_z(old(self)@.status, x), ..old(self)@ }),
    {
        self.status = set_mask(self.status, M_Z, x);
    }

    pub fn set_i(&mut self, x: bool)
        ensures
            final(self).wf() == old(self).wf(),
            final(self)@ == (CpuView { status: with_i(old(self)@.status, x), ..old(self)@ }),
    {
        self.status = set_mask(self.status, M_I, x);
    }

    pub fn set_d(&mut self, x: bool)
        ensures
            final(self).wf() == old(self).wf(),
            final(self)@ == (CpuView { status: with_d(old(self)@.status, x), ..old(self)@ }),
    {
        self.status = set_mask(self.status, M_D, x);
    }

    pub fn set_b(&mut self, x: bool)
        ensures
            final(self).wf() == old(self).wf(),
            final(self)@ == (CpuView { status: with_b(old(self)@.status, x), ..old(self)@ }),
    {
        self.status = set_mask(self.status, M_B, x);
    }

    pub fn set_u(&mut self, x: bool)
        ensures
            final(self).wf() == old(self).wf(),
            final(self)@ == (CpuView { status: with_u(old(self)@.status, x), ..old(self)@ }),
    {
        self.status = set_mask(self.status, M_U, x);
    }

    pub fn set_o(&mut self, x: bool)
        ensures
            final(self).wf() == old(self).wf(),
            final(self)@ == (CpuView { status: with_o(old(self)@.status, x), ..old(self)@ }),
    {
        self.status = set_mask(self.status, M_O, x);
    }

    pub fn set_n(&mut self, x: bool)
        ensures
            final(self).wf() == old(self).wf(),
            final(self)@ == (CpuView { status: with_n(old(self)@.status, x), ..old(self)@ }),
    {
        self.status = set_mask(self.status, M_N, x);
    }

    /// Zeroes the whole status byte.
    pub fn clear_status(&mut self)
        ensures
            final(self).wf() == old(self).wf(),
            final(self)@ == (CpuView { status: 0, ..old(self)@ }),
    {
        self.status = 0x00;
    }
}

// Stack and fetch staging helpers.
impl Processor {
    /// Writes at the page-1 address the stack pointer designates, then
    /// decrements the stack pointer (which wraps within 8 bits).
    fn push(&mut self, v: u8)
        ensures
            final(self).wf() == old(self).wf(),
            final(self)@ == push8(old(self)@, v),
    {
        let _ = self.bus.write(0x0100 + self.stack_pointer as u16, v);
        self.stack_pointer = wrap_dec8(self.stack_pointer);
    }

    /// Increments the stack pointer, then reads the byte it designates.
    fn pull(&mut self) -> (v: u8)
        ensures
            final(self).wf() == old(self).wf(),
            v == pull8_val(old(self)@),
            final(self)@ == pull8(old(self)@),
    {
        self.stack_pointer = wrap_inc8(self.stack_pointer);
        self.bus.read(0x0100 + self.stack_pointer as u16)
    }

    /// Stages the operand: the accumulator in implied mode, else the byte
    /// at the effective address.
    fn fetch(&mut self) -> (v: u8)
        requires
            old(self).wf(),
        ensures
            final(self).wf(),
            v == fetch_value(old(self)@),
            final(self)@ == with_fetch(old(self)@),
    {
        let m = self.instructions[self.opcode as usize].mode;
        if m == AddressingMode::IMPL {
            self.fetched = self.accumulator;
        } else {
            self.fetched = self.bus.read(self.address_absolute);
        }
        self.fetched
    }

    /// Lands a read-modify-write result: in the accumulator in implied
    /// mode, else at the effective address.
    fn write_back(&mut self, r: u8)
        requires
            old(self).wf(),
        ensures
            final(self).wf(),
            final(self)@ == rmw_target(old(self)@, r),
    {
        let m = self.instructions[self.opcode as usize].mode;
        if m == AddressingMode::IMPL {
            self.accumulator = r;
        } else {
            let _ = self.bus.write(self.address_absolute, r);
        }
    }
}

// Reset and interrupt entry.
impl Processor {
    /// Forces the CPU into a known state: the program counter is loaded
    /// from the little-endian reset vector at 0xFFFC, the registers
    /// clear, the stack pointer becomes 0xFF, the status keeps only U,
    /// and 8 cycles are charged.
    pub fn reset(&mut self)
        ensures
            final(self).wf() == old(self).wf(),
            final(self)@ == spec_reset(old(self)@),
    {
        let lo = self.bus.read(0xFFFC);
        let hi = self.bus.read(0xFFFD);
        self.program_counter = combine16(lo, hi);
        self.accumulator = 0x00;
        self.index_register_x = 0x00;
        self.index_register_y = 0x00;
        self.stack_pointer = 0xFF;
        self.status = 0x00;
        self.set_u(true);
        self.fetched = 0x00;
        self.address_absolute = 0x0000;
        self.address_relative = 0x0000;
        self.opcode = 0x00;
        self.cycles = 8;
    }

    /// A maskable interrupt: ignored while I is set; otherwise the
    /// program counter and status (with B = 0, U = 1, I = 1) are pushed
    /// and the handler at 0xFFFE is entered, charging 7 cycles.
    pub fn irq(&mut self)
        ensures
            final(self).wf() == old(self).wf(),
            final(self)@ == spec_irq(old(self)@),
    {
        if !self.get_i() {
            let hi = split_hi(self.program_counter);
            let lo = split_lo(self.program_counter);
            self.push(hi);
            self.push(lo);
            self.set_b(false);
            self.set_u(true);
            self.set_i(true);
            let st = self.status;
            self.push(st);
            let vlo = self.bus.read(0xFFFE);
            let vhi = self.bus.read(0xFFFF);
            self.program_counter = combine16(vlo, vhi);
            self.cycles = 7;
        }
    }

    /// A non-maskable interrupt: as `irq`, but never masked, entering
    /// through the vector at 0xFFFA and charging 8 cycles.
    pub fn nmi(&mut self)
        ensures
            final(self).wf() == old(self).wf(),
            final(self)@ == spec_nmi(old(self)@),
    {
        let hi = split_hi(self.program_counter);
        let lo = split_lo(self.program_counter);
        self.push(hi);
        self.push(lo);
        self.set_b(false);
        self.set_u(true);
        self.set_i(true);
        let st = self.status;
        self.push(st);
        let vlo = self.bus.read(0xFFFA);
        let vhi = self.bus.read(0xFFFB);
        self.program_counter = combine16(vlo, vhi);
        self.cycles = 8;
    }
}

// Addressing modes.  Each consumes its operand bytes at the program
// counter, stages the effective address or offset, and reports whether a
// page crossing may cost an extra cycle.
#[allow(non_snake_case)]
impl Processor {
    /// Absolute: a two-byte little-endian address.
    fn ABS(&mut self) -> (r: bool)
        ensures
            final(self).wf() == old(self).wf(),
            final(self)@ == mode_abs(old(self)@).0,
            r == mode_abs(old(self)@).1,
    {
        let lo = self.bus.read(self.program_counter);
        let hi = self.bus.read(wrap_inc16(self.program_counter));
        self.address_absolute = combine16(lo, hi);
        self.program_counter = wrap_add16(self.program_counter, 2);
        false
    }

    /// Absolute, X-indexed; reports a page crossing.
    fn ABSX(&mut self) -> (r: bool)
        ensures
            final(self).wf() == old(self).wf(),
            final(self)@ == mode_absx(old(self)@).0,
            r == mode_absx(old(self)@).1,
    {
        let lo = self.bus.read(self.program_counter);
        let hi = self.bus.read(wrap_inc16(self.program_counter));
        let base = combine16(lo, hi);
        let ea = wrap_add16(base, self.index_register_x as u16);
        self.address_absolute = ea;
        self.program_counter = wrap_add16(self.program_counter, 2);
        page_of(base) != page_of(ea)
    }

    /// Absolute, Y-indexed; reports a page crossing.
    fn ABSY(&mut self) -> (r: bool)
        ensures
            final(self).wf() == old(self).wf(),
            final(self)@ == mode_absy(old(self)@).0,
            r == mode_absy(old(self)@).1,
    {
        let lo = self.bus.read(self.program_counter);
        let hi = self.bus.read(wrap_inc16(self.program_counter));
        let base = combine16(lo, hi);
        let ea = wrap_add16(base, self.index_register_y as u16);
        self.address_absolute = ea;
        self.program_counter = wrap_add16(self.program_counter, 2);
        page_of(base) != page_of(ea)
    }

    /// Zero page: a one-byte address.
    fn ZPG(&mut self) -> (r: bool)
        ensures
            final(self).wf() == old(self).wf(),
            final(self)@ == mode_zpg(old(self)@).0,
            r == mode_zpg(old(self)@).1,
    {
        let b = self.bus.read(self.program_counter);
        self.address_absolute = b as u16;
        self.program_counter = wrap_inc16(self.program_counter);
        false
    }

    /// Zero page, X-indexed; the sum wraps within the zero page.
    fn ZPGX(&mut self) -> (r: bool)
        ensures
            final(self).wf() == old(self).wf(),
            final(self)@ == mode_zpgx(old(self)@).0,
            r == mode_zpgx(old(self)@).1,
    {
        let b = self.bus.read(self.program_counter);
        self.address_absolute = wrap_add8(b, self.index_register_x) as u16;
        self.program_counter = wrap_inc16(self.program_counter);
        false
    }

    /// Zero page, Y-indexed; the sum wraps within the zero page.
    fn ZPGY(&mut self) -> (r: bool)
        ensures
            final(self).wf() == old(self).wf(),
            final(self)@ == mode_zpgy(old(self)@).0,
            r == mode_zpgy(old(self)@).1,
    {
        let b = self.bus.read(self.program_counter);
        self.address_absolute = wrap_add8(b, self.index_register_y) as u16;
        self.program_counter = wrap_inc16(self.program_counter);
        false
    }

    /// Indirect, with the 6502 page-boundary hardware bug: a pointer
    /// whose low byte is 0xFF takes its high target byte from the start
    /// of the pointer's own page.
    fn IND(&mut self) -> (r: bool)
        ensures
            final(self).wf() == old(self).wf(),
            final(self)@ == mode_ind(old(self)@).0,
            r == mode_ind(old(self)@).1,
    {
        let pl = self.bus.read(self.program_counter);
        let ph = self.bus.read(wrap_inc16(self.program_counter));
        let ptr = combine16(pl, ph);
        let lo = self.bus.read(ptr);
        let hi = if pl == 0xFF {
            self.bus.read(combine16(0, ph))
        } else {
            self.bus.read(wrap_add16(ptr, 1))
        };
        self.address_absolute = combine16(lo, hi);
        self.program_counter = wrap_add16(self.program_counter, 2);
        false
    }

    /// Indexed indirect: the operand plus X designates a zero-page
    /// pointer, read with zero-page wrap-around.
    fn INDX(&mut self) -> (r: bool)
        ensures
            final(self).wf() == old(self).wf(),
            final(self)@ == mode_indx(old(self)@).0,
            r == mode_indx(old(self)@).1,
    {
        let t = self.bus.read(self.program_counter);
        let p = wrap_add8(t, self.index_register_x);
        let lo = self.bus.read(p as u16);
        let hi = self.bus.read(wrap_inc8(p) as u16);
        self.address_absolute = combine16(lo, hi);
        self.program_counter = wrap_inc16(self.program_counter);
        false
    }

    /// Indirect indexed: a zero-page pointer read with zero-page wrap,
    /// then offset by Y; reports a page crossing.
    fn INDY(&mut self) -> (r: bool)
        ensures
            final(self).wf() == old(self).wf(),
            final(self)@ == mode_indy(old(self)@).0,
            r == mode_indy(old(self)@).1,
    {
        let t = self.bus.read(self.program_counter);
        let lo = self.bus.read(t as u16);
        let hi = self.bus.read(wrap_inc8(t) as u16);
        let base = combine16(lo, hi);
        let ea = wrap_add16(base, self.index_register_y as u16);
        self.address_absolute = ea;
        self.program_counter = wrap_inc16(self.program_counter);
        page_of(base) != page_of(ea)
    }

    /// Implied: the operand is the accumulator.
    fn IMPL(&mut self) -> (r: bool)
        ensures
            final(self).wf() == old(self).wf(),
            final(self)@ == mode_impl(old(self)@).0,
            r == mode_impl(old(self)@).1,
    {
        self.fetched = self.accumulator;
        false
    }

    /// Relative: a one-byte offset, sign-extended to 16 bits.
    fn REL(&mut self) -> (r: bool)
        ensures
            final(self).wf() == old(self).wf(),
            final(self)@ == mode_rel(old(self)@).0,
            r == mode_rel(old(self)@).1,
    {
        let b = self.bus.read(self.program_counter);
        self.address_relative = if b >= 0x80 {
            0xFF00 + b as u16
        } else {
            b as u16
        };
        self.program_counter = wrap_inc16(self.program_counter);
        false
    }

    /// Immediate: the operand is the byte after the opcode.
    fn IMM(&mut self) -> (r: bool)
        ensures
            final(self).wf() == old(self).wf(),
            final(self)@ == mode_imm(old(self)@).0,
            r == mode_imm(old(self)@).1,
    {
        self.address_absolute = self.program_counter;
        self.program_counter = wrap_inc16(self.program_counter);
        false
    }

    /// Dispatch over the addressing-mode tag.
    fn run_mode(&mut self, m: AddressingMode) -> (r: bool)
        ensures
            final(self).wf() == old(self).wf(),
            final(self)@ == apply_mode(old(self)@, m).0,
            r == apply_mode(old(self)@, m).1,
    {
        match m {
            AddressingMode::ABS => self.ABS(),
            AddressingMode::ABSX => self.ABSX(),
            AddressingMode::ABSY => self.ABSY(),
            AddressingMode::ZPG => self.ZPG(),
            AddressingMode::ZPGX => self.ZPGX(),
            AddressingMode::ZPGY => self.ZPGY(),
            AddressingMode::IND => self.IND(),
            AddressingMode::INDX => self.INDX(),
            AddressingMode::INDY => self.INDY(),
            AddressingMode::IMPL => self.IMPL(),
            AddressingMode::REL => self.REL(),
            AddressingMode::IMM => self.IMM(),
        }
    }
}

// Operations.  Each returns whether it can incur a page-cross penalty;
// the extra cycle is charged iff the addressing mode reports a crossing
// and the operation reports the capability.
#[allow(non_snake_case)]
impl Processor {
    /// Add with carry.
    fn ADC(&mut self) -> (r: bool)
        requires
            old(self).wf(),
        ensures
            final(self).wf(),
            final(self)@ == op_adc(old(self)@).0,
            r == op_adc(old(self)@).1,
    {
        let f = self.fetch();
        let c: u16 = if self.get_c() {
            1
        } else {
            0
        };
        let t: u16 = self.accumulator as u16 + f as u16 + c;
        let v: u8 = if t > 255 {
            (t - 256) as u8
        } else {
            t as u8
        };
        let a = self.accumulator;
        self.set_c(t > 255);
        self.set_z(v == 0);
        self.set_o(((a ^ v) & (f ^ v) & 0x80) != 0);
        self.set_n(v & 0x80 != 0);
        self.accumulator = v;
        true
    }

    /// Subtract with borrow: add with the operand one's-complemented.
    fn SBC(&mut self) -> (r: bool)
        requires
            old(self).wf(),
        ensures
            final(self).wf(),
            final(self)@ == op_sbc(old(self)@).0,
            r == op_sbc(old(self)@).1,
    {
        let f = !self.fetch();
        let c: u16 = if self.get_c() {
            1
        } else {
            0
        };
        let t: u16 = self.accumulator as u16 + f as u16 + c;
        let v: u8 = if t > 255 {
            (t - 256) as u8
        } else {
            t as u8
        };
        let a = self.accumulator;
        self.set_c(t > 255);
        self.set_z(v == 0);
        self.set_o(((a ^ v) & (f ^ v) & 0x80) != 0);
        self.set_n(v & 0x80 != 0);
        self.accumulator = v;
        true
    }

    /// Bitwise and with the accumulator.
    fn AND(&mut self) -> (r: bool)
        requires
            old(self).wf(),
        ensures
            final(self).wf(),
            final(self)@ == op_and(old(self)@).0,
            r == op_and(old(self)@).1,
    {
        let v = self.accumulator & self.fetch();
        self.accumulator = v;
        self.set_z(v == 0);
        self.set_n(v & 0x80 != 0);
        true
    }

    /// Bitwise or with the accumulator.
    fn ORA(&mut self) -> (r: bool)
        requires
            old(self).wf(),
        ensures
            final(self).wf(),
            final(self)@ == op_ora(old(self)@).0,
            r == op_ora(old(self)@).1,
    {
        let v = self.accumulator | self.fetch();
        self.accumulator = v;
        self.set_z(v == 0);
        self.set_n(v & 0x80 != 0);
        true
    }

    /// Exclusive or with the accumulator.
    fn EOR(&mut self) -> (r: bool)
        requires
            old(self).wf(),
        ensures
            final(self).wf(),
            final(self)@ == op_eor(old(self)@).0,
            r == op_eor(old(self)@).1,
    {
        let v = self.accumulator ^ self.fetch();
        self.accumulator = v;
        self.set_z(v == 0);
        self.set_n(v & 0x80 != 0);
        true
    }

    /// Arithmetic shift left; carry takes the outgoing bit 7.
    fn ASL(&mut self) -> (r: bool)
        requires
            old(self).wf(),
        ensures
            final(self).wf(),
            final(self)@ == op_asl(old(self)@).0,
            r == op_asl(old(self)@).1,
    {
        let f = self.fetch();
        let t: u16 = (f as u16) * 2;
        let v: u8 = if t > 255 {
            (t - 256) as u8
        } else {
            t as u8
        };
        self.set_c(f & 0x80 != 0);
        self.set_z(v == 0);
        self.set_n(v & 0x80 != 0);
        self.write_back(v);
        false
    }

    /// Logical shift right; carry takes the outgoing bit 0.
    fn LSR(&mut self) -> (r: bool)
        requires
            old(self).wf(),
        ensures
            final(self).wf(),
            final(self)@ == op_lsr(old(self)@).0,
            r == op_lsr(old(self)@).1,
    {
        let f = self.fetch();
        let v: u8 = f / 2;
        self.set_c(f & 0x01 != 0);
        self.set_z(v == 0);
        self.set_n(v & 0x80 != 0);
        self.write_back(v);
        false
    }

    /// Rotate left through carry.
    fn ROL(&mut self) -> (r: bool)
        requires
            old(self).wf(),
        ensures
            final(self).wf(),
            final(self)@ == op_rol(old(self)@).0,
            r == op_rol(old(self)@).1,
    {
        let f = self.fetch();
        let c: u16 = if self.get_c() {
            1
        } else {
            0
        };
        let t: u16 = (f as u16) * 2 + c;
        let v: u8 = if t > 255 {
            (t - 256) as u8
        } else {
            t as u8
        };
        self.set_c(f & 0x80 != 0);
        self.set_z(v == 0);
        self.set_n(v & 0x80 != 0);
        self.write_back(v);
        false
    }

    /// Rotate right through carry.
    fn ROR(&mut self) -> (r: bool)
        requires
            old(self).wf(),
        ensures
            final(self).wf(),
            final(self)@ == op_ror(old(self)@).0,
            r == op_ror(old(self)@).1,
    {
        let f = self.fetch();
        let v: u8 = if self.get_c() {
            128 + f / 2
        } else {
            f / 2
        };
        self.set_c(f & 0x01 != 0);
        self.set_z(v == 0);
        self.set_n(v & 0x80 != 0);
        self.write_back(v);
        false
    }

    /// Compare the accumulator against the operand.
    fn CMP(&mut self) -> (r: bool)
        requires
            old(self).wf(),
        ensures
            final(self).wf(),
            final(self)@ == op_cmp(old(self)@).0,
            r == op_cmp(old(self)@).1,
    {
        let f = self.fetch();
        let a = self.accumulator;
        self.set_c(a >= f);
        self.set_z(a == f);
        let d = wrap_sub8(a, f);
        self.set_n(d & 0x80 != 0);
        true
    }

    /// Compare X against the operand.
    fn CPX(&mut self) -> (r: bool)
        requires
            old(self).wf(),
        ensures
            final(self).wf(),
            final(self)@ == op_cpx(old(self)@).0,
            r == op_cpx(old(self)@).1,
    {
        let f = self.fetch();
        let x = self.index_register_x;
        self.set_c(x >= f);
        self.set_z(x == f);
        let d = wrap_sub8(x, f);
        self.set_n(d & 0x80 != 0);
        false
    }

    /// Compare Y against the operand.
    fn CPY(&mut self) -> (r: bool)
        requires
            old(self).wf(),
        ensures
            final(self).wf(),
            final(self)@ == op_cpy(old(self)@).0,
            r == op_cpy(old(self)@).1,
    {
        let f = self.fetch();
        let y = self.index_register_y;
        self.set_c(y >= f);
        self.set_z(y == f);
        let d = wrap_sub8(y, f);
        self.set_n(d & 0x80 != 0);
        false
    }

    /// Increment the byte at the effective address.
    fn INC(&mut self) -> (r: bool)
        requires
            old(self).wf(),
        ensures
            final(self).wf(),
            final(self)@ == op_inc(old(self)@).0,
            r == op_inc(old(self)@).1,
    {
        let f = self.fetch();
        let v = wrap_inc8(f);
        let _ = self.bus.write(self.address_absolute, v);
        self.set_z(v == 0);
        self.set_n(v & 0x80 != 0);
        false
    }

    /// Decrement the byte at the effective address.
    fn DEC(&mut self) -> (r: bool)
        requires
            old(self).wf(),
        ensures
            final(self).wf(),
            final(self)@ == op_dec(old(self)@).0,
            r == op_dec(old(self)@).1,
    {
        let f = self.fetch();
        let v = wrap_dec8(f);
        let _ = self.bus.write(self.address_absolute, v);
        self.set_z(v == 0);
        self.set_n(v & 0x80 != 0);
        false
    }

    /// Increment X.
    fn INX(&mut self) -> (r: bool)
        ensures
            final(self).wf() == old(self).wf(),
            final(self)@ == op_inx(old(self)@).0,
            r == op_inx(old(self)@).1,
    {
        let v = wrap_inc8(self.index_register_x);
        self.index_register_x = v;
        self.set_z(v == 0);
        self.set_n(v & 0x80 != 0);
        false
    }

    /// Increment Y.
    fn INY(&mut self) -> (r: bool)
        ensures
            final(self).wf() == old(self).wf(),
            final(self)@ == op_iny(old(self)@).0,
            r == op_iny(old(self)@).1,
    {
        let v = wrap_inc8(self.index_register_y);
        self.index_register_y = v;
        self.set_z(v == 0);
        self.set_n(v & 0x80 != 0);
        false
    }

    /// Decrement X.
    fn DEX(&mut self) -> (r: bool)
        ensures
            final(self).wf() == old(self).wf(),
            final(self)@ == op_dex(old(self)@).0,
            r == op_dex(old(self)@).1,
    {
        let v = wrap_dec8(self.index_register_x);
        self.index_register_x = v;
        self.set_z(v == 0);
        self.set_n(v & 0x80 != 0);
        false
    }

    /// Decrement Y.
    fn DEY(&mut self) -> (r: bool)
        ensures
            final(self).wf() == old(self).wf(),
            final(self)@ == op_dey(old(self)@).0,
            r == op_dey(old(self)@).1,
    {
        let v = wrap_dec8(self.index_register_y);
        self.index_register_y = v;
        self.set_z(v == 0);
        self.set_n(v & 0x80 != 0);
        false
    }

    /// Load the accumulator; Z and N follow the loaded value.
    fn LDA(&mut self) -> (r: bool)
        requires
            old(self).wf(),
        ensures
            final(self).wf(),
            final(self)@ == op_lda(old(self)@).0,
            r == op_lda(old(self)@).1,
    {
        let v = self.fetch();
        self.accumulator = v;
        self.set_z(v == 0);
        self.set_n(v & 0x80 != 0);
        true
    }

    /// Load X; Z and N follow the loaded value.
    fn LDX(&mut self) -> (r: bool)
        requires
            old(self).wf(),
        ensures
            final(self).wf(),
            final(self)@ == op_ldx(old(self)@).0,
            r == op_ldx(old(self)@).1,
    {
        let v = self.fetch();
        self.index_register_x = v;
        self.set_z(v == 0);
        self.set_n(v & 0x80 != 0);
        true
    }

    /// Load Y; Z and N follow the loaded value.
    fn LDY(&mut self) -> (r: bool)
        requires
            old(self).wf(),
        ensures
            final(self).wf(),
            final(self)@ == op_ldy(old(self)@).0,
            r == op_ldy(old(self)@).1,
    {
        let v = self.fetch();
        self.index_register_y = v;
        self.set_z(v == 0);
        self.set_n(v & 0x80 != 0);
        true
    }

    /// Store the accumulator at the effective address.
    fn STA(&mut self) -> (r: bool)
        ensures
            final(self).wf() == old(self).wf(),
            final(self)@ == op_sta(old(self)@).0,
            r == op_sta(old(self)@).1,
    {
        let _ = self.bus.write(self.address_absolute, self.accumulator);
        false
    }

    /// Store X at the effective address.
    fn STX(&mut self) -> (r: bool)
        ensures
            final(self).wf() == old(self).wf(),
            final(self)@ == op_stx(old(self)@).0,
            r == op_stx(old(self)@).1,
    {
        let _ = self.bus.write(self.address_absolute, self.index_register_x);
        false
    }

    /// Store Y at the effective address.
    fn STY(&mut self) -> (r: bool)
        ensures
            final(self).wf() == old(self).wf(),
            final(self)@ == op_sty(old(self)@).0,
            r == op_sty(old(self)@).1,
    {
        let _ = self.bus.write(self.address_absolute, self.index_register_y);
        false
    }

    /// Transfer the accumulator to X.
    fn TAX(&mut self) -> (r: bool)
        ensures
            final(self).wf() == old(self).wf(),
            final(self)@ == op_tax(old(self)@).0,
            r == op_tax(old(self)@).1,
    {
        let v = self.accumulator;
        self.index_register_x = v;
        self.set_z(v == 0);
        self.set_n(v & 0x80 != 0);
        false
    }

    /// Transfer the accumulator to Y.
    fn TAY(&mut self) -> (r: bool)
        ensures
            final(self).wf() == old(self).wf(),
            final(self)@ == op_tay(old(self)@).0,
            r == op_tay(old(self)@).1,
    {
        let v = self.accumulator;
        self.index_register_y = v;
        self.set_z(v == 0);
        self.set_n(v & 0x80 != 0);
        false
    }

    /// Transfer the stack pointer to X.
    fn TSX(&mut self) -> (r: bool)
        ensures
            final(self).wf() == old(self).wf(),
            final(self)@ == op_tsx(old(self)@).0,
            r == op_tsx(old(self)@).1,
    {
        let v = self.stack_pointer;
        self.index_register_x = v;
        self.set_z(v == 0);
        self.set_n(v & 0x80 != 0);
        false
    }

    /// Transfer X to the accumulator.
    fn TXA(&mut self) -> (r: bool)
        ensures
            final(self).wf() == old(self).wf(),
            final(self)@ == op_txa(old(self)@).0,
            r == op_txa(old(self)@).1,
    {
        let v = self.index_register_x;
        self.accumulator = v;
        self.set_z(v == 0);
        self.set_n(v & 0x80 != 0);
        false
    }

    /// Transfer Y to the accumulator.
    fn TYA(&mut self) -> (r: bool)
        ensures
            final(self).wf() == old(self).wf(),
            final(self)@ == op_tya(old(self)@).0,
            r == op_tya(old(self)@).1,
    {
        let v = self.index_register_y;
        self.accumulator = v;
        self.set_z(v == 0);
        self.set_n(v & 0x80 != 0);
        false
    }

    /// Transfer X to the stack pointer; no flags.
    fn TXS(&mut self) -> (r: bool)
        ensures
            final(self).wf() == old(self).wf(),
            final(self)@ == op_txs(old(self)@).0,
            r == op_txs(old(self)@).1,
    {
        self.stack_pointer = self.index_register_x;
        false
    }

    /// Push the accumulator.
    fn PHA(&mut self) -> (r: bool)
        ensures
            final(self).wf() == old(self).wf(),
            final(self)@ == op_pha(old(self)@).0,
            r == op_pha(old(self)@).1,
    {
        let a = self.accumulator;
        self.push(a);
        false
    }

    /// Push the status with B and U forced to 1, then clear both live.
    fn PHP(&mut self) -> (r: bool)
        ensures
            final(self).wf() == old(self).wf(),
            final(self)@ == op_php(old(self)@).0,
            r == op_php(old(self)@).1,
    {
        let v = self.status | (M_B | M_U);
        self.push(v);
        self.set_b(false);
        self.set_u(false);
        false
    }

    /// Pull the accumulator; Z and N follow the loaded value.
    fn PLA(&mut self) -> (r: bool)
        ensures
            final(self).wf() == old(self).wf(),
            final(self)@ == op_pla(old(self)@).0,
            r == op_pla(old(self)@).1,
    {
        let v = self.pull();
        self.accumulator = v;
        self.set_z(v == 0);
        self.set_n(v & 0x80 != 0);
        false
    }

    /// Pull the status and force U back to 1.
    fn PLP(&mut self) -> (r: bool)
        ensures
            final(self).wf() == old(self).wf(),
            final(self)@ == op_plp(old(self)@).0,
            r == op_plp(old(self)@).1,
    {
        let v = self.pull();
        self.status = v;
        self.set_u(true);
        false
    }

    /// Return from interrupt: pull the status (toggling B and U of the
    /// pulled copy), then the program counter, low byte first.
    fn RTI(&mut self) -> (r: bool)
        ensures
            final(self).wf() == old(self).wf(),
            final(self)@ == op_rti(old(self)@).0,
            r == op_rti(old(self)@).1,
    {
        let v = self.pull();
        let p1 = set_mask(v, M_B, !get_mask(v, M_B));
        let p2 = set_mask(p1, M_U, !get_mask(p1, M_U));
        self.status = p2;
        let lo = self.pull();
        let hi = self.pull();
        self.program_counter = combine16(lo, hi);
        false
    }

    /// Return from subroutine: pull the return address, low byte first,
    /// and resume one past it.
    fn RTS(&mut self) -> (r: bool)
        ensures
            final(self).wf() == old(self).wf(),
            final(self)@ == op_rts(old(self)@).0,
            r == op_rts(old(self)@).1,
    {
        let lo = self.pull();
        let hi = self.pull();
        self.program_counter = wrap_inc16(combine16(lo, hi));
        false
    }

    /// Jump to the effective address.
    fn JMP(&mut self) -> (r: bool)
        ensures
            final(self).wf() == old(self).wf(),
            final(self)@ == op_jmp(old(self)@).0,
            r == op_jmp(old(self)@).1,
    {
        self.program_counter = self.address_absolute;
        false
    }

    /// Jump to subroutine: push the address of the JSR's last byte, high
    /// byte first, then jump to the effective address.
    fn JSR(&mut self) -> (r: bool)
        ensures
            final(self).wf() == old(self).wf(),
            final(self)@ == op_jsr(old(self)@).0,
            r == op_jsr(old(self)@).1,
    {
        let ret = wrap_dec16(self.program_counter);
        let hi = split_hi(ret);
        let lo = split_lo(ret);
        self.push(hi);
        self.push(lo);
        self.program_counter = self.address_absolute;
        false
    }

    /// Bit test: N and V from bits 7 and 6 of the operand, Z from the
    /// operand masked with the accumulator.
    fn BIT(&mut self) -> (r: bool)
        requires
            old(self).wf(),
        ensures
            final(self).wf(),
            final(self)@ == op_bit(old(self)@).0,
            r == op_bit(old(self)@).1,
    {
        let f = self.fetch();
        self.set_n(f & 0x80 != 0);
        self.set_o(f & 0x40 != 0);
        let a = self.accumulator;
        self.set_z(a & f == 0);
        true
    }

    /// A taken branch charges one cycle, one more across a page.
    fn branch_if(&mut self, cond: bool) -> (r: bool)
        ensures
            final(self).wf() == old(self).wf(),
            final(self)@ == branch(old(self)@, cond).0,
            r == branch(old(self)@, cond).1,
    {
        if cond {
            self.cycles = wrap_add8(self.cycles, 1);
            let target = wrap_add16(self.program_counter, self.address_relative);
            if page_of(self.program_counter) != page_of(target) {
                self.cycles = wrap_add8(self.cycles, 1);
            }
            self.address_absolute = target;
            self.program_counter = target;
        }
        false
    }

    /// Branch on carry clear.
    fn BCC(&mut self) -> (r: bool)
        ensures
            final(self).wf() == old(self).wf(),
            final(self)@ == op_bcc(old(self)@).0,
            r == op_bcc(old(self)@).1,
    {
        let cond = !self.get_c();
        self.branch_if(cond)
    }

    /// Branch on carry set.
    fn BCS(&mut self) -> (r: bool)
        ensures
            final(self).wf() == old(self).wf(),
            final(self)@ == op_bcs(old(self)@).0,
            r == op_bcs(old(self)@).1,
    {
        let cond = self.get_c();
        self.branch_if(cond)
    }

    /// Branch on equal (zero set).
    fn BEQ(&mut self) -> (r: bool)
        ensures
            final(self).wf() == old(self).wf(),
            final(self)@ == op_beq(old(self)@).0,
            r == op_beq(old(self)@).1,
    {
        let cond = self.get_z();
        self.branch_if(cond)
    }

    /// Branch on not equal (zero clear).
    fn BNE(&mut self) -> (r: bool)
        ensures
            final(self).wf() == old(self).wf(),
            final(self)@ == op_bne(old(self)@).0,
            r == op_bne(old(self)@).1,
    {
        let cond = !self.get_z();
        self.branch_if(cond)
    }

    /// Branch on minus (negative set).
    fn BMI(&mut self) -> (r: bool)
        ensures
            final(self).wf() == old(self).wf(),
            final(self)@ == op_bmi(old(self)@).0,
            r == op_bmi(old(self)@).1,
    {
        let cond = self.get_n();
        self.branch_if(cond)
    }

    /// Branch on plus (negative clear).
    fn BPL(&mut self) -> (r: bool)
        ensures
            final(self).wf() == old(self).wf(),
            final(self)@ == op_bpl(old(self)@).0,
            r == op_bpl(old(self)@).1,
    {
        let cond = !self.get_n();
        self.branch_if(cond)
    }

    /// Branch on overflow clear.
    fn BVC(&mut self) -> (r: bool)
        ensures
            final(self).wf() == old(self).wf(),
            final(self)@ == op_bvc(old(self)@).0,
            r == op_bvc(old(self)@).1,
    {
        let cond = !self.get_o();
        self.branch_if(cond)
    }

    /// Branch on overflow set.
    fn BVS(&mut self) -> (r: bool)
        ensures
            final(self).wf() == old(self).wf(),
            final(self)@ == op_bvs(old(self)@).0,
            r == op_bvs(old(self)@).1,
    {
        let cond = self.get_o();
        self.branch_if(cond)
    }

    /// Break: push the incremented program counter and the status with B
    /// set, set I, and enter through the vector at 0xFFFE.
    fn BRK(&mut self) -> (r: bool)
        ensures
            final(self).wf() == old(self).wf(),
            final(self)@ == op_brk(old(self)@).0,
            r == op_brk(old(self)@).1,
    {
        self.program_counter = wrap_inc16(self.program_counter);
        self.set_i(true);
        let hi = split_hi(self.program_counter);
        let lo = split_lo(self.program_counter);
        self.push(hi);
        self.push(lo);
        self.set_b(true);
        let st = self.status;
        self.push(st);
        self.set_b(false);
        let vlo = self.bus.read(0xFFFE);
        let vhi = self.bus.read(0xFFFF);
        self.program_counter = combine16(vlo, vhi);
        false
    }

    /// Clear carry.
    fn CLC(&mut self) -> (r: bool)
        ensures
            final(self).wf() == old(self).wf(),
            final(self)@ == op_clc(old(self)@).0,
            r == op_clc(old(self)@).1,
    {
        self.set_c(false);
        false
    }

    /// Set carry.
    fn SEC(&mut self) -> (r: bool)
        ensures
            final(self).wf() == old(self).wf(),
            final(self)@ == op_sec(old(self)@).0,
            r == op_sec(old(self)@).1,
    {
        self.set_c(true);
        false
    }

    /// Clear decimal.
    fn CLD(&mut self) -> (r: bool)
        ensures
            final(self).wf() == old(self).wf(),
            final(self)@ == op_cld(old(self)@).0,
            r == op_cld(old(self)@).1,
    {
        self.set_d(false);
        false
    }

    /// Set decimal.
    fn SED(&mut self) -> (r: bool)
        ensures
            final(self).wf() == old(self).wf(),
            final(self)@ == op_sed(old(self)@).0,
            r == op_sed(old(self)@).1,
    {
        self.set_d(true);
        false
    }

    /// Clear interrupt disable.
    fn CLI(&mut self) -> (r: bool)
        ensures
            final(self).wf() == old(self).wf(),
            final(self)@ == op_cli(old(self)@).0,
            r == op_cli(old(self)@).1,
    {
        self.set_i(false);
        false
    }

    /// Set interrupt disable.
    fn SEI(&mut self) -> (r: bool)
        ensures
            final(self).wf() == old(self).wf(),
            final(self)@ == op_sei(old(self)@).0,
            r == op_sei(old(self)@).1,
    {
        self.set_i(true);
        false
    }

    /// Clear overflow.
    fn CLV(&mut self) -> (r: bool)
        ensures
            final(self).wf() == old(self).wf(),
            final(self)@ == op_clv(old(self)@).0,
            r == op_clv(old(self)@).1,
    {
        self.set_o(false);
        false
    }

    /// No operation.
    fn NOP(&mut self) -> (r: bool)
        ensures
            final(self).wf() == old(self).wf(),
            final(self)@ == op_nop(old(self)@).0,
            r == op_nop(old(self)@).1,
    {
        true
    }

    /// Freeze the CPU: pull the program counter back onto the jam
    /// opcode, so the machine refetches it forever.
    fn JAM(&mut self) -> (r: bool)
        ensures
            final(self).wf() == old(self).wf(),
            final(self)@ == op_jam(old(self)@).0,
            r == op_jam(old(self)@).1,
    {
        self.program_counter = wrap_dec16(self.program_counter);
        true
    }

    /// Dispatch over the operation tag.  The documented-illegal opcodes
    /// other than JAM are stubs: they consume their table cycle count
    /// and change nothing.
    fn run_op(&mut self, o: Operation) -> (r: bool)
        requires
            old(self).wf(),
        ensures
            final(self).wf(),
            final(self)@ == apply_op(old(self)@, o).0,
            r == apply_op(old(self)@, o).1,
    {
        match o {
            Operation::ADC => self.ADC(),
            Operation::AND => self.AND(),
            Operation::ASL => self.ASL(),
            Operation::BCC => self.BCC(),
            Operation::BCS => self.BCS(),
            Operation::BEQ => self.BEQ(),
            Operation::BIT => self.BIT(),
            Operation::BMI => self.BMI(),
            Operation::BNE => self.BNE(),
            Operation::BPL => self.BPL(),
            Operation::BRK => self.BRK(),
            Operation::BVC => self.BVC(),
            Operation::BVS => self.BVS(),
            Operation::CLC => self.CLC(),
            Operation::CLD => self.CLD(),
            Operation::CLI => self.CLI(),
            Operation::CLV => self.CLV(),
            Operation::CMP => self.CMP(),
            Operation::CPX => self.CPX(),
            Operation::CPY => self.CPY(),
            Operation::DEC => self.DEC(),
            Operation::DEX => self.DEX(),
            Operation::DEY => self.DEY(),
            Operation::EOR => self.EOR(),
            Operation::INC => self.INC(),
            Operation::INX => self.INX(),
            Operation::INY => self.INY(),
            Operation::JMP => self.JMP(),
            Operation::JSR => self.JSR(),
            Operation::LDA => self.LDA(),
            Operation::LDX => self.LDX(),
            Operation::LDY => self.LDY(),
            Operation::LSR => self.LSR(),
            Operation::NOP => self.NOP(),
            Operation::ORA => self.ORA(),
            Operation::PHA => self.PHA(),
            Operation::PHP => self.PHP(),
            Operation::PLA => self.PLA(),
            Operation::PLP => self.PLP(),
            Operation::ROL => self.ROL(),
            Operation::ROR => self.ROR(),
            Operation::RTI => self.RTI(),
            Operation::RTS => self.RTS(),
            Operation::SBC => self.SBC(),
            Operation::SEC => self.SEC(),
            Operation::SED => self.SED(),
            Operation::SEI => self.SEI(),
            Operation::STA => self.STA(),
            Operation::STX => self.STX(),
            Operation::STY => self.STY(),
            Operation::TAX => self.TAX(),
            Operation::TAY => self.TAY(),
            Operation::TSX => self.TSX(),
            Operation::TXA => self.TXA(),
            Operation::TXS => self.TXS(),
            Operation::TYA => self.TYA(),
            Operation::JAM => self.JAM(),
            _ => true,
        }
    }
}

// The clock driver.
impl Processor {
    /// Advances one host cycle.  At an instruction boundary the whole
    /// instruction executes eagerly: the opcode is fetched, U is forced,
    /// the base cycles are charged, the addressing mode and the operation
    /// run, and the joint page-cross penalty is added; in every case a
    /// positive cycle debt is then paid down by one.
    ///
    /// Afterwards: the machine state is exactly `step` of the old state;
    /// a freshly started instruction leaves U set and owes strictly less
    /// than its base cycle count plus two; and a mid-instruction tick
    /// changes nothing but the cycle counter.
    pub fn clock(&mut self)
        requires
            old(self).wf(),
        ensures
            final(self).wf(),
            final(self)@ == step(old(self)@),
            old(self)@.cycles == 0 ==> flag_u(final(self)@.status),
            flag_u(old(self)@.status) ==> flag_u(final(self)@.status),
            old(self)@.cycles == 0 ==> final(self)@.cycles < cycles_of(
                bus_read(old(self)@.bus, old(self)@.pc),
            ) + 2,
            old(self)@.cycles > 0 ==> final(self)@ == (CpuView {
                cycles: (old(self)@.cycles - 1) as u8,
                ..old(self)@
            }),
    {
        if self.cycles == 0 {
            self.opcode = self.bus.read(self.program_counter);
            self.set_u(true);
            self.program_counter = wrap_inc16(self.program_counter);
            let instr = self.instructions[self.opcode as usize];
            self.cycles = instr.base_cycles;
            proof {
                lemma_mode_cycles(self@, mode_of(self.opcode));
                lemma_op_cycles(apply_mode(self@, mode_of(self.opcode)).0, op_of(self.opcode));
            }
            let extra1 = self.run_mode(instr.mode);
            let extra2 = self.run_op(instr.op);
            if extra1 && extra2 {
                self.cycles = wrap_add8(self.cycles, 1);
            }
            self.set_u(true);
            proof {
                broadcast use crate::bits::lemma_withf_same;
            }
        }
        if self.cycles > 0 {
            self.cycles = self.cycles - 1;
        }
    }
}

} // verus!
