//! The mathematical model of the processor: a ghost machine state and a
//! pure interpreter over it.
//!
//! Every exec function of `Processor` is specified as returning exactly
//! the state this interpreter computes, so the whole fetch/decode/execute
//! engine has one functional description that laws and tests can be
//! reasoned against.

use vstd::prelude::*;

use crate::bits::{
    getf, hi8, lo8, make16, page, wadd16, wadd8, wdec16, wdec8, winc16, winc8, withf, wsub8,
};
use crate::bus::{bus_read, bus_write, BusView};
use crate::isa::{cycles_of, mode_of, op_of, AddressingMode, Operation};

verus! {

/// Carry flag mask (bit 0 of the status byte).
pub const M_C: u8 = 0x01;

/// Zero flag mask (bit 1).
pub const M_Z: u8 = 0x02;

/// Interrupt-disable flag mask (bit 2).
pub const M_I: u8 = 0x04;

/// Decimal flag mask (bit 3); tracked but not acted on.
pub const M_D: u8 = 0x08;

/// Break flag mask (bit 4); only meaningful in pushed status copies.
pub const M_B: u8 = 0x10;

/// Unused flag mask (bit 5); reads as 1 after reset.
pub const M_U: u8 = 0x20;

/// Overflow flag mask (bit 6).
pub const M_O: u8 = 0x40;

/// Negative flag mask (bit 7).
pub const M_N: u8 = 0x80;

/// The architectural state of the CPU together with the bus contents.
#[verifier::ext_equal]
pub struct CpuView {
    pub bus: BusView,
    pub a: u8,
    pub x: u8,
    pub y: u8,
    pub status: u8,
    pub sp: u8,
    pub pc: u16,
    pub fetched: u8,
    pub addr_abs: u16,
    pub addr_rel: u16,
    pub opcode: u8,
    pub cycles: u8,
}

/// The canonical memory map: 16 KiB RAM, 16 KiB I/O, 32 KiB ROM.
pub open spec fn canonical(b: BusView) -> bool {
    &&& b.ram.len() == 0x4000
    &&& b.other.len() == 0x4000
    &&& b.rom.len() == 0x8000
}

pub open spec fn flag_c(p: u8) -> bool {
    getf(p, M_C)
}

pub open spec fn flag_z(p: u8) -> bool {
    getf(p, M_Z)
}

pub open spec fn flag_i(p: u8) -> bool {
    getf(p, M_I)
}

pub open spec fn flag_d(p: u8) -> bool {
    getf(p, M_D)
}

pub open spec fn flag_b(p: u8) -> bool {
    getf(p, M_B)
}

pub open spec fn flag_u(p: u8) -> bool {
    getf(p, M_U)
}

pub open spec fn flag_o(p: u8) -> bool {
    getf(p, M_O)
}

pub open spec fn flag_n(p: u8) -> bool {
    getf(p, M_N)
}

pub open spec fn with_c(p: u8, v: bool) -> u8 {
    withf(p, M_C, v)
}

pub open spec fn with_z(p: u8, v: bool) -> u8 {
    withf(p, M_Z, v)
}

pub open spec fn with_i(p: u8, v: bool) -> u8 {
    withf(p, M_I, v)
}

pub open spec fn with_d(p: u8, v: bool) -> u8 {
    withf(p, M_D, v)
}

pub open spec fn with_b(p: u8, v: bool) -> u8 {
    withf(p, M_B, v)
}

pub open spec fn with_u(p: u8, v: bool) -> u8 {
    withf(p, M_U, v)
}

pub open spec fn with_o(p: u8, v: bool) -> u8 {
    withf(p, M_O, v)
}

pub open spec fn with_n(p: u8, v: bool) -> u8 {
    withf(p, M_N, v)
}

/// The status byte with Z and N set from a freshly computed value.
pub open spec fn with_zn(p: u8, val: u8) -> u8 {
    with_n(with_z(p, val == 0), getf(val, M_N))
}

/// The page-1 address the stack pointer designates.
pub open spec fn stack_addr(sp: u8) -> u16 {
    (0x0100 + sp) as u16
}

/// A push: write at the stack address, then decrement the stack pointer.
pub open spec fn push8(s: CpuView, v: u8) -> CpuView {
    CpuView { bus: bus_write(s.bus, stack_addr(s.sp), v), sp: wdec8(s.sp), ..s }
}

/// The byte the next pull returns: increment, then read.
pub open spec fn pull8_val(s: CpuView) -> u8 {
    bus_read(s.bus, stack_addr(winc8(s.sp)))
}

/// A pull's state change: the stack pointer moves up by one.
pub open spec fn pull8(s: CpuView) -> CpuView {
    CpuView { sp: winc8(s.sp), ..s }
}

/// The operand value an operation sees: the accumulator in implied mode,
/// else the byte at the effective address.
pub open spec fn fetch_value(s: CpuView) -> u8 {
    if mode_of(s.opcode) == AddressingMode::IMPL {
        s.a
    } else {
        bus_read(s.bus, s.addr_abs)
    }
}

/// The state after the fetch staging step.
pub open spec fn with_fetch(s: CpuView) -> CpuView {
    CpuView { fetched: fetch_value(s), ..s }
}

// ---------------------------------------------------------------------
// Addressing modes.  Each consumes operand bytes at the program counter,
// stages the effective address (or the relative offset), and reports
// whether a page crossing may cost an extra cycle.
// ---------------------------------------------------------------------

/// Immediate: the operand is the byte after the opcode.
pub open spec fn mode_imm(s: CpuView) -> (CpuView, bool) {
    (CpuView { addr_abs: s.pc, pc: winc16(s.pc), ..s }, false)
}

/// Implied: the operand is the accumulator.
pub open spec fn mode_impl(s: CpuView) -> (CpuView, bool) {
    (CpuView { fetched: s.a, ..s }, false)
}

/// Zero page: a one-byte address.
pub open spec fn mode_zpg(s: CpuView) -> (CpuView, bool) {
    let b = bus_read(s.bus, s.pc);
    (CpuView { addr_abs: b as u16, pc: winc16(s.pc), ..s }, false)
}

/// Zero page indexed by X; the sum wraps within the zero page.
pub open spec fn mode_zpgx(s: CpuView) -> (CpuView, bool) {
    let b = bus_read(s.bus, s.pc);
    (CpuView { addr_abs: wadd8(b, s.x) as u16, pc: winc16(s.pc), ..s }, false)
}

/// Zero page indexed by Y; the sum wraps within the zero page.
pub open spec fn mode_zpgy(s: CpuView) -> (CpuView, bool) {
    let b = bus_read(s.bus, s.pc);
    (CpuView { addr_abs: wadd8(b, s.y) as u16, pc: winc16(s.pc), ..s }, false)
}

/// Absolute: a two-byte little-endian address.
pub open spec fn mode_abs(s: CpuView) -> (CpuView, bool) {
    let lo = bus_read(s.bus, s.pc);
    let hi = bus_read(s.bus, winc16(s.pc));
    (CpuView { addr_abs: make16(lo, hi), pc: wadd16(s.pc, 2), ..s }, false)
}

/// Absolute indexed by X; crossing a page may cost one cycle.
pub open spec fn mode_absx(s: CpuView) -> (CpuView, bool) {
    let lo = bus_read(s.bus, s.pc);
    let hi = bus_read(s.bus, winc16(s.pc));
    let base = make16(lo, hi);
    let ea = wadd16(base, s.x as u16);
    (CpuView { addr_abs: ea, pc: wadd16(s.pc, 2), ..s }, page(base) != page(ea))
}

/// Absolute indexed by Y; crossing a page may cost one cycle.
pub open spec fn mode_absy(s: CpuView) -> (CpuView, bool) {
    let lo = bus_read(s.bus, s.pc);
    let hi = bus_read(s.bus, winc16(s.pc));
    let base = make16(lo, hi);
    let ea = wadd16(base, s.y as u16);
    (CpuView { addr_abs: ea, pc: wadd16(s.pc, 2), ..s }, page(base) != page(ea))
}

/// Indirect, with the 6502 page-boundary hardware bug: when the pointer's
/// low byte is 0xFF the high byte of the target comes from the start of
/// the pointer's own page, not from the next page.
pub open spec fn mode_ind(s: CpuView) -> (CpuView, bool) {
    let pl = bus_read(s.bus, s.pc);
    let ph = bus_read(s.bus, winc16(s.pc));
    let ptr = make16(pl, ph);
    let lo = bus_read(s.bus, ptr);
    let hi = if pl == 0xFF {
        bus_read(s.bus, make16(0, ph))
    } else {
        bus_read(s.bus, wadd16(ptr, 1))
    };
    (CpuView { addr_abs: make16(lo, hi), pc: wadd16(s.pc, 2), ..s }, false)
}

/// Indexed indirect: the one-byte operand plus X designates a zero-page
/// pointer; both pointer bytes are read with zero-page wrap-around.
pub open spec fn mode_indx(s: CpuView) -> (CpuView, bool) {
    let t = bus_read(s.bus, s.pc);
    let p = wadd8(t, s.x);
    let lo = bus_read(s.bus, p as u16);
    let hi = bus_read(s.bus, winc8(p) as u16);
    (CpuView { addr_abs: make16(lo, hi), pc: winc16(s.pc), ..s }, false)
}

/// Indirect indexed: a zero-page pointer is read with zero-page wrap,
/// then offset by Y; crossing a page may cost one cycle.
pub open spec fn mode_indy(s: CpuView) -> (CpuView, bool) {
    let t = bus_read(s.bus, s.pc);
    let lo = bus_read(s.bus, t as u16);
    let hi = bus_read(s.bus, winc8(t) as u16);
    let base = make16(lo, hi);
    let ea = wadd16(base, s.y as u16);
    (CpuView { addr_abs: ea, pc: winc16(s.pc), ..s }, page(base) != page(ea))
}

/// Relative: a one-byte offset, sign-extended to 16 bits.
pub open spec fn mode_rel(s: CpuView) -> (CpuView, bool) {
    let b = bus_read(s.bus, s.pc);
    let rel: u16 = if b >= 0x80 {
        (0xFF00 + b) as u16
    } else {
        b as u16
    };
    (CpuView { addr_rel: rel, pc: winc16(s.pc), ..s }, false)
}

/// Dispatch over the addressing-mode tag.
pub open spec fn apply_mode(s: CpuView, m: AddressingMode) -> (CpuView, bool) {
    match m {
        AddressingMode::ABS => mode_abs(s),
        AddressingMode::ABSX => mode_absx(s),
        AddressingMode::ABSY => mode_absy(s),
        AddressingMode::ZPG => mode_zpg(s),
        AddressingMode::ZPGX => mode_zpgx(s),
        AddressingMode::ZPGY => mode_zpgy(s),
        AddressingMode::IND => mode_ind(s),
        AddressingMode::INDX => mode_indx(s),
        AddressingMode::INDY => mode_indy(s),
        AddressingMode::IMPL => mode_impl(s),
        AddressingMode::REL => mode_rel(s),
        AddressingMode::IMM => mode_imm(s),
    }
}

// ---------------------------------------------------------------------
// Operations.
// ---------------------------------------------------------------------

/// The accumulator and status after an add-with-carry of `a` and `m`:
/// carry out of bit 7 sets C, a zero low byte sets Z, a signed overflow
/// sets V, and bit 7 of the result sets N.
pub open spec fn adc_core(a: u8, m: u8, p: u8) -> (u8, u8) {
    let t = a + m + (if flag_c(p) {
        1int
    } else {
        0int
    });
    let r: u8 = if t > 255 {
        (t - 256) as u8
    } else {
        t as u8
    };
    let p1 = with_c(p, t > 255);
    let p2 = with_z(p1, r == 0);
    let p3 = with_o(p2, ((a ^ r) & (m ^ r) & 0x80) != 0);
    let p4 = with_n(p3, getf(r, M_N));
    (r, p4)
}

pub open spec fn op_adc(s: CpuView) -> (CpuView, bool) {
    let s1 = with_fetch(s);
    let rp = adc_core(s1.a, s1.fetched, s1.status);
    (CpuView { a: rp.0, status: rp.1, ..s1 }, true)
}

/// SBC is ADC with the operand one's-complemented.
pub open spec fn op_sbc(s: CpuView) -> (CpuView, bool) {
    let s1 = with_fetch(s);
    let rp = adc_core(s1.a, !s1.fetched, s1.status);
    (CpuView { a: rp.0, status: rp.1, ..s1 }, true)
}

pub open spec fn op_and(s: CpuView) -> (CpuView, bool) {
    let s1 = with_fetch(s);
    let r = s1.a & s1.fetched;
    (CpuView { a: r, status: with_zn(s1.status, r), ..s1 }, true)
}

pub open spec fn op_ora(s: CpuView) -> (CpuView, bool) {
    let s1 = with_fetch(s);
    let r = s1.a | s1.fetched;
    (CpuView { a: r, status: with_zn(s1.status, r), ..s1 }, true)
}

pub open spec fn op_eor(s: CpuView) -> (CpuView, bool) {
    let s1 = with_fetch(s);
    let r = s1.a ^ s1.fetched;
    (CpuView { a: r, status: with_zn(s1.status, r), ..s1 }, true)
}

/// Where a read-modify-write result lands: the accumulator in implied
/// mode, else the effective address.
pub open spec fn rmw_target(s: CpuView, r: u8) -> CpuView {
    if mode_of(s.opcode) == AddressingMode::IMPL {
        CpuView { a: r, ..s }
    } else {
        CpuView { bus: bus_write(s.bus, s.addr_abs, r), ..s }
    }
}

pub open spec fn op_asl(s: CpuView) -> (CpuView, bool) {
    let s1 = with_fetch(s);
    let t = s1.fetched * 2;
    let r: u8 = if t > 255 {
        (t - 256) as u8
    } else {
        t as u8
    };
    let p1 = with_c(s1.status, getf(s1.fetched, M_N));
    let p2 = with_z(p1, r == 0);
    let p3 = with_n(p2, getf(r, M_N));
    (CpuView { status: p3, ..rmw_target(s1, r) }, false)
}

pub open spec fn op_lsr(s: CpuView) -> (CpuView, bool) {
    let s1 = with_fetch(s);
    let r = (s1.fetched / 2) as u8;
    let p1 = with_c(s1.status, getf(s1.fetched, M_C));
    let p2 = with_z(p1, r == 0);
    let p3 = with_n(p2, getf(r, M_N));
    (CpuView { status: p3, ..rmw_target(s1, r) }, false)
}

pub open spec fn op_rol(s: CpuView) -> (CpuView, bool) {
    let s1 = with_fetch(s);
    let t = s1.fetched * 2 + (if flag_c(s1.status) {
        1int
    } else {
        0int
    });
    let r: u8 = if t > 255 {
        (t - 256) as u8
    } else {
        t as u8
    };
    let p1 = with_c(s1.status, getf(s1.fetched, M_N));
    let p2 = with_z(p1, r == 0);
    let p3 = with_n(p2, getf(r, M_N));
    (CpuView { status: p3, ..rmw_target(s1, r) }, false)
}

pub open spec fn op_ror(s: CpuView) -> (CpuView, bool) {
    let s1 = with_fetch(s);
    let r = ((if flag_c(s1.status) {
        128int
    } else {
        0int
    }) + s1.fetched / 2) as u8;
    let p1 = with_c(s1.status, getf(s1.fetched, M_C));
    let p2 = with_z(p1, r == 0);
    let p3 = with_n(p2, getf(r, M_N));
    (CpuView { status: p3, ..rmw_target(s1, r) }, false)
}

/// The status after a compare of `reg` against `m`: C when `reg >= m`,
/// Z when equal, N from bit 7 of the 8-bit difference.
pub open spec fn cmp_status(p: u8, reg: u8, m: u8) -> u8 {
    let p1 = with_c(p, reg >= m);
    let p2 = with_z(p1, reg == m);
    with_n(p2, getf(wsub8(reg, m), M_N))
}

pub open spec fn op_cmp(s: CpuView) -> (CpuView, bool) {
    let s1 = with_fetch(s);
    (CpuView { status: cmp_status(s1.status, s1.a, s1.fetched), ..s1 }, true)
}

pub open spec fn op_cpx(s: CpuView) -> (CpuView, bool) {
    let s1 = with_fetch(s);
    (CpuView { status: cmp_status(s1.status, s1.x, s1.fetched), ..s1 }, false)
}

pub open spec fn op_cpy(s: CpuView) -> (CpuView, bool) {
    let s1 = with_fetch(s);
    (CpuView { status: cmp_status(s1.status, s1.y, s1.fetched), ..s1 }, false)
}

pub open spec fn op_inc(s: CpuView) -> (CpuView, bool) {
    let s1 = with_fetch(s);
    let r = winc8(s1.fetched);
    (
        CpuView {
            bus: bus_write(s1.bus, s1.addr_abs, r),
            status: with_zn(s1.status, r),
            ..s1
        },
        false,
    )
}

pub open spec fn op_dec(s: CpuView) -> (CpuView, bool) {
    let s1 = with_fetch(s);
    let r = wdec8(s1.fetched);
    (
        CpuView {
            bus: bus_write(s1.bus, s1.addr_abs, r),
            status: with_zn(s1.status, r),
            ..s1
        },
        false,
    )
}

pub open spec fn op_inx(s: CpuView) -> (CpuView, bool) {
    let r = winc8(s.x);
    (CpuView { x: r, status: with_zn(s.status, r), ..s }, false)
}

pub open spec fn op_iny(s: CpuView) -> (CpuView, bool) {
    let r = winc8(s.y);
    (CpuView { y: r, status: with_zn(s.status, r), ..s }, false)
}

pub open spec fn op_dex(s: CpuView) -> (CpuView, bool) {
    let r = wdec8(s.x);
    (CpuView { x: r, status: with_zn(s.status, r), ..s }, false)
}

pub open spec fn op_dey(s: CpuView) -> (CpuView, bool) {
    let r = wdec8(s.y);
    (CpuView { y: r, status: with_zn(s.status, r), ..s }, false)
}

pub open spec fn op_lda(s: CpuView) -> (CpuView, bool) {
    let s1 = with_fetch(s);
    (CpuView { a: s1.fetched, status: with_zn(s1.status, s1.fetched), ..s1 }, true)
}

pub open spec fn op_ldx(s: CpuView) -> (CpuView, bool) {
    let s1 = with_fetch(s);
    (CpuView { x: s1.fetched, status: with_zn(s1.status, s1.fetched), ..s1 }, true)
}

pub open spec fn op_ldy(s: CpuView) -> (CpuView, bool) {
    let s1 = with_fetch(s);
    (CpuView { y: s1.fetched, status: with_zn(s1.status, s1.fetched), ..s1 }, true)
}

pub open spec fn op_sta(s: CpuView) -> (CpuView, bool) {
    (CpuView { bus: bus_write(s.bus, s.addr_abs, s.a), ..s }, false)
}

pub open spec fn op_stx(s: CpuView) -> (CpuView, bool) {
    (CpuView { bus: bus_write(s.bus, s.addr_abs, s.x), ..s }, false)
}

pub open spec fn op_sty(s: CpuView) -> (CpuView, bool) {
    (CpuView { bus: bus_write(s.bus, s.addr_abs, s.y), ..s }, false)
}

pub open spec fn op_tax(s: CpuView) -> (CpuView, bool) {
    (CpuView { x: s.a, status: with_zn(s.status, s.a), ..s }, false)
}

pub open spec fn op_tay(s: CpuView) -> (CpuView, bool) {
    (CpuView { y: s.a, status: with_zn(s.status, s.a), ..s }, false)
}

pub open spec fn op_tsx(s: CpuView) -> (CpuView, bool) {
    (CpuView { x: s.sp, status: with_zn(s.status, s.sp), ..s }, false)
}

pub open spec fn op_txa(s: CpuView) -> (CpuView, bool) {
    (CpuView { a: s.x, status: with_zn(s.status, s.x), ..s }, false)
}

pub open spec fn op_tya(s: CpuView) -> (CpuView, bool) {
    (CpuView { a: s.y, status: with_zn(s.status, s.y), ..s }, false)
}

/// TXS copies X into the stack pointer and sets no flags.
pub open spec fn op_txs(s: CpuView) -> (CpuView, bool) {
    (CpuView { sp: s.x, ..s }, false)
}

pub open spec fn op_pha(s: CpuView) -> (CpuView, bool) {
    (push8(s, s.a), false)
}

/// PHP pushes the status with the B and U bits forced to 1, then clears
/// both on the live status.
pub open spec fn op_php(s: CpuView) -> (CpuView, bool) {
    let s1 = push8(s, s.status | (M_B | M_U));
    (CpuView { status: with_u(with_b(s1.status, false), false), ..s1 }, false)
}

pub open spec fn op_pla(s: CpuView) -> (CpuView, bool) {
    let v = pull8_val(s);
    let s1 = pull8(s);
    (CpuView { a: v, status: with_zn(s1.status, v), ..s1 }, false)
}

/// PLP pulls the status and forces the U bit back to 1.
pub open spec fn op_plp(s: CpuView) -> (CpuView, bool) {
    let v = pull8_val(s);
    let s1 = pull8(s);
    (CpuView { status: with_u(v, true), ..s1 }, false)
}

/// RTI pulls the status (toggling the B and U bits of the pulled copy),
/// then pulls the program counter low byte first.
pub open spec fn op_rti(s: CpuView) -> (CpuView, bool) {
    let v = pull8_val(s);
    let s1 = pull8(s);
    let p1 = with_b(v, !flag_b(v));
    let p2 = with_u(p1, !flag_u(p1));
    let lo = pull8_val(s1);
    let s2 = pull8(s1);
    let hi = pull8_val(s2);
    let s3 = pull8(s2);
    (CpuView { status: p2, pc: make16(lo, hi), ..s3 }, false)
}

/// RTS pulls the return address low byte first and resumes one past it.
pub open spec fn op_rts(s: CpuView) -> (CpuView, bool) {
    let lo = pull8_val(s);
    let s1 = pull8(s);
    let hi = pull8_val(s1);
    let s2 = pull8(s1);
    (CpuView { pc: winc16(make16(lo, hi)), ..s2 }, false)
}

pub open spec fn op_jmp(s: CpuView) -> (CpuView, bool) {
    (CpuView { pc: s.addr_abs, ..s }, false)
}

/// JSR pushes the address of the last byte of the JSR instruction, high
/// byte first, then jumps.
pub open spec fn op_jsr(s: CpuView) -> (CpuView, bool) {
    let ret = wdec16(s.pc);
    let s1 = push8(s, hi8(ret));
    let s2 = push8(s1, lo8(ret));
    (CpuView { pc: s.addr_abs, ..s2 }, false)
}

pub open spec fn op_bit(s: CpuView) -> (CpuView, bool) {
    let s1 = with_fetch(s);
    let p1 = with_n(s1.status, getf(s1.fetched, M_N));
    let p2 = with_o(p1, getf(s1.fetched, M_O));
    let p3 = with_z(p2, s1.a & s1.fetched == 0);
    (CpuView { status: p3, ..s1 }, true)
}

/// A taken branch costs one extra cycle, and one more when the target
/// lies on a different page than the updated program counter.
pub open spec fn branch(s: CpuView, cond: bool) -> (CpuView, bool) {
    if cond {
        let target = wadd16(s.pc, s.addr_rel);
        let c1 = wadd8(s.cycles, 1);
        let c2 = if page(s.pc) != page(target) {
            wadd8(c1, 1)
        } else {
            c1
        };
        (CpuView { pc: target, addr_abs: target, cycles: c2, ..s }, false)
    } else {
        (s, false)
    }
}

pub open spec fn op_bcc(s: CpuView) -> (CpuView, bool) {
    branch(s, !flag_c(s.status))
}

pub open spec fn op_bcs(s: CpuView) -> (CpuView, bool) {
    branch(s, flag_c(s.status))
}

pub open spec fn op_beq(s: CpuView) -> (CpuView, bool) {
    branch(s, flag_z(s.status))
}

pub open spec fn op_bne(s: CpuView) -> (CpuView, bool) {
    branch(s, !flag_z(s.status))
}

pub open spec fn op_bmi(s: CpuView) -> (CpuView, bool) {
    branch(s, flag_n(s.status))
}

pub open spec fn op_bpl(s: CpuView) -> (CpuView, bool) {
    branch(s, !flag_n(s.status))
}

pub open spec fn op_bvc(s: CpuView) -> (CpuView, bool) {
    branch(s, !flag_o(s.status))
}

pub open spec fn op_bvs(s: CpuView) -> (CpuView, bool) {
    branch(s, flag_o(s.status))
}

/// BRK pushes the incremented program counter and the status with B set,
/// sets I, and loads the IRQ/BRK vector.
pub open spec fn op_brk(s: CpuView) -> (CpuView, bool) {
    let s1 = CpuView { pc: winc16(s.pc), status: with_i(s.status, true), ..s };
    let s2 = push8(s1, hi8(s1.pc));
    let s3 = push8(s2, lo8(s2.pc));
    let s4 = CpuView { status: with_b(s3.status, true), ..s3 };
    let s5 = push8(s4, s4.status);
    let s6 = CpuView { status: with_b(s5.status, false), ..s5 };
    let lo = bus_read(s6.bus, 0xFFFE);
    let hi = bus_read(s6.bus, 0xFFFF);
    (CpuView { pc: make16(lo, hi), ..s6 }, false)
}

pub open spec fn op_clc(s: CpuView) -> (CpuView, bool) {
    (CpuView { status: with_c(s.status, false), ..s }, false)
}

pub open spec fn op_sec(s: CpuView) -> (CpuView, bool) {
    (CpuView { status: with_c(s.status, true), ..s }, false)
}

pub open spec fn op_cld(s: CpuView) -> (CpuView, bool) {
    (CpuView { status: with_d(s.status, false), ..s }, false)
}

pub open spec fn op_sed(s: CpuView) -> (CpuView, bool) {
    (CpuView { status: with_d(s.status, true), ..s }, false)
}

pub open spec fn op_cli(s: CpuView) -> (CpuView, bool) {
    (CpuView { status: with_i(s.status, false), ..s }, false)
}

pub open spec fn op_sei(s: CpuView) -> (CpuView, bool) {
    (CpuView { status: with_i(s.status, true), ..s }, false)
}

pub open spec fn op_clv(s: CpuView) -> (CpuView, bool) {
    (CpuView { status: with_o(s.status, false), ..s }, false)
}

pub open spec fn op_nop(s: CpuView) -> (CpuView, bool) {
    (s, true)
}

/// JAM freezes the CPU: the program counter is pulled back onto the jam
/// opcode, so the machine refetches it forever and makes no progress.
pub open spec fn op_jam(s: CpuView) -> (CpuView, bool) {
    (CpuView { pc: wdec16(s.pc), ..s }, true)
}

/// The documented-illegal opcodes are stubs: they consume their table
/// cycle count and have no architectural effect.
pub open spec fn op_stub(s: CpuView) -> (CpuView, bool) {
    (s, true)
}

/// Dispatch over the operation tag.
pub open spec fn apply_op(s: CpuView, o: Operation) -> (CpuView, bool) {
    match o {
        Operation::ADC => op_adc(s),
        Operation::AND => op_and(s),
        Operation::ASL => op_asl(s),
        Operation::BCC => op_bcc(s),
        Operation::BCS => op_bcs(s),
        Operation::BEQ => op_beq(s),
        Operation::BIT => op_bit(s),
        Operation::BMI => op_bmi(s),
        Operation::BNE => op_bne(s),
        Operation::BPL => op_bpl(s),
        Operation::BRK => op_brk(s),
        Operation::BVC => op_bvc(s),
        Operation::BVS => op_bvs(s),
        Operation::CLC => op_clc(s),
        Operation::CLD => op_cld(s),
        Operation::CLI => op_cli(s),
        Operation::CLV => op_clv(s),
        Operation::CMP => op_cmp(s),
        Operation::CPX => op_cpx(s),
        Operation::CPY => op_cpy(s),
        Operation::DEC => op_dec(s),
        Operation::DEX => op_dex(s),
        Operation::DEY => op_dey(s),
        Operation::EOR => op_eor(s),
        Operation::INC => op_inc(s),
        Operation::INX => op_inx(s),
        Operation::INY => op_iny(s),
        Operation::JMP => op_jmp(s),
        Operation::JSR => op_jsr(s),
        Operation::LDA => op_lda(s),
        Operation::LDX => op_ldx(s),
        Operation::LDY => op_ldy(s),
        Operation::LSR => op_lsr(s),
        Operation::NOP => op_nop(s),
        Operation::ORA => op_ora(s),
        Operation::PHA => op_pha(s),
        Operation::PHP => op_php(s),
        Operation::PLA => op_pla(s),
        Operation::PLP => op_plp(s),
        Operation::ROL => op_rol(s),
        Operation::ROR => op_ror(s),
        Operation::RTI => op_rti(s),
        Operation::RTS => op_rts(s),
        Operation::SBC => op_sbc(s),
        Operation::SEC => op_sec(s),
        Operation::SED => op_sed(s),
        Operation::SEI => op_sei(s),
        Operation::STA => op_sta(s),
        Operation::STX => op_stx(s),
        Operation::STY => op_sty(s),
        Operation::TAX => op_tax(s),
        Operation::TAY => op_tay(s),
        Operation::TSX => op_tsx(s),
        Operation::TXA => op_txa(s),
        Operation::TXS => op_txs(s),
        Operation::TYA => op_tya(s),
        Operation::JAM => op_jam(s),
        _ => op_stub(s),
    }
}

/// One host cycle.  At an instruction boundary the whole instruction's
/// work happens eagerly: fetch the opcode, force U, advance the program
/// counter, charge the base cycles, run the addressing mode and the
/// operation, add the joint page-cross penalty, force U again.  In every
/// case a positive cycle debt is then paid down by one.
pub open spec fn step(s: CpuView) -> CpuView {
    if s.cycles == 0 {
        let opcode = bus_read(s.bus, s.pc);
        let s1 = CpuView {
            opcode,
            status: with_u(s.status, true),
            pc: winc16(s.pc),
            cycles: cycles_of(opcode),
            ..s
        };
        let me = apply_mode(s1, mode_of(opcode));
        let oe = apply_op(me.0, op_of(opcode));
        let s4 = CpuView {
            cycles: if me.1 && oe.1 {
                wadd8(oe.0.cycles, 1)
            } else {
                oe.0.cycles
            },
            status: with_u(oe.0.status, true),
            ..oe.0
        };
        if s4.cycles == 0 {
            s4
        } else {
            CpuView { cycles: (s4.cycles - 1) as u8, ..s4 }
        }
    } else {
        CpuView { cycles: (s.cycles - 1) as u8, ..s }
    }
}

/// No addressing mode touches the cycle counter.
pub proof fn lemma_mode_cycles(s: CpuView, m: AddressingMode)
    ensures
        apply_mode(s, m).0.cycles == s.cycles,
{
}

/// No operation raises the cycle counter by more than 2, and an operation
/// that reports a possible page-cross penalty leaves the counter alone.
pub proof fn lemma_op_cycles(s: CpuView, o: Operation)
    ensures
        apply_op(s, o).0.cycles <= s.cycles + 2,
        apply_op(s, o).1 ==> apply_op(s, o).0.cycles == s.cycles,
{
}

/// Ticks until the cycle debt is paid off: the state at the next
/// instruction boundary.
pub open spec fn drain(s: CpuView) -> CpuView
    decreases s.cycles,
{
    if s.cycles == 0 {
        s
    } else {
        drain(step(s))
    }
}

/// A whole instruction, seen from an instruction boundary: the tick
/// that does the work, then the ticks that pay off the remaining debt.
pub open spec fn run_instruction(s: CpuView) -> CpuView {
    drain(step(s))
}

/// Draining changes nothing but the cycle counter: the ticks between
/// instruction boundaries are pure waiting.
pub proof fn lemma_drain(s: CpuView)
    ensures
        drain(s) == (CpuView { cycles: 0, ..s }),
    decreases s.cycles,
{
    if s.cycles == 0 {
        assert(drain(s) =~= (CpuView { cycles: 0, ..s }));
    } else {
        lemma_drain(step(s));
        assert(drain(s) =~= (CpuView { cycles: 0, ..s }));
    }
}

/// The state after a reset: the program counter comes from the little-
/// endian vector at 0xFFFC, the registers clear, the stack pointer is
/// 0xFF, the status is empty but for U, and 8 cycles are charged.
pub open spec fn spec_reset(s: CpuView) -> CpuView {
    let lo = bus_read(s.bus, 0xFFFC);
    let hi = bus_read(s.bus, 0xFFFD);
    CpuView {
        pc: make16(lo, hi),
        a: 0,
        x: 0,
        y: 0,
        sp: 0xFF,
        status: with_u(0, true),
        fetched: 0,
        addr_abs: 0,
        addr_rel: 0,
        opcode: 0,
        cycles: 8,
        ..s
    }
}

/// An interrupt entry: push the program counter high byte first, force
/// B = 0, U = 1, I = 1, push the status, and load the handler from the
/// little-endian vector at `vector`.
pub open spec fn interrupt(s: CpuView, vector: u16, cycles: u8) -> CpuView {
    let s1 = push8(s, hi8(s.pc));
    let s2 = push8(s1, lo8(s1.pc));
    let p = with_i(with_u(with_b(s2.status, false), true), true);
    let s3 = push8(CpuView { status: p, ..s2 }, p);
    let lo = bus_read(s3.bus, vector);
    let hi = bus_read(s3.bus, wadd16(vector, 1));
    CpuView { pc: make16(lo, hi), cycles, ..s3 }
}

/// A maskable interrupt is ignored while I is set; otherwise it enters
/// through the vector at 0xFFFE and charges 7 cycles.
pub open spec fn spec_irq(s: CpuView) -> CpuView {
    if flag_i(s.status) {
        s
    } else {
        interrupt(s, 0xFFFE, 7)
    }
}

/// A non-maskable interrupt always enters, through the vector at 0xFFFA,
/// and charges 8 cycles.
pub open spec fn spec_nmi(s: CpuView) -> CpuView {
    interrupt(s, 0xFFFA, 8)
}

} // verus!
