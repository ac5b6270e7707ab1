//! Algebraic laws of the instruction set, proved over the model
//! interpreter.

use vstd::prelude::*;

use crate::bits::{getf, lemma_split_combine, lemma_withf_other, lemma_withf_same, wdec8, winc8};
use crate::bus::{bus_read, bus_write, BusView};
use crate::isa::{mode_of, op_of, AddressingMode};
use crate::model::{
    adc_core, canonical, flag_b, flag_c, flag_d, flag_i, flag_n, flag_o, flag_u, flag_z,
    lemma_drain, op_dec, op_inc, op_jsr, op_pha, op_php, op_pla, op_plp, op_rts, run_instruction,
    stack_addr, with_c, with_zn, CpuView, M_B, M_C, M_D, M_I, M_N, M_O, M_U, M_Z,
};

verus! {

/// The eight status masks are pairwise disjoint, in either order.
pub proof fn lemma_mask_facts()
    ensures
        M_C & M_Z == 0 && M_C & M_I == 0 && M_C & M_D == 0,
        M_C & M_B == 0 && M_C & M_U == 0 && M_C & M_O == 0,
        M_C & M_N == 0 && M_Z & M_C == 0 && M_Z & M_I == 0,
        M_Z & M_D == 0 && M_Z & M_B == 0 && M_Z & M_U == 0,
        M_Z & M_O == 0 && M_Z & M_N == 0 && M_I & M_C == 0,
        M_I & M_Z == 0 && M_I & M_D == 0 && M_I & M_B == 0,
        M_I & M_U == 0 && M_I & M_O == 0 && M_I & M_N == 0,
        M_D & M_C == 0 && M_D & M_Z == 0 && M_D & M_I == 0,
        M_D & M_B == 0 && M_D & M_U == 0 && M_D & M_O == 0,
        M_D & M_N == 0 && M_B & M_C == 0 && M_B & M_Z == 0,
        M_B & M_I == 0 && M_B & M_D == 0 && M_B & M_U == 0,
        M_B & M_O == 0 && M_B & M_N == 0 && M_U & M_C == 0,
        M_U & M_Z == 0 && M_U & M_I == 0 && M_U & M_D == 0,
        M_U & M_B == 0 && M_U & M_O == 0 && M_U & M_N == 0,
        M_O & M_C == 0 && M_O & M_Z == 0 && M_O & M_I == 0,
        M_O & M_D == 0 && M_O & M_B == 0 && M_O & M_U == 0,
        M_O & M_N == 0 && M_N & M_C == 0 && M_N & M_Z == 0,
        M_N & M_I == 0 && M_N & M_D == 0 && M_N & M_B == 0,
        M_N & M_U == 0 && M_N & M_O == 0,
{
    assert(
        0x01u8 & 0x02 == 0 && 0x01u8 & 0x04 == 0 && 0x01u8 & 0x08 == 0 && 0x01u8 & 0x10 == 0
            &&
        0x01u8 & 0x20 == 0 && 0x01u8 & 0x40 == 0 && 0x01u8 & 0x80 == 0 && 0x02u8 & 0x01 == 0
            &&
        0x02u8 & 0x04 == 0 && 0x02u8 & 0x08 == 0 && 0x02u8 & 0x10 == 0 && 0x02u8 & 0x20 == 0
            &&
        0x02u8 & 0x40 == 0 && 0x02u8 & 0x80 == 0 && 0x04u8 & 0x01 == 0 && 0x04u8 & 0x02 == 0
            &&
        0x04u8 & 0x08 == 0 && 0x04u8 & 0x10 == 0 && 0x04u8 & 0x20 == 0 && 0x04u8 & 0x40 == 0
            &&
        0x04u8 & 0x80 == 0 && 0x08u8 & 0x01 == 0 && 0x08u8 & 0x02 == 0 && 0x08u8 & 0x04 == 0
            &&
        0x08u8 & 0x10 == 0 && 0x08u8 & 0x20 == 0 && 0x08u8 & 0x40 == 0 && 0x08u8 & 0x80 == 0
            &&
        0x10u8 & 0x01 == 0 && 0x10u8 & 0x02 == 0 && 0x10u8 & 0x04 == 0 && 0x10u8 & 0x08 == 0
            &&
        0x10u8 & 0x20 == 0 && 0x10u8 & 0x40 == 0 && 0x10u8 & 0x80 == 0 && 0x20u8 & 0x01 == 0
            &&
        0x20u8 & 0x02 == 0 && 0x20u8 & 0x04 == 0 && 0x20u8 & 0x08 == 0 && 0x20u8 & 0x10 == 0
            &&
        0x20u8 & 0x40 == 0 && 0x20u8 & 0x80 == 0 && 0x40u8 & 0x01 == 0 && 0x40u8 & 0x02 == 0
            &&
        0x40u8 & 0x04 == 0 && 0x40u8 & 0x08 == 0 && 0x40u8 & 0x10 == 0 && 0x40u8 & 0x20 == 0
            &&
        0x40u8 & 0x80 == 0 && 0x80u8 & 0x01 == 0 && 0x80u8 & 0x02 == 0 && 0x80u8 & 0x04 == 0
            &&
        0x80u8 & 0x08 == 0 && 0x80u8 & 0x10 == 0 && 0x80u8 & 0x20 == 0 && 0x80u8 & 0x40 == 0) by (bit_vector);
}

/// Setting Z and N from a value leaves every other status flag alone,
/// and the two flags read back as the zero test and bit 7 of the value.
pub proof fn lemma_with_zn_flags(p: u8, val: u8)
    ensures
        flag_z(with_zn(p, val)) == (val == 0),
        flag_n(with_zn(p, val)) == getf(val, M_N),
        flag_c(with_zn(p, val)) == flag_c(p),
        flag_i(with_zn(p, val)) == flag_i(p),
        flag_d(with_zn(p, val)) == flag_d(p),
        flag_b(with_zn(p, val)) == flag_b(p),
        flag_u(with_zn(p, val)) == flag_u(p),
        flag_o(with_zn(p, val)) == flag_o(p),
{
    lemma_mask_facts();
    let pz = crate::bits::withf(p, M_Z, val == 0);
    lemma_withf_same(p, M_Z, val == 0);
    lemma_withf_same(pz, M_N, getf(val, M_N));
    lemma_withf_other(pz, M_N, M_Z, getf(val, M_N));
    lemma_withf_other(p, M_Z, M_C, val == 0);
    lemma_withf_other(pz, M_N, M_C, getf(val, M_N));
    lemma_withf_other(p, M_Z, M_I, val == 0);
    lemma_withf_other(pz, M_N, M_I, getf(val, M_N));
    lemma_withf_other(p, M_Z, M_D, val == 0);
    lemma_withf_other(pz, M_N, M_D, getf(val, M_N));
    lemma_withf_other(p, M_Z, M_B, val == 0);
    lemma_withf_other(pz, M_N, M_B, getf(val, M_N));
    lemma_withf_other(p, M_Z, M_U, val == 0);
    lemma_withf_other(pz, M_N, M_U, getf(val, M_N));
    lemma_withf_other(p, M_Z, M_O, val == 0);
    lemma_withf_other(pz, M_N, M_O, getf(val, M_N));
}

/// The effective stack address always lies within page 1, the range
/// 0x0100 through 0x01FF.
pub proof fn lemma_stack_addr_range(sp: u8)
    ensures
        0x0100 <= stack_addr(sp) <= 0x01FF,
{
}

/// Reading back the address a write just hit yields the written byte,
/// whichever region the address decodes to.
pub proof fn lemma_bus_read_write(b: BusView, addr: u16, v: u8)
    requires
        b.in_range(addr),
    ensures
        bus_read(bus_write(b, addr, v), addr) == v,
{
}

/// A write leaves every other address unchanged.
pub proof fn lemma_bus_write_frame(b: BusView, addr: u16, v: u8, other: u16)
    requires
        other != addr,
    ensures
        bus_read(bus_write(b, addr, v), other) == bus_read(b, other),
{
}

/// A push writes only at the stack address of the old stack pointer;
/// with `lemma_stack_addr_range` this confines every push to page 1.
pub proof fn lemma_push_frame(s: CpuView, v: u8, addr: u16)
    requires
        addr != stack_addr(s.sp),
    ensures
        bus_read(crate::model::push8(s, v).bus, addr) == bus_read(s.bus, addr),
{
    lemma_bus_write_frame(s.bus, stack_addr(s.sp), v, addr);
}

/// Every JAM slot of the dispatch table uses the implied addressing
/// mode and charges no cycles: a jam consumes no operand byte.
pub proof fn lemma_jam_slots()
    ensures
        forall|o: u8|
            op_of(o) == crate::isa::Operation::JAM ==> mode_of(o)
                == AddressingMode::IMPL,
        forall|o: u8| op_of(o) == crate::isa::Operation::JAM ==> crate::isa::cycles_of(o) == 0,
{
}

/// A dispatched JAM halts the CPU: the tick that fetches it leaves the
/// program counter, the registers, the stack pointer and all memory
/// unchanged and no cycles owed, and every later tick reproduces the
/// same state exactly: the machine makes no forward progress.
pub proof fn lemma_jam_halts(s: CpuView)
    requires
        s.cycles == 0,
        op_of(bus_read(s.bus, s.pc)) == crate::isa::Operation::JAM,
    ensures
        crate::model::step(s).pc == s.pc,
        crate::model::step(s).bus == s.bus,
        crate::model::step(s).a == s.a,
        crate::model::step(s).x == s.x,
        crate::model::step(s).y == s.y,
        crate::model::step(s).sp == s.sp,
        crate::model::step(s).cycles == 0,
        crate::model::step(crate::model::step(s)) == crate::model::step(s),
{
    lemma_jam_slots();
    assert(crate::bits::wdec16(crate::bits::winc16(s.pc)) == s.pc);
    let t = crate::model::step(s);
    // Forcing U a second time changes nothing, so the refetch of the
    // same jam byte rebuilds the very same state.
    let p = s.status;
    assert((p | M_U) | M_U == p | M_U) by (bit_vector);
    assert(crate::model::step(t) =~= t);
}

/// Push-then-pull: pushing the accumulator and pulling it back restores
/// A and the stack pointer, and the status changes only by Z and N set
/// from the loaded (original) value.
pub proof fn lemma_pha_pla(s: CpuView)
    requires
        canonical(s.bus),
    ensures
        op_pla(op_pha(s).0).0.a == s.a,
        op_pla(op_pha(s).0).0.sp == s.sp,
        op_pla(op_pha(s).0).0.status == with_zn(s.status, s.a),
{
    let s1 = op_pha(s).0;
    assert(winc8(wdec8(s.sp)) == s.sp);
    lemma_bus_read_write(s.bus, stack_addr(s.sp), s.a);
}

/// PHP-then-PLP: the status comes back with B and U forced to 1 and is
/// otherwise restored, and the pushed copy (with B and U set) is
/// observable on the stack.
pub proof fn lemma_php_plp(s: CpuView)
    requires
        canonical(s.bus),
    ensures
        op_plp(op_php(s).0).0.status == s.status | (M_B | M_U),
        op_plp(op_php(s).0).0.sp == s.sp,
        bus_read(op_php(s).0.bus, stack_addr(s.sp)) == s.status | (M_B | M_U),
{
    let s1 = op_php(s).0;
    assert(winc8(wdec8(s.sp)) == s.sp);
    lemma_bus_read_write(s.bus, stack_addr(s.sp), s.status | (M_B | M_U));
    let p = s.status;
    assert(crate::model::with_u(p | (M_B | M_U), true) == p | (M_B | M_U)) by (bit_vector);
}

/// JSR-then-RTS: the return lands on the instruction after the JSR (the
/// program counter the JSR started from), and the stack pointer comes
/// back to its prior value.
pub proof fn lemma_jsr_rts(s: CpuView)
    requires
        canonical(s.bus),
    ensures
        op_rts(op_jsr(s).0).0.pc == s.pc,
        op_rts(op_jsr(s).0).0.sp == s.sp,
{
    let ret = crate::bits::wdec16(s.pc);
    let a1 = stack_addr(s.sp);
    let a2 = stack_addr(wdec8(s.sp));
    assert(a1 != a2);
    let s1 = op_jsr(s).0;
    assert(winc8(wdec8(wdec8(s.sp))) == wdec8(s.sp));
    assert(winc8(wdec8(s.sp)) == s.sp);
    let b1 = bus_write(s.bus, a1, crate::bits::hi8(ret));
    lemma_bus_read_write(b1, a2, crate::bits::lo8(ret));
    lemma_bus_write_frame(b1, a2, crate::bits::lo8(ret), a1);
    lemma_bus_read_write(s.bus, a1, crate::bits::hi8(ret));
    lemma_split_combine(ret);
    assert(crate::bits::winc16(crate::bits::wdec16(s.pc)) == s.pc);
}

/// JSR-then-RTS at the instruction level: from an instruction boundary
/// where memory holds `JSR` with a two-byte target whose own byte is
/// `RTS`, running both whole instructions lands the program counter on
/// the instruction after the JSR and restores the stack pointer.  The
/// provisos: the two stack slots the JSR uses must not be the RTS
/// opcode's own address.
pub proof fn lemma_jsr_rts_instructions(s: CpuView)
    requires
        canonical(s.bus),
        s.cycles == 0,
        bus_read(s.bus, s.pc) == 0x20,
        ({
            let target = crate::bits::make16(
                bus_read(s.bus, crate::bits::winc16(s.pc)),
                bus_read(s.bus, crate::bits::wadd16(s.pc, 2)),
            );
            &&& bus_read(s.bus, target) == 0x60
            &&& stack_addr(s.sp) != target
            &&& stack_addr(wdec8(s.sp)) != target
        }),
    ensures
        run_instruction(run_instruction(s)).pc == crate::bits::wadd16(s.pc, 3),
        run_instruction(run_instruction(s)).sp == s.sp,
        run_instruction(run_instruction(s)).cycles == 0,
{
    lemma_drain(crate::model::step(s));
    let target = crate::bits::make16(
        bus_read(s.bus, crate::bits::winc16(s.pc)),
        bus_read(s.bus, crate::bits::wadd16(s.pc, 2)),
    );
    assert(crate::bits::wadd16(crate::bits::winc16(s.pc), 2) == crate::bits::wadd16(s.pc, 3));
    let ret = crate::bits::wdec16(crate::bits::wadd16(s.pc, 3));
    assert(ret == crate::bits::wadd16(s.pc, 2));
    let a1 = stack_addr(s.sp);
    let a2 = stack_addr(wdec8(s.sp));
    assert(a1 != a2);
    let b1 = bus_write(s.bus, a1, crate::bits::hi8(ret));
    let b2 = bus_write(b1, a2, crate::bits::lo8(ret));
    let m = run_instruction(s);
    assert(bus_read(m.bus, m.pc) == 0x60) by {
        lemma_bus_write_frame(b1, a2, crate::bits::lo8(ret), target);
        lemma_bus_write_frame(s.bus, a1, crate::bits::hi8(ret), target);
    }
    lemma_drain(crate::model::step(m));
    assert(winc8(wdec8(wdec8(s.sp))) == wdec8(s.sp));
    assert(winc8(wdec8(s.sp)) == s.sp);
    lemma_bus_read_write(b1, a2, crate::bits::lo8(ret));
    lemma_bus_write_frame(b1, a2, crate::bits::lo8(ret), a1);
    lemma_bus_read_write(s.bus, a1, crate::bits::hi8(ret));
    lemma_split_combine(ret);
    assert(crate::bits::winc16(ret) == crate::bits::wadd16(s.pc, 3));
}

/// INC-then-DEC on one address restores the byte, and Z and N are set
/// from the final (original) value while the remaining flags keep the
/// values they had before the pair ran.
pub proof fn lemma_inc_dec(s: CpuView)
    requires
        canonical(s.bus),
        mode_of(s.opcode) != AddressingMode::IMPL,
    ensures
        bus_read(op_dec(op_inc(s).0).0.bus, s.addr_abs) == bus_read(s.bus, s.addr_abs),
        flag_z(op_dec(op_inc(s).0).0.status) == (bus_read(s.bus, s.addr_abs) == 0),
        flag_n(op_dec(op_inc(s).0).0.status) == getf(bus_read(s.bus, s.addr_abs), M_N),
        flag_c(op_dec(op_inc(s).0).0.status) == flag_c(s.status),
        flag_i(op_dec(op_inc(s).0).0.status) == flag_i(s.status),
        flag_d(op_dec(op_inc(s).0).0.status) == flag_d(s.status),
        flag_b(op_dec(op_inc(s).0).0.status) == flag_b(s.status),
        flag_u(op_dec(op_inc(s).0).0.status) == flag_u(s.status),
        flag_o(op_dec(op_inc(s).0).0.status) == flag_o(s.status),
{
    let v = bus_read(s.bus, s.addr_abs);
    let s1 = op_inc(s).0;
    lemma_bus_read_write(s.bus, s.addr_abs, winc8(v));
    assert(wdec8(winc8(v)) == v);
    lemma_bus_read_write(s1.bus, s.addr_abs, v);
    lemma_with_zn_flags(s.status, winc8(v));
    lemma_with_zn_flags(with_zn(s.status, winc8(v)), v);
}

/// Push-then-pull at the instruction level: from an instruction
/// boundary where memory holds a PHA opcode and then a PLA opcode,
/// running both whole instructions restores the accumulator and the
/// stack pointer, moves the program counter past the two opcodes, ends
/// on an instruction boundary, and sets Z and N from the value.  The
/// one proviso: the stack slot the push uses must not be the PLA
/// opcode's own address.
pub proof fn lemma_pha_pla_instructions(s: CpuView)
    requires
        canonical(s.bus),
        s.cycles == 0,
        bus_read(s.bus, s.pc) == 0x48,
        bus_read(s.bus, crate::bits::winc16(s.pc)) == 0x68,
        stack_addr(s.sp) != crate::bits::winc16(s.pc),
    ensures
        run_instruction(run_instruction(s)).a == s.a,
        run_instruction(run_instruction(s)).sp == s.sp,
        run_instruction(run_instruction(s)).pc == crate::bits::wadd16(s.pc, 2),
        run_instruction(run_instruction(s)).cycles == 0,
        flag_z(run_instruction(run_instruction(s)).status) == (s.a == 0),
        flag_n(run_instruction(run_instruction(s)).status) == getf(s.a, M_N),
{
    lemma_mask_facts();
    lemma_drain(crate::model::step(s));
    let m = run_instruction(s);
    assert(bus_read(m.bus, m.pc) == 0x68) by {
        lemma_bus_write_frame(s.bus, stack_addr(s.sp), s.a, crate::bits::winc16(s.pc));
    }
    lemma_drain(crate::model::step(m));
    assert(winc8(wdec8(s.sp)) == s.sp);
    lemma_bus_read_write(s.bus, stack_addr(s.sp), s.a);
    let s2 = run_instruction(m);
    // The final status is U forced over Z/N set from the pulled value,
    // over U forced during the fetch.
    let pu = crate::model::with_u(m.status, true);
    lemma_with_zn_flags(pu, s.a);
    lemma_withf_other(with_zn(pu, s.a), M_U, M_Z, true);
    lemma_withf_other(with_zn(pu, s.a), M_U, M_N, true);
}

/// ADC is commutative in the accumulator and the fetched operand for an
/// identical carry-in: result and all four flags agree.
pub proof fn lemma_adc_commutes(a: u8, m: u8, p: u8)
    ensures
        adc_core(a, m, p) == adc_core(m, a, p),
{
    let t = a + m + (if flag_c(p) {
        1int
    } else {
        0int
    });
    let r: u8 = if t > 255 {
        (t - 256) as u8
    } else {
        t as u8
    };
    assert(((a ^ r) & (m ^ r) & 0x80) == ((m ^ r) & (a ^ r) & 0x80)) by (bit_vector);
}

/// Setting carry and then adding an immediate zero increments the
/// accumulator by exactly one (wrapping at 0xFF).
pub proof fn lemma_sec_adc_zero(a: u8, p: u8)
    ensures
        adc_core(a, 0, with_c(p, true)).0 == winc8(a),
{
    lemma_withf_same(p, M_C, true);
}

} // verus!
