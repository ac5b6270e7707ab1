//! Small arithmetic and bit-level helpers shared by the whole core.
//!
//! The 6502 wraps all of its arithmetic: the program counter wraps within
//! 16 bits, the stack pointer and the registers within 8 bits.  The spec
//! functions here define that wrapping behaviour with plain integer
//! arithmetic, and each exec twin returns exactly the spec value.

use vstd::prelude::*;

verus! {

/// 16-bit wrapping addition.
pub open spec fn wadd16(a: u16, b: u16) -> u16 {
    if a + b < 0x10000 {
        (a + b) as u16
    } else {
        (a + b - 0x10000) as u16
    }
}

/// 16-bit wrapping increment.
pub open spec fn winc16(a: u16) -> u16 {
    wadd16(a, 1)
}

/// 16-bit wrapping decrement.
pub open spec fn wdec16(a: u16) -> u16 {
    if a >= 1 {
        (a - 1) as u16
    } else {
        0xFFFF
    }
}

/// 8-bit wrapping addition.
pub open spec fn wadd8(a: u8, b: u8) -> u8 {
    if a + b < 0x100 {
        (a + b) as u8
    } else {
        (a + b - 0x100) as u8
    }
}

/// 8-bit wrapping increment.
pub open spec fn winc8(a: u8) -> u8 {
    wadd8(a, 1)
}

/// 8-bit wrapping decrement.
pub open spec fn wdec8(a: u8) -> u8 {
    if a >= 1 {
        (a - 1) as u8
    } else {
        0xFF
    }
}

/// 8-bit wrapping subtraction.
pub open spec fn wsub8(a: u8, b: u8) -> u8 {
    if a >= b {
        (a - b) as u8
    } else {
        (a + 0x100 - b) as u8
    }
}

/// Low byte of a 16-bit value.
pub open spec fn lo8(x: u16) -> u8 {
    (x % 256) as u8
}

/// High byte of a 16-bit value.
pub open spec fn hi8(x: u16) -> u8 {
    (x / 256) as u8
}

/// Little-endian combination of two bytes into a 16-bit value.
pub open spec fn make16(lo: u8, hi: u8) -> u16 {
    (hi * 256 + lo) as u16
}

/// The page of an address: its high byte.
pub open spec fn page(a: u16) -> u16 {
    (a / 256) as u16
}

/// Whether `mask` selects at least one set bit of `p`.
pub open spec fn getf(p: u8, mask: u8) -> bool {
    p & mask != 0
}

/// `p` with the bits of `mask` forced to `v`.
pub open spec fn withf(p: u8, mask: u8, v: bool) -> u8 {
    if v {
        p | mask
    } else {
        p & !mask
    }
}

pub fn wrap_add16(a: u16, b: u16) -> (r: u16)
    ensures
        r == wadd16(a, b),
{
    let s: u32 = a as u32 + b as u32;
    if s < 0x10000 {
        s as u16
    } else {
        (s - 0x10000) as u16
    }
}

pub fn wrap_inc16(a: u16) -> (r: u16)
    ensures
        r == winc16(a),
{
    wrap_add16(a, 1)
}

pub fn wrap_dec16(a: u16) -> (r: u16)
    ensures
        r == wdec16(a),
{
    if a >= 1 {
        a - 1
    } else {
        0xFFFF
    }
}

pub fn wrap_add8(a: u8, b: u8) -> (r: u8)
    ensures
        r == wadd8(a, b),
{
    let s: u16 = a as u16 + b as u16;
    if s < 0x100 {
        s as u8
    } else {
        (s - 0x100) as u8
    }
}

pub fn wrap_inc8(a: u8) -> (r: u8)
    ensures
        r == winc8(a),
{
    wrap_add8(a, 1)
}

pub fn wrap_dec8(a: u8) -> (r: u8)
    ensures
        r == wdec8(a),
{
    if a >= 1 {
        a - 1
    } else {
        0xFF
    }
}

pub fn wrap_sub8(a: u8, b: u8) -> (r: u8)
    ensures
        r == wsub8(a, b),
{
    if a >= b {
        a - b
    } else {
        let s: u16 = a as u16 + 0x100 - b as u16;
        s as u8
    }
}

pub fn split_lo(x: u16) -> (r: u8)
    ensures
        r == lo8(x),
{
    (x % 256) as u8
}

pub fn split_hi(x: u16) -> (r: u8)
    ensures
        r == hi8(x),
{
    (x / 256) as u8
}

pub fn combine16(lo: u8, hi: u8) -> (r: u16)
    ensures
        r == make16(lo, hi),
{
    (hi as u16) * 256 + (lo as u16)
}

pub fn page_of(a: u16) -> (r: u16)
    ensures
        r == page(a),
{
    a / 256
}

pub fn get_mask(p: u8, mask: u8) -> (r: bool)
    ensures
        r == getf(p, mask),
{
    p & mask != 0
}

pub fn set_mask(p: u8, mask: u8, v: bool) -> (r: u8)
    ensures
        r == withf(p, mask, v),
{
    if v {
        p | mask
    } else {
        p & !mask
    }
}

/// Setting a flag bit makes that same bit read back as the value written.
pub broadcast proof fn lemma_withf_same(p: u8, mask: u8, v: bool)
    requires
        mask != 0,
    ensures
        #[trigger] getf(withf(p, mask, v), mask) == v,
{
    assert(getf(withf(p, mask, v), mask) == v) by (bit_vector)
        requires
            mask != 0,
    ;
}

/// Setting a flag bit leaves every disjoint bit unchanged.
pub broadcast proof fn lemma_withf_other(p: u8, m1: u8, m2: u8, v: bool)
    requires
        m1 & m2 == 0,
    ensures
        #[trigger] getf(withf(p, m1, v), m2) == getf(p, m2),
{
    assert(getf(withf(p, m1, v), m2) == getf(p, m2)) by (bit_vector)
        requires
            m1 & m2 == 0,
    ;
}

/// Splitting a 16-bit value into bytes and recombining them is the identity.
pub proof fn lemma_split_combine(x: u16)
    ensures
        make16(lo8(x), hi8(x)) == x,
{
    assert(x / 256 < 256);
    assert((x / 256) * 256 + x % 256 == x) by (nonlinear_arith);
}

} // verus!
