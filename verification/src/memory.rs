//! The RAM region: a fixed-size, zero-initialised byte vector with
//! bounds-checked indexed access.

use vstd::prelude::*;

use crate::bus::BusError;

verus! {

/// What an indexed read of a byte region yields: the byte at `index`, or 0
/// when the index lies outside the region (coarse open-bus behaviour).
pub open spec fn region_read(m: Seq<u8>, index: u16) -> u8 {
    if index < m.len() {
        m[index as int]
    } else {
        0
    }
}

/// A fixed-size byte region backing the RAM of the bus.
pub struct Memory {
    mem: Vec<u8>,
}

impl View for Memory {
    type V = Seq<u8>;

    closed spec fn view(&self) -> Seq<u8> {
        self.mem@
    }
}

impl Memory {
    /// Returns a region of `size_b` bytes, all zero.
    pub fn new(size_b: usize) -> (r: Self)
        ensures
            r@.len() == size_b,
            forall|i: int| 0 <= i < size_b ==> r@[i] == 0,
    {
        let mut mem: Vec<u8> = Vec::new();
        let mut i: usize = 0;
        while i < size_b
            invariant
                i <= size_b,
                mem@.len() == i,
                forall|j: int| 0 <= j < i ==> mem@[j] == 0,
            decreases size_b - i,
        {
            mem.push(0);
            i = i + 1;
        }
        Memory { mem }
    }

    /// Indexed read; out-of-range reads return 0.
    pub fn read(&self, index: u16) -> (r: u8)
        ensures
            r == region_read(self@, index),
    {
        if (index as usize) < self.mem.len() {
            self.mem[index as usize]
        } else {
            0
        }
    }

    /// Indexed write; out-of-range writes fail with `BadAddress` and leave
    /// the region unchanged.
    pub fn write(&mut self, index: u16, data: u8) -> (r: Result<(), BusError>)
        ensures
            index < old(self)@.len() ==> r == Ok::<(), BusError>(())
                && final(self)@ == old(self)@.update(index as int, data),
            index >= old(self)@.len() ==> r == Err::<(), BusError>(BusError::BadAddress)
                && final(self)@ == old(self)@,
    {
        if (index as usize) < self.mem.len() {
            vstd::std_specs::core::index_set(&mut self.mem, index as usize, data);
            Ok(())
        } else {
            Err(BusError::BadAddress)
        }
    }

    pub fn len(&self) -> (r: usize)
        ensures
            r == self@.len(),
    {
        self.mem.len()
    }

    #[must_use]
    pub fn is_empty(&self) -> (r: bool)
        ensures
            r == (self@.len() == 0),
    {
        self.len() == 0
    }
}

} // verus!
