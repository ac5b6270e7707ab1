//! The ROM region: a byte region like RAM, logically read-only from the
//! program's perspective, with a bulk, offset-aware load operation.
//!
//! Obtaining the bytes of a ROM image is the host's business (file I/O);
//! the region itself only copies bytes that are already in memory.

use vstd::prelude::*;

use crate::bus::BusError;
use crate::memory::region_read;

verus! {

/// The region contents after a bulk load: byte `i` of the input lands at
/// region offset `start + i`; bytes that would fall outside the region are
/// dropped, and offsets the input does not reach keep their prior value.
pub open spec fn rom_loaded(region: Seq<u8>, bytes: Seq<u8>, start: u16) -> Seq<u8> {
    Seq::new(
        region.len(),
        |i: int|
            if start <= i < start + bytes.len() {
                bytes[i - start]
            } else {
                region[i]
            },
    )
}

/// A fixed-size byte region backing the ROM of the bus.
pub struct Rom {
    pub rom: Vec<u8>,
}

impl View for Rom {
    type V = Seq<u8>;

    open spec fn view(&self) -> Seq<u8> {
        self.rom@
    }
}

impl Rom {
    /// Returns a region of `size_b` bytes, all zero.
    pub fn new(size_b: usize) -> (r: Self)
        ensures
            r@.len() == size_b,
            forall|i: int| 0 <= i < size_b ==> r@[i] == 0,
    {
        let mut rom: Vec<u8> = Vec::new();
        let mut i: usize = 0;
        while i < size_b
            invariant
                i <= size_b,
                rom@.len() == i,
                forall|j: int| 0 <= j < i ==> rom@[j] == 0,
            decreases size_b - i,
        {
            rom.push(0);
            i = i + 1;
        }
        Rom { rom }
    }

    /// Indexed read; out-of-range reads return 0.
    pub fn read(&self, index: u16) -> (r: u8)
        ensures
            r == region_read(self@, index),
    {
        if (index as usize) < self.rom.len() {
            self.rom[index as usize]
        } else {
            0
        }
    }

    /// Indexed write; out-of-range writes fail with `BadAddress` and leave
    /// the region unchanged.
    pub fn write(&mut self, index: u16, data: u8) -> (r: Result<(), BusError>)
        ensures
            index < old(self)@.len() ==> r == Ok::<(), BusError>(())
                && final(self)@ == old(self)@.update(index as int, data),
            index >= old(self)@.len() ==> r == Err::<(), BusError>(BusError::BadAddress)
                && final(self)@ == old(self)@,
    {
        if (index as usize) < self.rom.len() {
            vstd::std_specs::core::index_set(&mut self.rom, index as usize, data);
            Ok(())
        } else {
            Err(BusError::BadAddress)
        }
    }

    /// Copies `bytes` into the region starting at offset `start_location`:
    /// byte `i` of the input lands at region offset `start_location + i`.
    /// Bytes that would fall outside the region are dropped; a short input
    /// leaves the remaining region bytes at their prior value.
    pub fn load(&mut self, bytes: &Vec<u8>, start_location: u16)
        ensures
            final(self)@ == rom_loaded(old(self)@, bytes@, start_location),
    {
        let start = start_location as usize;
        let n = self.rom.len();
        let limit: usize = if start < n {
            n - start
        } else {
            0
        };
        let mut i: usize = 0;
        while i < bytes.len() && i < limit
            invariant
                self.rom@.len() == old(self)@.len(),
                self.rom@.len() == n,
                limit <= n,
                start == start_location,
                start < n ==> limit == n - start,
                start >= n ==> limit == 0,
                i <= bytes@.len(),
                forall|j: int|
                    0 <= j < old(self)@.len() ==> self.rom@[j] == (
                    if start_location <= j < start_location + i {
                        bytes@[j - start_location]
                    } else {
                        old(self)@[j]
                    }),
            decreases bytes@.len() - i,
        {
            vstd::std_specs::core::index_set(&mut self.rom, start + i, bytes[i]);
            i = i + 1;
        }
        proof {
            assert(self.rom@ =~= rom_loaded(old(self)@, bytes@, start_location));
        }
    }

    pub fn len(&self) -> (r: usize)
        ensures
            r == self@.len(),
    {
        self.rom.len()
    }

    #[must_use]
    pub fn is_empty(&self) -> (r: bool)
        ensures
            r == (self@.len() == 0),
    {
        self.len() == 0
    }
}

impl From<Vec<u8>> for Rom {
    /// Wraps an existing byte vector as a ROM region.
    fn from(vector: Vec<u8>) -> (r: Self) {
        Rom { rom: vector }
    }
}

impl vstd::std_specs::convert::FromSpecImpl<Vec<u8>> for Rom {
    open spec fn obeys_from_spec() -> bool {
        true
    }

    open spec fn from_spec(vector: Vec<u8>) -> Rom {
        Rom { rom: vector }
    }
}

} // verus!
