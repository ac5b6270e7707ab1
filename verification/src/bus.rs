//! The bus: one RAM region, one I/O (`other`) region, and one ROM region,
//! decoded contiguously in that order over the 16-bit address space.

use vstd::prelude::*;

use crate::memory::Memory;
use crate::rom::{rom_loaded, Rom};

verus! {

/// Errors visible at the core boundary.
#[derive(Clone, Copy, Debug, PartialEq, Eq, Structural)]
pub enum BusError {
    /// A write addressed a location outside every defined region.
    BadAddress,
}

/// The mathematical content of a bus: the bytes of its three regions.
#[verifier::ext_equal]
pub struct BusView {
    pub ram: Seq<u8>,
    pub other: Seq<u8>,
    pub rom: Seq<u8>,
}

impl BusView {
    /// Total number of addressable bytes.
    pub open spec fn total(self) -> int {
        self.ram.len() + self.other.len() + self.rom.len() as int
    }

    /// Whether an address decodes to some region.
    pub open spec fn in_range(self, address: u16) -> bool {
        address < self.total()
    }
}

/// Address decoding for reads: RAM first, then the I/O region, then ROM;
/// addresses past every region read as 0.
pub open spec fn bus_read(b: BusView, address: u16) -> u8 {
    if address < b.ram.len() {
        b.ram[address as int]
    } else if address < b.ram.len() + b.other.len() {
        b.other[address - b.ram.len()]
    } else if address < b.total() {
        b.rom[address - b.ram.len() - b.other.len()]
    } else {
        0
    }
}

/// The bus after writing `data` at `address`, with the same decoding as
/// `bus_read`; an out-of-range write leaves the bus unchanged.  A write
/// that decodes to ROM does mutate the ROM region: the 6502 cannot
/// distinguish writable from read-only storage at this level.
pub open spec fn bus_write(b: BusView, address: u16, data: u8) -> BusView {
    if address < b.ram.len() {
        BusView { ram: b.ram.update(address as int, data), ..b }
    } else if address < b.ram.len() + b.other.len() {
        BusView { other: b.other.update(address - b.ram.len(), data), ..b }
    } else if address < b.total() {
        BusView { rom: b.rom.update(address - b.ram.len() - b.other.len(), data), ..b }
    } else {
        b
    }
}

/// The bus owning the three regions.  Read and write operations take place
/// from here.
pub struct Bus {
    memory: Memory,
    other: Vec<u8>,
    pub secondary_storage: Rom,
}

impl View for Bus {
    type V = BusView;

    closed spec fn view(&self) -> BusView {
        BusView { ram: self.memory@, other: self.other@, rom: self.secondary_storage@ }
    }
}

impl Bus {
    pub fn new(memory: Memory, other: Vec<u8>, secondary_storage: Rom) -> (r: Self)
        ensures
            r@ == (BusView { ram: memory@, other: other@, rom: secondary_storage@ }),
    {
        Bus { memory, other, secondary_storage }
    }

    /// Reads the byte that `address` decodes to; 0 past every region.
    pub fn read(&self, address: u16) -> (r: u8)
        ensures
            r == bus_read(self@, address),
    {
        let a = address as usize;
        if a < self.memory.len() {
            self.memory.read(address)
        } else if a - self.memory.len() < self.other.len() {
            self.other[a - self.memory.len()]
        } else if a - self.memory.len() - self.other.len() < self.secondary_storage.len() {
            self.secondary_storage.read((a - self.memory.len() - self.other.len()) as u16)
        } else {
            0
        }
    }

    /// Writes `data` to the region that `address` decodes to; an address
    /// outside every region fails with `BadAddress`.
    pub fn write(&mut self, address: u16, data: u8) -> (r: Result<(), BusError>)
        ensures
            final(self)@ == bus_write(old(self)@, address, data),
            old(self)@.in_range(address) ==> r == Ok::<(), BusError>(()),
            !old(self)@.in_range(address) ==> r == Err::<(), BusError>(BusError::BadAddress),
    {
        let a = address as usize;
        if a < self.memory.len() {
            self.memory.write(address, data)
        } else if a - self.memory.len() < self.other.len() {
            vstd::std_specs::core::index_set(&mut self.other, a - self.memory.len(), data);
            Ok(())
        } else if a - self.memory.len() - self.other.len() < self.secondary_storage.len() {
            self.secondary_storage.write((a - self.memory.len() - self.other.len()) as u16, data)
        } else {
            Err(BusError::BadAddress)
        }
    }

    /// The half-open bus-address ranges of the three regions, in the
    /// decode order RAM, I/O, ROM: the memory map for a host's display.
    pub fn region_bounds(&self) -> (r: ((usize, usize), (usize, usize), (usize, usize)))
        requires
            self@.total() <= 0x10000,
        ensures
            r.0 == (0usize, self@.ram.len() as usize),
            r.1 == (self@.ram.len() as usize, (self@.ram.len() + self@.other.len()) as usize),
            r.2 == ((self@.ram.len() + self@.other.len()) as usize, self@.total() as usize),
    {
        let ram_end = self.memory.len();
        let other_end = ram_end + self.other.len();
        let rom_end = other_end + self.secondary_storage.len();
        ((0, ram_end), (ram_end, other_end), (other_end, rom_end))
    }

    /// Copies a ROM image into the ROM region; see `Rom::load`.
    pub fn load_rom(&mut self, bytes: &Vec<u8>, start_location: u16)
        ensures
            final(self)@ == (BusView {
                rom: rom_loaded(old(self)@.rom, bytes@, start_location),
                ..old(self)@
            }),
    {
        self.secondary_storage.load(bytes, start_location);
    }
}

} // verus!
