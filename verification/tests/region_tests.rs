//! Tests of the memory regions, the bus decoding, and the error path.

use emulator_6502::bus::{Bus, BusError};
use emulator_6502::memory::Memory;
use emulator_6502::processor::Processor;
use emulator_6502::rom::Rom;

#[test]
fn memory_new_len_is_empty() {
    let m = Memory::new(16);
    assert_eq!(m.len(), 16);
    assert!(!m.is_empty());
    let e = Memory::new(0);
    assert_eq!(e.len(), 0);
    assert!(e.is_empty());
}

#[test]
fn memory_read_write_and_bad_address() {
    let mut m = Memory::new(4);
    assert_eq!(m.write(2, 0xAB), Ok(()));
    assert_eq!(m.read(2), 0xAB);
    assert_eq!(m.read(100), 0);
    assert_eq!(m.write(4, 0x01), Err(BusError::BadAddress));
    assert_eq!(m.read(2), 0xAB);
}

#[test]
fn rom_new_len_is_empty() {
    let r = Rom::new(8);
    assert_eq!(r.len(), 8);
    assert!(!r.is_empty());
    assert!(Rom::new(0).is_empty());
}

#[test]
fn rom_write_and_bad_address() {
    let mut r = Rom::new(4);
    assert_eq!(r.write(0, 0x12), Ok(()));
    assert_eq!(r.read(0), 0x12);
    assert_eq!(r.write(9, 0x01), Err(BusError::BadAddress));
}

#[test]
fn rom_from_vector() {
    let r = Rom::from(vec![1, 2, 3]);
    assert_eq!(r.len(), 3);
    assert_eq!(r.read(0), 1);
    assert_eq!(r.read(2), 3);
}

#[test]
fn rom_load_places_bytes_at_offset() {
    let mut r = Rom::new(8);
    assert_eq!(r.write(1, 0xEE), Ok(()));
    r.load(&vec![0xAA, 0xBB, 0xCC], 3);
    assert_eq!(r.read(0), 0);
    assert_eq!(r.read(1), 0xEE);
    assert_eq!(r.read(3), 0xAA);
    assert_eq!(r.read(4), 0xBB);
    assert_eq!(r.read(5), 0xCC);
    assert_eq!(r.read(6), 0);
}

#[test]
fn rom_load_drops_bytes_past_the_end() {
    let mut r = Rom::new(4);
    r.load(&vec![1, 2, 3, 4, 5, 6], 2);
    assert_eq!(r.read(2), 1);
    assert_eq!(r.read(3), 2);
    assert_eq!(r.read(0), 0);
    let mut s = Rom::new(4);
    s.load(&vec![9], 100);
    assert_eq!(s.read(0), 0);
}

#[test]
fn bus_decodes_three_regions() {
    let mut b = Bus::new(Memory::new(4), vec![0; 4], Rom::new(4));
    assert_eq!(b.write(0, 0x11), Ok(()));
    assert_eq!(b.write(5, 0x22), Ok(()));
    assert_eq!(b.write(10, 0x33), Ok(()));
    assert_eq!(b.read(0), 0x11);
    assert_eq!(b.read(5), 0x22);
    assert_eq!(b.read(10), 0x33);
    assert_eq!(b.read(12), 0);
    assert_eq!(b.write(12, 0x44), Err(BusError::BadAddress));
}

#[test]
fn bus_write_reaches_rom() {
    let mut p = Processor::new();
    assert_eq!(p.bus.write(0x8000, 0x5A), Ok(()));
    assert_eq!(p.bus.read(0x8000), 0x5A);
    assert_eq!(p.bus.secondary_storage.read(0), 0x5A);
}

#[test]
fn processor_load_rom_is_offset_within_rom_region() {
    let mut p = Processor::new();
    p.load_rom(&vec![0xDE, 0xAD], 0x10);
    assert_eq!(p.bus.read(0x8010), 0xDE);
    assert_eq!(p.bus.read(0x8011), 0xAD);
}

#[test]
fn bus_load_rom_delegates() {
    let mut b = Bus::new(Memory::new(4), vec![0; 4], Rom::new(8));
    b.load_rom(&vec![7, 8], 1);
    assert_eq!(b.read(9), 7);
    assert_eq!(b.read(10), 8);
}
