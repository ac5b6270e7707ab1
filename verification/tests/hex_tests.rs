//! Tests of the hexadecimal program decoder and the memory-map query.

use emulator_6502::bus::{Bus, BusError};
use emulator_6502::hex::decode_hex;
use emulator_6502::memory::Memory;
use emulator_6502::processor::Processor;
use emulator_6502::rom::Rom;

#[test]
fn decode_hex_pairs() {
    let text: Vec<u8> = b"A9421f".to_vec();
    assert_eq!(decode_hex(&text), Some(vec![0xA9, 0x42, 0x1F]));
}

#[test]
fn decode_hex_empty() {
    assert_eq!(decode_hex(&Vec::new()), Some(Vec::new()));
}

#[test]
fn decode_hex_lone_trailing_digit() {
    let text: Vec<u8> = b"A94".to_vec();
    assert_eq!(decode_hex(&text), Some(vec![0xA9, 0x04]));
}

#[test]
fn decode_hex_rejects_other_bytes() {
    assert_eq!(decode_hex(&b"A9G2".to_vec()), None);
    assert_eq!(decode_hex(&b" A9".to_vec()), None);
}

#[test]
fn region_bounds_report_the_memory_map() {
    let p = Processor::new();
    let (ram, other, rom) = p.bus.region_bounds();
    assert_eq!(ram, (0x0000, 0x4000));
    assert_eq!(other, (0x4000, 0x8000));
    assert_eq!(rom, (0x8000, 0x10000));

    let mut b = Bus::new(Memory::new(2), vec![0; 3], Rom::new(4));
    let (r0, r1, r2) = b.region_bounds();
    assert_eq!(r0, (0, 2));
    assert_eq!(r1, (2, 5));
    assert_eq!(r2, (5, 9));
    assert_eq!(b.write(9, 1), Err(BusError::BadAddress));
}
