//! Tests of the status-register getters and setters.

use emulator_6502::processor::Processor;

/// Whether or not the getters for status register work properly.
#[test]
fn get_status() {
    let mut test_processor = Processor::new();
    test_processor.reset();

    // testing with values from 0 to 255
    for value in 0..=255 as u8 {
        // testing get
        test_processor.status = value;
        assert_eq!(test_processor.get_c(), (test_processor.status & (1 << 0) == (1 << 0)));
        assert_eq!(test_processor.get_z(), (test_processor.status & (1 << 1) == (1 << 1)));
        assert_eq!(test_processor.get_i(), (test_processor.status & (1 << 2) == (1 << 2)));
        assert_eq!(test_processor.get_d(), (test_processor.status & (1 << 3) == (1 << 3)));
        assert_eq!(test_processor.get_b(), (test_processor.status & (1 << 4) == (1 << 4)));
        assert_eq!(test_processor.get_u(), (test_processor.status & (1 << 5) == (1 << 5)));
        assert_eq!(test_processor.get_o(), (test_processor.status & (1 << 6) == (1 << 6)));
        assert_eq!(test_processor.get_n(), (test_processor.status & (1 << 7) == (1 << 7)));
    }
}

/// Whether or not the setters for status register work properly, given
/// getters work properly.
#[test]
fn set_status() {
    let mut test_processor = Processor::new();
    test_processor.reset();

    let boolean_values = [true, false];

    for value in boolean_values.iter() {
        // testing set
        test_processor.set_b(value.to_owned());
        assert_eq!(test_processor.get_b(), value.to_owned());

        test_processor.set_c(value.to_owned());
        assert_eq!(test_processor.get_c(), value.to_owned());

        test_processor.set_d(value.to_owned());
        assert_eq!(test_processor.get_d(), value.to_owned());

        test_processor.set_i(value.to_owned());
        assert_eq!(test_processor.get_i(), value.to_owned());

        test_processor.set_n(value.to_owned());
        assert_eq!(test_processor.get_n(), value.to_owned());

        test_processor.set_o(value.to_owned());
        assert_eq!(test_processor.get_o(), value.to_owned());

        test_processor.set_u(value.to_owned());
        assert_eq!(test_processor.get_u(), value.to_owned());

        test_processor.set_z(value.to_owned());
        assert_eq!(test_processor.get_z(), value.to_owned());
    }
}

#[test]
fn clear_status_zeroes_the_byte() {
    let mut p = Processor::new();
    p.status = 0xFF;
    p.clear_status();
    assert_eq!(p.status, 0x00);
}
