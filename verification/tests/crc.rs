use bm1397_protocol::crc::{crc16, crc5};

/// Test a valid CRC5 invocation.
#[test]
fn crc5_correct() {
    // Chain inactive
    assert_eq!(crc5(&[0x53, 0x05, 0x00, 0x00]), 0x03);
    // Chippy
    assert_eq!(crc5(&[0x40, 0x05, 0x00, 0x00]), 0x1C);
    // Init 1
    assert_eq!(
        crc5(&[0x51, 0x09, 0x00, 0x80, 0x00, 0x00, 0x00, 0x00]),
        0x1C
    );
    // Init 2
    assert_eq!(
        crc5(&[0x51, 0x09, 0x00, 0x84, 0x00, 0x00, 0x00, 0x00]),
        0x11
    );
    // Init 3
    assert_eq!(
        crc5(&[0x51, 0x09, 0x00, 0x20, 0x00, 0x00, 0x00, 0x01]),
        0x02
    );
    // Init 4
    assert_eq!(
        crc5(&[0x51, 0x09, 0x00, 0x3C, 0x80, 0x00, 0x80, 0x74]),
        0x10
    );
    // Init 5
    assert_eq!(
        crc5(&[0x51, 0x09, 0x00, 0x68, 0xC0, 0x70, 0x01, 0x11]),
        0x00
    );
    // Init 6
    assert_eq!(
        crc5(&[0x51, 0x09, 0x00, 0x28, 0x06, 0x00, 0x00, 0x0F]),
        0x18
    );
    // Baudrate 1.625Mbps
    assert_eq!(
        crc5(&[0x51, 0x09, 0x00, 0x18, 0x00, 0x00, 0x61, 0x31]),
        0x1C
    );
}

/// Test a CRC5 call that does not match.
#[test]
fn crc5_wrong() {
    // Chain inactive. This should not match - the expected result is the different.
    assert_ne!(crc5(&[0x53, 0x05, 0x00, 0x00]), 0x04);
}

#[test]
fn crc5_of_nothing_is_the_initial_value() {
    assert_eq!(crc5(&[]), 0x1F);
}

#[test]
fn crc5_is_the_same_for_the_same_bytes() {
    let bytes = [0x51, 0x09, 0x00, 0x3C, 0x80, 0x00, 0x80, 0x74];
    let copy = bytes.to_vec();
    assert_eq!(crc5(&bytes), crc5(&copy));
    assert_eq!(crc5(&bytes), crc5(&bytes));
}

#[test]
fn crc5_fits_in_five_bits() {
    for first in 0..=255u8 {
        for second in [0x00u8, 0x5A, 0xFF] {
            assert!(crc5(&[first, second]) < 32);
        }
    }
}

#[test]
fn crc5_over_a_response_with_its_checksum_is_zero() {
    assert_eq!(crc5(&[0x13, 0x97, 0x18, 0x00, 0x00, 0x00, 0x06]), 0x00);
    assert_eq!(crc5(&[0x97, 0xC3, 0x28, 0xB6, 0x01, 0x63, 0x9C]), 0x00);
    assert_ne!(crc5(&[0x13, 0x97, 0x18, 0x00, 0x00, 0x00, 0x00]), 0x00);
}

#[test]
fn crc5_differs_from_the_bytes_it_was_given() {
    assert_eq!(crc5(&[0x13, 0x97, 0x18, 0x00, 0x00, 0x00]), 0x1B);
    assert_eq!(crc5(&[0x03]), crc5(&[0x03]));
    assert_ne!(crc5(&[0x03]), 0x03);
}

#[test]
fn crc16_check_value() {
    assert_eq!(crc16(b"123456789"), 0x29B1);
}

#[test]
fn crc16_of_nothing_is_the_initial_value() {
    assert_eq!(crc16(&[]), 0xFFFF);
}

#[test]
fn crc16_is_the_same_for_the_same_bytes() {
    let bytes = [0x21u8, 0x36, 0x00, 0x01, 0x00, 0x00, 0x00, 0x00];
    assert_eq!(crc16(&bytes), crc16(&bytes.to_vec()));
}

#[test]
fn crc16_differs_from_the_bytes_it_was_given() {
    assert_eq!(crc16(&[0x00, 0x00]), 0x1D0F);
    assert_ne!(crc16(&[0x12, 0x34]), 0x1234);
}
