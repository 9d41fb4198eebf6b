use bm1397_protocol::bits::{get_field_u32, get_field_u8, set_field_u32, set_field_u8};
use bm1397_protocol::endian::{be_bytes, be_bytes_u16, be_u32, le_bytes};
use bm1397_protocol::frequency::{checked_pll_output_hz, pll_output_hz};

#[test]
fn field_of_a_32_bit_value() {
    assert_eq!(get_field_u32(0xC060_0161, 0x0FFF_0000, 16), 0x060);
    assert_eq!(get_field_u32(0xFFFF_FFFF, 0x0000_3F00, 8), 0x3F);
    assert_eq!(get_field_u32(0xFFFF_FFFF, 0xFFFF_FFFF, 0), 0xFFFF_FFFF);
    assert_eq!(get_field_u32(0x8000_0000, 0x8000_0000, 31), 1);
    assert_eq!(get_field_u32(0x1234_5678, 0, 4), 0);
}

#[test]
fn field_of_a_32_bit_value_written() {
    assert_eq!(set_field_u32(0xC060_0161, 0x0FFF_0000, 16, 0xAAA), 0xCAAA_0161);
    assert_eq!(set_field_u32(0xC060_0161, 0x0FFF_0000, 16, 0xF555), 0xC555_0161);
    assert_eq!(set_field_u32(0xFFFF_FFFF, 0x0000_0070, 4, 0), 0xFFFF_FF8F);
    assert_eq!(set_field_u32(0, 0x8000_0000, 31, 0xFFFF_FFFF), 0x8000_0000);
    assert_eq!(set_field_u32(0x1234_5678, 0, 8, 0xFF), 0x1234_5678);
}

#[test]
fn field_of_an_8_bit_value() {
    assert_eq!(get_field_u8(0xC0, 0xC0, 6), 3);
    assert_eq!(get_field_u8(0xFF, 0x30, 4), 3);
    assert_eq!(get_field_u8(0xFF, 0x0F, 0), 0x0F);
    assert_eq!(set_field_u8(0x00, 0x30, 4, 0xFF), 0x30);
    assert_eq!(set_field_u8(0xFF, 0x30, 4, 0x01), 0xDF);
    assert_eq!(set_field_u8(0x0F, 0xC0, 6, 0x02), 0x8F);
}

#[test]
fn written_field_reads_back_masked_and_keeps_the_rest() {
    let masks: [(u32, u8); 5] =
        [(0x0FFF_0000, 16), (0x0000_3F00, 8), (0x0000_0070, 4), (0x8000_0000, 31), (0xFF, 0)];
    for (mask, offset) in masks {
        for raw in [0u32, 0xFFFF_FFFF, 0x1234_5678] {
            for value in [0u32, 1, 0x5555, 0xFFFF_FFFF] {
                let updated = set_field_u32(raw, mask, offset, value);
                assert_eq!(get_field_u32(updated, mask, offset), value & (mask >> offset));
                assert_eq!(updated & !mask, raw & !mask);
                assert_eq!(set_field_u32(updated, mask, offset, value), updated);
                assert_eq!(
                    set_field_u32(set_field_u32(raw, mask, offset, !value), mask, offset, value),
                    updated
                );
            }
        }
    }
}

#[test]
fn big_and_little_endian_bytes() {
    assert_eq!(be_bytes(0x1397_1800), [0x13, 0x97, 0x18, 0x00]);
    assert_eq!(le_bytes(0x1707_9E15), [0x15, 0x9E, 0x07, 0x17]);
    assert_eq!(be_bytes(0), [0, 0, 0, 0]);
    assert_eq!(be_bytes(0xFFFF_FFFF), [0xFF, 0xFF, 0xFF, 0xFF]);
    assert_eq!(le_bytes(0x0000_0001), [1, 0, 0, 0]);
    assert_eq!(be_bytes_u16(0xD3DC), [0xD3, 0xDC]);
    assert_eq!(be_bytes_u16(0x0001), [0x00, 0x01]);
}

#[test]
fn big_endian_number() {
    assert_eq!(be_u32(&[0x97, 0xC3, 0x28, 0xB6], 0), 0x97C3_28B6);
    assert_eq!(be_u32(&[0xAA, 0x55, 0x13, 0x97, 0x18, 0x00, 0x00], 2), 0x1397_1800);
    assert_eq!(be_u32(&[0xFF, 0xFF, 0xFF, 0xFF], 0), 0xFFFF_FFFF);
    for value in [0u32, 1, 0x0102_0304, 0x8000_0000, 0xFFFF_FFFF] {
        assert_eq!(be_u32(&be_bytes(value), 0), value);
        let mut reversed = le_bytes(value);
        reversed.reverse();
        assert_eq!(reversed, be_bytes(value));
        assert_eq!(be_bytes(value), value.to_be_bytes());
        assert_eq!(le_bytes(value), value.to_le_bytes());
    }
}

#[test]
fn pll_output() {
    assert_eq!(pll_output_hz(25_000_000, 0x60, 1, 6, 1), 400_000_000);
    assert_eq!(pll_output_hz(25_000_000, 100, 3, 7, 1), 119_047_619);
    assert_eq!(pll_output_hz(0, 0xFFFF, 255, 255, 255), 0);
    assert_eq!(pll_output_hz(65_537, 0xFFFF, 1, 1, 1), 0xFFFF_FFFF);
    assert_eq!(checked_pll_output_hz(25_000_000, 0x60, 1, 6, 1), Some(400_000_000));
    assert_eq!(checked_pll_output_hz(25_000_000, 0x60, 0, 6, 1), None);
    assert_eq!(checked_pll_output_hz(25_000_000, 0x60, 1, 0, 1), None);
    assert_eq!(checked_pll_output_hz(25_000_000, 0x60, 1, 6, 0), None);
    assert_eq!(checked_pll_output_hz(65_538, 0xFFFF, 1, 1, 1), None);
    assert_eq!(checked_pll_output_hz(65_537, 0xFFFF, 255, 255, 255), Some(259));
}
