use bm1397_protocol::command::{Command, Destination, Midstate};
use bm1397_protocol::core_register::{HashClockCounter, HashClockCtrl};
use bm1397_protocol::crc::{crc16, crc5};
use bm1397_protocol::register::{
    ChipAddress, ClockOrderControl0, I2CControl, MiscControl, PLL0Parameter,
    ReturnedSinglePatternStatus,
};

const MIDSTATE_0: Midstate = [
    0xDE, 0x60, 0x4A, 0x09, 0xE9, 0x30, 0x1D, 0xE1, 0x25, 0x6D, 0x7E, 0xB8, 0x0E, 0xA1, 0xE6, 0x43,
    0x82, 0xDF, 0x61, 0x14, 0x15, 0x03, 0x96, 0x6C, 0x18, 0x5F, 0x50, 0x2F, 0x55, 0x74, 0xD4, 0xBA,
];
const MIDSTATE_1: Midstate = [
    0xAE, 0x2F, 0x3F, 0xC6, 0x02, 0xD9, 0xCD, 0x3B, 0x9E, 0x39, 0xAD, 0x97, 0x9C, 0xFD, 0xFF, 0x3A,
    0x40, 0x49, 0x4D, 0xB6, 0xD7, 0x8D, 0xA4, 0x51, 0x34, 0x99, 0x29, 0xD1, 0xAD, 0x36, 0x66, 0x1D,
];
const MIDSTATE_2: Midstate = [
    0xDF, 0xFF, 0xC1, 0xCC, 0x89, 0x33, 0xEA, 0xF3, 0xE8, 0x3A, 0x91, 0x58, 0xA6, 0xD6, 0xFA, 0x02,
    0x0D, 0xCF, 0x60, 0xF8, 0xC1, 0x0E, 0x99, 0x36, 0xDE, 0x71, 0xDB, 0xD3, 0xF7, 0xD2, 0x86, 0xAF,
];
const MIDSTATE_3: Midstate = [
    0xAD, 0x62, 0x59, 0x3A, 0x8D, 0xA3, 0x28, 0xAF, 0xEC, 0x09, 0x6D, 0x86, 0xB9, 0x8E, 0x30, 0xE5,
    0x79, 0xAE, 0xA4, 0x35, 0xE1, 0x4B, 0xB5, 0xD7, 0x09, 0xCC, 0xE1, 0x74, 0x04, 0x3A, 0x7C, 0x2D,
];

#[test]
fn chain_inactive_frame() {
    let cmd = Command::chain_inactive();
    assert_eq!(cmd, [0x55, 0xAA, 0x53, 0x05, 0x00, 0x00, 0x03]);
    assert_eq!(cmd.len(), 7);
}

#[test]
fn set_chip_addr_frames() {
    let cmd = Command::set_chip_addr(0x00);
    assert_eq!(cmd, [0x55, 0xAA, 0x40, 0x05, 0x00, 0x00, 0x1C]);

    let cmd = Command::set_chip_addr(0x08);
    assert_eq!(cmd, [0x55, 0xAA, 0x40, 0x05, 0x08, 0x00, 0x07]);
}

#[test]
fn read_reg_enumerates_the_chain() {
    let cmd = Command::read_reg(ChipAddress::default(), Destination::All);
    assert_eq!(cmd, [0x55, 0xAA, 0x52, 0x05, 0x00, 0x00, 0x0A]);
}

#[test]
fn read_reg_of_one_chip() {
    let cmd = Command::read_reg(I2CControl::default(), Destination::Chip(64));
    assert_eq!(cmd, [0x55, 0xAA, 0x42, 0x05, 0x40, 0x1C, 0x0B]);
}

#[test]
fn read_reg_of_the_last_register_and_the_last_chip() {
    let cmd = Command::read_reg(ReturnedSinglePatternStatus::default(), Destination::All);
    assert_eq!(cmd, [0x55, 0xAA, 0x52, 0x05, 0x00, 0xA0, 0x15]);
    let cmd = Command::read_reg(ClockOrderControl0::default(), Destination::Chip(0xFF));
    assert_eq!(cmd, [0x55, 0xAA, 0x42, 0x05, 0xFF, 0x80, 0x1F]);
}

#[test]
fn write_reg_to_all_chips() {
    let cmd = Command::write_reg(ClockOrderControl0::from(0x0000_0000), Destination::All);
    assert_eq!(
        cmd,
        [0x55, 0xAA, 0x51, 0x09, 0x00, 0x80, 0x00, 0x00, 0x00, 0x00, 0x1C]
    );
    assert_eq!(cmd.len(), 11);
}

#[test]
fn write_reg_to_one_chip() {
    let cmd = Command::write_reg(MiscControl::from(0x0000_7A31), Destination::Chip(64));
    assert_eq!(
        cmd,
        [0x55, 0xAA, 0x41, 0x09, 0x40, 0x18, 0x00, 0x00, 0x7A, 0x31, 0x11]
    );
}

#[test]
fn write_reg_carries_the_value_big_endian() {
    let cmd = Command::write_reg(PLL0Parameter::default(), Destination::All);
    assert_eq!(
        cmd,
        [0x55, 0xAA, 0x51, 0x09, 0x00, 0x08, 0xC0, 0x60, 0x01, 0x61, 0x1C]
    );
}

#[test]
fn read_core_reg_frame() {
    let cmd = Command::read_core_reg(0, HashClockCounter::default(), Destination::Chip(40));
    assert_eq!(
        cmd,
        [0x55, 0xAA, 0x41, 0x09, 0x28, 0x3C, 0x00, 0x00, 0x06, 0xff, 0x0A]
    );
}

#[test]
fn write_core_reg_frame() {
    let cmd = Command::write_core_reg(0, HashClockCtrl::from(0x0001), Destination::Chip(40));
    assert_eq!(
        cmd,
        [0x55, 0xAA, 0x41, 0x09, 0x28, 0x3C, 0x80, 0x00, 0x85, 0x01, 0x13]
    );
}

#[test]
fn job_1_midstate_frame() {
    let midstates: [&Midstate; 1] = [&MIDSTATE_0];
    let cmd = Command::job_1_midstate(0, 0x1707_9E15, 0x638E_3275, 0x706A_B3A2, midstates);
    assert_eq!(
        cmd,
        [
            0x55, 0xAA, 0x21, 0x36, 0x00, 0x01, 0x00, 0x00, 0x00, 0x00, 0x15, 0x9E, 0x07, 0x17,
            0x75, 0x32, 0x8E, 0x63, 0xA2, 0xB3, 0x6A, 0x70, 0xDE, 0x60, 0x4A, 0x09, 0xE9, 0x30,
            0x1D, 0xE1, 0x25, 0x6D, 0x7E, 0xB8, 0x0E, 0xA1, 0xE6, 0x43, 0x82, 0xDF, 0x61, 0x14,
            0x15, 0x03, 0x96, 0x6C, 0x18, 0x5F, 0x50, 0x2F, 0x55, 0x74, 0xD4, 0xBA, 0xD3, 0xDC
        ]
    );
    assert_eq!(cmd.len(), 56);
}

#[test]
fn job_4_midstate_frame() {
    let midstates: [&Midstate; 4] = [&MIDSTATE_0, &MIDSTATE_1, &MIDSTATE_2, &MIDSTATE_3];
    let cmd = Command::job_4_midstate(0, 0x1707_9E15, 0x638E_3275, 0x706A_B3A2, midstates);
    assert_eq!(
        cmd,
        [
            0x55, 0xAA, 0x21, 0x96, 0x00, 0x04, 0x00, 0x00, 0x00, 0x00, 0x15, 0x9E, 0x07, 0x17,
            0x75, 0x32, 0x8E, 0x63, 0xA2, 0xB3, 0x6A, 0x70, 0xDE, 0x60, 0x4A, 0x09, 0xE9, 0x30,
            0x1D, 0xE1, 0x25, 0x6D, 0x7E, 0xB8, 0x0E, 0xA1, 0xE6, 0x43, 0x82, 0xDF, 0x61, 0x14,
            0x15, 0x03, 0x96, 0x6C, 0x18, 0x5F, 0x50, 0x2F, 0x55, 0x74, 0xD4, 0xBA, 0xAE, 0x2F,
            0x3F, 0xC6, 0x02, 0xD9, 0xCD, 0x3B, 0x9E, 0x39, 0xAD, 0x97, 0x9C, 0xFD, 0xFF, 0x3A,
            0x40, 0x49, 0x4D, 0xB6, 0xD7, 0x8D, 0xA4, 0x51, 0x34, 0x99, 0x29, 0xD1, 0xAD, 0x36,
            0x66, 0x1D, 0xDF, 0xFF, 0xC1, 0xCC, 0x89, 0x33, 0xEA, 0xF3, 0xE8, 0x3A, 0x91, 0x58,
            0xA6, 0xD6, 0xFA, 0x02, 0x0D, 0xCF, 0x60, 0xF8, 0xC1, 0x0E, 0x99, 0x36, 0xDE, 0x71,
            0xDB, 0xD3, 0xF7, 0xD2, 0x86, 0xAF, 0xAD, 0x62, 0x59, 0x3A, 0x8D, 0xA3, 0x28, 0xAF,
            0xEC, 0x09, 0x6D, 0x86, 0xB9, 0x8E, 0x30, 0xE5, 0x79, 0xAE, 0xA4, 0x35, 0xE1, 0x4B,
            0xB5, 0xD7, 0x09, 0xCC, 0xE1, 0x74, 0x04, 0x3A, 0x7C, 0x2D, 0x1B, 0x5C
        ]
    );
    assert_eq!(cmd.len(), 152);
}

#[test]
fn job_bytes_after_the_header_are_zero() {
    let midstates: [&Midstate; 1] = [&MIDSTATE_3];
    let cmd = Command::job_1_midstate(0x7F, 0xFFFF_FFFF, 0xFFFF_FFFF, 0xFFFF_FFFF, midstates);
    assert_eq!(cmd[4], 0x7F);
    assert_eq!(cmd[6..10], [0x00, 0x00, 0x00, 0x00]);
}

#[test]
fn job_scalars_are_little_endian() {
    let midstates: [&Midstate; 1] = [&MIDSTATE_0];
    let cmd = Command::job_1_midstate(9, 0x0102_0304, 0x0506_0708, 0x090A_0B0C, midstates);
    assert_eq!(cmd[10..14], [0x04, 0x03, 0x02, 0x01]);
    assert_eq!(cmd[14..18], [0x08, 0x07, 0x06, 0x05]);
    assert_eq!(cmd[18..22], [0x0C, 0x0B, 0x0A, 0x09]);
}

#[test]
fn job_ends_in_the_crc16_of_its_body_big_endian() {
    let midstates: [&Midstate; 4] = [&MIDSTATE_3, &MIDSTATE_2, &MIDSTATE_1, &MIDSTATE_0];
    let cmd = Command::job_4_midstate(3, 1, 2, 3, midstates);
    let crc = crc16(&cmd[2..150]);
    assert_eq!(cmd[150], (crc >> 8) as u8);
    assert_eq!(cmd[151], (crc & 0xFF) as u8);
    assert_eq!(cmd[22..54], MIDSTATE_3);
    assert_eq!(cmd[118..150], MIDSTATE_0);
}

#[test]
fn control_frames_end_in_the_crc5_of_their_body() {
    let cmd = Command::read_reg(MiscControl::default(), Destination::Chip(3));
    assert_eq!(cmd[6], crc5(&cmd[2..6]));
    let cmd = Command::write_reg(MiscControl::default(), Destination::Chip(3));
    assert_eq!(cmd[10], crc5(&cmd[2..10]));
}

#[test]
fn bodies_are_laid_out_field_by_field() {
    assert_eq!(Command::control_body(0x52, 0x00, 0x1C), [0x52, 0x05, 0x00, 0x1C]);
    assert_eq!(
        Command::write_body(0x41, 0x40, 0x18, 0x1234_5678),
        [0x41, 0x09, 0x40, 0x18, 0x12, 0x34, 0x56, 0x78]
    );
    let body = Command::job_1_body(0x11, 0x0102_0304, 0, 0xFFFF_FFFF, [&MIDSTATE_1]);
    assert_eq!(body.len(), 52);
    assert_eq!(
        body[..20],
        [
            0x21, 0x36, 0x11, 0x01, 0x00, 0x00, 0x00, 0x00, 0x04, 0x03, 0x02, 0x01, 0x00, 0x00,
            0x00, 0x00, 0xFF, 0xFF, 0xFF, 0xFF
        ]
    );
    assert_eq!(body[20..], MIDSTATE_1);
    let body = Command::job_4_body(
        0x11,
        0,
        0,
        0,
        [&MIDSTATE_0, &MIDSTATE_1, &MIDSTATE_2, &MIDSTATE_3],
    );
    assert_eq!(body.len(), 148);
    assert_eq!(body[..4], [0x21, 0x96, 0x11, 0x04]);
    assert_eq!(body[52..84], MIDSTATE_1);
    assert_eq!(body[116..], MIDSTATE_3);
}

#[test]
fn frames_wrap_a_body_in_preamble_and_checksum() {
    assert_eq!(
        Command::control_frame(&[0x52, 0x05, 0x00, 0x00], 0x0A),
        [0x55, 0xAA, 0x52, 0x05, 0x00, 0x00, 0x0A]
    );
    assert_eq!(
        Command::write_frame(&[0x51, 0x09, 0x00, 0x80, 0x00, 0x00, 0x00, 0x00], 0x1C),
        [0x55, 0xAA, 0x51, 0x09, 0x00, 0x80, 0x00, 0x00, 0x00, 0x00, 0x1C]
    );
    let frame = Command::job_1_frame(&[0x33; 52], 0xD3DC);
    assert_eq!(frame[..2], [0x55, 0xAA]);
    assert_eq!(frame[2..54], [0x33; 52]);
    assert_eq!(frame[54..], [0xD3, 0xDC]);
    let frame = Command::job_4_frame(&[0x44; 148], 0x1B5C);
    assert_eq!(frame[..2], [0x55, 0xAA]);
    assert_eq!(frame[2..150], [0x44; 148]);
    assert_eq!(frame[150..], [0x1B, 0x5C]);
}
