use bm1397_protocol::register::{
    ChipAddress, CoreRegisterValue, HashRate, Register, Registers, ReturnedSinglePatternStatus,
};
use bm1397_protocol::response::{JobResponse, RegisterResponse, Response, ResponseType};
use bm1397_protocol::Error;

#[test]
fn parse_rejects_a_wrong_preamble() {
    let resp = Response::parse(&[0x00, 0x55, 0x13, 0x97, 0x18, 0x00, 0x00, 0x00, 0x06]);
    assert!(resp.is_err());
    assert_eq!(resp.unwrap_err(), Error::InvalidPreamble);

    let resp = Response::parse(&[0xAA, 0x00, 0x13, 0x97, 0x18, 0x00, 0x00, 0x00, 0x06]);
    assert!(resp.is_err());
    assert_eq!(resp.unwrap_err(), Error::InvalidPreamble);

    let resp = Response::parse(&[0x00, 0x00, 0x13, 0x97, 0x18, 0x00, 0x00, 0x00, 0x06]);
    assert!(resp.is_err());
    assert_eq!(resp.unwrap_err(), Error::InvalidPreamble);
}

#[test]
fn parse_rejects_the_preamble_of_a_command() {
    let resp = Response::parse(&[0x55, 0xAA, 0x13, 0x97, 0x18, 0x00, 0x00, 0x00, 0x06]);
    assert_eq!(resp.unwrap_err(), Error::InvalidPreamble);
}

#[test]
fn parse_rejects_a_wrong_crc() {
    let resp = Response::parse(&[0xAA, 0x55, 0x13, 0x97, 0x18, 0x00, 0x00, 0x00, 0x00]);
    assert!(resp.is_err());
    assert_eq!(resp.unwrap_err(), Error::InvalidCrc);
}

#[test]
fn parse_checks_the_preamble_before_the_crc() {
    let resp = Response::parse(&[0xAB, 0x55, 0x13, 0x97, 0x18, 0x00, 0x00, 0x00, 0x00]);
    assert_eq!(resp.unwrap_err(), Error::InvalidPreamble);
}

#[test]
fn parse_register_response() {
    let resp = Response::parse(&[0xAA, 0x55, 0x13, 0x97, 0x18, 0x00, 0x00, 0x00, 0x06]);
    assert!(resp.is_ok());
    match resp.unwrap() {
        ResponseType::Reg(r) => {
            assert_eq!(r.chip_addr, 0);
            assert_eq!(r.register, Registers::ChipAddress(ChipAddress::default()));
            match r.register {
                Registers::ChipAddress(ca) => {
                    assert_eq!(ca.addr(), 0);
                    assert_eq!(ca.val(), 0x1397_1800);
                }
                _ => panic!(),
            }
        }
        _ => panic!(),
    };
}

#[test]
fn parse_register_response_of_other_registers() {
    let resp = Response::parse(&[0xAA, 0x55, 0x80, 0x00, 0x00, 0x00, 0x08, 0x04, 0x19]);
    assert_eq!(
        resp,
        Ok(ResponseType::Reg(RegisterResponse {
            chip_addr: 8,
            register: Registers::HashRate(HashRate::from(0x8000_0000)),
        }))
    );
    let resp = Response::parse(&[0xAA, 0x55, 0x00, 0x00, 0x01, 0x23, 0x01, 0x40, 0x1A]);
    assert_eq!(
        resp,
        Ok(ResponseType::Reg(RegisterResponse {
            chip_addr: 1,
            register: Registers::CoreRegisterValue(CoreRegisterValue::from(0x0000_0123)),
        }))
    );
    let resp = Response::parse(&[0xAA, 0x55, 0xDE, 0xAD, 0xBE, 0xEF, 0x03, 0xA0, 0x11]);
    assert_eq!(
        resp,
        Ok(ResponseType::Reg(RegisterResponse {
            chip_addr: 3,
            register: Registers::ReturnedSinglePatternStatus(ReturnedSinglePatternStatus::from(
                0xDEAD_BEEF
            )),
        }))
    );
}

#[test]
fn parse_unknown_register() {
    let resp = Response::parse(&[0xAA, 0x55, 0x00, 0x00, 0x00, 0x00, 0x04, 0xF0, 0x03]);
    assert!(resp.is_err());
    assert_eq!(resp.unwrap_err(), Error::UnknownRegister(0xF0));
}

#[test]
fn parse_unknown_register_just_after_the_last_one() {
    let resp = Response::parse(&[0xAA, 0x55, 0xDE, 0xAD, 0xBE, 0xEF, 0x03, 0xA4, 0x00]);
    assert_eq!(resp.unwrap_err(), Error::UnknownRegister(0xA4));
}

#[test]
fn parse_job_response() {
    let resp = Response::parse(&[0xAA, 0x55, 0x97, 0xC3, 0x28, 0xB6, 0x01, 0x63, 0x9C]);
    assert!(resp.is_ok());
    match resp.unwrap() {
        ResponseType::Job(j) => {
            assert_eq!(j.nonce, 0x97C328B6);
            assert_eq!(j.midstate_id, 1);
            assert_eq!(j.job_id, 0x63);
        }
        _ => panic!(),
    };
}

#[test]
fn parse_job_response_whatever_its_job_byte_holds() {
    // 0xF0 is the address of no register: the type bit is looked at first.
    let resp = Response::parse(&[0xAA, 0x55, 0x12, 0x34, 0x56, 0x78, 0x02, 0xF0, 0x81]);
    assert_eq!(
        resp,
        Ok(ResponseType::Job(JobResponse {
            nonce: 0x1234_5678,
            job_id: 0xF0,
            midstate_id: 2,
        }))
    );
}

#[test]
fn parse_checked_classifies_on_the_given_crc() {
    let frame = [0xAA, 0x55, 0x13, 0x97, 0x18, 0x00, 0x00, 0x00, 0x06];
    assert_eq!(
        Response::parse_checked(&frame, 0),
        Ok(ResponseType::Reg(RegisterResponse {
            chip_addr: 0,
            register: Registers::ChipAddress(ChipAddress::from(0x1397_1800)),
        }))
    );
    assert_eq!(Response::parse_checked(&frame, 1), Err(Error::InvalidCrc));
    assert_eq!(Response::parse_checked(&frame, 0x1F), Err(Error::InvalidCrc));
    let job = [0xAA, 0x55, 0x00, 0x00, 0x00, 0x2A, 0x07, 0x09, 0x80];
    assert_eq!(
        Response::parse_checked(&job, 0),
        Ok(ResponseType::Job(JobResponse { nonce: 0x2A, job_id: 9, midstate_id: 7 }))
    );
    let unknown = [0xAA, 0x55, 0x00, 0x00, 0x00, 0x2A, 0x07, 0x09, 0x7F];
    assert_eq!(Response::parse_checked(&unknown, 0), Err(Error::UnknownRegister(9)));
    let other = [0xAA, 0x54, 0x00, 0x00, 0x00, 0x2A, 0x07, 0x09, 0x7F];
    assert_eq!(Response::parse_checked(&other, 0), Err(Error::InvalidPreamble));
}

#[test]
fn parse_resolves_every_register_address() {
    let addresses: [u8; 37] = [
        0x00, 0x04, 0x08, 0x0C, 0x10, 0x14, 0x18, 0x1C, 0x20, 0x28, 0x2C, 0x38, 0x3C, 0x40, 0x44,
        0x48, 0x4C, 0x50, 0x54, 0x58, 0x5C, 0x60, 0x64, 0x68, 0x6C, 0x70, 0x74, 0x78, 0x7C, 0x80,
        0x84, 0x8C, 0x90, 0x94, 0x98, 0x9C, 0xA0,
    ];
    for addr in 0..=255u8 {
        let frame = [0xAA, 0x55, 0x01, 0x02, 0x03, 0x04, 0x05, addr, 0x00];
        let resp = Response::parse_checked(&frame, 0);
        if addresses.contains(&addr) {
            match resp {
                Ok(ResponseType::Reg(r)) => assert_eq!(r.chip_addr, 5),
                _ => panic!(),
            }
        } else {
            assert_eq!(resp, Err(Error::UnknownRegister(addr)));
        }
    }
}
