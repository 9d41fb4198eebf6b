//! BM1397 Responses.
//!
//! A response is a frame of nine bytes: the preamble `0xAA 0x55`, a 32-bit
//! value big-endian, two identifying bytes, and a last byte whose highest bit
//! tells a job response from a register response and whose low five bits are
//! a CRC5 that makes the CRC5 of the seven bytes after the preamble zero.
use crate::crc::{crc5, spec_crc5};
use crate::endian::{be_u32, spec_be_u32};
use crate::register::{
    AnalogMuxControl, ChipAddress, ChipNonceOffset, ClockOrderControl0, ClockOrderControl1,
    ClockOrderStatus, CoreRegisterControl, CoreRegisterValue, ErrorFlag,
    ExternalTemperatureSensorRead, FastUARTConfiguration, FrequencySweepControl1,
    GoldenNonceForSweepReturn, HashCountingNumber, HashRate, I2CControl,
    IoDriverStrenghtConfiguration, MiscControl, NonceErrorCounter, NonceOverflowCounter,
    NonceReturnedTimeout, OrderedClockEnable, OrderedClockMonitor, PLL0Divider, PLL0Parameter,
    PLL1Divider, PLL1Parameter, PLL2Divider, PLL2Parameter, PLL3Divider, PLL3Parameter,
    Register, Registers, ReturnedGroupPatternStatus, ReturnedSinglePatternStatus, TicketMask,
    TicketMask2, TimeOut, UARTRelay,
};
use crate::Error;
use vstd::prelude::*;

verus! {

/// The value of a register, read from the chip at `chip_addr`.
#[derive(Debug, PartialEq, Eq, Structural)]
pub struct RegisterResponse {
    pub chip_addr: u8,
    pub register: Registers,
}

/// A nonce found by a chip for the job `job_id` and the midstate `midstate_id`.
#[derive(Debug, PartialEq, Eq, Structural)]
pub struct JobResponse {
    pub nonce: u32,
    pub job_id: u8,
    pub midstate_id: u8,
}

/// What a response frame holds.
#[derive(Debug, PartialEq, Eq, Structural)]
pub enum ResponseType {
    Reg(RegisterResponse),
    Job(JobResponse),
}

pub struct Response;

impl Response {
    /// What a frame of nine bytes holds, given the CRC5 of its last seven
    /// bytes: the preamble is checked first, then the checksum, then the
    /// highest bit of the last byte tells a job from a register, and only a
    /// register response has its address looked up.
    pub open spec fn spec_parse(data: Seq<u8>, crc: u8) -> Result<ResponseType, Error>
        recommends
            data.len() == 9,
    {
        if data[0] != 0xAA || data[1] != 0x55 {
            Err(Error::InvalidPreamble)
        } else if crc != 0 {
            Err(Error::InvalidCrc)
        } else if data[8] & 0x80 == 0x80 {
            Ok(
                ResponseType::Job(
                    JobResponse {
                        nonce: spec_be_u32(data.subrange(2, 6)),
                        midstate_id: data[6],
                        job_id: data[7],
                    },
                ),
            )
        } else {
            match Registers::spec_resolve(data[7], spec_be_u32(data.subrange(2, 6))) {
                Some(register) => Ok(
                    ResponseType::Reg(RegisterResponse { chip_addr: data[6], register }),
                ),
                None => Err(Error::UnknownRegister(data[7])),
            }
        }
    }

    /// A frame with the right preamble and a valid checksum is a job response
    /// whenever the highest bit of its last byte is set, whatever its eighth
    /// byte holds. With that bit clear it is a register response exactly when
    /// the eighth byte is the address of a register, and fails with that byte
    /// as an unknown register otherwise.
    pub proof fn lemma_classification(data: Seq<u8>)
        requires
            data.len() == 9,
            data[0] == 0xAA,
            data[1] == 0x55,
        ensures
            data[8] & 0x80 == 0x80 ==> Self::spec_parse(data, 0) is Ok && Self::spec_parse(
                data,
                0,
            )->Ok_0 is Job,
            data[8] & 0x80 != 0x80 && Registers::is_address(data[7]) ==> Self::spec_parse(data, 0)
                is Ok && Self::spec_parse(data, 0)->Ok_0 is Reg,
            data[8] & 0x80 != 0x80 && !Registers::is_address(data[7]) ==> Self::spec_parse(data, 0)
                == Err::<ResponseType, Error>(Error::UnknownRegister(data[7])),
    {
        Registers::lemma_resolve_round_trip(
            data[7],
            spec_be_u32(data.subrange(2, 6)),
            Registers::ChipAddress(ChipAddress::spec_from_raw(0)),
        );
    }

    /// What a response holds is what the frame carried: a job response has
    /// the nonce, the midstate and the job of the frame, a register response
    /// the chip address of the frame and a register with the address and the
    /// value of the frame.
    pub proof fn lemma_parsed_fields(data: Seq<u8>, crc: u8)
        requires
            data.len() == 9,
        ensures
            Self::spec_parse(data, crc) matches Ok(ResponseType::Job(job)) ==> job.nonce
                == spec_be_u32(data.subrange(2, 6)) && job.midstate_id == data[6] && job.job_id
                == data[7],
            Self::spec_parse(data, crc) matches Ok(ResponseType::Reg(reg)) ==> reg.chip_addr
                == data[6] && reg.register.spec_addr() == data[7] && reg.register.spec_val()
                == spec_be_u32(data.subrange(2, 6)),
            Self::spec_parse(data, crc) is Ok ==> crc == 0 && data[0] == 0xAA && data[1] == 0x55,
    {
        Registers::lemma_resolve_round_trip(
            data[7],
            spec_be_u32(data.subrange(2, 6)),
            Registers::ChipAddress(ChipAddress::spec_from_raw(0)),
        );
    }

    /// # Parse Response
    ///
    /// Parse raw bytes from RO signal of BM1397.
    ///
    /// The packet must have a lenght of 9 bytes.
    ///
    /// ## Return
    /// - `Err(Error::InvalidPreamble)` if it first 2 bytes are not `[0xAA, 0x55]`.
    /// - `Err(Error::InvalidCrc)` if the CRC5 is not valid.
    /// - `Ok(ResponseType::Reg(r))` with the `RegisterResponse`.
    /// - `Err(Error::UnknownRegister(u8))` with the register address if it do
    ///   not match a known `Registers`.
    /// - `Ok(ResponseType::Job(j))` with the `JobResponse`.
    pub fn parse(data: &[u8; 9]) -> (res: Result<ResponseType, Error>)
        ensures
            res == Self::spec_parse(data@, spec_crc5(data@.subrange(2, 9))),
            res matches Ok(ResponseType::Reg(reg)) ==> reg.register.spec_addr() == data[7]
                && reg.register.spec_val() == spec_be_u32(data@.subrange(2, 6)),
    {
        let crc = crc5(&data[2..9]);
        Self::parse_checked(data, crc)
    }

    /// # Parse Response, given its checksum
    ///
    /// Does what `parse` does with `crc` as the CRC5 of the last seven bytes
    /// of the packet.
    pub fn parse_checked(data: &[u8; 9], crc: u8) -> (res: Result<ResponseType, Error>)
        ensures
            res == Self::spec_parse(data@, crc),
            res matches Ok(ResponseType::Reg(reg)) ==> reg.register.spec_addr() == data[7]
                && reg.register.spec_val() == spec_be_u32(data@.subrange(2, 6)),
    {
        proof {
            Self::lemma_parsed_fields(data@, crc);
        }
        if data[0] != 0xAA || data[1] != 0x55 {
            return Err(Error::InvalidPreamble);
        }
        if crc != 0x00 {
            return Err(Error::InvalidCrc);
        }
        let value = be_u32(data.as_slice(), 2);
        if data[8] & 0x80 == 0x80 {
            return Ok(
                ResponseType::Job(JobResponse { nonce: value, midstate_id: data[6], job_id: data[7] }),
            );
        }
        let addr = data[7];
        let register = if addr == ChipAddress::ADDR {
            Registers::ChipAddress(ChipAddress::from(value))
        } else if addr == HashRate::ADDR {
            Registers::HashRate(HashRate::from(value))
        } else if addr == PLL0Parameter::ADDR {
            Registers::PLL0Parameter(PLL0Parameter::from(value))
        } else if addr == ChipNonceOffset::ADDR {
            Registers::ChipNonceOffset(ChipNonceOffset::from(value))
        } else if addr == HashCountingNumber::ADDR {
            Registers::HashCountingNumber(HashCountingNumber::from(value))
        } else if addr == TicketMask::ADDR {
            Registers::TicketMask(TicketMask::from(value))
        } else if addr == MiscControl::ADDR {
            Registers::MiscControl(MiscControl::from(value))
        } else if addr == I2CControl::ADDR {
            Registers::I2CControl(I2CControl::from(value))
        } else if addr == OrderedClockEnable::ADDR {
            Registers::OrderedClockEnable(OrderedClockEnable::from(value))
        } else if addr == FastUARTConfiguration::ADDR {
            Registers::FastUARTConfiguration(FastUARTConfiguration::from(value))
        } else if addr == UARTRelay::ADDR {
            Registers::UARTRelay(UARTRelay::from(value))
        } else if addr == TicketMask2::ADDR {
            Registers::TicketMask2(TicketMask2::from(value))
        } else if addr == CoreRegisterControl::ADDR {
            Registers::CoreRegisterControl(CoreRegisterControl::from(value))
        } else if addr == CoreRegisterValue::ADDR {
            Registers::CoreRegisterValue(CoreRegisterValue::from(value))
        } else if addr == ExternalTemperatureSensorRead::ADDR {
            Registers::ExternalTemperatureSensorRead(ExternalTemperatureSensorRead::from(value))
        } else if addr == ErrorFlag::ADDR {
            Registers::ErrorFlag(ErrorFlag::from(value))
        } else if addr == NonceErrorCounter::ADDR {
            Registers::NonceErrorCounter(NonceErrorCounter::from(value))
        } else if addr == NonceOverflowCounter::ADDR {
            Registers::NonceOverflowCounter(NonceOverflowCounter::from(value))
        } else if addr == AnalogMuxControl::ADDR {
            Registers::AnalogMuxControl(AnalogMuxControl::from(value))
        } else if addr == IoDriverStrenghtConfiguration::ADDR {
            Registers::IoDriverStrenghtConfiguration(IoDriverStrenghtConfiguration::from(value))
        } else if addr == TimeOut::ADDR {
            Registers::TimeOut(TimeOut::from(value))
        } else if addr == PLL1Parameter::ADDR {
            Registers::PLL1Parameter(PLL1Parameter::from(value))
        } else if addr == PLL2Parameter::ADDR {
            Registers::PLL2Parameter(PLL2Parameter::from(value))
        } else if addr == PLL3Parameter::ADDR {
            Registers::PLL3Parameter(PLL3Parameter::from(value))
        } else if addr == OrderedClockMonitor::ADDR {
            Registers::OrderedClockMonitor(OrderedClockMonitor::from(value))
        } else if addr == PLL0Divider::ADDR {
            Registers::PLL0Divider(PLL0Divider::from(value))
        } else if addr == PLL1Divider::ADDR {
            Registers::PLL1Divider(PLL1Divider::from(value))
        } else if addr == PLL2Divider::ADDR {
            Registers::PLL2Divider(PLL2Divider::from(value))
        } else if addr == PLL3Divider::ADDR {
            Registers::PLL3Divider(PLL3Divider::from(value))
        } else if addr == ClockOrderControl0::ADDR {
            Registers::ClockOrderControl0(ClockOrderControl0::from(value))
        } else if addr == ClockOrderControl1::ADDR {
            Registers::ClockOrderControl1(ClockOrderControl1::from(value))
        } else if addr == ClockOrderStatus::ADDR {
            Registers::ClockOrderStatus(ClockOrderStatus::from(value))
        } else if addr == FrequencySweepControl1::ADDR {
            Registers::FrequencySweepControl1(FrequencySweepControl1::from(value))
        } else if addr == GoldenNonceForSweepReturn::ADDR {
            Registers::GoldenNonceForSweepReturn(GoldenNonceForSweepReturn::from(value))
        } else if addr == ReturnedGroupPatternStatus::ADDR {
            Registers::ReturnedGroupPatternStatus(ReturnedGroupPatternStatus::from(value))
        } else if addr == NonceReturnedTimeout::ADDR {
            Registers::NonceReturnedTimeout(NonceReturnedTimeout::from(value))
        } else if addr == ReturnedSinglePatternStatus::ADDR {
            Registers::ReturnedSinglePatternStatus(ReturnedSinglePatternStatus::from(value))
        } else {
            return Err(Error::UnknownRegister(addr));
        };
        Ok(ResponseType::Reg(RegisterResponse { chip_addr: data[6], register }))
    }
}

} // verus!
