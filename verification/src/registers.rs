//! The registers of the BM1397 by name.
//!
//! Two closed enumerations: the chip registers with their addresses and the
//! core registers with their identifiers. Both tables are those of the typed
//! registers in `register` and `core_register`.
use crate::core_register::CoreRegisters;
use crate::register::Registers;
use vstd::prelude::*;

verus! {

/// Registers of the BM1397 asic.
#[derive(Debug, PartialEq, Eq, Structural)]
pub enum Register {
    ChipAddress,
    HashRate,
    PLL0Parameter,
    ChipNonceOffset,
    HashCountingNumber,
    TicketMask,
    MiscControl,
    I2CControl,
    OrderedClockEnable,
    FastUARTConfiguration,
    UARTRelay,
    TicketMask2,
    CoreRegisterControl,
    CoreRegisterValue,
    ExternalTemperatureSensorRead,
    ErrorFlag,
    NonceErrorCounter,
    NonceOverflowCounter,
    AnalogMuxControl,
    IoDriverStrenghtConfiguration,
    TimeOut,
    PLL1Parameter,
    PLL2Parameter,
    PLL3Parameter,
    OrderedClockMonitor,
    Pll0Divider,
    Pll1Divider,
    Pll2Divider,
    Pll3Divider,
    ClockOrderControl0,
    ClockOrderControl1,
    ClockOrderStatus,
    FrequencySweepControl1,
    GoldenNonceForSweepReturn,
    ReturnedGroupPatternStatus,
    NonceReturnedTimeout,
    ReturnedSinglePatternStatus,
}

impl Register {
    /// The address of the register.
    pub open spec fn spec_raw(self) -> u8 {
        match self {
            Register::ChipAddress => 0x00,
            Register::HashRate => 0x04,
            Register::PLL0Parameter => 0x08,
            Register::ChipNonceOffset => 0x0C,
            Register::HashCountingNumber => 0x10,
            Register::TicketMask => 0x14,
            Register::MiscControl => 0x18,
            Register::I2CControl => 0x1C,
            Register::OrderedClockEnable => 0x20,
            Register::FastUARTConfiguration => 0x28,
            Register::UARTRelay => 0x2C,
            Register::TicketMask2 => 0x38,
            Register::CoreRegisterControl => 0x3C,
            Register::CoreRegisterValue => 0x40,
            Register::ExternalTemperatureSensorRead => 0x44,
            Register::ErrorFlag => 0x48,
            Register::NonceErrorCounter => 0x4C,
            Register::NonceOverflowCounter => 0x50,
            Register::AnalogMuxControl => 0x54,
            Register::IoDriverStrenghtConfiguration => 0x58,
            Register::TimeOut => 0x5C,
            Register::PLL1Parameter => 0x60,
            Register::PLL2Parameter => 0x64,
            Register::PLL3Parameter => 0x68,
            Register::OrderedClockMonitor => 0x6C,
            Register::Pll0Divider => 0x70,
            Register::Pll1Divider => 0x74,
            Register::Pll2Divider => 0x78,
            Register::Pll3Divider => 0x7C,
            Register::ClockOrderControl0 => 0x80,
            Register::ClockOrderControl1 => 0x84,
            Register::ClockOrderStatus => 0x8C,
            Register::FrequencySweepControl1 => 0x90,
            Register::GoldenNonceForSweepReturn => 0x94,
            Register::ReturnedGroupPatternStatus => 0x98,
            Register::NonceReturnedTimeout => 0x9C,
            Register::ReturnedSinglePatternStatus => 0xA0,
        }
    }

    /// The register with the address `val`, or `val` back where there is none.
    pub open spec fn spec_from_raw(val: u8) -> Result<Register, u8> {
        if val == 0x00 {
            Ok(Register::ChipAddress)
        } else if val == 0x04 {
            Ok(Register::HashRate)
        } else if val == 0x08 {
            Ok(Register::PLL0Parameter)
        } else if val == 0x0C {
            Ok(Register::ChipNonceOffset)
        } else if val == 0x10 {
            Ok(Register::HashCountingNumber)
        } else if val == 0x14 {
            Ok(Register::TicketMask)
        } else if val == 0x18 {
            Ok(Register::MiscControl)
        } else if val == 0x1C {
            Ok(Register::I2CControl)
        } else if val == 0x20 {
            Ok(Register::OrderedClockEnable)
        } else if val == 0x28 {
            Ok(Register::FastUARTConfiguration)
        } else if val == 0x2C {
            Ok(Register::UARTRelay)
        } else if val == 0x38 {
            Ok(Register::TicketMask2)
        } else if val == 0x3C {
            Ok(Register::CoreRegisterControl)
        } else if val == 0x40 {
            Ok(Register::CoreRegisterValue)
        } else if val == 0x44 {
            Ok(Register::ExternalTemperatureSensorRead)
        } else if val == 0x48 {
            Ok(Register::ErrorFlag)
        } else if val == 0x4C {
            Ok(Register::NonceErrorCounter)
        } else if val == 0x50 {
            Ok(Register::NonceOverflowCounter)
        } else if val == 0x54 {
            Ok(Register::AnalogMuxControl)
        } else if val == 0x58 {
            Ok(Register::IoDriverStrenghtConfiguration)
        } else if val == 0x5C {
            Ok(Register::TimeOut)
        } else if val == 0x60 {
            Ok(Register::PLL1Parameter)
        } else if val == 0x64 {
            Ok(Register::PLL2Parameter)
        } else if val == 0x68 {
            Ok(Register::PLL3Parameter)
        } else if val == 0x6C {
            Ok(Register::OrderedClockMonitor)
        } else if val == 0x70 {
            Ok(Register::Pll0Divider)
        } else if val == 0x74 {
            Ok(Register::Pll1Divider)
        } else if val == 0x78 {
            Ok(Register::Pll2Divider)
        } else if val == 0x7C {
            Ok(Register::Pll3Divider)
        } else if val == 0x80 {
            Ok(Register::ClockOrderControl0)
        } else if val == 0x84 {
            Ok(Register::ClockOrderControl1)
        } else if val == 0x8C {
            Ok(Register::ClockOrderStatus)
        } else if val == 0x90 {
            Ok(Register::FrequencySweepControl1)
        } else if val == 0x94 {
            Ok(Register::GoldenNonceForSweepReturn)
        } else if val == 0x98 {
            Ok(Register::ReturnedGroupPatternStatus)
        } else if val == 0x9C {
            Ok(Register::NonceReturnedTimeout)
        } else if val == 0xA0 {
            Ok(Register::ReturnedSinglePatternStatus)
        } else {
            Err(val)
        }
    }

    /// A register survives the trip through its address, a byte is accepted
    /// exactly when it is the address of a register, and a byte that is not
    /// comes back as the error.
    pub proof fn lemma_raw_round_trip(reg: Register, val: u8)
        ensures
            Self::spec_from_raw(reg.spec_raw()) == Ok::<Register, u8>(reg),
            Self::spec_from_raw(val) matches Ok(r) ==> r.spec_raw() == val,
            Self::spec_from_raw(val) is Err ==> Self::spec_from_raw(val) == Err::<Register, u8>(val),
            Self::spec_from_raw(val) is Ok <==> Registers::is_address(val),
    {
    }
}

impl From<Register> for u8 {
    fn from(r: Register) -> (raw: u8) {
        match r {
            Register::ChipAddress => 0x00,
            Register::HashRate => 0x04,
            Register::PLL0Parameter => 0x08,
            Register::ChipNonceOffset => 0x0C,
            Register::HashCountingNumber => 0x10,
            Register::TicketMask => 0x14,
            Register::MiscControl => 0x18,
            Register::I2CControl => 0x1C,
            Register::OrderedClockEnable => 0x20,
            Register::FastUARTConfiguration => 0x28,
            Register::UARTRelay => 0x2C,
            Register::TicketMask2 => 0x38,
            Register::CoreRegisterControl => 0x3C,
            Register::CoreRegisterValue => 0x40,
            Register::ExternalTemperatureSensorRead => 0x44,
            Register::ErrorFlag => 0x48,
            Register::NonceErrorCounter => 0x4C,
            Register::NonceOverflowCounter => 0x50,
            Register::AnalogMuxControl => 0x54,
            Register::IoDriverStrenghtConfiguration => 0x58,
            Register::TimeOut => 0x5C,
            Register::PLL1Parameter => 0x60,
            Register::PLL2Parameter => 0x64,
            Register::PLL3Parameter => 0x68,
            Register::OrderedClockMonitor => 0x6C,
            Register::Pll0Divider => 0x70,
            Register::Pll1Divider => 0x74,
            Register::Pll2Divider => 0x78,
            Register::Pll3Divider => 0x7C,
            Register::ClockOrderControl0 => 0x80,
            Register::ClockOrderControl1 => 0x84,
            Register::ClockOrderStatus => 0x8C,
            Register::FrequencySweepControl1 => 0x90,
            Register::GoldenNonceForSweepReturn => 0x94,
            Register::ReturnedGroupPatternStatus => 0x98,
            Register::NonceReturnedTimeout => 0x9C,
            Register::ReturnedSinglePatternStatus => 0xA0,
        }
    }
}

impl vstd::std_specs::convert::FromSpecImpl<Register> for u8 {
    open spec fn obeys_from_spec() -> bool {
        true
    }

    open spec fn from_spec(r: Register) -> u8 {
        r.spec_raw()
    }
}

impl TryFrom<u8> for Register {
    type Error = u8;

    fn try_from(val: u8) -> (reg: Result<Register, u8>) {
        if val == 0x00 {
            Ok(Register::ChipAddress)
        } else if val == 0x04 {
            Ok(Register::HashRate)
        } else if val == 0x08 {
            Ok(Register::PLL0Parameter)
        } else if val == 0x0C {
            Ok(Register::ChipNonceOffset)
        } else if val == 0x10 {
            Ok(Register::HashCountingNumber)
        } else if val == 0x14 {
            Ok(Register::TicketMask)
        } else if val == 0x18 {
            Ok(Register::MiscControl)
        } else if val == 0x1C {
            Ok(Register::I2CControl)
        } else if val == 0x20 {
            Ok(Register::OrderedClockEnable)
        } else if val == 0x28 {
            Ok(Register::FastUARTConfiguration)
        } else if val == 0x2C {
            Ok(Register::UARTRelay)
        } else if val == 0x38 {
            Ok(Register::TicketMask2)
        } else if val == 0x3C {
            Ok(Register::CoreRegisterControl)
        } else if val == 0x40 {
            Ok(Register::CoreRegisterValue)
        } else if val == 0x44 {
            Ok(Register::ExternalTemperatureSensorRead)
        } else if val == 0x48 {
            Ok(Register::ErrorFlag)
        } else if val == 0x4C {
            Ok(Register::NonceErrorCounter)
        } else if val == 0x50 {
            Ok(Register::NonceOverflowCounter)
        } else if val == 0x54 {
            Ok(Register::AnalogMuxControl)
        } else if val == 0x58 {
            Ok(Register::IoDriverStrenghtConfiguration)
        } else if val == 0x5C {
            Ok(Register::TimeOut)
        } else if val == 0x60 {
            Ok(Register::PLL1Parameter)
        } else if val == 0x64 {
            Ok(Register::PLL2Parameter)
        } else if val == 0x68 {
            Ok(Register::PLL3Parameter)
        } else if val == 0x6C {
            Ok(Register::OrderedClockMonitor)
        } else if val == 0x70 {
            Ok(Register::Pll0Divider)
        } else if val == 0x74 {
            Ok(Register::Pll1Divider)
        } else if val == 0x78 {
            Ok(Register::Pll2Divider)
        } else if val == 0x7C {
            Ok(Register::Pll3Divider)
        } else if val == 0x80 {
            Ok(Register::ClockOrderControl0)
        } else if val == 0x84 {
            Ok(Register::ClockOrderControl1)
        } else if val == 0x8C {
            Ok(Register::ClockOrderStatus)
        } else if val == 0x90 {
            Ok(Register::FrequencySweepControl1)
        } else if val == 0x94 {
            Ok(Register::GoldenNonceForSweepReturn)
        } else if val == 0x98 {
            Ok(Register::ReturnedGroupPatternStatus)
        } else if val == 0x9C {
            Ok(Register::NonceReturnedTimeout)
        } else if val == 0xA0 {
            Ok(Register::ReturnedSinglePatternStatus)
        } else {
            Err(val)
        }
    }
}

impl vstd::std_specs::convert::TryFromSpecImpl<u8> for Register {
    open spec fn obeys_try_from_spec() -> bool {
        true
    }

    open spec fn try_from_spec(val: u8) -> Result<Self, Self::Error> {
        Self::spec_from_raw(val)
    }
}

/// Core Registers of the BM1397 asic.
#[derive(Debug, PartialEq, Eq, Structural)]
pub enum CoreRegister {
    ClockDelayCtrl,
    ProcessMonitorCtrl,
    ProcessMonitorData,
    CoreError,
    CoreEnable,
    HashClockCtrl,
    HashClockCounter,
    SweepClockCtrl,
}

impl CoreRegister {
    /// The identifier of the register.
    pub open spec fn spec_raw(self) -> u8 {
        match self {
            CoreRegister::ClockDelayCtrl => 0,
            CoreRegister::ProcessMonitorCtrl => 1,
            CoreRegister::ProcessMonitorData => 2,
            CoreRegister::CoreError => 3,
            CoreRegister::CoreEnable => 4,
            CoreRegister::HashClockCtrl => 5,
            CoreRegister::HashClockCounter => 6,
            CoreRegister::SweepClockCtrl => 7,
        }
    }

    /// The register with the identifier `val`, or `val` back where there is none.
    pub open spec fn spec_from_raw(val: u8) -> Result<CoreRegister, u8> {
        if val == 0 {
            Ok(CoreRegister::ClockDelayCtrl)
        } else if val == 1 {
            Ok(CoreRegister::ProcessMonitorCtrl)
        } else if val == 2 {
            Ok(CoreRegister::ProcessMonitorData)
        } else if val == 3 {
            Ok(CoreRegister::CoreError)
        } else if val == 4 {
            Ok(CoreRegister::CoreEnable)
        } else if val == 5 {
            Ok(CoreRegister::HashClockCtrl)
        } else if val == 6 {
            Ok(CoreRegister::HashClockCounter)
        } else if val == 7 {
            Ok(CoreRegister::SweepClockCtrl)
        } else {
            Err(val)
        }
    }

    /// A register survives the trip through its identifier, a byte is accepted
    /// exactly when it is the identifier of a register, and a byte that is not
    /// comes back as the error.
    pub proof fn lemma_raw_round_trip(reg: CoreRegister, val: u8)
        ensures
            Self::spec_from_raw(reg.spec_raw()) == Ok::<CoreRegister, u8>(reg),
            Self::spec_from_raw(val) matches Ok(r) ==> r.spec_raw() == val,
            Self::spec_from_raw(val) is Err ==> Self::spec_from_raw(val) == Err::<CoreRegister, u8>(val),
            Self::spec_from_raw(val) is Ok <==> CoreRegisters::spec_resolve(val, 0) is Some,
    {
    }
}

impl From<CoreRegister> for u8 {
    fn from(r: CoreRegister) -> (raw: u8) {
        match r {
            CoreRegister::ClockDelayCtrl => 0,
            CoreRegister::ProcessMonitorCtrl => 1,
            CoreRegister::ProcessMonitorData => 2,
            CoreRegister::CoreError => 3,
            CoreRegister::CoreEnable => 4,
            CoreRegister::HashClockCtrl => 5,
            CoreRegister::HashClockCounter => 6,
            CoreRegister::SweepClockCtrl => 7,
        }
    }
}

impl vstd::std_specs::convert::FromSpecImpl<CoreRegister> for u8 {
    open spec fn obeys_from_spec() -> bool {
        true
    }

    open spec fn from_spec(r: CoreRegister) -> u8 {
        r.spec_raw()
    }
}

impl TryFrom<u8> for CoreRegister {
    type Error = u8;

    fn try_from(val: u8) -> (reg: Result<CoreRegister, u8>) {
        if val == 0 {
            Ok(CoreRegister::ClockDelayCtrl)
        } else if val == 1 {
            Ok(CoreRegister::ProcessMonitorCtrl)
        } else if val == 2 {
            Ok(CoreRegister::ProcessMonitorData)
        } else if val == 3 {
            Ok(CoreRegister::CoreError)
        } else if val == 4 {
            Ok(CoreRegister::CoreEnable)
        } else if val == 5 {
            Ok(CoreRegister::HashClockCtrl)
        } else if val == 6 {
            Ok(CoreRegister::HashClockCounter)
        } else if val == 7 {
            Ok(CoreRegister::SweepClockCtrl)
        } else {
            Err(val)
        }
    }
}

impl vstd::std_specs::convert::TryFromSpecImpl<u8> for CoreRegister {
    open spec fn obeys_try_from_spec() -> bool {
        true
    }

    open spec fn try_from_spec(val: u8) -> Result<Self, Self::Error> {
        Self::spec_from_raw(val)
    }
}

} // verus!
