//! BM1397 Specifiers.
//!
//! Small closed sets of values that register fields hold, each with its raw
//! encoding. A raw value outside the set is handed back as the error.
use vstd::prelude::*;

verus! {

/// Baudrate CLocK SELect.
///
/// This is used by `MiscControl::bclk_sel` and `MiscControl::set_bclk_sel`.
#[derive(Copy, Clone, Eq, PartialEq, Debug, PartialOrd, Ord, Hash, Structural)]
pub enum BaudrateClockSelect {
    /// Baudrate base clock is CLKI (external clock).
    Clki,
    /// Baudrate base clock is PLL3.
    Pll3,
}

impl Default for BaudrateClockSelect {
    fn default() -> (sel: Self)
        ensures
            sel == BaudrateClockSelect::Clki,
    {
        BaudrateClockSelect::Clki
    }
}

impl BaudrateClockSelect {
    /// The raw encoding of the selection.
    pub open spec fn spec_raw(self) -> u8 {
        match self {
            BaudrateClockSelect::Clki => 0,
            BaudrateClockSelect::Pll3 => 1,
        }
    }
}

impl From<bool> for BaudrateClockSelect {
    fn from(val: bool) -> (sel: BaudrateClockSelect) {
        if val {
            BaudrateClockSelect::Clki
        } else {
            BaudrateClockSelect::Pll3
        }
    }
}

impl vstd::std_specs::convert::FromSpecImpl<bool> for BaudrateClockSelect {
    open spec fn obeys_from_spec() -> bool {
        true
    }

    open spec fn from_spec(val: bool) -> BaudrateClockSelect {
        if val {
            BaudrateClockSelect::Clki
        } else {
            BaudrateClockSelect::Pll3
        }
    }
}

impl From<BaudrateClockSelect> for u8 {
    fn from(val: BaudrateClockSelect) -> (raw: u8) {
        match val {
            BaudrateClockSelect::Clki => 0,
            BaudrateClockSelect::Pll3 => 1,
        }
    }
}

impl vstd::std_specs::convert::FromSpecImpl<BaudrateClockSelect> for u8 {
    open spec fn obeys_from_spec() -> bool {
        true
    }

    open spec fn from_spec(val: BaudrateClockSelect) -> u8 {
        val.spec_raw()
    }
}

/// Clock Select.
///
/// This is used by `ClockOrderControl0::clock_select`,
/// `ClockOrderControl0::set_clock_select`, `ClockOrderControl1::clock_select`
/// and `ClockOrderControl1::set_clock_select`.
#[derive(Copy, Clone, Eq, PartialEq, Debug, PartialOrd, Ord, Hash, Structural)]
pub enum ClockSelect {
    /// Default.
    Default,
}

impl ClockSelect {
    /// The raw encoding of the selection.
    pub open spec fn spec_raw(self) -> u8 {
        match self {
            ClockSelect::Default => 0,
        }
    }

    /// The clock select that `val` encodes, or `val` back where it encodes none.
    pub open spec fn spec_from_raw(val: u8) -> Result<ClockSelect, u8> {
        if val == 0 {
            Ok(ClockSelect::Default)
        } else {
            Err(val)
        }
    }

    /// Convert a raw `u8` to a `ClockSelect`.
    ///
    /// Bit values that do not correspond to a `ClockSelect` will be returned
    /// in the `Err` variant of the result.
    pub fn from_raw(val: u8) -> (sel: Result<ClockSelect, u8>)
        ensures
            sel == Self::spec_from_raw(val),
    {
        if val == 0 {
            Ok(ClockSelect::Default)
        } else {
            Err(val)
        }
    }

    /// A clock select survives the trip through its raw encoding, and a raw
    /// value is accepted exactly when it is the encoding of a clock select.
    pub proof fn lemma_raw_round_trip(sel: ClockSelect, val: u8)
        ensures
            Self::spec_from_raw(sel.spec_raw()) == Ok::<ClockSelect, u8>(sel),
            Self::spec_from_raw(val) matches Ok(s) ==> s.spec_raw() == val,
            Self::spec_from_raw(val) is Err ==> Self::spec_from_raw(val) == Err::<ClockSelect, u8>(
                val,
            ),
    {
    }
}

impl From<ClockSelect> for u8 {
    fn from(val: ClockSelect) -> (raw: u8) {
        match val {
            ClockSelect::Default => 0,
        }
    }
}

impl vstd::std_specs::convert::FromSpecImpl<ClockSelect> for u8 {
    open spec fn obeys_from_spec() -> bool {
        true
    }

    open spec fn from_spec(val: ClockSelect) -> u8 {
        val.spec_raw()
    }
}

impl Default for ClockSelect {
    fn default() -> (sel: Self)
        ensures
            sel == ClockSelect::Default,
    {
        ClockSelect::Default
    }
}

impl TryFrom<u8> for ClockSelect {
    type Error = u8;

    fn try_from(val: u8) -> (sel: Result<Self, u8>) {
        Self::from_raw(val)
    }
}

impl vstd::std_specs::convert::TryFromSpecImpl<u8> for ClockSelect {
    open spec fn obeys_try_from_spec() -> bool {
        true
    }

    open spec fn try_from_spec(val: u8) -> Result<Self, Self::Error> {
        Self::spec_from_raw(val)
    }
}

/// Process Monitor SELect.
///
/// This is used by `ProcessMonitorCtrl::pm_sel` and `ProcessMonitorCtrl::start`.
#[derive(Copy, Clone, Eq, PartialEq, Debug, PartialOrd, Ord, Hash, Structural)]
pub enum ProcessMonitorSelect {
    /// Process Monitor on LVT delay chain.
    LVTDelayChain,
    /// Process Monitor on SVT delay chain.
    SVTDelayChain,
    /// Process Monitor on HVT delay chain.
    HVTDelayChain,
    /// Process Monitor on Critical path chain.
    CriticalPathChain,
}

impl ProcessMonitorSelect {
    /// The raw encoding of the selection.
    pub open spec fn spec_raw(self) -> u8 {
        match self {
            ProcessMonitorSelect::LVTDelayChain => 0,
            ProcessMonitorSelect::SVTDelayChain => 1,
            ProcessMonitorSelect::HVTDelayChain => 2,
            ProcessMonitorSelect::CriticalPathChain => 3,
        }
    }

    /// The selection that `val` encodes, or `val` back where it encodes none.
    pub open spec fn spec_from_raw(val: u8) -> Result<ProcessMonitorSelect, u8> {
        if val == 0 {
            Ok(ProcessMonitorSelect::LVTDelayChain)
        } else if val == 1 {
            Ok(ProcessMonitorSelect::SVTDelayChain)
        } else if val == 2 {
            Ok(ProcessMonitorSelect::HVTDelayChain)
        } else if val == 3 {
            Ok(ProcessMonitorSelect::CriticalPathChain)
        } else {
            Err(val)
        }
    }

    /// A process monitor select survives the trip through its raw encoding,
    /// and a raw value is accepted exactly when it is below four.
    pub proof fn lemma_raw_round_trip(sel: ProcessMonitorSelect, val: u8)
        ensures
            Self::spec_from_raw(sel.spec_raw()) == Ok::<ProcessMonitorSelect, u8>(sel),
            Self::spec_from_raw(val) matches Ok(s) ==> s.spec_raw() == val,
            Self::spec_from_raw(val) is Ok <==> val < 4,
            Self::spec_from_raw(val) is Err ==> Self::spec_from_raw(val) == Err::<
                ProcessMonitorSelect,
                u8,
            >(val),
    {
    }
}

impl Default for ProcessMonitorSelect {
    fn default() -> (sel: Self)
        ensures
            sel == ProcessMonitorSelect::LVTDelayChain,
    {
        ProcessMonitorSelect::LVTDelayChain
    }
}

impl From<ProcessMonitorSelect> for u8 {
    /// Get the register value of a process monitor select.
    fn from(val: ProcessMonitorSelect) -> (raw: u8) {
        match val {
            ProcessMonitorSelect::LVTDelayChain => 0,
            ProcessMonitorSelect::SVTDelayChain => 1,
            ProcessMonitorSelect::HVTDelayChain => 2,
            ProcessMonitorSelect::CriticalPathChain => 3,
        }
    }
}

impl vstd::std_specs::convert::FromSpecImpl<ProcessMonitorSelect> for u8 {
    open spec fn obeys_from_spec() -> bool {
        true
    }

    open spec fn from_spec(val: ProcessMonitorSelect) -> u8 {
        val.spec_raw()
    }
}

impl TryFrom<u8> for ProcessMonitorSelect {
    type Error = u8;

    /// Get the process monitor select given the register value.
    fn try_from(val: u8) -> (sel: Result<ProcessMonitorSelect, u8>) {
        if val == 0 {
            Ok(ProcessMonitorSelect::LVTDelayChain)
        } else if val == 1 {
            Ok(ProcessMonitorSelect::SVTDelayChain)
        } else if val == 2 {
            Ok(ProcessMonitorSelect::HVTDelayChain)
        } else if val == 3 {
            Ok(ProcessMonitorSelect::CriticalPathChain)
        } else {
            Err(val)
        }
    }
}

impl vstd::std_specs::convert::TryFromSpecImpl<u8> for ProcessMonitorSelect {
    open spec fn obeys_try_from_spec() -> bool {
        true
    }

    open spec fn try_from_spec(val: u8) -> Result<Self, Self::Error> {
        Self::spec_from_raw(val)
    }
}


} // verus!
