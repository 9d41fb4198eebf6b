//! BM1397 Core Registers.
//!
//! A core register is eight bits wide and private to one core of a chip. It
//! is reached through the chip registers `CoreRegisterControl` and
//! `CoreRegisterValue`, by its identifier.
use crate::bits::{
    field_u8, flag_u8, get_field_u8, lemma_flag_u8, set_field_u8, with_field_u8, with_flag_u8,
    without_flag_u8,
};
use crate::specifier::ProcessMonitorSelect;
use vstd::arithmetic::power2::lemma2_to64;
use vstd::prelude::*;

verus! {

/// What every core register has: an identifier and a raw value.
pub trait CoreRegister: Sized {
    /// The identifier of the register.
    spec fn spec_id(&self) -> u8;

    /// The raw value of the register.
    spec fn spec_val(&self) -> u8;

    /// The register of this type that holds `raw`.
    spec fn spec_from_raw(raw: u8) -> Self;

    /// The identifier of the register.
    fn id(&self) -> (id: u8)
        ensures
            id == self.spec_id(),
    ;

    /// The raw value of the register.
    fn val(&self) -> (val: u8)
        ensures
            val == self.spec_val(),
    ;

    /// Every raw value is the value of the register decoded from it, and a
    /// register is what its raw value decodes to.
    proof fn lemma_raw_round_trip(raw: u8, reg: Self)
        ensures
            Self::spec_from_raw(raw).spec_val() == raw,
            Self::spec_from_raw(reg.spec_val()) == reg,
    ;
}

/// # Clock Delay Ctrl core register
#[derive(Debug, Copy, Clone, Eq, PartialEq, Hash, Structural)]
pub struct ClockDelayCtrl(u8);

impl View for ClockDelayCtrl {
    type V = u8;

    closed spec fn view(&self) -> u8 {
        self.0
    }
}

impl From<u8> for ClockDelayCtrl {
    fn from(val: u8) -> (reg: Self)
        ensures
            reg@ == val,
    {
        Self(val)
    }
}

impl vstd::std_specs::convert::FromSpecImpl<u8> for ClockDelayCtrl {
    open spec fn obeys_from_spec() -> bool {
        true
    }

    open spec fn from_spec(val: u8) -> Self {
        Self::spec_from_raw(val)
    }
}

impl From<ClockDelayCtrl> for u8 {
    fn from(val: ClockDelayCtrl) -> (raw: u8) {
        val.0
    }
}

impl vstd::std_specs::convert::FromSpecImpl<ClockDelayCtrl> for u8 {
    open spec fn obeys_from_spec() -> bool {
        true
    }

    open spec fn from_spec(val: ClockDelayCtrl) -> u8 {
        val@
    }
}

impl Default for ClockDelayCtrl {
    fn default() -> (reg: Self)
        ensures
            reg@ == Self::RESET,
    {
        Self(Self::RESET)
    }
}

impl CoreRegister for ClockDelayCtrl {
    open spec fn spec_id(&self) -> u8 {
        Self::ID
    }

    open spec fn spec_val(&self) -> u8 {
        self@
    }

    closed spec fn spec_from_raw(raw: u8) -> Self {
        Self(raw)
    }

    fn id(&self) -> (id: u8) {
        Self::ID
    }

    fn val(&self) -> (val: u8) {
        self.0
    }

    proof fn lemma_raw_round_trip(raw: u8, reg: Self) {
    }
}

impl ClockDelayCtrl {
    /// ## Clock Delay Ctrl core register identifier.
    pub const ID: u8 = 0x00;

    /// ## Clock Delay Ctrl core register reset value.
    pub const RESET: u8 = 0x00;

    /// ## Bit offset for the `CCDLY_SEL` field.
    pub const CCDLY_SEL_OFFSET: u8 = 6;

    /// ## Bit offset for the `PWTH_SEL` field.
    pub const PWTH_SEL_OFFSET: u8 = 4;

    /// ## Bit offset for the `HASH_CLKEN` field.
    pub const HASH_CLKEN_OFFSET: u8 = 3;

    /// ## Bit offset for the `MMEN` field.
    pub const MMEN_OFFSET: u8 = 2;

    /// ## Bit offset for the `SWPF_MODE` field.
    pub const SWPF_MODE_OFFSET: u8 = 0;

    /// ## Bit mask for the `CCDLY_SEL` field.
    pub const CCDLY_SEL_MASK: u8 = 0xc0;

    /// ## Bit mask for the `PWTH_SEL` field.
    pub const PWTH_SEL_MASK: u8 = 0x30;

    /// ## Bit mask for the `HASH_CLKEN` field.
    pub const HASH_CLKEN_MASK: u8 = 0x08;

    /// ## Bit mask for the `MMEN` field.
    pub const MMEN_MASK: u8 = 0x04;

    /// ## Bit mask for the `SWPF_MODE` field.
    pub const SWPF_MODE_MASK: u8 = 0x01;

    /// ## Get the CCdly value.
    ///
    /// This returns an `u8` with the CCdly value.
    pub fn ccdly(&self) -> (value: u8)
        ensures
            value == field_u8(self@, Self::CCDLY_SEL_MASK, Self::CCDLY_SEL_OFFSET),
            value <= 0x3,
    {
        proof {
            lemma2_to64();
        }
        get_field_u8(self.0, Self::CCDLY_SEL_MASK, Self::CCDLY_SEL_OFFSET)
    }

    /// ## Set the CCdly value.
    ///
    /// A value wider than the field is truncated to it.
    #[must_use]
    pub fn set_ccdly(self, ccdly: u8) -> (reg: Self)
        ensures
            reg@ == with_field_u8(self@, Self::CCDLY_SEL_MASK, Self::CCDLY_SEL_OFFSET, ccdly),
            field_u8(reg@, Self::CCDLY_SEL_MASK, Self::CCDLY_SEL_OFFSET) == ccdly & 0x3,
            reg@ & !Self::CCDLY_SEL_MASK == self@ & !Self::CCDLY_SEL_MASK,
    {
        proof {
            lemma2_to64();
        }
        Self(set_field_u8(self.0, Self::CCDLY_SEL_MASK, Self::CCDLY_SEL_OFFSET, ccdly))
    }

    /// ## Get the PWth value.
    ///
    /// This returns an `u8` with the PWth value.
    pub fn pwth(&self) -> (value: u8)
        ensures
            value == field_u8(self@, Self::PWTH_SEL_MASK, Self::PWTH_SEL_OFFSET),
            value <= 0x3,
    {
        proof {
            lemma2_to64();
        }
        get_field_u8(self.0, Self::PWTH_SEL_MASK, Self::PWTH_SEL_OFFSET)
    }

    /// ## Set the PWth value.
    ///
    /// A value wider than the field is truncated to it.
    #[must_use]
    pub fn set_pwth(self, pwth: u8) -> (reg: Self)
        ensures
            reg@ == with_field_u8(self@, Self::PWTH_SEL_MASK, Self::PWTH_SEL_OFFSET, pwth),
            field_u8(reg@, Self::PWTH_SEL_MASK, Self::PWTH_SEL_OFFSET) == pwth & 0x3,
            reg@ & !Self::PWTH_SEL_MASK == self@ & !Self::PWTH_SEL_MASK,
    {
        proof {
            lemma2_to64();
        }
        Self(set_field_u8(self.0, Self::PWTH_SEL_MASK, Self::PWTH_SEL_OFFSET, pwth))
    }

    /// ## Get the Hash Clock state.
    ///
    /// This returns an `bool` with the Hash Clock state.
    pub fn hash_clock_enabled(&self) -> (on: bool)
        ensures
            on == flag_u8(self@, Self::HASH_CLKEN_MASK),
    {
        self.0 & Self::HASH_CLKEN_MASK == Self::HASH_CLKEN_MASK
    }

    /// ## Enable the Hash Clock.
    #[must_use]
    pub fn enable_hash_clock(self) -> (reg: Self)
        ensures
            reg@ == with_flag_u8(self@, Self::HASH_CLKEN_MASK),
            flag_u8(reg@, Self::HASH_CLKEN_MASK),
            reg@ & !Self::HASH_CLKEN_MASK == self@ & !Self::HASH_CLKEN_MASK,
    {
        proof {
            lemma_flag_u8(self.0, Self::HASH_CLKEN_MASK);
        }
        Self(self.0 | Self::HASH_CLKEN_MASK)
    }

    /// ## Disable the Hash Clock.
    #[must_use]
    pub fn disable_hash_clock(self) -> (reg: Self)
        ensures
            reg@ == without_flag_u8(self@, Self::HASH_CLKEN_MASK),
            !flag_u8(reg@, Self::HASH_CLKEN_MASK),
            reg@ & !Self::HASH_CLKEN_MASK == self@ & !Self::HASH_CLKEN_MASK,
    {
        proof {
            lemma_flag_u8(self.0, Self::HASH_CLKEN_MASK);
        }
        Self(self.0 & !Self::HASH_CLKEN_MASK)
    }

    /// ## Get the Multi Midstate state.
    ///
    /// This returns an `bool` with the Multi Midstate state.
    pub fn multi_midstate_enabled(&self) -> (on: bool)
        ensures
            on == flag_u8(self@, Self::MMEN_MASK),
    {
        self.0 & Self::MMEN_MASK == Self::MMEN_MASK
    }

    /// ## Enable the Multi Midstate mode (AsicBoost).
    #[must_use]
    pub fn enable_multi_midstate(self) -> (reg: Self)
        ensures
            reg@ == with_flag_u8(self@, Self::MMEN_MASK),
            flag_u8(reg@, Self::MMEN_MASK),
            reg@ & !Self::MMEN_MASK == self@ & !Self::MMEN_MASK,
    {
        proof {
            lemma_flag_u8(self.0, Self::MMEN_MASK);
        }
        Self(self.0 | Self::MMEN_MASK)
    }

    /// ## Disable the Multi Midstate mode (AsicBoost).
    #[must_use]
    pub fn disable_multi_midstate(self) -> (reg: Self)
        ensures
            reg@ == without_flag_u8(self@, Self::MMEN_MASK),
            !flag_u8(reg@, Self::MMEN_MASK),
            reg@ & !Self::MMEN_MASK == self@ & !Self::MMEN_MASK,
    {
        proof {
            lemma_flag_u8(self.0, Self::MMEN_MASK);
        }
        Self(self.0 & !Self::MMEN_MASK)
    }

    /// ## Get the Sweep Frequency Mode state.
    ///
    /// This returns an `bool` with the Sweep Frequency Mode state.
    pub fn sweep_frequency_mode_enabled(&self) -> (on: bool)
        ensures
            on == flag_u8(self@, Self::SWPF_MODE_MASK),
    {
        self.0 & Self::SWPF_MODE_MASK == Self::SWPF_MODE_MASK
    }

    /// ## Enable the Sweep Frequency Mode.
    #[must_use]
    pub fn enable_sweep_frequency_mode(self) -> (reg: Self)
        ensures
            reg@ == with_flag_u8(self@, Self::SWPF_MODE_MASK),
            flag_u8(reg@, Self::SWPF_MODE_MASK),
            reg@ & !Self::SWPF_MODE_MASK == self@ & !Self::SWPF_MODE_MASK,
    {
        proof {
            lemma_flag_u8(self.0, Self::SWPF_MODE_MASK);
        }
        Self(self.0 | Self::SWPF_MODE_MASK)
    }

    /// ## Disable the Sweep Frequency Mode.
    #[must_use]
    pub fn disable_sweep_frequency_mode(self) -> (reg: Self)
        ensures
            reg@ == without_flag_u8(self@, Self::SWPF_MODE_MASK),
            !flag_u8(reg@, Self::SWPF_MODE_MASK),
            reg@ & !Self::SWPF_MODE_MASK == self@ & !Self::SWPF_MODE_MASK,
    {
        proof {
            lemma_flag_u8(self.0, Self::SWPF_MODE_MASK);
        }
        Self(self.0 & !Self::SWPF_MODE_MASK)
    }
}

/// # Process Monitor Ctrl core register
#[derive(Debug, Copy, Clone, Eq, PartialEq, Hash, Structural)]
pub struct ProcessMonitorCtrl(u8);

impl View for ProcessMonitorCtrl {
    type V = u8;

    closed spec fn view(&self) -> u8 {
        self.0
    }
}

impl From<u8> for ProcessMonitorCtrl {
    fn from(val: u8) -> (reg: Self)
        ensures
            reg@ == val,
    {
        Self(val)
    }
}

impl vstd::std_specs::convert::FromSpecImpl<u8> for ProcessMonitorCtrl {
    open spec fn obeys_from_spec() -> bool {
        true
    }

    open spec fn from_spec(val: u8) -> Self {
        Self::spec_from_raw(val)
    }
}

impl From<ProcessMonitorCtrl> for u8 {
    fn from(val: ProcessMonitorCtrl) -> (raw: u8) {
        val.0
    }
}

impl vstd::std_specs::convert::FromSpecImpl<ProcessMonitorCtrl> for u8 {
    open spec fn obeys_from_spec() -> bool {
        true
    }

    open spec fn from_spec(val: ProcessMonitorCtrl) -> u8 {
        val@
    }
}

impl Default for ProcessMonitorCtrl {
    fn default() -> (reg: Self)
        ensures
            reg@ == Self::RESET,
    {
        Self(Self::RESET)
    }
}

impl CoreRegister for ProcessMonitorCtrl {
    open spec fn spec_id(&self) -> u8 {
        Self::ID
    }

    open spec fn spec_val(&self) -> u8 {
        self@
    }

    closed spec fn spec_from_raw(raw: u8) -> Self {
        Self(raw)
    }

    fn id(&self) -> (id: u8) {
        Self::ID
    }

    fn val(&self) -> (val: u8) {
        self.0
    }

    proof fn lemma_raw_round_trip(raw: u8, reg: Self) {
    }
}

impl ProcessMonitorCtrl {
    /// ## Process Monitor Ctrl core register identifier.
    pub const ID: u8 = 0x01;

    /// ## Process Monitor Ctrl core register reset value.
    pub const RESET: u8 = 0x00;

    /// ## Bit offset for the `PM_START` field.
    pub const PM_START_OFFSET: u8 = 2;

    /// ## Bit offset for the `PM_SEL` field.
    pub const PM_SEL_OFFSET: u8 = 0;

    /// ## Bit mask for the `PM_START` field.
    pub const PM_START_MASK: u8 = 0x04;

    /// ## Bit mask for the `PM_SEL` field.
    pub const PM_SEL_MASK: u8 = 0x03;

    /// ## Get the Started state.
    ///
    /// This returns an `bool` with the Started state.
    pub fn started(&self) -> (on: bool)
        ensures
            on == flag_u8(self@, Self::PM_START_MASK),
    {
        self.0 & Self::PM_START_MASK == Self::PM_START_MASK
    }

    /// ## Get the Process Monitor selected.
    ///
    /// This returns the `ProcessMonitorSelect` that the `PM_SEL` field encodes.
    pub fn pm_sel(&self) -> (sel: ProcessMonitorSelect)
        ensures
            sel.spec_raw() == field_u8(self@, Self::PM_SEL_MASK, Self::PM_SEL_OFFSET),
    {
        proof {
            lemma2_to64();
        }
        let raw = get_field_u8(self.0, Self::PM_SEL_MASK, Self::PM_SEL_OFFSET);
        if raw == 0 {
            ProcessMonitorSelect::LVTDelayChain
        } else if raw == 1 {
            ProcessMonitorSelect::SVTDelayChain
        } else if raw == 2 {
            ProcessMonitorSelect::HVTDelayChain
        } else {
            ProcessMonitorSelect::CriticalPathChain
        }
    }

    /// ## Start Process Monitor on pm_sel.
    #[must_use]
    pub fn start(self, pm_sel: ProcessMonitorSelect) -> (reg: Self)
        ensures
            reg@ == with_field_u8(
                with_flag_u8(self@, Self::PM_START_MASK),
                Self::PM_SEL_MASK,
                Self::PM_SEL_OFFSET,
                pm_sel.spec_raw(),
            ),
            flag_u8(reg@, Self::PM_START_MASK),
            field_u8(reg@, Self::PM_SEL_MASK, Self::PM_SEL_OFFSET) == pm_sel.spec_raw(),
            reg@ & !(Self::PM_START_MASK | Self::PM_SEL_MASK) == self@ & !(Self::PM_START_MASK
                | Self::PM_SEL_MASK),
    {
        let raw = self.0;
        let sel = u8::from(pm_sel);
        let started = raw | Self::PM_START_MASK;
        let updated = set_field_u8(started, Self::PM_SEL_MASK, Self::PM_SEL_OFFSET, sel);
        assert(updated & 0x04 == 0x04 && (updated & 0x03) >> 0 == sel && updated & !(0x04u8 | 0x03)
            == raw & !(0x04u8 | 0x03)) by (bit_vector)
            requires
                updated == ((raw | 0x04) & !0x03u8) | ((sel << 0) & 0x03),
                sel < 4,
        ;
        Self(updated)
    }
}

/// # Process Monitor Data core register
#[derive(Debug, Copy, Clone, Eq, PartialEq, Hash, Structural)]
pub struct ProcessMonitorData(u8);

impl View for ProcessMonitorData {
    type V = u8;

    closed spec fn view(&self) -> u8 {
        self.0
    }
}

impl From<u8> for ProcessMonitorData {
    fn from(val: u8) -> (reg: Self)
        ensures
            reg@ == val,
    {
        Self(val)
    }
}

impl vstd::std_specs::convert::FromSpecImpl<u8> for ProcessMonitorData {
    open spec fn obeys_from_spec() -> bool {
        true
    }

    open spec fn from_spec(val: u8) -> Self {
        Self::spec_from_raw(val)
    }
}

impl From<ProcessMonitorData> for u8 {
    fn from(val: ProcessMonitorData) -> (raw: u8) {
        val.0
    }
}

impl vstd::std_specs::convert::FromSpecImpl<ProcessMonitorData> for u8 {
    open spec fn obeys_from_spec() -> bool {
        true
    }

    open spec fn from_spec(val: ProcessMonitorData) -> u8 {
        val@
    }
}

impl Default for ProcessMonitorData {
    fn default() -> (reg: Self)
        ensures
            reg@ == Self::RESET,
    {
        Self(Self::RESET)
    }
}

impl CoreRegister for ProcessMonitorData {
    open spec fn spec_id(&self) -> u8 {
        Self::ID
    }

    open spec fn spec_val(&self) -> u8 {
        self@
    }

    closed spec fn spec_from_raw(raw: u8) -> Self {
        Self(raw)
    }

    fn id(&self) -> (id: u8) {
        Self::ID
    }

    fn val(&self) -> (val: u8) {
        self.0
    }

    proof fn lemma_raw_round_trip(raw: u8, reg: Self) {
    }
}

impl ProcessMonitorData {
    /// ## Process Monitor Data core register identifier.
    pub const ID: u8 = 0x02;

    /// ## Process Monitor Data core register reset value.
    pub const RESET: u8 = 0x00;

    /// ## Bit offset for the `DATA` field.
    pub const DATA_OFFSET: u8 = 0;

    /// ## Bit mask for the `DATA` field.
    pub const DATA_MASK: u8 = 0xff;

    /// ## Get the Data.
    ///
    /// This returns an `u8` with the Data.
    pub fn data(&self) -> (value: u8)
        ensures
            value == field_u8(self@, Self::DATA_MASK, Self::DATA_OFFSET),
    {
        proof {
            lemma2_to64();
        }
        get_field_u8(self.0, Self::DATA_MASK, Self::DATA_OFFSET)
    }
}

/// # Core Error core register
#[derive(Debug, Copy, Clone, Eq, PartialEq, Hash, Structural)]
pub struct CoreError(u8);

impl View for CoreError {
    type V = u8;

    closed spec fn view(&self) -> u8 {
        self.0
    }
}

impl From<u8> for CoreError {
    fn from(val: u8) -> (reg: Self)
        ensures
            reg@ == val,
    {
        Self(val)
    }
}

impl vstd::std_specs::convert::FromSpecImpl<u8> for CoreError {
    open spec fn obeys_from_spec() -> bool {
        true
    }

    open spec fn from_spec(val: u8) -> Self {
        Self::spec_from_raw(val)
    }
}

impl From<CoreError> for u8 {
    fn from(val: CoreError) -> (raw: u8) {
        val.0
    }
}

impl vstd::std_specs::convert::FromSpecImpl<CoreError> for u8 {
    open spec fn obeys_from_spec() -> bool {
        true
    }

    open spec fn from_spec(val: CoreError) -> u8 {
        val@
    }
}

impl Default for CoreError {
    fn default() -> (reg: Self)
        ensures
            reg@ == Self::RESET,
    {
        Self(Self::RESET)
    }
}

impl CoreRegister for CoreError {
    open spec fn spec_id(&self) -> u8 {
        Self::ID
    }

    open spec fn spec_val(&self) -> u8 {
        self@
    }

    closed spec fn spec_from_raw(raw: u8) -> Self {
        Self(raw)
    }

    fn id(&self) -> (id: u8) {
        Self::ID
    }

    fn val(&self) -> (val: u8) {
        self.0
    }

    proof fn lemma_raw_round_trip(raw: u8, reg: Self) {
    }
}

impl CoreError {
    /// ## Core Error core register identifier.
    pub const ID: u8 = 0x03;

    /// ## Core Error core register reset value.
    pub const RESET: u8 = 0x00;

    /// ## Bit offset for the `INI_NONCE_ERR` field.
    pub const INI_NONCE_ERR_OFFSET: u8 = 4;

    /// ## Bit offset for the `CMD_ERR_CNT` field.
    pub const CMD_ERR_CNT_OFFSET: u8 = 0;

    /// ## Bit mask for the `INI_NONCE_ERR` field.
    pub const INI_NONCE_ERR_MASK: u8 = 0x10;

    /// ## Bit mask for the `CMD_ERR_CNT` field.
    pub const CMD_ERR_CNT_MASK: u8 = 0x0f;

    /// ## Get the Ini Nonce Error state.
    ///
    /// This returns an `bool` with the Ini Nonce Error state.
    pub fn ini_nonce_err(&self) -> (on: bool)
        ensures
            on == flag_u8(self@, Self::INI_NONCE_ERR_MASK),
    {
        self.0 & Self::INI_NONCE_ERR_MASK == Self::INI_NONCE_ERR_MASK
    }

    /// ## Get the Command Error Count.
    ///
    /// This returns an `u8` with the Command Error Count.
    pub fn cmd_err_cnt(&self) -> (value: u8)
        ensures
            value == field_u8(self@, Self::CMD_ERR_CNT_MASK, Self::CMD_ERR_CNT_OFFSET),
            value <= 0xf,
    {
        proof {
            lemma2_to64();
        }
        get_field_u8(self.0, Self::CMD_ERR_CNT_MASK, Self::CMD_ERR_CNT_OFFSET)
    }
}

/// # Core Enable core register
#[derive(Debug, Copy, Clone, Eq, PartialEq, Hash, Structural)]
pub struct CoreEnable(u8);

impl View for CoreEnable {
    type V = u8;

    closed spec fn view(&self) -> u8 {
        self.0
    }
}

impl From<u8> for CoreEnable {
    fn from(val: u8) -> (reg: Self)
        ensures
            reg@ == val,
    {
        Self(val)
    }
}

impl vstd::std_specs::convert::FromSpecImpl<u8> for CoreEnable {
    open spec fn obeys_from_spec() -> bool {
        true
    }

    open spec fn from_spec(val: u8) -> Self {
        Self::spec_from_raw(val)
    }
}

impl From<CoreEnable> for u8 {
    fn from(val: CoreEnable) -> (raw: u8) {
        val.0
    }
}

impl vstd::std_specs::convert::FromSpecImpl<CoreEnable> for u8 {
    open spec fn obeys_from_spec() -> bool {
        true
    }

    open spec fn from_spec(val: CoreEnable) -> u8 {
        val@
    }
}

impl Default for CoreEnable {
    fn default() -> (reg: Self)
        ensures
            reg@ == Self::RESET,
    {
        Self(Self::RESET)
    }
}

impl CoreRegister for CoreEnable {
    open spec fn spec_id(&self) -> u8 {
        Self::ID
    }

    open spec fn spec_val(&self) -> u8 {
        self@
    }

    closed spec fn spec_from_raw(raw: u8) -> Self {
        Self(raw)
    }

    fn id(&self) -> (id: u8) {
        Self::ID
    }

    fn val(&self) -> (val: u8) {
        self.0
    }

    proof fn lemma_raw_round_trip(raw: u8, reg: Self) {
    }
}

impl CoreEnable {
    /// ## Core Enable core register identifier.
    pub const ID: u8 = 0x04;

    /// ## Core Enable core register reset value.
    pub const RESET: u8 = 0x00;

    /// ## Bit offset for the `CORE_EN_I` field.
    pub const CORE_EN_I_OFFSET: u8 = 0;

    /// ## Bit mask for the `CORE_EN_I` field.
    pub const CORE_EN_I_MASK: u8 = 0xff;
}

/// # Hash Clock Ctrl core register
#[derive(Debug, Copy, Clone, Eq, PartialEq, Hash, Structural)]
pub struct HashClockCtrl(u8);

impl View for HashClockCtrl {
    type V = u8;

    closed spec fn view(&self) -> u8 {
        self.0
    }
}

impl From<u8> for HashClockCtrl {
    fn from(val: u8) -> (reg: Self)
        ensures
            reg@ == val,
    {
        Self(val)
    }
}

impl vstd::std_specs::convert::FromSpecImpl<u8> for HashClockCtrl {
    open spec fn obeys_from_spec() -> bool {
        true
    }

    open spec fn from_spec(val: u8) -> Self {
        Self::spec_from_raw(val)
    }
}

impl From<HashClockCtrl> for u8 {
    fn from(val: HashClockCtrl) -> (raw: u8) {
        val.0
    }
}

impl vstd::std_specs::convert::FromSpecImpl<HashClockCtrl> for u8 {
    open spec fn obeys_from_spec() -> bool {
        true
    }

    open spec fn from_spec(val: HashClockCtrl) -> u8 {
        val@
    }
}

impl Default for HashClockCtrl {
    fn default() -> (reg: Self)
        ensures
            reg@ == Self::RESET,
    {
        Self(Self::RESET)
    }
}

impl CoreRegister for HashClockCtrl {
    open spec fn spec_id(&self) -> u8 {
        Self::ID
    }

    open spec fn spec_val(&self) -> u8 {
        self@
    }

    closed spec fn spec_from_raw(raw: u8) -> Self {
        Self(raw)
    }

    fn id(&self) -> (id: u8) {
        Self::ID
    }

    fn val(&self) -> (val: u8) {
        self.0
    }

    proof fn lemma_raw_round_trip(raw: u8, reg: Self) {
    }
}

impl HashClockCtrl {
    /// ## Hash Clock Ctrl core register identifier.
    pub const ID: u8 = 0x05;

    /// ## Hash Clock Ctrl core register reset value.
    pub const RESET: u8 = 0x00;

    /// ## Bit offset for the `CLOCK_CTRL` field.
    pub const CLOCK_CTRL_OFFSET: u8 = 0;

    /// ## Bit mask for the `CLOCK_CTRL` field.
    pub const CLOCK_CTRL_MASK: u8 = 0xff;
}

/// # Hash Clock Counter core register
#[derive(Debug, Copy, Clone, Eq, PartialEq, Hash, Structural)]
pub struct HashClockCounter(u8);

impl View for HashClockCounter {
    type V = u8;

    closed spec fn view(&self) -> u8 {
        self.0
    }
}

impl From<u8> for HashClockCounter {
    fn from(val: u8) -> (reg: Self)
        ensures
            reg@ == val,
    {
        Self(val)
    }
}

impl vstd::std_specs::convert::FromSpecImpl<u8> for HashClockCounter {
    open spec fn obeys_from_spec() -> bool {
        true
    }

    open spec fn from_spec(val: u8) -> Self {
        Self::spec_from_raw(val)
    }
}

impl From<HashClockCounter> for u8 {
    fn from(val: HashClockCounter) -> (raw: u8) {
        val.0
    }
}

impl vstd::std_specs::convert::FromSpecImpl<HashClockCounter> for u8 {
    open spec fn obeys_from_spec() -> bool {
        true
    }

    open spec fn from_spec(val: HashClockCounter) -> u8 {
        val@
    }
}

impl Default for HashClockCounter {
    fn default() -> (reg: Self)
        ensures
            reg@ == Self::RESET,
    {
        Self(Self::RESET)
    }
}

impl CoreRegister for HashClockCounter {
    open spec fn spec_id(&self) -> u8 {
        Self::ID
    }

    open spec fn spec_val(&self) -> u8 {
        self@
    }

    closed spec fn spec_from_raw(raw: u8) -> Self {
        Self(raw)
    }

    fn id(&self) -> (id: u8) {
        Self::ID
    }

    fn val(&self) -> (val: u8) {
        self.0
    }

    proof fn lemma_raw_round_trip(raw: u8, reg: Self) {
    }
}

impl HashClockCounter {
    /// ## Hash Clock Counter core register identifier.
    pub const ID: u8 = 0x06;

    /// ## Hash Clock Counter core register reset value.
    pub const RESET: u8 = 0x00;

    /// ## Bit offset for the `CLOCK_CNT` field.
    pub const CLOCK_CNT_OFFSET: u8 = 0;

    /// ## Bit mask for the `CLOCK_CNT` field.
    pub const CLOCK_CNT_MASK: u8 = 0xff;
}

/// # Sweep Clock Ctrl core register
#[derive(Debug, Copy, Clone, Eq, PartialEq, Hash, Structural)]
pub struct SweepClockCtrl(u8);

impl View for SweepClockCtrl {
    type V = u8;

    closed spec fn view(&self) -> u8 {
        self.0
    }
}

impl From<u8> for SweepClockCtrl {
    fn from(val: u8) -> (reg: Self)
        ensures
            reg@ == val,
    {
        Self(val)
    }
}

impl vstd::std_specs::convert::FromSpecImpl<u8> for SweepClockCtrl {
    open spec fn obeys_from_spec() -> bool {
        true
    }

    open spec fn from_spec(val: u8) -> Self {
        Self::spec_from_raw(val)
    }
}

impl From<SweepClockCtrl> for u8 {
    fn from(val: SweepClockCtrl) -> (raw: u8) {
        val.0
    }
}

impl vstd::std_specs::convert::FromSpecImpl<SweepClockCtrl> for u8 {
    open spec fn obeys_from_spec() -> bool {
        true
    }

    open spec fn from_spec(val: SweepClockCtrl) -> u8 {
        val@
    }
}

impl Default for SweepClockCtrl {
    fn default() -> (reg: Self)
        ensures
            reg@ == Self::RESET,
    {
        Self(Self::RESET)
    }
}

impl CoreRegister for SweepClockCtrl {
    open spec fn spec_id(&self) -> u8 {
        Self::ID
    }

    open spec fn spec_val(&self) -> u8 {
        self@
    }

    closed spec fn spec_from_raw(raw: u8) -> Self {
        Self(raw)
    }

    fn id(&self) -> (id: u8) {
        Self::ID
    }

    fn val(&self) -> (val: u8) {
        self.0
    }

    proof fn lemma_raw_round_trip(raw: u8, reg: Self) {
    }
}

impl SweepClockCtrl {
    /// ## Sweep Clock Ctrl core register identifier.
    pub const ID: u8 = 0x07;

    /// ## Sweep Clock Ctrl core register reset value.
    pub const RESET: u8 = 0x00;

    /// ## Bit offset for the `SWPF_MODE` field.
    pub const SWPF_MODE_OFFSET: u8 = 7;

    /// ## Bit offset for the `CLK_SEL` field.
    pub const CLK_SEL_OFFSET: u8 = 0;

    /// ## Bit mask for the `SWPF_MODE` field.
    pub const SWPF_MODE_MASK: u8 = 0x80;

    /// ## Bit mask for the `CLK_SEL` field.
    pub const CLK_SEL_MASK: u8 = 0x0f;
}

/// A core register of any type.
#[derive(Debug, PartialEq, Eq, Structural)]
pub enum CoreRegisters {
    ClockDelayCtrl(ClockDelayCtrl),
    ProcessMonitorCtrl(ProcessMonitorCtrl),
    ProcessMonitorData(ProcessMonitorData),
    CoreError(CoreError),
    CoreEnable(CoreEnable),
    HashClockCtrl(HashClockCtrl),
    HashClockCounter(HashClockCounter),
    SweepClockCtrl(SweepClockCtrl),
}

impl CoreRegisters {
    /// The identifier of the register.
    pub open spec fn spec_id(&self) -> u8 {
        match self {
            CoreRegisters::ClockDelayCtrl(reg) => reg.spec_id(),
            CoreRegisters::ProcessMonitorCtrl(reg) => reg.spec_id(),
            CoreRegisters::ProcessMonitorData(reg) => reg.spec_id(),
            CoreRegisters::CoreError(reg) => reg.spec_id(),
            CoreRegisters::CoreEnable(reg) => reg.spec_id(),
            CoreRegisters::HashClockCtrl(reg) => reg.spec_id(),
            CoreRegisters::HashClockCounter(reg) => reg.spec_id(),
            CoreRegisters::SweepClockCtrl(reg) => reg.spec_id(),
        }
    }

    /// The raw value of the register.
    pub open spec fn spec_val(&self) -> u8 {
        match self {
            CoreRegisters::ClockDelayCtrl(reg) => reg.spec_val(),
            CoreRegisters::ProcessMonitorCtrl(reg) => reg.spec_val(),
            CoreRegisters::ProcessMonitorData(reg) => reg.spec_val(),
            CoreRegisters::CoreError(reg) => reg.spec_val(),
            CoreRegisters::CoreEnable(reg) => reg.spec_val(),
            CoreRegisters::HashClockCtrl(reg) => reg.spec_val(),
            CoreRegisters::HashClockCounter(reg) => reg.spec_val(),
            CoreRegisters::SweepClockCtrl(reg) => reg.spec_val(),
        }
    }

    /// The core register that `id` names, holding `raw`; none where `id`
    /// names no core register.
    pub open spec fn spec_resolve(id: u8, raw: u8) -> Option<CoreRegisters> {
        if id == ClockDelayCtrl::ID {
            Some(CoreRegisters::ClockDelayCtrl(ClockDelayCtrl::spec_from_raw(raw)))
        } else if id == ProcessMonitorCtrl::ID {
            Some(CoreRegisters::ProcessMonitorCtrl(ProcessMonitorCtrl::spec_from_raw(raw)))
        } else if id == ProcessMonitorData::ID {
            Some(CoreRegisters::ProcessMonitorData(ProcessMonitorData::spec_from_raw(raw)))
        } else if id == CoreError::ID {
            Some(CoreRegisters::CoreError(CoreError::spec_from_raw(raw)))
        } else if id == CoreEnable::ID {
            Some(CoreRegisters::CoreEnable(CoreEnable::spec_from_raw(raw)))
        } else if id == HashClockCtrl::ID {
            Some(CoreRegisters::HashClockCtrl(HashClockCtrl::spec_from_raw(raw)))
        } else if id == HashClockCounter::ID {
            Some(CoreRegisters::HashClockCounter(HashClockCounter::spec_from_raw(raw)))
        } else if id == SweepClockCtrl::ID {
            Some(CoreRegisters::SweepClockCtrl(SweepClockCtrl::spec_from_raw(raw)))
        } else {
            None
        }
    }

    /// Resolving an identifier and a raw value gives a register with that
    /// identifier and that value, every register is what its own identifier
    /// and value resolve to, and the identifiers that resolve are those below
    /// eight.
    pub proof fn lemma_resolve_round_trip(id: u8, raw: u8, reg: CoreRegisters)
        ensures
            Self::spec_resolve(id, raw) matches Some(r) ==> r.spec_id() == id && r.spec_val()
                == raw,
            Self::spec_resolve(reg.spec_id(), reg.spec_val()) == Some(reg),
            Self::spec_resolve(id, raw) is Some <==> id < 8,
    {
    }
}

} // verus!
